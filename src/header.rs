//! Classification of a loaded module by its executable-image header.
//!
//! The image starts with a legacy header whose first two bytes are `MZ` and
//! whose four bytes at offset 0x3C hold the offset of the extended header. The
//! extended header starts with `PE\0\0` and is followed by the two-byte machine
//! type. Only the x86-64 machine type marks a 64-bit module.

use vstd::prelude::*;
use crate::bytes::{le_u16, le_u32, read_le_u16, read_le_u32};

verus! {

/// Bitness of the code in a module, which decides the signature and the
/// operand encoding to use.
#[derive(Clone, Copy, Debug, PartialEq, Eq, Structural)]
pub enum Architecture {
    Bits32,
    Bits64,
}

/// The header is too short or one of its magic values is wrong.
#[derive(Clone, Copy, Debug, PartialEq, Eq, Structural)]
pub struct InvalidHeader;

/// Offset of the field that holds the extended header's offset.
pub const EXTENDED_HEADER_OFFSET_FIELD: usize = 0x3C;

/// Length of the legacy header, which holds that field.
pub const LEGACY_HEADER_LEN: usize = 0x40;

/// Machine type of an x86-64 image.
pub const MACHINE_AMD64: u16 = 0x8664;

/// Where the extended header starts, as the legacy header states it.
pub open spec fn extended_header_at(h: Seq<u8>) -> int {
    le_u32(h, EXTENDED_HEADER_OFFSET_FIELD as int)
}

/// Both magic values are in place and every field read lies inside `h`.
pub open spec fn is_valid_header(h: Seq<u8>) -> bool {
    let pe = extended_header_at(h);
    &&& h.len() >= LEGACY_HEADER_LEN
    &&& h[0] == 0x4D && h[1] == 0x5A
    &&& pe + 6 <= h.len()
    &&& h[pe] == 0x50 && h[pe + 1] == 0x45 && h[pe + 2] == 0 && h[pe + 3] == 0
}

/// The machine-type field of a valid header.
pub open spec fn machine_type(h: Seq<u8>) -> int {
    le_u16(h, extended_header_at(h) + 4)
}

/// The classification of a header: 64-bit only for the x86-64 machine type,
/// 32-bit for any other valid header, and an error for anything malformed.
pub open spec fn architecture_of(h: Seq<u8>) -> Result<Architecture, InvalidHeader> {
    if !is_valid_header(h) {
        Err(InvalidHeader)
    } else if machine_type(h) == MACHINE_AMD64 {
        Ok(Architecture::Bits64)
    } else {
        Ok(Architecture::Bits32)
    }
}

/// Classifies a module from the bytes at its base address.
pub fn detect_architecture(header: &[u8]) -> (r: Result<Architecture, InvalidHeader>)
    ensures
        r == architecture_of(header@),
{
    let len = header.len();
    if len < LEGACY_HEADER_LEN || header[0] != 0x4D || header[1] != 0x5A {
        return Err(InvalidHeader);
    }
    let pe = read_le_u32(header, EXTENDED_HEADER_OFFSET_FIELD) as usize;
    if pe > len || len - pe < 6 {
        return Err(InvalidHeader);
    }
    if header[pe] != 0x50 || header[pe + 1] != 0x45 || header[pe + 2] != 0 || header[pe + 3]
        != 0 {
        return Err(InvalidHeader);
    }
    if read_le_u16(header, pe + 4) == MACHINE_AMD64 {
        Ok(Architecture::Bits64)
    } else {
        Ok(Architecture::Bits32)
    }
}

} // verus!
