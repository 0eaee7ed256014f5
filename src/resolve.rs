//! Turning a signature occurrence into the address of the playback-position
//! field, and finding that occurrence in the readable code of a module.

use vstd::prelude::*;
use crate::bytes::{le_u32, read_le_u32};
use crate::header::{architecture_of, detect_architecture, Architecture, InvalidHeader};
use crate::signature::{
    is_first_match, matches_at, scan, signature, signature_for, OPCODE_PREFIX_LEN,
};

verus! {

/// Where a signature was found: in the target's address space, and inside
/// the local copy of the region that was scanned.
#[derive(Clone, Copy, Debug, PartialEq, Eq, Structural)]
pub struct SignatureMatch {
    pub absolute_address: usize,
    pub pattern_offset_in_buffer: usize,
}

/// A copy of one scan-eligible region of the target, with the address it was
/// read from.
#[derive(Clone, Debug)]
pub struct RegionSnapshot {
    pub base: usize,
    pub bytes: Vec<u8>,
}

/// Why no address could be derived from a module.
#[derive(Clone, Copy, Debug, PartialEq, Eq, Structural)]
pub enum LocateError {
    InvalidHeader,
    PatternNotFound,
}

/// Number of addresses that `usize` can hold.
pub open spec fn address_space() -> int {
    usize::MAX as int + 1
}

/// `x` reduced onto the address space, as wrapping arithmetic does.
pub open spec fn wrap_address(x: int) -> int {
    x % address_space()
}

/// The signed value of a 32-bit two's-complement word.
pub open spec fn signed_32(u: int) -> int {
    if u >= 0x8000_0000 {
        u - 0x1_0000_0000
    } else {
        u
    }
}

/// The four operand bytes that follow the opcode prefix of a match at `offset`.
pub open spec fn operand_at(buf: Seq<u8>, offset: int) -> int {
    le_u32(buf, offset + OPCODE_PREFIX_LEN as int)
}

/// The address a match refers to. In 32-bit code the operand is the absolute
/// address; in 64-bit code it is a signed displacement from the end of the
/// eight-byte instruction.
pub open spec fn resolved_address(
    buf: Seq<u8>,
    m: SignatureMatch,
    arch: Architecture,
) -> int {
    let operand = operand_at(buf, m.pattern_offset_in_buffer as int);
    match arch {
        Architecture::Bits32 => operand,
        Architecture::Bits64 => wrap_address(m.absolute_address + 8 + signed_32(operand)),
    }
}

/// `m` is the first occurrence of the architecture's signature in a region
/// copied from `base`.
pub open spec fn is_region_match(
    buf: Seq<u8>,
    base: usize,
    arch: Architecture,
    m: SignatureMatch,
) -> bool {
    &&& is_first_match(buf, signature_for(arch), m.pattern_offset_in_buffer as int)
    &&& m.absolute_address == wrap_address(base + m.pattern_offset_in_buffer)
}

/// The architecture's signature occurs somewhere in `buf`.
pub open spec fn has_signature(buf: Seq<u8>, arch: Architecture) -> bool {
    exists|k: int| matches_at(buf, signature_for(arch), k)
}

/// `a` is the address that the first signature occurrence in a region
/// copied from `base` refers to.
pub open spec fn region_yields(buf: Seq<u8>, base: usize, arch: Architecture, a: int) -> bool {
    exists|m: SignatureMatch| #[trigger]
        is_region_match(buf, base, arch, m) && a == resolved_address(buf, m, arch)
}

/// Region `i` is the first of `regions` that holds the signature, and the
/// address it yields is `a`.
pub open spec fn first_yielding_region(
    regions: Seq<RegionSnapshot>,
    arch: Architecture,
    a: int,
    i: int,
) -> bool {
    &&& 0 <= i < regions.len()
    &&& region_yields(regions[i].bytes@, regions[i].base, arch, a)
    &&& forall|j: int| 0 <= j < i ==> !#[trigger] has_signature(regions[j].bytes@, arch)
}

/// What locating the playback field in a module returns: the header decides
/// the architecture; the first region holding that architecture's signature
/// decides the address.
pub open spec fn locate_outcome(
    header: Seq<u8>,
    regions: Seq<RegionSnapshot>,
    r: Result<usize, LocateError>,
) -> bool {
    match architecture_of(header) {
        Err(_) => r == Err::<usize, LocateError>(LocateError::InvalidHeader),
        Ok(arch) => located_in_regions(regions, arch, r),
    }
}

/// What searching `regions` in order for the architecture's signature
/// returns: the address yielded by the first region that holds it, or
/// `PatternNotFound` when none does.
pub open spec fn located_in_regions(
    regions: Seq<RegionSnapshot>,
    arch: Architecture,
    r: Result<usize, LocateError>,
) -> bool {
    match r {
        Ok(a) => yields_in_regions(regions, arch, a as int),
        Err(e) => e == LocateError::PatternNotFound && forall|i: int|
            0 <= i < regions.len() ==> !#[trigger] has_signature(regions[i].bytes@, arch),
    }
}

/// Some region of `regions` is the first to hold the signature and yields `a`.
pub open spec fn yields_in_regions(regions: Seq<RegionSnapshot>, arch: Architecture, a: int) -> bool {
    exists|i: int| #[trigger] first_yielding_region(regions, arch, a, i)
}

/// The four bytes of `d` as a little-endian two's-complement 32-bit word.
pub open spec fn le_bytes_of_i32(d: int) -> Seq<u8> {
    let u = if d < 0 {
        d + 0x1_0000_0000
    } else {
        d
    };
    seq![
        (u % 256) as u8,
        (u / 256 % 256) as u8,
        (u / 65536 % 256) as u8,
        (u / 16777216 % 256) as u8,
    ]
}

/// A 64-bit match whose displacement bytes encode `d` resolves to the address
/// eight bytes past the match plus `d`, wrapped onto the address space; a
/// negative `d` is no exception.
pub proof fn lemma_displacement_round_trip(buf: Seq<u8>, m: SignatureMatch, d: int)
    requires
        -0x8000_0000 <= d < 0x8000_0000,
        m.pattern_offset_in_buffer + OPCODE_PREFIX_LEN + 4 <= buf.len(),
        buf.subrange(
            m.pattern_offset_in_buffer + OPCODE_PREFIX_LEN,
            m.pattern_offset_in_buffer + OPCODE_PREFIX_LEN + 4,
        ) == le_bytes_of_i32(d),
    ensures
        resolved_address(buf, m, Architecture::Bits64) == wrap_address(m.absolute_address + 8 + d),
{
    let at = m.pattern_offset_in_buffer + OPCODE_PREFIX_LEN;
    let u: int = if d < 0 {
        d + 0x1_0000_0000
    } else {
        d
    };
    let w = u as u32;
    assert(buf[at + 0] == le_bytes_of_i32(d)[0]);
    assert(buf[at + 1] == le_bytes_of_i32(d)[1]);
    assert(buf[at + 2] == le_bytes_of_i32(d)[2]);
    assert(buf[at + 3] == le_bytes_of_i32(d)[3]);
    assert((w % 256) + 256 * (w / 256 % 256) + 65536 * (w / 65536 % 256) + 16777216 * (w
        / 16777216 % 256) == w) by (bit_vector);
    assert(operand_at(buf, m.pattern_offset_in_buffer as int) == u);
}

proof fn lemma_wrap_shift(w: int, k: int)
    requires
        0 <= w < address_space(),
    ensures
        wrap_address(w + k * address_space()) == w,
{
    let r = address_space();
    assert((w + k * r) % r == w) by (nonlinear_arith)
        requires
            0 <= w < r,
    ;
}

/// Finds the first occurrence of the architecture's signature in a region
/// copied from `base`.
pub fn find_signature(buf: &[u8], base: usize, arch: Architecture) -> (r: Option<SignatureMatch>)
    ensures
        match r {
            Some(m) => is_region_match(buf@, base, arch, m),
            None => !has_signature(buf@, arch),
        },
        r matches Some(m) ==> m.pattern_offset_in_buffer + OPCODE_PREFIX_LEN + 4 <= buf@.len(),
{
    let pattern = signature(arch);
    match scan(buf, pattern.as_slice()) {
        Some(k) => {
            let absolute_address = base.wrapping_add(k);
            proof {
                let shift: int = if base + k > usize::MAX { 1 } else { 0 };
                lemma_wrap_shift(absolute_address as int, shift);
            }
            Some(SignatureMatch { absolute_address, pattern_offset_in_buffer: k })
        },
        None => None,
    }
}

/// The address of the field that the instruction at `m` stores to.
pub fn resolve(buf: &[u8], m: SignatureMatch, arch: Architecture) -> (r: usize)
    requires
        m.pattern_offset_in_buffer + OPCODE_PREFIX_LEN + 4 <= buf@.len(),
    ensures
        r == resolved_address(buf@, m, arch),
{
    assert(buf@.len() == buf.len());
    let operand = read_le_u32(buf, m.pattern_offset_in_buffer + OPCODE_PREFIX_LEN);
    match arch {
        Architecture::Bits32 => operand as usize,
        Architecture::Bits64 => {
            let displacement: isize = if operand >= 0x8000_0000 {
                (operand as i64 - 0x1_0000_0000i64) as isize
            } else {
                operand as isize
            };
            let next_instruction = m.absolute_address.wrapping_add(8);
            let r = next_instruction.wrapping_add_signed(displacement);
            proof {
                let a = m.absolute_address as int;
                let d = displacement as int;
                let n = next_instruction as int;
                let size = address_space();
                assert(n == a + 8 || n == a + 8 - size);
                assert(r == n + d || r == n + d - size || r == n + d + size);
                if a + 8 + d == r {
                    lemma_wrap_shift(r as int, 0);
                } else if a + 8 + d == r + size {
                    lemma_wrap_shift(r as int, 1);
                } else if a + 8 + d == r + 2 * size {
                    lemma_wrap_shift(r as int, 2);
                } else {
                    lemma_wrap_shift(r as int, -1);
                }
            }
            r
        },
    }
}

/// The address of the playback-position field, taken from the first
/// occurrence of the architecture's signature in a region copied from `base`.
pub fn find_movsd_instructions(buf: &[u8], base: usize, arch: Architecture) -> (r: Option<usize>)
    ensures
        r is None <==> !has_signature(buf@, arch),
        r matches Some(a) ==> region_yields(buf@, base, arch, a as int),
{
    match find_signature(buf, base, arch) {
        Some(m) => Some(resolve(buf, m, arch)),
        None => None,
    }
}

/// Derives the address of the playback-position field of a module from its
/// header bytes and copies of its scan-eligible regions, in address order.
pub fn locate_playback_address(header: &[u8], regions: &[RegionSnapshot]) -> (r: Result<
    usize,
    LocateError,
>)
    ensures
        locate_outcome(header@, regions@, r),
{
    let arch = match detect_architecture(header) {
        Ok(arch) => arch,
        Err(InvalidHeader) => return Err(LocateError::InvalidHeader),
    };
    let mut i: usize = 0;
    while i < regions.len()
        invariant
            architecture_of(header@) == Ok::<Architecture, InvalidHeader>(arch),
            i <= regions@.len(),
            forall|j: int| 0 <= j < i ==> !#[trigger] has_signature(regions@[j].bytes@, arch),
        decreases regions@.len() - i,
    {
        let region = &regions[i];
        match find_movsd_instructions(region.bytes.as_slice(), region.base, arch) {
            Some(a) => {
                assert(first_yielding_region(regions@, arch, a as int, i as int));
                return Ok(a);
            },
            None => {},
        }
        i = i + 1;
    }
    Err(LocateError::PatternNotFound)
}

} // verus!
