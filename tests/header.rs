use netease_watcher::header::{detect_architecture, Architecture, InvalidHeader};

fn image_header(machine: u16) -> Vec<u8> {
    let mut h = vec![0u8; 0x100];
    h[0] = b'M';
    h[1] = b'Z';
    h[0x3C..0x40].copy_from_slice(&0x80u32.to_le_bytes());
    h[0x80..0x84].copy_from_slice(b"PE\0\0");
    h[0x84..0x86].copy_from_slice(&machine.to_le_bytes());
    h
}

#[test]
fn amd64_header_is_64_bit() {
    assert_eq!(detect_architecture(&image_header(0x8664)), Ok(Architecture::Bits64));
}

#[test]
fn i386_header_is_32_bit() {
    assert_eq!(detect_architecture(&image_header(0x014C)), Ok(Architecture::Bits32));
}

#[test]
fn other_machine_types_are_32_bit() {
    assert_eq!(detect_architecture(&image_header(0xAA64)), Ok(Architecture::Bits32));
    assert_eq!(detect_architecture(&image_header(0x6486)), Ok(Architecture::Bits32));
}

#[test]
fn empty_header_is_invalid() {
    assert_eq!(detect_architecture(&[]), Err(InvalidHeader));
}

#[test]
fn truncated_legacy_header_is_invalid() {
    let h = image_header(0x8664);
    assert_eq!(detect_architecture(&h[..0x3F]), Err(InvalidHeader));
}

#[test]
fn header_cut_before_machine_field_is_invalid() {
    let h = image_header(0x8664);
    assert_eq!(detect_architecture(&h[..0x85]), Err(InvalidHeader));
    assert_eq!(detect_architecture(&h[..0x86]), Ok(Architecture::Bits64));
}

#[test]
fn wrong_legacy_magic_is_invalid() {
    let mut h = image_header(0x8664);
    h[1] = b'X';
    assert_eq!(detect_architecture(&h), Err(InvalidHeader));
}

#[test]
fn wrong_extended_magic_is_invalid() {
    let mut h = image_header(0x8664);
    h[0x82] = 1;
    assert_eq!(detect_architecture(&h), Err(InvalidHeader));
}

#[test]
fn extended_header_offset_past_the_end_is_invalid() {
    let mut h = image_header(0x8664);
    h[0x3C..0x40].copy_from_slice(&0xFFFF_FFFFu32.to_le_bytes());
    assert_eq!(detect_architecture(&h), Err(InvalidHeader));
    h[0x3C..0x40].copy_from_slice(&0xFBu32.to_le_bytes());
    assert_eq!(detect_architecture(&h), Err(InvalidHeader));
}
