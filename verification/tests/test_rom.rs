use game_boy_emulator::rom::{CbgFlag, ROM};

fn rom_image_with_header() -> Vec<u8> {
    let mut bytes = vec![0u8; 0x0150];
    // Title: 15 bytes from 0x0134.
    let title = b"ABCDEFGHIJKLMNO";
    bytes[0x0134..0x0134 + 15].copy_from_slice(title);
    // The manufacturer code overlaps the tail of the title window.
    assert_eq!(b"LMN", &bytes[0x013F..0x013F + 3]);
    // Hardware-compatibility flag.
    bytes[0x0143] = 0x80;
    bytes
}

#[test]
fn rom_from_bytes_reads_header_fields() {
    let bytes = rom_image_with_header();

    let rom = ROM::from_bytes(&bytes).unwrap();

    assert_eq!("ABCDEFGHIJKLMNO", rom.title);
    assert_eq!("LMN", rom.manufacturer_code);
    assert_eq!(CbgFlag::SupportsCbg(), rom.cbg_flag);
}

#[test]
fn rom_from_bytes_rejects_short_image() {
    // The header runs through address 0x0143; an image that ends before it
    // has no header to read.
    let bytes = vec![0u8; 0x0143];

    assert!(ROM::from_bytes(&bytes).is_none());
}

#[test]
fn rom_from_bytes_rejects_invalid_title_text() {
    let mut bytes = rom_image_with_header();
    // 0xFF can start no valid UTF-8 sequence.
    bytes[0x0136] = 0xFF;

    assert!(ROM::from_bytes(&bytes).is_none());
}

#[test]
fn cbg_flag_from_byte_maps_every_byte() {
    assert_eq!(CbgFlag::SupportsCbg(), CbgFlag::from_byte(0x80));
    assert_eq!(CbgFlag::OnlyWorksOnCbg(), CbgFlag::from_byte(0xC0));
    assert_eq!(CbgFlag::Other(0x42), CbgFlag::from_byte(0x42));
}
