use gameboy::GameboyErrorKind;
use gameboy::cartridge::Cartridge;
use gameboy::rom::{CartridgeKind, Rom};

const LOGO: [u8; 48] = [
    0xCE, 0xED, 0x66, 0x66, 0xCC, 0x0D, 0x00, 0x0B, 0x03, 0x73, 0x00, 0x83, 0x00, 0x0C, 0x00,
    0x0D, 0x00, 0x08, 0x11, 0x1F, 0x88, 0x89, 0x00, 0x0E, 0xDC, 0xCC, 0x6E, 0xE6, 0xDD, 0xDD,
    0xD9, 0x99, 0xBB, 0xBB, 0x67, 0x63, 0x6E, 0x0E, 0xEC, 0xCC, 0xDD, 0xDC, 0x99, 0x9F, 0xBB,
    0xB9, 0x33, 0x3E,
];

// A 0x8000-byte image of zeroes with the boot logo, a ROM-only kind byte,
// and a header checksum byte chosen so the header checksum holds.
fn minimal_valid_image() -> Vec<u8> {
    let mut data = vec![0u8; 0x8000];
    data[0x0104..0x0134].copy_from_slice(&LOGO);
    data[0x0147] = 0x00;
    // The seed 0x19 plus the bytes 0x0134..=0x014D must wrap to zero.
    data[0x014D] = 0xE7;
    data
}

#[test]
fn test_minimal_valid_rom() {
    let rom = Rom::new(minimal_valid_image()).unwrap();
    assert_eq!(rom.kind(), Some(CartridgeKind::RomOnly));
    assert!(rom.has_valid_logo());
    assert!(rom.has_valid_header_checksum());
    assert_eq!(rom.size_bytes(), 0x8000);
}

#[test]
fn test_too_small_rom() {
    let result = Rom::new(vec![0u8; 10]);
    let err = result.err().unwrap();
    assert_eq!(err.kind, GameboyErrorKind::CartridgeTooSmall(10));
}

#[test]
fn test_kind_codes() {
    let mut data = minimal_valid_image();
    data[0x0147] = 0x01;
    assert_eq!(Rom::new(data.clone()).unwrap().kind(), Some(CartridgeKind::Mbc1));
    data[0x0147] = 0x13;
    assert_eq!(Rom::new(data.clone()).unwrap().kind(), Some(CartridgeKind::Mbc3RamBattery));
    data[0x0147] = 0xFF;
    assert_eq!(Rom::new(data.clone()).unwrap().kind(), Some(CartridgeKind::HuC1RamBattery));
    // A code outside the known set has no kind.
    data[0x0147] = 0x04;
    assert_eq!(Rom::new(data).unwrap().kind(), None);
}

#[test]
fn test_invalid_logo() {
    let mut data = minimal_valid_image();
    data[0x0104] ^= 0xFF;
    let rom = Rom::new(data).unwrap();
    assert!(!rom.has_valid_logo());
}

#[test]
fn test_header_checksum_flip() {
    // Flipping any single summed byte of a valid header breaks the checksum.
    for offset in 0x0134..=0x014D {
        let mut data = minimal_valid_image();
        data[offset] = data[offset].wrapping_add(1);
        let rom = Rom::new(data).unwrap();
        assert!(!rom.has_valid_header_checksum(), "offset {:04X}", offset);
    }
}

#[test]
fn test_header_checksum_exact() {
    // Bytes 0x0134..=0x014D sum to 0x2E; with the seed 0x19 the accumulator
    // ends at 0x47, so only a compensating 0xB9 at 0x014D makes it wrap to
    // zero.
    let mut data = vec![0u8; 0x8000];
    data[0x0134] = 0x12;
    data[0x0135] = 0x1C;
    assert!(!Rom::new(data.clone()).unwrap().has_valid_header_checksum());
    data[0x014D] = 0xB9;
    assert!(Rom::new(data).unwrap().has_valid_header_checksum());
}

#[test]
fn test_global_checksum() {
    // All zeroes: the sum of every counted byte is zero and the stored word
    // is zero, so the checksum holds.
    let data = vec![0u8; 0x8000];
    assert!(Rom::new(data).unwrap().has_valid_global_checksum());

    // Two data bytes sum to 0x46; the checksum bytes store it big-endian.
    let mut data = vec![0u8; 0x8000];
    data[0x0200] = 0x34;
    data[0x0300] = 0x12;
    assert!(!Rom::new(data.clone()).unwrap().has_valid_global_checksum());
    data[0x014E] = 0x00;
    data[0x014F] = 0x46;
    assert!(Rom::new(data.clone()).unwrap().has_valid_global_checksum());

    // The two checksum bytes themselves are not counted.
    data[0x014E] = 0x46;
    data[0x014F] = 0x00;
    assert!(!Rom::new(data).unwrap().has_valid_global_checksum());
}

#[test]
fn test_name_truncates_at_nul() {
    let mut data = minimal_valid_image();
    data[0x0134..0x0139].copy_from_slice(b"HELLO");
    // Recompute nothing: name inspection is independent of the checksums.
    let rom = Rom::new(data).unwrap();
    assert_eq!(rom.name(), "HELLO");
}

#[test]
fn test_name_full_width() {
    let mut data = minimal_valid_image();
    data[0x0134..0x0144].copy_from_slice(b"ABCDEFGHIJKLMNOP");
    let rom = Rom::new(data).unwrap();
    assert_eq!(rom.name(), "ABCDEFGHIJKLMNOP");
}

#[test]
fn test_into_cartridge_rom_only() {
    let mut data = minimal_valid_image();
    data[0x0123] = 0x99;
    let rom = Rom::new(data).unwrap();
    let cartridge = rom.into_cartridge().unwrap();
    assert_eq!(cartridge.read_byte(0x0123), 0x99);
}

#[test]
fn test_into_cartridge_unsupported() {
    let mut data = minimal_valid_image();
    data[0x0147] = 0x01;
    let rom = Rom::new(data).unwrap();
    assert!(rom.into_cartridge().is_none());
}
