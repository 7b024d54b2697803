use owrust::rom_id::crc8;
use owrust::rom_id::RomId;

#[test]
fn t_rom8() {
    let data = [0x10, 0x67, 0xc6, 0x69, 0x73, 0x51, 0xff, 0x8d];
    let rom = RomId::new(&data);
    assert_eq!(rom.family(), 0x10);
    assert_eq!(rom.crc8(), 0x8d);
    assert!(rom.test_crc8());
    assert_eq!(rom.id(), [0x67, 0xc6, 0x69, 0x73, 0x51, 0xff]);
    assert_ne!(rom.crc8(), 0x8e);
}

#[test]
fn crc8_of_known_strings() {
    assert_eq!(crc8(&[]), 0);
    assert_eq!(crc8(&[0]), 0);
    assert_eq!(crc8(&[1]), 0x5E);
    assert_eq!(crc8(b"123456789"), 0xA1);
    assert_eq!(crc8(&[0x10, 0x67, 0xc6, 0x69, 0x73, 0x51, 0xff]), 0x8d);
}

#[test]
fn crc8_of_string_and_its_crc_is_zero() {
    for data in [&b""[..], &b"a"[..], &b"1-wire"[..], &[0xFF, 0, 0x80, 1][..]] {
        let mut all = data.to_vec();
        all.push(crc8(data));
        assert_eq!(crc8(&all), 0);
    }
}

#[test]
fn rom_from_seven_bytes_gets_its_check_byte() {
    let rom = RomId::new(&[0x10, 0x67, 0xc6, 0x69, 0x73, 0x51, 0xff]);
    assert_eq!(rom.0, [0x10, 0x67, 0xc6, 0x69, 0x73, 0x51, 0xff, 0x8d]);
    assert!(rom.test_crc8());
    assert_eq!(rom.make_crc8(), 0x8d);
}

#[test]
fn rom_from_other_lengths() {
    assert_eq!(RomId::new(&[1, 2, 3]).0, [0u8; 8]);
    assert_eq!(RomId::new(&[]).0, [0u8; 8]);
    assert_eq!(RomId::new(&[1, 2, 3, 4, 5, 6, 7, 8, 9, 10]).0, [1, 2, 3, 4, 5, 6, 7, 8]);
    let bad = RomId::new(&[0x10, 0x67, 0xc6, 0x69, 0x73, 0x51, 0xff, 0x8e]);
    assert!(!bad.test_crc8());
    assert_eq!(bad.make_crc8(), 0x8d);
    assert_eq!(bad.crc8(), 0x8e);
}
