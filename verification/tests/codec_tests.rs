use arm7_core::codec::{read_le_8, read_le_16, read_le_32, write_le_8, write_le_16, write_le_32};

#[test]
fn round_trip_8() {
    let mut buf: Vec<u8> = vec![0; 16];
    for &v in &[0u8, 1, 0x7F, 0x80, 0xFF] {
        write_le_8(&mut buf, 5, v);
        assert_eq!(read_le_8(&buf, 5), v);
    }
}

#[test]
fn round_trip_16() {
    let mut buf: Vec<u8> = vec![0; 16];
    for &v in &[0u16, 1, 0x00FF, 0x0100, 0xABCD, 0xFFFF] {
        write_le_16(&mut buf, 3, v);
        assert_eq!(read_le_16(&buf, 3), v);
    }
}

#[test]
fn round_trip_32() {
    let mut buf: Vec<u8> = vec![0; 16];
    for &v in &[0u32, 1, 0xFF, 0x1234_5678, 0xDEAD_BEEF, 0xFFFF_FFFF] {
        write_le_32(&mut buf, 7, v);
        assert_eq!(read_le_32(&buf, 7), v);
    }
}

#[test]
fn little_endian_byte_order() {
    let mut buf: Vec<u8> = vec![0; 8];
    write_le_32(&mut buf, 0, 0x1234_5678);
    assert_eq!(buf[0], 0x78);
    assert_eq!(buf[1], 0x56);
    assert_eq!(buf[2], 0x34);
    assert_eq!(buf[3], 0x12);
    write_le_16(&mut buf, 4, 0xA1B2);
    assert_eq!(buf[4], 0xB2);
    assert_eq!(buf[5], 0xA1);
    assert_eq!(read_le_16(&buf, 1), 0x3456);
}
