use rdp_session::{write_u16, write_u32, write_u8, PduError, ReadCursor};

#[test]
fn reads_little_endian_values_in_order() {
    let bytes = [0x01u8, 0x34, 0x12, 0x78, 0x56, 0x34, 0x12];
    let mut cursor = ReadCursor::new(&bytes);
    assert_eq!(cursor.read_u8("a").unwrap(), 0x01);
    assert_eq!(cursor.pos(), 1);
    assert_eq!(cursor.read_u16("b").unwrap(), 0x1234);
    assert_eq!(cursor.pos(), 3);
    assert_eq!(cursor.read_u32("c").unwrap(), 0x1234_5678);
    assert_eq!(cursor.pos(), 7);
    assert!(cursor.is_empty());
    assert_eq!(cursor.len(), 0);
}

#[test]
fn read_past_end_fails_naming_the_field_and_keeps_position() {
    let bytes = [0xAAu8, 0xBB, 0xCC];
    let mut cursor = ReadCursor::new(&bytes);
    assert_eq!(cursor.read_u16("first").unwrap(), 0xBBAA);
    let e = cursor.read_u32("second").unwrap_err();
    assert_eq!(e, PduError::NotEnoughBytes { field: "second", received: 1, expected: 4 });
    assert_eq!(cursor.pos(), 2);
    let e = cursor.read_u16("third").unwrap_err();
    assert_eq!(e, PduError::NotEnoughBytes { field: "third", received: 1, expected: 2 });
    assert_eq!(cursor.read_u8("fourth").unwrap(), 0xCC);
    let e = cursor.read_u8("fifth").unwrap_err();
    assert_eq!(e, PduError::NotEnoughBytes { field: "fifth", received: 0, expected: 1 });
}

#[test]
fn writes_append_little_endian_bytes() {
    let mut out = vec![0xFFu8];
    write_u8(&mut out, 0x01);
    write_u16(&mut out, 0xABCD);
    write_u32(&mut out, 0x0102_0304);
    assert_eq!(out, vec![0xFF, 0x01, 0xCD, 0xAB, 0x04, 0x03, 0x02, 0x01]);
}

#[test]
fn written_values_read_back() {
    let mut out = Vec::new();
    write_u16(&mut out, 0);
    write_u16(&mut out, 0xFFFF);
    write_u32(&mut out, 0xFFFF_FFFF);
    write_u32(&mut out, 0x8000_0001);
    let mut cursor = ReadCursor::new(&out);
    assert_eq!(cursor.read_u16("a").unwrap(), 0);
    assert_eq!(cursor.read_u16("b").unwrap(), 0xFFFF);
    assert_eq!(cursor.read_u32("c").unwrap(), 0xFFFF_FFFF);
    assert_eq!(cursor.read_u32("d").unwrap(), 0x8000_0001);
}
