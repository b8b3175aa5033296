use presto::io::Cursor;

#[test]
fn new_cursor_keeps_buffer() {
    let mut buf = [7u8; 4];
    let cursor = Cursor::new(&mut buf);
    assert_eq!(cursor.buf, &[7u8, 7, 7, 7]);
}

#[test]
fn writes_append_at_position() {
    let mut buf = [0u8; 8];
    let mut cursor = Cursor::new(&mut buf);
    assert!(cursor.write_str("abc").is_ok());
    assert!(cursor.write_str("defg").is_ok());
    assert_eq!(cursor.buf, b"abcdefg\0");
}

#[test]
fn write_must_leave_one_byte_free() {
    let mut buf = [0u8; 8];
    let mut cursor = Cursor::new(&mut buf);
    assert!(cursor.write_str("12345678").is_err());
    assert_eq!(cursor.buf, &[0u8; 8]);
    assert!(cursor.write_str("1234567").is_ok());
    assert_eq!(cursor.buf, b"1234567\0");
}

#[test]
fn refused_write_changes_nothing() {
    let mut buf = [0u8; 6];
    let mut cursor = Cursor::new(&mut buf);
    assert!(cursor.write_str("abcd").is_ok());
    assert!(cursor.write_str("ef").is_err());
    assert!(cursor.write_str("e").is_ok());
    assert_eq!(cursor.buf, b"abcde\0");
}

#[test]
fn empty_buffer_refuses_every_write() {
    let mut buf: [u8; 0] = [];
    let mut cursor = Cursor::new(&mut buf);
    assert!(cursor.write_str("").is_err());
    assert!(cursor.write_str("a").is_err());
}

#[test]
fn writes_count_utf8_bytes() {
    let mut buf = [0u8; 4];
    let mut cursor = Cursor::new(&mut buf);
    assert!(cursor.write_str("é").is_ok());
    assert!(cursor.write_str("é").is_err());
    assert!(cursor.write_str("x").is_ok());
    assert_eq!(cursor.buf, &[0xC3, 0xA9, b'x', 0]);
}

#[test]
fn clear_zeroes_and_rewinds() {
    let mut buf = [9u8; 5];
    let mut cursor = Cursor::new(&mut buf);
    assert!(cursor.write_str("ab").is_ok());
    cursor.clear();
    assert_eq!(cursor.buf, &[0u8; 5]);
    assert!(cursor.write_str("xyzw").is_ok());
    assert_eq!(cursor.buf, b"xyzw\0");
}

#[test]
fn write_into_cleared_buffer_is_nul_terminated() {
    let mut buf = [0xFFu8; 6];
    let mut cursor = Cursor::new(&mut buf);
    cursor.clear();
    assert!(cursor.write_str("hey").is_ok());
    assert_eq!(cursor.buf, b"hey\0\0\0");
}

#[test]
fn two_writes_equal_one_joined_write() {
    let mut a = [5u8; 10];
    let mut b = [5u8; 10];
    let mut first = Cursor::new(&mut a);
    assert!(first.write_str("ab").is_ok());
    assert!(first.write_str("cde").is_ok());
    let mut second = Cursor::new(&mut b);
    assert!(second.write_str("abcde").is_ok());
    assert_eq!(first.buf, second.buf);
    assert_eq!(first.buf, b"abcde\x05\x05\x05\x05\x05");
}
