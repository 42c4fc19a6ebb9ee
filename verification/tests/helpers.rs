use byte_io::bytes::{copy_front, find_byte, NEWLINE};
use byte_io::{Error, ErrorKind, Initializer, SeekFrom};

#[test]
fn find_byte_gives_the_first_position() {
    assert_eq!(find_byte(b'b', b"abcabc"), Some(1));
    assert_eq!(find_byte(b'a', b"abcabc"), Some(0));
    assert_eq!(find_byte(b'c', b"abc"), Some(2));
    assert_eq!(find_byte(b'x', b"abcabc"), None);
    assert_eq!(find_byte(b'x', b""), None);
}

#[test]
fn copy_front_overwrites_only_the_front() {
    let mut dst = [9u8; 4];
    copy_front(&mut dst, &[1, 2, 3], 2);
    assert_eq!(dst, [1, 2, 9, 9]);
    copy_front(&mut dst, &[5], 0);
    assert_eq!(dst, [1, 2, 9, 9]);
    copy_front(&mut dst, &[4, 5, 6, 7], 4);
    assert_eq!(dst, [4, 5, 6, 7]);
}

#[test]
fn newline_is_the_line_feed() {
    assert_eq!(NEWLINE, b'\n');
}

#[test]
fn errors_carry_kind_and_message() {
    let e = Error::new(ErrorKind::Other, "odd");
    assert_eq!(e.kind(), ErrorKind::Other);
    assert_eq!(e.message(), "odd");
    assert_eq!(Error::unexpected_eof().kind(), ErrorKind::UnexpectedEof);
    assert_eq!(Error::unexpected_eof().message(), "failed to fill whole buffer");
    assert_eq!(Error::write_zero().kind(), ErrorKind::WriteZero);
    assert_eq!(Error::write_zero().message(), "failed to write whole buffer");
    assert_eq!(Error::invalid_text().kind(), ErrorKind::InvalidData);
    assert_eq!(Error::invalid_text().message(), "stream did not contain valid UTF-8");
    assert_ne!(ErrorKind::Interrupted, ErrorKind::Other);
}

#[test]
fn hints_say_whether_to_zero() {
    assert!(Initializer::zeroing().should_initialize());
    assert!(!Initializer::nop().should_initialize());
}

#[test]
fn seek_positions_compare_by_value() {
    assert_eq!(SeekFrom::Start(3), SeekFrom::Start(3));
    assert_ne!(SeekFrom::End(-1), SeekFrom::Current(-1));
}
