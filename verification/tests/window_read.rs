use byte_io::{BufRead, Error, ErrorKind, Read};

#[test]
fn read_moves_the_smaller_of_buffer_and_window() {
    let data = [1u8, 2, 3, 4, 5];
    let mut window: &[u8] = &data;
    let mut buf = [0u8; 3];
    assert_eq!(window.read(&mut buf).unwrap(), 3);
    assert_eq!(buf, [1, 2, 3]);
    assert_eq!(window, &[4u8, 5][..]);

    let mut big = [9u8; 4];
    assert_eq!(window.read(&mut big).unwrap(), 2);
    assert_eq!(big, [4, 5, 9, 9]);
    assert!(window.is_empty());
}

#[test]
fn read_of_one_byte_is_like_any_other() {
    let data = [7u8, 8];
    let mut window: &[u8] = &data;
    let mut one = [0u8; 1];
    assert_eq!(window.read(&mut one).unwrap(), 1);
    assert_eq!(one, [7]);
    assert_eq!(window, &[8u8][..]);
    assert_eq!(window.read(&mut one).unwrap(), 1);
    assert_eq!(one, [8]);
    assert_eq!(window.read(&mut one).unwrap(), 0);
    assert_eq!(one, [8]);
}

#[test]
fn read_into_an_empty_buffer_gives_zero() {
    let data = [1u8, 2, 3];
    let mut window: &[u8] = &data;
    let mut none: [u8; 0] = [];
    assert_eq!(window.read(&mut none).unwrap(), 0);
    assert_eq!(window, &[1u8, 2, 3][..]);
}

#[test]
fn read_on_an_empty_window_gives_zero_and_no_error() {
    let mut window: &[u8] = &[];
    let mut buf = [5u8; 4];
    for _ in 0..3 {
        let got = window.read(&mut buf);
        assert!(got.is_ok());
        assert_eq!(got.unwrap(), 0);
    }
    assert_eq!(buf, [5, 5, 5, 5]);
    assert!(window.is_empty());
}

#[test]
fn split_read_gives_the_bytes_back_at_every_split_point() {
    let data: Vec<u8> = (0u8..40).collect();
    for k in 0..=data.len() {
        let mut window: &[u8] = &data;
        let mut first = vec![0u8; k];
        let mut rest = vec![0u8; data.len() - k];
        assert_eq!(window.read(&mut first).unwrap(), k);
        assert_eq!(window.read(&mut rest).unwrap(), data.len() - k);
        assert!(window.is_empty());
        let mut joined = first.clone();
        joined.extend_from_slice(&rest);
        assert_eq!(joined, data);
    }
}

#[test]
fn read_exact_fills_the_buffer() {
    let data = [1u8, 2, 3, 4];
    let mut window: &[u8] = &data;
    let mut buf = [0u8; 3];
    assert!(window.read_exact(&mut buf).is_ok());
    assert_eq!(buf, [1, 2, 3]);
    assert_eq!(window, &[4u8][..]);
    let mut last = [0u8; 1];
    assert!(window.read_exact(&mut last).is_ok());
    assert_eq!(last, [4]);
    assert!(window.is_empty());
    let mut none: [u8; 0] = [];
    assert!(window.read_exact(&mut none).is_ok());
}

#[test]
fn read_exact_beyond_the_window_fails_with_unexpected_eof() {
    let data = [1u8, 2, 3];
    let mut window: &[u8] = &data;
    let mut buf = [0u8; 4];
    let err: Error = window.read_exact(&mut buf).unwrap_err();
    assert_eq!(err.kind(), ErrorKind::UnexpectedEof);
    assert_eq!(err.message(), "failed to fill whole buffer");
    assert_eq!(window, &[1u8, 2, 3][..]);
    assert_eq!(buf, [0, 0, 0, 0]);
}

#[test]
fn read_to_end_appends_the_window_and_empties_it() {
    let data = [3u8, 4, 5];
    let mut window: &[u8] = &data;
    let mut sink = vec![1u8, 2];
    assert_eq!(window.read_to_end(&mut sink).unwrap(), 3);
    assert_eq!(sink, vec![1, 2, 3, 4, 5]);
    assert!(window.is_empty());
    assert_eq!(window.read_to_end(&mut sink).unwrap(), 0);
    assert_eq!(sink, vec![1, 2, 3, 4, 5]);
}

#[test]
fn window_needs_no_zeroed_buffer() {
    let data = [1u8];
    let window: &[u8] = &data;
    assert!(!window.initializer().should_initialize());
}

#[test]
fn fill_buf_twice_shows_the_same_bytes() {
    let data = [1u8, 2, 3];
    let mut window: &[u8] = &data;
    let first = window.fill_buf().unwrap().to_vec();
    let second = window.fill_buf().unwrap().to_vec();
    assert_eq!(first, vec![1, 2, 3]);
    assert_eq!(first, second);
}

#[test]
fn consume_shortens_the_next_view_by_what_was_consumed() {
    let data = [1u8, 2, 3, 4, 5];
    for n in 0..=data.len() {
        let mut window: &[u8] = &data;
        let before = window.fill_buf().unwrap().len();
        window.consume(n);
        let after = window.fill_buf().unwrap();
        assert_eq!(after.len(), before - n);
        assert_eq!(after, &data[n..]);
    }
}

#[test]
fn read_until_newline_takes_one_line_at_a_time() {
    let mut window: &[u8] = b"ab\ncd";
    let mut sink = Vec::new();
    assert_eq!(window.read_until(b'\n', &mut sink).unwrap(), 3);
    assert_eq!(sink, b"ab\n".to_vec());
    assert_eq!(window.read_until(b'\n', &mut sink).unwrap(), 2);
    assert_eq!(sink, b"ab\ncd".to_vec());
    assert_eq!(window.read_until(b'\n', &mut sink).unwrap(), 0);
    assert_eq!(sink, b"ab\ncd".to_vec());
}

#[test]
fn read_until_stops_at_the_first_delimiter_only() {
    let mut window: &[u8] = b",a,,b";
    let mut sink = Vec::new();
    assert_eq!(window.read_until(b',', &mut sink).unwrap(), 1);
    assert_eq!(sink, b",".to_vec());
    sink.clear();
    assert_eq!(window.read_until(b',', &mut sink).unwrap(), 2);
    assert_eq!(sink, b"a,".to_vec());
    sink.clear();
    assert_eq!(window.read_until(b',', &mut sink).unwrap(), 1);
    assert_eq!(sink, b",".to_vec());
    sink.clear();
    assert_eq!(window.read_until(b',', &mut sink).unwrap(), 1);
    assert_eq!(sink, b"b".to_vec());
    assert!(window.is_empty());
}
