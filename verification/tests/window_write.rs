use byte_io::{ErrorKind, Write};

#[test]
fn write_fills_the_front_of_the_window() {
    let mut region = [0u8; 5];
    {
        let mut window: &mut [u8] = &mut region;
        assert_eq!(window.write(&[1, 2]).unwrap(), 2);
        assert_eq!(window.len(), 3);
        assert_eq!(window.write(&[3]).unwrap(), 1);
        assert_eq!(window.len(), 2);
    }
    assert_eq!(region, [1, 2, 3, 0, 0]);
}

#[test]
fn write_takes_the_smaller_of_data_and_capacity() {
    for capacity in 0..6usize {
        for len in 0..8usize {
            let data: Vec<u8> = (1..=len as u8).collect();
            let mut region = vec![0u8; capacity];
            let taken;
            let left;
            {
                let mut window: &mut [u8] = &mut region;
                taken = window.write(&data).unwrap();
                left = window.len();
            }
            let expected = if len < capacity { len } else { capacity };
            assert_eq!(taken, expected);
            assert_eq!(left, capacity - expected);
            assert_eq!(&region[..expected], &data[..expected]);
            assert!(region[expected..].iter().all(|b| *b == 0));
        }
    }
}

#[test]
fn write_to_a_full_window_takes_nothing() {
    let mut region: [u8; 0] = [];
    let mut window: &mut [u8] = &mut region;
    assert_eq!(window.write(&[1, 2, 3]).unwrap(), 0);
    assert_eq!(window.write(&[]).unwrap(), 0);
}

#[test]
fn write_all_that_fits_succeeds() {
    let mut region = [0u8; 4];
    {
        let mut window: &mut [u8] = &mut region;
        assert!(window.write_all(&[1, 2]).is_ok());
        assert!(window.write_all(&[]).is_ok());
        assert!(window.write_all(&[3, 4]).is_ok());
        assert!(window.is_empty());
        assert!(window.write_all(&[]).is_ok());
    }
    assert_eq!(region, [1, 2, 3, 4]);
}

#[test]
fn write_all_beyond_the_capacity_fails_with_write_zero() {
    let mut region = [0u8; 2];
    {
        let mut window: &mut [u8] = &mut region;
        let err = window.write_all(&[1, 2, 3]).unwrap_err();
        assert_eq!(err.kind(), ErrorKind::WriteZero);
        assert_eq!(err.message(), "failed to write whole buffer");
        assert!(window.is_empty());
    }
    assert_eq!(region, [1, 2]);
}

#[test]
fn flush_of_a_window_changes_nothing() {
    let mut region = [7u8; 3];
    {
        let mut window: &mut [u8] = &mut region;
        assert!(window.flush().is_ok());
        assert_eq!(window.len(), 3);
        assert_eq!(window.write(&[1]).unwrap(), 1);
        assert!(window.flush().is_ok());
        assert_eq!(window.len(), 2);
    }
    assert_eq!(region, [1, 7, 7]);
}
