use ble_advertising::{ByteWriter, Error};

#[test]
fn writer_tracks_space_left() {
    let mut w = ByteWriter::new(4);
    assert_eq!(w.space_left(), 4);
    assert!(w.write_slice(&[1, 2]).is_ok());
    assert_eq!(w.space_left(), 2);
}

#[test]
fn writer_fails_closed_on_overflow() {
    let mut w = ByteWriter::new(4);
    assert!(w.write_slice(&[1, 2, 3]).is_ok());
    // Does not fit: nothing of it may be written.
    assert_eq!(w.write_slice(&[4, 5]).unwrap_err(), Error::CapacityExceeded);
    assert_eq!(w.space_left(), 1);
    // An exact fit still goes through afterwards.
    assert!(w.write_slice(&[4]).is_ok());
    assert_eq!(w.space_left(), 0);
}

#[test]
fn writer_buffer_is_zero_padded() {
    let mut w = ByteWriter::new(5);
    assert!(w.write_slice(&[9, 8]).is_ok());
    let buf = w.into_buffer();
    assert_eq!(buf, vec![9, 8, 0, 0, 0]);
}
