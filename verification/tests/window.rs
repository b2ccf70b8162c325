use slice_proof::window::FakeSeeker;
use std::io::{Read, Seek, SeekFrom};

#[test]
fn a_new_window_has_read_nothing() {
    let data = [7u8; 40];
    let window = FakeSeeker::new(&data);
    assert_eq!(window.position(), 0);
    assert_eq!(window.remaining(), 40);
}

#[test]
fn reading_hands_out_the_buffer_front_to_back() {
    let data = [1u8, 2, 3, 4, 5];
    let mut window = FakeSeeker::new(&data);
    let mut buf = [0u8; 3];
    assert_eq!(window.read(&mut buf).unwrap(), 3);
    assert_eq!(buf, [1, 2, 3]);
    assert_eq!(window.position(), 3);
    assert_eq!(window.remaining(), 2);
    // Only the front of the buffer is written where less is left.
    let mut buf = [9u8; 3];
    assert_eq!(window.read(&mut buf).unwrap(), 2);
    assert_eq!(buf, [4, 5, 9]);
    assert_eq!(window.position(), 5);
    assert_eq!(window.remaining(), 0);
    // A used-up window reads nothing.
    let mut buf = [9u8; 3];
    assert_eq!(window.read(&mut buf).unwrap(), 0);
    assert_eq!(buf, [9, 9, 9]);
    assert_eq!(window.position(), 5);
}

#[test]
fn reading_into_no_room_reads_nothing() {
    let data = [1u8, 2, 3];
    let mut window = FakeSeeker::new(&data);
    let mut buf = [0u8; 0];
    assert_eq!(window.read(&mut buf).unwrap(), 0);
    assert_eq!(window.position(), 0);
    assert_eq!(window.remaining(), 3);
}

#[test]
fn seeking_moves_nothing_and_reports_the_bytes_read() {
    let data = [1u8, 2, 3, 4, 5];
    let mut window = FakeSeeker::new(&data);
    assert_eq!(window.seek(SeekFrom::Start(4)).unwrap(), 0);
    let mut buf = [0u8; 2];
    assert_eq!(window.read(&mut buf).unwrap(), 2);
    assert_eq!(buf, [1, 2]);
    assert_eq!(window.seek(SeekFrom::Start(0)).unwrap(), 2);
    assert_eq!(window.seek(SeekFrom::End(-1)).unwrap(), 2);
    assert_eq!(window.seek(SeekFrom::Current(100)).unwrap(), 2);
    assert_eq!(window.seek(SeekFrom::Start(u64::MAX)).unwrap(), 2);
    assert_eq!(window.read(&mut buf).unwrap(), 2);
    assert_eq!(buf, [3, 4]);
    assert_eq!(window.seek(SeekFrom::Start(1)).unwrap(), 4);
}

#[test]
fn read_exact_fails_where_the_window_ends() {
    let data = [1u8, 2, 3];
    let mut window = FakeSeeker::new(&data);
    let mut buf = [0u8; 4];
    let err = window.read_exact(&mut buf).unwrap_err();
    assert_eq!(err.kind(), std::io::ErrorKind::UnexpectedEof);
}

#[test]
fn read_to_end_gives_the_whole_window() {
    let data: Vec<u8> = (0..=255u8).cycle().take(3000).collect();
    let mut window = FakeSeeker::new(&data);
    let mut out = Vec::new();
    assert_eq!(window.read_to_end(&mut out).unwrap(), 3000);
    assert_eq!(out, data);
    assert_eq!(window.position(), 3000);
}
