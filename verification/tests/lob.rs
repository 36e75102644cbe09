use yashandb::ffi::YacTempLobType;
use yashandb::lob::{read_fits, Lob, LobCall, LobIo};
use yashandb::{Blob, Clob, Error};

fn offset_error(e: &Error) -> bool {
    matches!(e, Error::InvalidArgument(m) if m == "LOB offset must start at 1")
}

#[test]
fn blob_positioned_io_checks_offsets() {
    let blob = Blob::from_lob(Lob::new(1u8));
    assert!(offset_error(&blob.read_at(0, 4).unwrap_err()));
    assert_eq!(blob.read_at(3, 0).unwrap(), None);
    assert_eq!(
        blob.read_at(3, 4).unwrap(),
        Some(LobIo { offset: 3, byte_size: 4, char_size: 0 })
    );
    assert!(offset_error(&blob.write_at(0, b"x").unwrap_err()));
    assert_eq!(blob.write_at(2, b"").unwrap(), None);
    assert_eq!(
        blob.write_at(2, b"abc").unwrap(),
        Some(LobIo { offset: 2, byte_size: 3, char_size: 0 })
    );
    assert_eq!(blob.append(b""), None);
    assert_eq!(blob.append(b"ab"), Some(LobIo { offset: 0, byte_size: 2, char_size: 0 }));
}

#[test]
fn blob_calls_need_a_live_locator() {
    let mut blob = Blob::from_lob(Lob::new(1u8));
    assert_eq!(blob.len().unwrap(), LobCall::Length);
    assert_eq!(blob.truncate(5).unwrap(), LobCall::Trim(5));
    assert_eq!(blob.finish(), Some(LobCall::CheckTemporary));
    let mut lob = Lob::new(2u8);
    let _moved = lob.take();
    let released = Blob::from_lob(lob);
    let err = released.len().unwrap_err();
    assert!(matches!(err, Error::Internal(m) if m == "LOB locator was already released"));
    assert_eq!(released.finish(), None);
}

#[test]
fn read_to_end_reads_multiple_blob_chunks() {
    let blob = Blob::from_lob(Lob::new(()));
    let mut reader = blob.read_to_end(10, 4).unwrap();
    assert_eq!(reader.next(), Some((1, 4)));
    assert_eq!(reader.advance(4, 4).unwrap(), 4);
    assert_eq!(reader.next(), Some((5, 4)));
    assert_eq!(reader.advance(4, 4).unwrap(), 4);
    assert_eq!(reader.next(), Some((9, 2)));
    assert_eq!(reader.advance(2, 2).unwrap(), 2);
    assert_eq!(reader.next(), None);
    assert_eq!(reader.filled(), 10);
}

#[test]
fn read_to_end_stops_at_a_short_read() {
    let blob = Blob::from_lob(Lob::new(()));
    let mut reader = blob.read_to_end(10, 0).unwrap();
    assert_eq!(reader.next(), Some((1, 1)));
    assert_eq!(reader.advance(1, 0).unwrap(), 0);
    assert_eq!(reader.next(), None);
    let err = blob.read_to_end(u64::MAX, 4).unwrap_err();
    assert!(matches!(err, Error::LobTooLarge { length: u64::MAX }));
}

#[test]
fn client_overrun_is_refused() {
    let err = read_fits(9, 8).unwrap_err();
    assert!(matches!(err, Error::Internal(m) if m == "yacLobRead2 returned more bytes than the supplied buffer"));
    assert_eq!(read_fits(8, 8).unwrap(), 8);
}

#[test]
fn clob_sizes_reads_by_charset_ratio() {
    let clob = Clob::from_lob(Lob::new(()), YacTempLobType::Clob);
    assert_eq!(clob.charset_ratio(Some(Ok(0))).unwrap(), 1);
    assert_eq!(clob.charset_ratio(Some(Ok(3))).unwrap(), 3);
    let nclob = Clob::from_lob(Lob::new(()), YacTempLobType::NClob);
    assert_eq!(nclob.charset_ratio(None).unwrap(), 4);
    assert_eq!(
        clob.read_at(2, 5, 3).unwrap(),
        Some(LobIo { offset: 2, byte_size: 15, char_size: 5 })
    );
    assert_eq!(clob.read_at(2, 0, 3).unwrap(), None);
    assert!(offset_error(&clob.read_at(0, 5, 3).unwrap_err()));
}

#[test]
fn temporary_clob_uses_character_offsets_and_utf8() {
    let clob = Clob::from_lob(Lob::new(()), YacTempLobType::Clob);
    assert_eq!(
        clob.write_at(1, "雪a").unwrap(),
        LobIo { offset: 1, byte_size: 4, char_size: 2 }
    );
    assert_eq!(clob.append("用户"), LobIo { offset: 0, byte_size: 6, char_size: 2 });
}

#[test]
fn read_to_string_reads_multiple_clob_chunks() {
    let clob = Clob::from_lob(Lob::new(()), YacTempLobType::Clob);
    let (mut reader, reserve) = clob.read_to_string(5, 4, 8).unwrap();
    assert_eq!(reserve, 20);
    assert_eq!(reader.next(), Some((1, 2)));
    reader.advance(2);
    assert_eq!(reader.next(), Some((3, 2)));
    reader.advance(2);
    assert_eq!(reader.next(), Some((5, 2)));
    reader.advance(1);
    assert_eq!(reader.next(), None);
}

#[test]
fn temporary_lobs_are_freed_only_while_live() {
    let mut lob = Lob::new(5u8);
    assert!(lob.must_free_temporary(true));
    assert!(!lob.must_free_temporary(false));
    let taken = lob.take().unwrap();
    assert!(!lob.must_free_temporary(true));
    assert!(taken.is_live());
    assert_eq!(taken.into_locator(), Some(5));
}
