// The cursor-tracking file adapter, exercised end to end over the
// in-memory blocking primitive.

use async_fs::Error;
use async_fs::File;
use async_fs::OpenOptions;
use async_fs::PollResult;
use async_fs::RawFile;
use async_fs::SeekFrom;

fn read_ready(r: PollResult<Result<Vec<u8>, Error>>) -> Vec<u8> {
    match r {
        PollResult::Ready(Ok(bytes)) => bytes,
        PollResult::Ready(Err(e)) => panic!("read failed: {:?}", e),
        PollResult::Pending => panic!("read pending"),
    }
}

fn write_ready(r: PollResult<Result<usize, Error>>) -> usize {
    match r {
        PollResult::Ready(Ok(n)) => n,
        PollResult::Ready(Err(e)) => panic!("write failed: {:?}", e),
        PollResult::Pending => panic!("write pending"),
    }
}

fn seek_ready(r: PollResult<Result<u64, Error>>) -> Result<u64, Error> {
    match r {
        PollResult::Ready(res) => res,
        PollResult::Pending => panic!("seek pending"),
    }
}

fn open_rw_empty() -> File {
    let mut opts = OpenOptions::new();
    opts.read(true);
    opts.write(true);
    opts.create(true);
    opts.open(None).unwrap()
}

#[test]
fn round_trip_write_seek_read() {
    let mut file = open_rw_empty();
    let payload = b"0123456789abcdef".to_vec();
    assert_eq!(write_ready(file.poll_write(&payload)), 16);
    assert_eq!(seek_ready(file.poll_seek(SeekFrom::Start(0))), Ok(0));
    let back = read_ready(file.poll_read(16));
    assert_eq!(back, payload);
}

#[test]
fn scenario_write_seek_read_then_overwrite() {
    let mut file = open_rw_empty();
    assert_eq!(write_ready(file.poll_write(&b"ABCDE".to_vec())), 5);
    assert_eq!(seek_ready(file.poll_seek(SeekFrom::Start(2))), Ok(2));
    assert_eq!(read_ready(file.poll_read(2)), b"CD".to_vec());
    // Reading two bytes moved the cursor to offset four, so the write
    // overwrites the byte there.
    assert_eq!(seek_ready(file.poll_seek(SeekFrom::Current(0))), Ok(4));
    assert_eq!(write_ready(file.poll_write(&b"X".to_vec())), 1);
    assert!(matches!(file.poll_flush(), PollResult::Ready(Ok(()))));
    let raw = file.into_inner();
    assert_eq!(raw.data, b"ABCDX".to_vec());
}

#[test]
fn scenario_create_write_flush_reopen_read() {
    let mut file = open_rw_empty();
    assert_eq!(write_ready(file.poll_write(&b"Hello, world!".to_vec())), 13);
    assert!(matches!(file.poll_flush(), PollResult::Ready(Ok(()))));
    let stored = file.into_inner();

    let mut opts = OpenOptions::new();
    opts.read(true);
    let mut reopened = opts.open(Some(stored)).unwrap();
    let contents = reopened.read_to_end().unwrap();
    assert_eq!(contents, b"Hello, world!".to_vec());
}

#[test]
fn unflushed_writes_are_lost_on_drop() {
    let mut file = open_rw_empty();
    assert_eq!(write_ready(file.poll_write(&b"Hello, world!".to_vec())), 13);
    // No flush: dropping the handle discards what the worker still buffers.
    let stored = file.into_inner();
    assert_eq!(stored.data, Vec::<u8>::new());
}

#[test]
fn write_lands_at_consumed_position_despite_read_ahead() {
    // Reading one byte prefetches far past it; the write must still land
    // right after the byte the caller consumed.
    let mut opts = OpenOptions::new();
    opts.read(true);
    opts.write(true);
    let mut file = opts.open(Some(RawFile::new(b"ABCDEF".to_vec()))).unwrap();
    assert_eq!(read_ready(file.poll_read(1)), b"A".to_vec());
    assert_eq!(write_ready(file.poll_write(&b"Z".to_vec())), 1);
    assert!(matches!(file.poll_flush(), PollResult::Ready(Ok(()))));
    assert_eq!(file.into_inner().data, b"AZCDEF".to_vec());
}

#[test]
fn relative_seek_is_relative_to_consumed_position() {
    let mut opts = OpenOptions::new();
    opts.read(true);
    let mut file = opts.open(Some(RawFile::new(b"ABCDEF".to_vec()))).unwrap();
    assert_eq!(read_ready(file.poll_read(2)), b"AB".to_vec());
    // The descriptor has read far ahead; Current(1) must still mean 2 + 1.
    assert_eq!(seek_ready(file.poll_seek(SeekFrom::Current(1))), Ok(3));
    assert_eq!(read_ready(file.poll_read(2)), b"DE".to_vec());
}

#[test]
fn interleaved_reads_writes_and_seeks_match_sequential_contents() {
    let mut file = open_rw_empty();
    assert_eq!(write_ready(file.poll_write(&b"hello world".to_vec())), 11);
    assert_eq!(seek_ready(file.poll_seek(SeekFrom::Start(6))), Ok(6));
    assert_eq!(read_ready(file.poll_read(3)), b"wor".to_vec());
    assert_eq!(write_ready(file.poll_write(&b"LD".to_vec())), 2);
    assert_eq!(seek_ready(file.poll_seek(SeekFrom::End(-1))), Ok(10));
    assert_eq!(write_ready(file.poll_write(&b"D!".to_vec())), 2);
    assert!(matches!(file.poll_flush(), PollResult::Ready(Ok(()))));
    assert_eq!(file.into_inner().data, b"hello worLD!".to_vec());
}

#[test]
fn two_flushes_perform_at_most_one_underlying_flush() {
    let mut file = open_rw_empty();
    assert_eq!(write_ready(file.poll_write(&b"abc".to_vec())), 3);
    assert!(matches!(file.poll_flush(), PollResult::Ready(Ok(()))));
    assert_eq!(file.flush_count(), 1);
    assert!(matches!(file.poll_flush(), PollResult::Ready(Ok(()))));
    assert_eq!(file.flush_count(), 1);
}

#[test]
fn flush_of_clean_file_forwards_nothing() {
    let mut file = open_rw_empty();
    assert!(matches!(file.poll_flush(), PollResult::Ready(Ok(()))));
    assert_eq!(file.flush_count(), 0);
}

#[test]
fn sync_all_flushes_buffered_writes_and_syncs() {
    let mut file = open_rw_empty();
    assert_eq!(write_ready(file.poll_write(&b"durable".to_vec())), 7);
    assert_eq!(file.sync_count(), 0);
    assert_eq!(file.sync_all(), Ok(()));
    assert_eq!(file.sync_count(), 1);
    assert_eq!(file.flush_count(), 1);
    // Everything written before the sync is on the descriptor.
    assert_eq!(file.into_inner().data, b"durable".to_vec());
}

#[test]
fn sync_data_flushes_buffered_writes_and_syncs() {
    let mut file = open_rw_empty();
    assert_eq!(write_ready(file.poll_write(&b"x".to_vec())), 1);
    assert_eq!(file.sync_data(), Ok(()));
    assert_eq!(file.sync_count(), 1);
    assert_eq!(file.into_inner().data, b"x".to_vec());
}

#[test]
fn metadata_reports_descriptor_length_not_buffered_writes() {
    let mut file = open_rw_empty();
    assert_eq!(write_ready(file.poll_write(&b"abc".to_vec())), 3);
    assert_eq!(file.metadata().unwrap().len(), 0);
    assert!(matches!(file.poll_flush(), PollResult::Ready(Ok(()))));
    assert_eq!(file.metadata().unwrap().len(), 3);
    assert!(file.metadata().unwrap().is_file());
}

#[test]
fn set_len_truncates_and_extends_without_moving_cursor() {
    let mut file = open_rw_empty();
    assert_eq!(write_ready(file.poll_write(&b"hello".to_vec())), 5);
    assert_eq!(file.set_len(2), Ok(()));
    // The cursor stays at 5, past the new end.
    assert_eq!(seek_ready(file.poll_seek(SeekFrom::Current(0))), Ok(5));
    assert_eq!(file.set_len(4), Ok(()));
    assert_eq!(seek_ready(file.poll_seek(SeekFrom::Start(0))), Ok(0));
    assert_eq!(read_ready(file.poll_read(10)), b"he\0\0".to_vec());
}

#[test]
fn seek_to_negative_offset_is_invalid_input() {
    let mut opts = OpenOptions::new();
    opts.read(true);
    let mut file = opts.open(Some(RawFile::new(b"abc".to_vec()))).unwrap();
    assert_eq!(
        seek_ready(file.poll_seek(SeekFrom::Current(-10))),
        Err(Error::InvalidInput)
    );
    // The failed seek moved nothing.
    assert_eq!(seek_ready(file.poll_seek(SeekFrom::Current(0))), Ok(0));
}

#[test]
fn seek_past_end_then_write_zero_fills_the_gap() {
    let mut file = open_rw_empty();
    assert_eq!(seek_ready(file.poll_seek(SeekFrom::Start(3))), Ok(3));
    assert_eq!(write_ready(file.poll_write(&b"x".to_vec())), 1);
    assert!(matches!(file.poll_flush(), PollResult::Ready(Ok(()))));
    assert_eq!(file.into_inner().data, b"\0\0\0x".to_vec());
}

#[test]
fn unseekable_stream_reads_sequentially_and_rejects_seeks() {
    let mut file = File::new(RawFile::stream(b"xyz".to_vec()), false);
    assert_eq!(read_ready(file.poll_read(2)), b"xy".to_vec());
    assert_eq!(read_ready(file.poll_read(2)), b"z".to_vec());
    match seek_ready(file.poll_seek(SeekFrom::Start(0))) {
        Err(Error::Os(code)) => assert_eq!(code, 29),
        other => panic!("expected the not-seekable error, got {:?}", other),
    }
}

#[test]
fn append_mode_writes_land_at_the_end() {
    let mut opts = OpenOptions::new();
    opts.read(true);
    opts.append(true);
    let mut file = opts.open(Some(RawFile::new(b"log:".to_vec()))).unwrap();
    // Reading first leaves the cursor at 2; the append write still lands
    // at the end of the file.
    assert_eq!(read_ready(file.poll_read(2)), b"lo".to_vec());
    assert_eq!(write_ready(file.poll_write(&b"entry".to_vec())), 5);
    assert!(matches!(file.poll_flush(), PollResult::Ready(Ok(()))));
    assert_eq!(file.into_inner().data, b"log:entry".to_vec());
}

#[test]
fn read_to_end_from_the_middle() {
    let mut opts = OpenOptions::new();
    opts.read(true);
    let mut file = opts.open(Some(RawFile::new(b"abcdef".to_vec()))).unwrap();
    assert_eq!(seek_ready(file.poll_seek(SeekFrom::Start(4))), Ok(4));
    assert_eq!(file.read_to_end().unwrap(), b"ef".to_vec());
    assert_eq!(file.read_to_end().unwrap(), Vec::<u8>::new());
}

#[test]
fn poll_close_reports_success_and_implies_no_flush() {
    let mut file = open_rw_empty();
    assert_eq!(write_ready(file.poll_write(&b"gone".to_vec())), 4);
    assert!(matches!(file.poll_close(), PollResult::Ready(Ok(()))));
    assert_eq!(file.flush_count(), 0);
    assert_eq!(file.into_inner().data, Vec::<u8>::new());
}

#[test]
fn set_permissions_round_trip() {
    let mut file = open_rw_empty();
    let mut perm = file.metadata().unwrap().permissions();
    assert!(!perm.readonly());
    perm.set_readonly(true);
    assert_eq!(file.set_permissions(perm), Ok(()));
    assert!(file.metadata().unwrap().permissions().readonly());
}
