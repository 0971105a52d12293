// The capability traits, driven through their generic surface.

use async_fs::AsyncBufRead;
use async_fs::AsyncRead;
use async_fs::AsyncSeek;
use async_fs::AsyncWrite;
use async_fs::BufFile;
use async_fs::Error;
use async_fs::File;
use async_fs::PollResult;
use async_fs::RawFile;
use async_fs::SeekFrom;

fn bytes_of(r: PollResult<Result<Vec<u8>, Error>>) -> Vec<u8> {
    match r {
        PollResult::Ready(Ok(bytes)) => bytes,
        other => panic!("expected bytes, got {:?}", other),
    }
}

#[test]
fn async_read_polls_bytes_out_of_a_file() {
    let mut file = File::new(RawFile::new(b"abc".to_vec()), false);
    assert_eq!(bytes_of(AsyncRead::poll_read(&mut file, 2)), b"ab".to_vec());
}

#[test]
fn async_read_vectored_uses_the_first_buffer_with_room() {
    let mut file = File::new(RawFile::new(b"abcdef".to_vec()), false);
    let maxes = vec![0, 0, 3, 8];
    assert_eq!(
        bytes_of(AsyncRead::poll_read_vectored(&mut file, &maxes)),
        b"abc".to_vec()
    );
}

#[test]
fn async_read_vectored_with_only_full_buffers_reads_nothing() {
    let mut file = File::new(RawFile::new(b"abc".to_vec()), false);
    let maxes = vec![0, 0];
    assert_eq!(
        bytes_of(AsyncRead::poll_read_vectored(&mut file, &maxes)),
        Vec::<u8>::new()
    );
}

#[test]
fn async_write_vectored_uses_the_first_non_empty_buffer() {
    let mut file = File::new(RawFile::new(Vec::new()), false);
    let bufs = vec![Vec::new(), b"AB".to_vec(), b"C".to_vec()];
    match AsyncWrite::poll_write_vectored(&mut file, &bufs) {
        PollResult::Ready(Ok(n)) => assert_eq!(n, 2),
        other => panic!("expected a write of two bytes, got {:?}", other),
    }
    assert!(matches!(
        AsyncWrite::poll_flush(&mut file),
        PollResult::Ready(Ok(()))
    ));
    assert_eq!(file.into_inner().data, b"AB".to_vec());
}

#[test]
fn async_write_close_reports_success() {
    let mut file = File::new(RawFile::new(Vec::new()), false);
    assert!(matches!(
        AsyncWrite::poll_close(&mut file),
        PollResult::Ready(Ok(()))
    ));
}

#[test]
fn async_seek_moves_the_cursor() {
    let mut file = File::new(RawFile::new(b"abcdef".to_vec()), false);
    match AsyncSeek::poll_seek(&mut file, SeekFrom::End(-2)) {
        PollResult::Ready(Ok(pos)) => assert_eq!(pos, 4),
        other => panic!("expected position four, got {:?}", other),
    }
    assert_eq!(bytes_of(AsyncRead::poll_read(&mut file, 8)), b"ef".to_vec());
}

#[test]
fn buffered_reading_pairs_fill_with_consume() {
    let mut handle = BufFile::new(RawFile::new(b"hello".to_vec()), 2);
    assert_eq!(bytes_of(AsyncBufRead::poll_fill_buf(&mut handle)), b"he".to_vec());
    AsyncBufRead::consume(&mut handle, 1);
    // One byte is still buffered; a fill returns it without reading more.
    assert_eq!(bytes_of(AsyncBufRead::poll_fill_buf(&mut handle)), b"e".to_vec());
    AsyncBufRead::consume(&mut handle, 1);
    assert_eq!(bytes_of(AsyncBufRead::poll_fill_buf(&mut handle)), b"ll".to_vec());
    AsyncBufRead::consume(&mut handle, 2);
    assert_eq!(bytes_of(AsyncBufRead::poll_fill_buf(&mut handle)), b"o".to_vec());
    AsyncBufRead::consume(&mut handle, 1);
    // An empty fill is the end of the stream.
    assert_eq!(bytes_of(AsyncBufRead::poll_fill_buf(&mut handle)), Vec::<u8>::new());
}

#[test]
fn buffered_handle_reads_like_a_plain_reader() {
    let mut handle = BufFile::new(RawFile::new(b"stream".to_vec()), 4);
    assert_eq!(bytes_of(AsyncRead::poll_read(&mut handle, 3)), b"str".to_vec());
    assert_eq!(bytes_of(AsyncRead::poll_read(&mut handle, 3)), b"e".to_vec());
    assert_eq!(bytes_of(AsyncRead::poll_read(&mut handle, 3)), b"am".to_vec());
}
