// The directory enumeration state machine and its entries.

use async_fs::DirEntry;
use async_fs::DirLister;
use async_fs::DirStream;
use async_fs::Error;
use async_fs::PollResult;
use async_fs::Stream;
use async_fs::traits::unix::DirEntryExt;

fn entry(name: &str, ino: u64) -> DirEntry {
    DirEntry::new(format!("dir/{}", name), name.to_string(), ino)
}

fn three_entries() -> Vec<Result<DirEntry, Error>> {
    vec![Ok(entry("a", 1)), Ok(entry("b", 2)), Ok(entry("c", 3))]
}

#[test]
fn enumeration_yields_each_entry_once_then_one_end_signal() {
    let mut stream = DirStream::new(DirLister::new(three_entries()), 2);
    let mut names: Vec<String> = Vec::new();
    let mut pendings = 0;
    let mut ends = 0;
    // Poll until the end signal; count how often the worker was not ready.
    loop {
        match stream.poll_next_entry() {
            PollResult::Pending => pendings += 1,
            PollResult::Ready(Some(Ok(e))) => names.push(e.file_name()),
            PollResult::Ready(Some(Err(e))) => panic!("unexpected error {:?}", e),
            PollResult::Ready(None) => {
                ends += 1;
                break;
            }
        }
    }
    assert_eq!(names, vec!["a".to_string(), "b".to_string(), "c".to_string()]);
    assert_eq!(ends, 1);
    // Each of the four advances (three entries, one end) stayed pending
    // twice with the configured latency.
    assert_eq!(pendings, 8);
}

#[test]
fn enumeration_with_immediate_worker_never_pends() {
    let mut stream = DirStream::new(DirLister::new(three_entries()), 0);
    for expected in ["a", "b", "c"] {
        match stream.poll_next_entry() {
            PollResult::Ready(Some(Ok(e))) => assert_eq!(e.file_name(), expected),
            other => panic!("expected an entry, got {:?}", pending_or(other)),
        }
    }
    assert!(matches!(stream.poll_next_entry(), PollResult::Ready(None)));
}

fn pending_or(r: PollResult<Option<Result<DirEntry, Error>>>) -> String {
    match r {
        PollResult::Pending => "pending".to_string(),
        PollResult::Ready(None) => "end".to_string(),
        PollResult::Ready(Some(Ok(e))) => format!("entry {}", e.file_name()),
        PollResult::Ready(Some(Err(e))) => format!("error {:?}", e),
    }
}

#[test]
fn drain_collects_every_item_in_order() {
    let items = vec![
        Ok(entry("x", 7)),
        Err(Error::PermissionDenied),
        Ok(entry("y", 8)),
    ];
    let mut stream = DirStream::new(DirLister::new(items), 3);
    let collected = stream.drain();
    assert_eq!(collected.len(), 3);
    assert_eq!(collected[0].as_ref().unwrap().file_name(), "x");
    assert_eq!(*collected[1].as_ref().unwrap_err(), Error::PermissionDenied);
    assert_eq!(collected[2].as_ref().unwrap().file_name(), "y");
}

#[test]
fn polling_past_the_end_keeps_reporting_the_end() {
    let mut stream = DirStream::new(DirLister::new(Vec::new()), 0);
    assert!(matches!(stream.poll_next_entry(), PollResult::Ready(None)));
    assert!(matches!(stream.poll_next_entry(), PollResult::Ready(None)));
}

#[test]
fn stream_trait_drives_the_enumeration() {
    let mut stream = DirStream::new(DirLister::new(three_entries()), 0);
    assert_eq!(stream.size_hint(), (0, None));
    match Stream::poll_next(&mut stream) {
        PollResult::Ready(Some(Ok(e))) => assert_eq!(e.file_name(), "a"),
        _ => panic!("expected the first entry"),
    }
}

#[test]
fn dir_entry_exposes_path_name_and_ino() {
    let e = DirEntry::new("some/dir/a.txt".to_string(), "a.txt".to_string(), 42);
    assert_eq!(e.path(), "some/dir/a.txt");
    assert_eq!(e.file_name(), "a.txt");
    assert_eq!(e.ino(), 42);
    let c = e.clone();
    assert_eq!(c.path(), "some/dir/a.txt");
}

#[test]
fn lister_advances_through_items_and_stays_exhausted() {
    let mut lister = DirLister::new(vec![Ok(entry("only", 5))]);
    match lister.advance() {
        Some(Ok(e)) => assert_eq!(e.file_name(), "only"),
        _ => panic!("expected the entry"),
    }
    assert!(lister.advance().is_none());
    assert!(lister.advance().is_none());
}
