//! Non-blocking filesystem adapters with verified cursor bookkeeping.
//!
//! This crate models and proves correct the two stateful pieces of a
//! blocking-to-non-blocking filesystem bridge:
//!
//! - the cursor-tracking file adapter ([`File`]), which repairs the cursor
//!   drift introduced by a buffering worker handle so that every read,
//!   write and seek behaves exactly like the same operation on a plain
//!   sequential file — the cursor-consistency law, stated in the
//!   operations' contracts over [`FileView`]; and
//! - the directory enumeration state machine ([`DirStream`]), which
//!   advances a raw directory iterator one entry per completed worker
//!   call, yielding every entry exactly once followed by one
//!   end-of-sequence signal, no matter how many polls find the worker
//!   still busy.
//!
//! The blocking primitive underneath — an operating-system file — is
//! modelled by [`RawFile`]: a byte store with a cursor, one blocking call
//! per operation. The worker-side buffered handle, which reads ahead of
//! the caller and buffers writes, is [`BufFile`]. An embedding that
//! drives real descriptors on a worker thread pool reuses the decision
//! functions in [`cursor`] unchanged; their contracts state exactly how
//! the logical cursor and the dirty flag respond to each event, and the
//! capability traits under [`traits`] give such a backend its interface.

pub mod buf_file;
pub mod cursor;
pub mod dir_builder;
pub mod dir_entry;
pub mod error;
pub mod file;
pub mod meta;
pub mod open_options;
pub mod poll;
pub mod raw_file;
pub mod read_dir;
pub mod traits;

pub use buf_file::BufFile;
pub use dir_builder::DirBuilder;
pub use dir_entry::DirEntry;
pub use error::Error;
pub use file::File;
pub use file::FileView;
pub use meta::FileType;
pub use meta::Metadata;
pub use meta::Permissions;
pub use open_options::OpenOptions;
pub use poll::PollResult;
pub use raw_file::RawFile;
pub use raw_file::SeekFrom;
pub use read_dir::DirLister;
pub use read_dir::DirStream;
pub use traits::async_buf_read::AsyncBufRead;
pub use traits::async_read::AsyncRead;
pub use traits::async_seek::AsyncSeek;
pub use traits::async_write::AsyncWrite;
pub use traits::read_dir::ReadDir;
pub use traits::stream::Stream;
