//! The capability interfaces of an asynchronous filesystem.
//!
//! Each trait names one capability — reading, writing, seeking, buffered
//! reading, streaming values, enumerating a directory — together with the
//! platform-specific extension traits. A backend implements the
//! capabilities its objects actually have; the types of this crate
//! implement them once, and an embedding over real descriptors can
//! implement them again without touching the verified logic.

pub mod async_buf_read;
pub mod async_read;
pub mod async_seek;
pub mod async_write;
pub mod read_dir;
pub mod stream;
pub mod unix;
pub mod windows;
