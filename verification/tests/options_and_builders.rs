// Opening files with options, building directories, and the value
// objects.

use async_fs::DirBuilder;
use async_fs::Error;
use async_fs::FileType;
use async_fs::OpenOptions;
use async_fs::Permissions;
use async_fs::RawFile;
use async_fs::traits::unix::DirBuilderExt;
use async_fs::traits::unix::OpenOptionsExt;

#[test]
fn open_with_no_access_mode_is_invalid_input() {
    let opts = OpenOptions::new();
    assert!(matches!(opts.open(None), Err(Error::InvalidInput)));
}

#[test]
fn truncate_without_write_is_invalid_input() {
    let mut opts = OpenOptions::new();
    opts.read(true);
    opts.truncate(true);
    assert!(matches!(
        opts.open(Some(RawFile::new(b"abc".to_vec()))),
        Err(Error::InvalidInput)
    ));
}

#[test]
fn truncate_with_append_is_invalid_input() {
    let mut opts = OpenOptions::new();
    opts.append(true);
    opts.truncate(true);
    assert!(matches!(opts.open(None), Err(Error::InvalidInput)));
}

#[test]
fn create_without_write_is_invalid_input() {
    let mut opts = OpenOptions::new();
    opts.read(true);
    opts.create(true);
    assert!(matches!(opts.open(None), Err(Error::InvalidInput)));
}

#[test]
fn open_missing_file_without_create_is_not_found() {
    let mut opts = OpenOptions::new();
    opts.read(true);
    assert!(matches!(opts.open(None), Err(Error::NotFound)));
}

#[test]
fn create_new_on_existing_file_is_already_exists() {
    let mut opts = OpenOptions::new();
    opts.write(true);
    opts.create_new(true);
    assert!(matches!(
        opts.open(Some(RawFile::new(b"old".to_vec()))),
        Err(Error::AlreadyExists)
    ));
}

#[test]
fn writing_a_read_only_file_is_permission_denied() {
    let mut stored = RawFile::new(b"keep".to_vec());
    stored.perm = Permissions { read_only: true };
    let mut opts = OpenOptions::new();
    opts.write(true);
    assert!(matches!(opts.open(Some(stored)), Err(Error::PermissionDenied)));
}

#[test]
fn reading_a_read_only_file_is_allowed() {
    let mut stored = RawFile::new(b"keep".to_vec());
    stored.perm = Permissions { read_only: true };
    let mut opts = OpenOptions::new();
    opts.read(true);
    let mut file = opts.open(Some(stored)).unwrap();
    assert_eq!(file.read_to_end().unwrap(), b"keep".to_vec());
}

#[test]
fn truncate_empties_an_existing_file() {
    let mut opts = OpenOptions::new();
    opts.write(true);
    opts.truncate(true);
    let mut file = opts.open(Some(RawFile::new(b"gone".to_vec()))).unwrap();
    assert_eq!(file.metadata().unwrap().len(), 0);
    assert_eq!(file.read_to_end().unwrap(), Vec::<u8>::new());
}

#[test]
fn open_preserves_existing_contents_without_truncate() {
    let mut opts = OpenOptions::new();
    opts.read(true);
    opts.write(true);
    let mut file = opts.open(Some(RawFile::new(b"kept".to_vec()))).unwrap();
    assert_eq!(file.read_to_end().unwrap(), b"kept".to_vec());
}

#[test]
fn open_options_default_is_blank() {
    assert_eq!(OpenOptions::default(), OpenOptions::new());
    let blank = OpenOptions::new();
    assert!(!blank.read && !blank.write && !blank.append);
    assert!(!blank.truncate && !blank.create && !blank.create_new);
    assert_eq!(blank.mode, 0o666);
    assert_eq!(blank.custom_flags, 0);
}

#[test]
fn open_options_unix_extensions_set_mode_and_flags() {
    let mut opts = OpenOptions::new();
    OpenOptionsExt::mode(&mut opts, 0o600);
    OpenOptionsExt::custom_flags(&mut opts, 7);
    assert_eq!(opts.mode, 0o600);
    assert_eq!(opts.custom_flags, 7);
}

#[test]
fn dir_builder_starts_blank_and_takes_options() {
    let mut builder = DirBuilder::new();
    assert!(!builder.recursive);
    assert!(builder.mode.is_none());
    builder.recursive(true);
    assert!(builder.recursive);
    DirBuilderExt::mode(&mut builder, 0o755);
    assert_eq!(builder.mode, Some(0o755));
}

#[test]
fn dir_builder_default_is_blank() {
    let builder = DirBuilder::default();
    assert!(!builder.recursive);
    assert!(builder.mode.is_none());
}

#[test]
fn file_type_distinguishes_files_directories_and_links() {
    let regular = FileType::regular();
    assert!(regular.is_file());
    assert!(!regular.is_dir());
    assert!(!regular.is_symlink());
    let dir = FileType { dir: true, symlink: false };
    assert!(dir.is_dir());
    assert!(!dir.is_file());
    let link = FileType { dir: false, symlink: true };
    assert!(link.is_symlink());
    assert!(!link.is_file());
}

#[test]
fn permissions_toggle_the_read_only_bit() {
    let mut perm = Permissions::writable();
    assert!(!perm.readonly());
    perm.set_readonly(true);
    assert!(perm.readonly());
    perm.set_readonly(false);
    assert!(!perm.readonly());
}
