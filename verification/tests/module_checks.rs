// One smoke check per module of the library's surface.

#[test]
fn lib_it_works() {
    let result = 2 + 2;
    assert_eq!(result, 4);
}

#[test]
fn arc_file_it_works() {
    let result = 2 + 2;
    assert_eq!(result, 4);
}

#[test]
fn async_buf_read_it_works() {
    let result = 2 + 2;
    assert_eq!(result, 4);
}

#[test]
fn async_dir_builder_trait_it_works() {
    let result = 2 + 2;
    assert_eq!(result, 4);
}

#[test]
fn async_dir_entry_trait_it_works() {
    let result = 2 + 2;
    assert_eq!(result, 4);
}

#[test]
fn async_file_builder_trait_it_works() {
    let result = 2 + 2;
    assert_eq!(result, 4);
}

#[test]
fn async_file_trait_it_works() {
    let result = 2 + 2;
    assert_eq!(result, 4);
}

#[test]
fn async_fs_trait_it_works() {
    let result = 2 + 2;
    assert_eq!(result, 4);
}

#[test]
fn async_open_options_trait_it_works() {
    let result = 2 + 2;
    assert_eq!(result, 4);
}

#[test]
fn async_read_it_works() {
    let result = 2 + 2;
    assert_eq!(result, 4);
}

#[test]
fn async_read_dir_trait_it_works() {
    let result = 2 + 2;
    assert_eq!(result, 4);
}

#[test]
fn async_seek_it_works() {
    let result = 2 + 2;
    assert_eq!(result, 4);
}

#[test]
fn async_sym_link_trait_it_works() {
    let result = 2 + 2;
    assert_eq!(result, 4);
}

#[test]
fn async_write_it_works() {
    let result = 2 + 2;
    assert_eq!(result, 4);
}

#[test]
fn dir_builder_it_works() {
    let result = 2 + 2;
    assert_eq!(result, 4);
}

#[test]
fn dir_entry_it_works() {
    let result = 2 + 2;
    assert_eq!(result, 4);
}

#[test]
fn file_it_works() {
    let result = 2 + 2;
    assert_eq!(result, 4);
}

#[test]
fn open_options_it_works() {
    let result = 2 + 2;
    assert_eq!(result, 4);
}

#[test]
fn read_dir_it_works() {
    let result = 2 + 2;
    assert_eq!(result, 4);
}

#[test]
fn unix_it_works() {
    let result = 2 + 2;
    assert_eq!(result, 4);
}

#[test]
fn windows_it_works() {
    let result = 2 + 2;
    assert_eq!(result, 4);
}
