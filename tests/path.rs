use rust_maui::path::to_device_path;

#[test]
fn directory_path_translation() {
    assert_eq!(to_device_path("a/b/c", true), "\\a\\b\\c\\");
}

#[test]
fn empty_directory_is_single_backslash() {
    assert_eq!(to_device_path("", true), "\\");
}

#[test]
fn file_path_keeps_ends() {
    assert_eq!(to_device_path("dir/file.txt", false), "dir\\file.txt");
    assert_eq!(to_device_path("/x/", false), "\\x\\");
}

#[test]
fn directory_already_wrapped_is_kept() {
    assert_eq!(to_device_path("\\a\\b\\", true), "\\a\\b\\");
    assert_eq!(to_device_path("/a/", true), "\\a\\");
}

#[test]
fn directory_translation_is_idempotent() {
    for p in ["", "a", "a/b/c", "/a", "b/", "\\x/y", "//"] {
        let once = to_device_path(p, true);
        assert_eq!(to_device_path(&once, true), once);
    }
}
