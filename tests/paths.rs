use file_explorer::error::FsError;
use file_explorer::path::{base_name, is_plain_name_exec, join_path, parent_path, sibling_path, str_to_path, strip_trailing_exec};

#[test]
fn resolve_drops_trailing_separators() {
    assert_eq!(str_to_path("/a/b/").unwrap(), "/a/b");
    assert_eq!(str_to_path("/a/b//").unwrap(), "/a/b");
    assert_eq!(str_to_path("notes.md").unwrap(), "notes.md");
}

#[test]
fn resolve_rejects_paths_without_name() {
    assert_eq!(str_to_path(""), Err(FsError::InvalidPath));
    assert_eq!(str_to_path("/"), Err(FsError::InvalidPath));
    assert_eq!(str_to_path("/a/.."), Err(FsError::InvalidPath));
    assert_eq!(str_to_path("/a/."), Err(FsError::InvalidPath));
}

#[test]
fn base_name_is_last_component() {
    assert_eq!(base_name("/a/b/old.md"), "old.md");
    assert_eq!(base_name("old.md"), "old.md");
    assert_eq!(base_name("/a/"), "");
}

#[test]
fn parent_of_paths() {
    assert_eq!(parent_path("/a/b/old.md").unwrap(), "/a/b");
    assert_eq!(parent_path("/old.md").unwrap(), "/");
    assert_eq!(parent_path("a//b").unwrap(), "a");
    assert_eq!(parent_path("old.md"), Err(FsError::NoParent));
    assert_eq!(parent_path("/"), Err(FsError::NoParent));
}

#[test]
fn join_and_sibling() {
    assert_eq!(join_path("/a/b", "c.md"), "/a/b/c.md");
    assert_eq!(join_path("/a/b/", "c.md"), "/a/b/c.md");
    assert_eq!(join_path("", "c.md"), "c.md");
    assert_eq!(sibling_path("/a/b/old.md", "new.md"), "/a/b/new.md");
    assert_eq!(sibling_path("old.md", "new.md"), "new.md");
}

#[test]
fn plain_names() {
    assert!(is_plain_name_exec("new.md"));
    assert!(is_plain_name_exec("...") );
    assert!(!is_plain_name_exec(""));
    assert!(!is_plain_name_exec("."));
    assert!(!is_plain_name_exec(".."));
    assert!(!is_plain_name_exec("a/b"));
}

#[test]
fn strip_keeps_lone_root() {
    assert_eq!(strip_trailing_exec("/a/b//"), "/a/b");
    assert_eq!(strip_trailing_exec("///"), "/");
    assert_eq!(strip_trailing_exec(""), "");
}
