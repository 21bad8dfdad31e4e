use file_explorer::error::FsError;
use file_explorer::ops::{delete_file, move_file, new_file, rename, RemoveAction, RespondOpenFile};
use file_explorer::tree::{FileEntryType, PathStatus};

fn s(v: &str) -> String {
    v.to_string()
}

#[test]
fn rename_stays_in_directory() {
    let r = rename(s("n1"), s("/a/b/old.md"), s("new.md")).unwrap();
    assert_eq!(r.id, "n1");
    assert_eq!(r.old_path, "/a/b/old.md");
    assert_eq!(r.old_name, "old.md");
    assert_eq!(r.new_path, "/a/b/new.md");
    assert_eq!(r.new_name, "new.md");
}

#[test]
fn rename_rejects_bad_names() {
    assert_eq!(rename(s("n1"), s("/"), s("new.md")).err(), Some(FsError::InvalidPath));
    assert_eq!(rename(s("n1"), s("/a/old.md"), s("x/y.md")).err(), Some(FsError::InvalidPath));
    assert_eq!(rename(s("n1"), s("/a/old.md"), s("")).err(), Some(FsError::InvalidPath));
}

#[test]
fn new_file_checks_parent() {
    let none = Vec::new();
    assert_eq!(new_file(s("p"), s("/d"), FileEntryType::File, PathStatus::Missing, &none).err(), Some(FsError::NotFound));
    assert_eq!(new_file(s("p"), s("/d"), FileEntryType::File, PathStatus::File, &none).err(), Some(FsError::NotADirectory));
}

#[test]
fn new_file_picks_unique_name() {
    let existing = vec![s("Untitled.md")];
    let r = new_file(s("p"), s("/d"), FileEntryType::File, PathStatus::Directory, &existing).unwrap();
    assert_eq!(r.parent, "p");
    assert_eq!(r.file_name, "Untitled (1).md");
    assert_eq!(r.file_path, "/d/Untitled (1).md");
    assert_eq!(r.file_type, FileEntryType::File);
    let r = new_file(s("p"), s("/d"), FileEntryType::Directory, PathStatus::Directory, &existing).unwrap();
    assert_eq!(r.file_name, "Untitled");
    assert_eq!(r.file_path, "/d/Untitled");
}

#[test]
fn new_file_exhausted() {
    let mut existing = vec![s("Untitled")];
    for i in 1..99 {
        existing.push(format!("Untitled ({})", i));
    }
    let r = new_file(s("p"), s("/d"), FileEntryType::Directory, PathStatus::Directory, &existing);
    assert_eq!(r.err(), Some(FsError::NamespaceExhausted));
}

#[test]
fn delete_missing_is_error() {
    assert_eq!(delete_file(None, s("i"), s("/d/x"), PathStatus::Missing).err(), Some(FsError::NotFound));
}

#[test]
fn delete_directory_is_recursive() {
    let p = delete_file(Some(s("p")), s("i"), s("/d/sub"), PathStatus::Directory).unwrap();
    assert_eq!(p.action, RemoveAction::RemoveDirAll);
    assert_eq!(p.response.parent, Some(s("p")));
    assert_eq!(p.response.id, "i");
    assert_eq!(p.response.path, "/d/sub");
    let p = delete_file(None, s("i"), s("/d/a.md"), PathStatus::File).unwrap();
    assert_eq!(p.action, RemoveAction::RemoveFile);
    assert_eq!(p.response.parent, None);
}

#[test]
fn move_recomputes_source_parent() {
    let a = move_file(s("i"), s("stale-parent"), s("/a/b/x.md"), s("/c"), PathStatus::Directory).unwrap();
    let b = move_file(s("i"), s("other"), s("/a/b/x.md"), s("/c"), PathStatus::Directory).unwrap();
    assert_eq!(a.old_parent_path, "/a/b");
    assert_eq!(b.old_parent_path, "/a/b");
    assert_eq!(a.parent_id, "stale-parent");
    assert_eq!(a.old_path, "/a/b/x.md");
    assert_eq!(a.new_path, "/c/x.md");
    assert_eq!(a.new_parent_path, "/c");
}

#[test]
fn move_errors() {
    assert_eq!(move_file(s("i"), s("p"), s("x.md"), s("/c"), PathStatus::Directory).err(), Some(FsError::NoParent));
    assert_eq!(move_file(s("i"), s("p"), s("/a/x.md"), s("/c"), PathStatus::File).err(), Some(FsError::NotADirectory));
    assert_eq!(move_file(s("i"), s("p"), s("/a/x.md"), s("/c"), PathStatus::Missing).err(), Some(FsError::NotADirectory));
    assert_eq!(move_file(s("i"), s("p"), s("/a/.."), s("/c"), PathStatus::Directory).err(), Some(FsError::InvalidPath));
}

#[test]
fn move_error_order() {
    assert_eq!(move_file(s("i"), s("p"), s("/"), s("/c"), PathStatus::Directory).err(), Some(FsError::NoParent));
    assert_eq!(move_file(s("i"), s("p"), s(""), s("/c"), PathStatus::Directory).err(), Some(FsError::NoParent));
    assert_eq!(move_file(s("i"), s("p"), s("x.md"), s("/c"), PathStatus::File).err(), Some(FsError::NoParent));
    assert_eq!(move_file(s("i"), s("p"), s("a/.."), s("/c"), PathStatus::File).err(), Some(FsError::NotADirectory));
    assert_eq!(move_file(s("i"), s("p"), s("a/.."), s("/c"), PathStatus::Directory).err(), Some(FsError::InvalidPath));
    let m = move_file(s("i"), s("p"), s("/a/b/x.md/"), s("/c/"), PathStatus::Directory).unwrap();
    assert_eq!(m.old_path, "/a/b/x.md");
    assert_eq!(m.old_parent_path, "/a/b");
    assert_eq!(m.new_path, "/c/x.md");
}

#[test]
fn open_file_descriptor() {
    let r = RespondOpenFile::new(s("/a.md"), s("# hi"));
    assert_eq!(r.path, "/a.md");
    assert_eq!(r.content, "# hi");
}
