use file_explorer::error::FsError;
use file_explorer::tree::{build_file_tree, get_file_tree, FileEntryType, FileTreeNodeBase, PathStatus};

fn leaf(path: &str) -> FileTreeNodeBase {
    build_file_tree(path, PathStatus::File, Vec::new()).unwrap()
}

#[test]
fn plain_file_is_degenerate_tree() {
    let t = build_file_tree("/r/a.md", PathStatus::File, Vec::new()).unwrap();
    assert_eq!(t.data.name, "a.md");
    assert_eq!(t.data.path, "/r/a.md");
    assert_eq!(t.data.file_type, FileEntryType::File);
    assert!(t.children.is_empty());
}

#[test]
fn missing_root_is_not_found() {
    assert_eq!(build_file_tree("/r/none", PathStatus::Missing, Vec::new()).err(), Some(FsError::NotFound));
    assert_eq!(build_file_tree("/", PathStatus::Directory, Vec::new()).err(), Some(FsError::InvalidPath));
}

#[test]
fn directory_holds_its_entries() {
    let sub = build_file_tree("/r/sub", PathStatus::Directory, vec![leaf("/r/sub/c.md")]).unwrap();
    let root = build_file_tree("/r/", PathStatus::Directory, vec![leaf("/r/a.md"), sub, leaf("/r/b.md")]).unwrap();
    assert_eq!(root.data.name, "r");
    assert_eq!(root.data.path, "/r");
    assert_eq!(root.data.file_type, FileEntryType::Directory);
    assert_eq!(root.children.len(), 3);
    assert_eq!(root.children[1].data.file_type, FileEntryType::Directory);
    let names: Vec<&str> = root.traverse().iter().map(|n| n.data.name.as_str()).collect();
    assert_eq!(names, vec!["r", "a.md", "sub", "c.md", "b.md"]);
    let files = root.traverse().iter().filter(|n| n.data.file_type == FileEntryType::File).count();
    assert_eq!(files, 3);
}

#[test]
fn node_new_has_no_children() {
    let n = FileTreeNodeBase::new("x".to_string(), FileEntryType::Directory, "/x".to_string());
    assert_eq!(n.data.name, "x");
    assert_eq!(n.data.path, "/x");
    assert!(n.children.is_empty());
    assert_eq!(n.traverse().len(), 1);
}

#[test]
fn snapshot_keeps_requested_path() {
    let s = get_file_tree("/r/", Ok(leaf("/r/a.md"))).unwrap();
    assert_eq!(s.path, "/r/");
    assert_eq!(s.tree.data.name, "a.md");
}

#[test]
fn snapshot_errors() {
    assert_eq!(get_file_tree("", Ok(leaf("/r/a.md"))).err(), Some(FsError::InvalidPath));
    assert_eq!(get_file_tree("/", Err(FsError::NotFound)).err(), Some(FsError::InvalidPath));
    assert_eq!(get_file_tree("/r", Err(FsError::NotFound)).err(), Some(FsError::NotFound));
    let built = build_file_tree("/r/gone", PathStatus::Missing, Vec::new());
    assert_eq!(get_file_tree("/r/gone", built).err(), Some(FsError::NotFound));
}
