//! Rename, create, move and delete. Each operation checks its inputs against
//! what a probe of the filesystem found, computes the authoritative paths, and
//! returns the descriptor that the caller reports once it has performed the
//! single filesystem call the descriptor names.
use vstd::prelude::*;
use vstd::string::*;

use crate::error::FsError;
use crate::naming::{generate_unique_path, unique_path, name_views};
use crate::path::{
    base_name, base_of, dir_len, is_plain_name, is_plain_name_exec, join, join_path, lemma_dir_len,
    lemma_dir_len_append, parent_of, parent_path, resolve, sibling, sibling_path, str_to_path,
    strip_trailing, strip_trailing_exec,
};
use crate::tree::{FileEntryType, PathStatus};

verus! {

/// A file together with its text.
#[derive(Clone, Debug)]
pub struct RespondOpenFile {
    pub path: String,
    pub content: String,
}

/// Outcome of a rename: the entry at `old_path` is renamed to `new_path`.
#[derive(Clone, Debug)]
pub struct RespondRename {
    pub id: String,
    pub old_path: String,
    pub old_name: String,
    pub new_path: String,
    pub new_name: String,
}

/// Outcome of a creation: an empty entry of `file_type` is created at
/// `file_path`.
#[derive(Clone, Debug)]
pub struct RespondNewFile {
    pub parent: String,
    pub file_name: String,
    pub file_path: String,
    pub file_type: FileEntryType,
}

/// Outcome of a deletion of `path`.
#[derive(Clone, Debug)]
pub struct RespondDeleteFile {
    pub parent: Option<String>,
    pub id: String,
    pub path: String,
}

/// How an entry is removed.
#[derive(Clone, Copy, Debug, PartialEq, Eq, Structural)]
pub enum RemoveAction {
    /// Remove a single file.
    RemoveFile,
    /// Remove a directory and everything below it.
    RemoveDirAll,
}

/// A deletion to perform, with the descriptor to report once it is done.
#[derive(Clone, Debug)]
pub struct DeletePlan {
    pub action: RemoveAction,
    pub response: RespondDeleteFile,
}

/// Outcome of a move: the entry at `old_path` is moved to `new_path`.
#[derive(Clone, Debug)]
pub struct RespondMoveFile {
    pub id: String,
    pub parent_id: String,
    pub old_path: String,
    pub new_path: String,
    pub old_parent_path: String,
    pub new_parent_path: String,
}

impl RespondOpenFile {
    /// The descriptor for a file read in full.
    pub fn new(path: String, content: String) -> (r: Self)
        ensures
            r.path == path,
            r.content == content,
    {
        RespondOpenFile { path, content }
    }
}

/// Plans renaming the entry at `old_path` to `new_name` within its own
/// directory. Fails with `InvalidPath` when `old_path` names no entry or
/// `new_name` is not a plain name.
pub fn rename(id: String, old_path: String, new_name: String) -> (r: Result<RespondRename, FsError>)
    ensures
        match resolve(old_path@) {
            None => r == Err::<RespondRename, FsError>(FsError::InvalidPath),
            Some(p) => if !is_plain_name(new_name@) {
                r == Err::<RespondRename, FsError>(FsError::InvalidPath)
            } else {
                &&& r is Ok
                &&& r->Ok_0.id == id
                &&& r->Ok_0.old_path@ == p
                &&& r->Ok_0.old_name@ == base_of(p)
                &&& r->Ok_0.new_path@ == sibling(p, new_name@)
                &&& r->Ok_0.new_name == new_name
            },
        },
{
    let old = match str_to_path(old_path.as_str()) {
        Ok(p) => p,
        Err(e) => return Err(e),
    };
    if !is_plain_name_exec(new_name.as_str()) {
        return Err(FsError::InvalidPath);
    }
    let old_name = base_name(old.as_str());
    let new_path = sibling_path(old.as_str(), new_name.as_str());
    Ok(RespondRename { id, old_path: old, old_name, new_path, new_name })
}

/// Plans creating a new entry of `file_type` in the directory `file_path`,
/// whose present names are `existing`. Fails with `NotFound` or
/// `NotADirectory` when the probe found no directory there, and with
/// `NamespaceExhausted` when every candidate name is taken.
pub fn new_file(
    parent: String,
    file_path: String,
    file_type: FileEntryType,
    status: PathStatus,
    existing: &Vec<String>,
) -> (r: Result<RespondNewFile, FsError>)
    ensures
        match status {
            PathStatus::Missing => r == Err::<RespondNewFile, FsError>(FsError::NotFound),
            PathStatus::File => r == Err::<RespondNewFile, FsError>(FsError::NotADirectory),
            PathStatus::Directory => match unique_path(file_path@, file_type, name_views(existing@)) {
                None => r == Err::<RespondNewFile, FsError>(FsError::NamespaceExhausted),
                Some(p) => {
                    &&& r is Ok
                    &&& r->Ok_0.parent == parent
                    &&& r->Ok_0.file_path@ == p
                    &&& r->Ok_0.file_name@ == base_of(p)
                    &&& r->Ok_0.file_type == file_type
                },
            },
        },
{
    match status {
        PathStatus::Missing => { return Err(FsError::NotFound); },
        PathStatus::File => { return Err(FsError::NotADirectory); },
        PathStatus::Directory => {},
    }
    let unique = match generate_unique_path(file_path.as_str(), &file_type, existing) {
        Ok(p) => p,
        Err(e) => return Err(e),
    };
    let file_name = base_name(unique.as_str());
    Ok(RespondNewFile { parent, file_name, file_path: unique, file_type })
}

/// Plans deleting `path`: a directory is removed with everything below it, a
/// file on its own. Fails with `NotFound` when the probe found nothing there.
pub fn delete_file(parent: Option<String>, id: String, path: String, status: PathStatus) -> (r: Result<DeletePlan, FsError>)
    ensures
        match status {
            PathStatus::Missing => r == Err::<DeletePlan, FsError>(FsError::NotFound),
            PathStatus::File => r is Ok && r->Ok_0.action == RemoveAction::RemoveFile,
            PathStatus::Directory => r is Ok && r->Ok_0.action == RemoveAction::RemoveDirAll,
        },
        r is Ok ==> r->Ok_0.response.parent == parent && r->Ok_0.response.id == id
            && r->Ok_0.response.path == path,
{
    let action = match status {
        PathStatus::Missing => { return Err(FsError::NotFound); },
        PathStatus::File => RemoveAction::RemoveFile,
        PathStatus::Directory => RemoveAction::RemoveDirAll,
    };
    Ok(DeletePlan { action, response: RespondDeleteFile { parent, id, path } })
}

/// What `move_file` returns for its arguments. The checks come in this
/// order: the old path must have a parent, the new parent must be a
/// directory, and the old path must end in a plain name.
pub open spec fn moves(
    id: String,
    parent_id: String,
    old_path: Seq<char>,
    new_parent_path: Seq<char>,
    new_parent_status: PathStatus,
    r: Result<RespondMoveFile, FsError>,
) -> bool {
    match parent_of(strip_trailing(old_path)) {
        None => r == Err::<RespondMoveFile, FsError>(FsError::NoParent),
        Some(q) => if new_parent_status != PathStatus::Directory {
            r == Err::<RespondMoveFile, FsError>(FsError::NotADirectory)
        } else {
            match resolve(old_path) {
                None => r == Err::<RespondMoveFile, FsError>(FsError::InvalidPath),
                Some(p) => {
                    &&& r is Ok
                    &&& r->Ok_0.id == id
                    &&& r->Ok_0.parent_id == parent_id
                    &&& r->Ok_0.old_path@ == p
                    &&& r->Ok_0.old_parent_path@ == q
                    &&& r->Ok_0.new_parent_path@ == new_parent_path
                    &&& r->Ok_0.new_path@ == join(new_parent_path, base_of(p))
                },
            }
        },
    }
}

/// Plans moving the entry at `old_path` into the directory
/// `new_parent_path`, keeping its name. The source's parent is computed from
/// `old_path` itself. Fails with `NoParent` when `old_path` has no directory
/// component, `NotADirectory` when the probe found no directory at
/// `new_parent_path`, and `InvalidPath` when `old_path` does not end in a
/// plain name.
pub fn move_file(
    id: String,
    parent_id: String,
    old_path: String,
    new_parent_path: String,
    new_parent_status: PathStatus,
) -> (r: Result<RespondMoveFile, FsError>)
    ensures
        moves(id, parent_id, old_path@, new_parent_path@, new_parent_status, r),
{
    let stripped = strip_trailing_exec(old_path.as_str());
    let old_parent_path = match parent_path(stripped.as_str()) {
        Ok(p) => p,
        Err(e) => return Err(e),
    };
    if new_parent_status != PathStatus::Directory {
        return Err(FsError::NotADirectory);
    }
    let old = match str_to_path(old_path.as_str()) {
        Ok(p) => p,
        Err(e) => return Err(e),
    };
    let file_name = base_name(old.as_str());
    let new_path = join_path(new_parent_path.as_str(), file_name.as_str());
    Ok(RespondMoveFile { id, parent_id, old_path: old, new_path, old_parent_path, new_parent_path })
}


/// Renaming keeps an entry in its directory: the new path has the same
/// parent as the old one, ends in the new name, and is itself resolved.
pub proof fn lemma_rename_sibling_scope(old_path: Seq<char>, new_name: Seq<char>)
    requires
        resolve(old_path) is Some,
        is_plain_name(new_name),
    ensures
        ({
            let p = resolve(old_path)->0;
            let q = sibling(p, new_name);
            &&& parent_of(q) == parent_of(p)
            &&& base_of(q) == new_name
            &&& resolve(q) == Some(q)
        }),
{
    let p = resolve(old_path)->0;
    let d = dir_len(p);
    lemma_dir_len(p);
    let prefix = p.subrange(0, d as int);
    let q = sibling(p, new_name);
    assert(dir_len(prefix) == d) by {
        if d > 0 {
            assert(prefix.last() == '/');
        } else {
            assert(prefix.len() == 0);
        }
    }
    lemma_dir_len_append(prefix, new_name);
    assert(dir_len(q) == d);
    assert(base_of(q) =~= new_name);
    assert(q.subrange(0, d as int) =~= prefix);
    assert(q.last() == new_name.last());
    assert(strip_trailing(q) == q);
}

/// The source parent that a move reports is computed from the moved path
/// alone: the caller's parent identifier has no bearing on it.
pub proof fn lemma_move_source_parent(
    id: String,
    parent_id_a: String,
    parent_id_b: String,
    old_path: Seq<char>,
    new_parent_path: Seq<char>,
    status: PathStatus,
    ra: Result<RespondMoveFile, FsError>,
    rb: Result<RespondMoveFile, FsError>,
)
    requires
        moves(id, parent_id_a, old_path, new_parent_path, status, ra),
        moves(id, parent_id_b, old_path, new_parent_path, status, rb),
        ra is Ok,
    ensures
        rb is Ok,
        ra->Ok_0.old_parent_path@ == rb->Ok_0.old_parent_path@,
        Some(ra->Ok_0.old_parent_path@) == parent_of(strip_trailing(old_path)),
{
}

} // verus!
