//! Directory-tree snapshots.
use vstd::prelude::*;

use crate::error::FsError;
use crate::path::{base_name, base_of, join, resolve, str_to_path};

verus! {

/// Whether an entry is a plain file or a directory.
#[derive(Clone, Copy, Debug, PartialEq, Eq, Structural)]
pub enum FileEntryType {
    File,
    Directory,
}

/// What a probe of the filesystem found at a path.
#[derive(Clone, Copy, Debug, PartialEq, Eq, Structural)]
pub enum PathStatus {
    Missing,
    File,
    Directory,
}

/// One entry: its base name, its kind and its full path.
#[derive(Clone, Debug)]
pub struct FileEntry {
    pub name: String,
    pub file_type: FileEntryType,
    pub path: String,
}

/// An entry with its child entries; a file has none.
#[derive(Debug)]
pub struct FileTreeNodeBase {
    pub data: FileEntry,
    pub children: Vec<FileTreeNodeBase>,
}

/// A snapshot of the subtree below a requested path.
#[derive(Debug)]
pub struct RespondGetFileTree {
    pub path: String,
    pub tree: FileTreeNodeBase,
}

/// The nodes of a tree in pre-order: the node itself, then each child's
/// subtree in turn.
pub open spec fn preorder(t: FileTreeNodeBase) -> Seq<FileTreeNodeBase>
    decreases t,
{
    seq![t] + preorder_list(t.children@, t.children@.len() as int)
}

/// The pre-order sequences of the first `n` trees of `ts`, concatenated.
pub open spec fn preorder_list(ts: Seq<FileTreeNodeBase>, n: int) -> Seq<FileTreeNodeBase>
    decreases ts, n,
{
    if n <= 0 || n > ts.len() {
        Seq::empty()
    } else {
        preorder_list(ts, n - 1) + preorder(ts[n - 1])
    }
}

/// A well-formed tree: each node is named after the last component of its
/// path, a file has no children, and each child lies directly inside its
/// parent under its own name.
pub open spec fn wf(t: FileTreeNodeBase) -> bool
    decreases t,
{
    &&& t.data.name@ == base_of(t.data.path@)
    &&& (t.data.file_type == FileEntryType::File ==> t.children@.len() == 0)
    &&& children_wf(t.data.path@, t.children@, t.children@.len() as int)
}

/// The first `n` trees of `ts` are well formed and lie directly inside `dir`.
pub open spec fn children_wf(dir: Seq<char>, ts: Seq<FileTreeNodeBase>, n: int) -> bool
    decreases ts, n,
{
    if n <= 0 || n > ts.len() {
        true
    } else {
        &&& children_wf(dir, ts, n - 1)
        &&& ts[n - 1].data.path@ == join(dir, ts[n - 1].data.name@)
        &&& wf(ts[n - 1])
    }
}

/// The nodes that a sequence of references points to.
pub open spec fn derefs(s: Seq<&FileTreeNodeBase>) -> Seq<FileTreeNodeBase> {
    s.map_values(|n: &FileTreeNodeBase| *n)
}

/// Number of plain files in a tree.
pub open spec fn file_count(t: FileTreeNodeBase) -> nat
    decreases t,
{
    match t.data.file_type {
        FileEntryType::File => 1,
        FileEntryType::Directory => file_count_list(t.children@, t.children@.len() as int),
    }
}

/// Number of plain files in the first `n` trees of `ts`.
pub open spec fn file_count_list(ts: Seq<FileTreeNodeBase>, n: int) -> nat
    decreases ts, n,
{
    if n <= 0 || n > ts.len() {
        0
    } else {
        file_count_list(ts, n - 1) + file_count(ts[n - 1])
    }
}

/// What building the node for `root` yields, given the status that a probe
/// found there and the subtrees built for its directory entries.
pub open spec fn builds(
    root: Seq<char>,
    status: PathStatus,
    children: Seq<FileTreeNodeBase>,
    r: Result<FileTreeNodeBase, FsError>,
) -> bool {
    match resolve(root) {
        None => r == Err::<FileTreeNodeBase, FsError>(FsError::InvalidPath),
        Some(p) => match status {
            PathStatus::Missing => r == Err::<FileTreeNodeBase, FsError>(FsError::NotFound),
            PathStatus::File => r is Ok && r->Ok_0.data.name@ == base_of(p) && r->Ok_0.data.path@ == p
                && r->Ok_0.data.file_type == FileEntryType::File && r->Ok_0.children@.len() == 0,
            PathStatus::Directory => r is Ok && r->Ok_0.data.name@ == base_of(p) && r->Ok_0.data.path@
                == p && r->Ok_0.data.file_type == FileEntryType::Directory && r->Ok_0.children@
                == children,
        },
    }
}

impl FileTreeNodeBase {
    /// A node without children.
    pub fn new(name: String, file_type: FileEntryType, path: String) -> (r: Self)
        ensures
            r.data.name == name,
            r.data.file_type == file_type,
            r.data.path == path,
            r.children@.len() == 0,
    {
        let data = FileEntry { name, file_type, path };
        FileTreeNodeBase { data, children: Vec::new() }
    }

    /// All nodes of the tree, in pre-order.
    pub fn traverse(&self) -> (r: Vec<&FileTreeNodeBase>)
        ensures
            derefs(r@) == preorder(*self),
    {
        let mut result = Vec::new();
        self.traverse_helper(&mut result);
        assert(derefs(result@) =~= preorder(*self));
        result
    }

    /// Appends the nodes of the tree, in pre-order, to `result`.
    pub fn traverse_helper<'a>(&'a self, result: &mut Vec<&'a FileTreeNodeBase>)
        ensures
            derefs(final(result)@) == derefs(old(result)@) + preorder(*self),
        decreases self,
    {
        let ghost start = derefs(result@);
        result.push(self);
        assert(derefs(result@) =~= start + seq![*self]);
        let n = self.children.len();
        let mut i: usize = 0;
        while i < n
            invariant
                i <= n,
                n == self.children@.len(),
                derefs(result@) == start + seq![*self] + preorder_list(self.children@, i as int),
            decreases n - i,
        {
            proof {
                assert(decreases_to!(self => self.children));
                vstd::std_specs::vec::axiom_vec_index_decreases(self.children, i as int);
            }
            self.children[i].traverse_helper(result);
            assert(derefs(result@) =~= start + seq![*self] + preorder_list(self.children@, i + 1));
            i = i + 1;
        }
        assert(derefs(result@) =~= start + preorder(*self));
    }
}

/// Builds the node for `root` from what a probe found there: an error when
/// the path has no name or does not exist, a childless file node for a plain
/// file, and for a directory a node holding `children`, the subtrees of its
/// entries in enumeration order.
pub fn build_file_tree(root: &str, status: PathStatus, children: Vec<FileTreeNodeBase>) -> (r: Result<FileTreeNodeBase, FsError>)
    ensures
        builds(root@, status, children@, r),
        r is Ok && (status == PathStatus::File || children_wf(
            r->Ok_0.data.path@,
            children@,
            children@.len() as int,
        )) ==> wf(r->Ok_0),
{
    let path = match str_to_path(root) {
        Ok(p) => p,
        Err(e) => return Err(e),
    };
    let name = base_name(path.as_str());
    match status {
        PathStatus::Missing => Err(FsError::NotFound),
        PathStatus::File => Ok(FileTreeNodeBase::new(name, FileEntryType::File, path)),
        PathStatus::Directory => {
            let mut node = FileTreeNodeBase::new(name, FileEntryType::Directory, path);
            node.children = children;
            Ok(node)
        },
    }
}

/// The snapshot for `path`, from the outcome of building its tree: a path
/// without a name is rejected, and a failed build fails the query with the
/// same error.
pub fn get_file_tree(path: &str, built: Result<FileTreeNodeBase, FsError>) -> (r: Result<RespondGetFileTree, FsError>)
    ensures
        resolve(path@) is None ==> r == Err::<RespondGetFileTree, FsError>(FsError::InvalidPath),
        resolve(path@) is Some ==> match built {
            Ok(t) => r is Ok && r->Ok_0.path@ == path@ && r->Ok_0.tree == t,
            Err(e) => r == Err::<RespondGetFileTree, FsError>(e),
        },
{
    if let Err(e) = str_to_path(path) {
        return Err(e);
    }
    match built {
        Ok(tree) => Ok(RespondGetFileTree { path: String::from_str(path), tree }),
        Err(e) => Err(e),
    }
}

/// A directory node built from its entries holds exactly one child per entry,
/// in order, and the files below it are those below its entries.
pub proof fn lemma_build_round_trip(
    root: Seq<char>,
    children: Seq<FileTreeNodeBase>,
    r: Result<FileTreeNodeBase, FsError>,
)
    requires
        resolve(root) is Some,
        builds(root, PathStatus::Directory, children, r),
    ensures
        r is Ok,
        r->Ok_0.data.path@ == resolve(root)->0,
        children_wf(resolve(root)->0, children, children.len() as int) ==> wf(r->Ok_0),
        r->Ok_0.data.file_type == FileEntryType::Directory,
        r->Ok_0.children@.len() == children.len(),
        forall|i: int| 0 <= i < children.len() ==> #[trigger] r->Ok_0.children@[i] == children[i],
        file_count(r->Ok_0) == file_count_list(children, children.len() as int),
{
}

/// Building on a plain file yields a file node without children.
pub proof fn lemma_build_degenerate(
    root: Seq<char>,
    children: Seq<FileTreeNodeBase>,
    r: Result<FileTreeNodeBase, FsError>,
)
    requires
        resolve(root) is Some,
        builds(root, PathStatus::File, children, r),
    ensures
        r is Ok,
        r->Ok_0.data.file_type == FileEntryType::File,
        r->Ok_0.children@.len() == 0,
        preorder(r->Ok_0) == seq![r->Ok_0],
        file_count(r->Ok_0) == 1,
{
    assert(preorder(r->Ok_0) =~= seq![r->Ok_0]);
}

/// Whether a node is a plain file.
pub open spec fn file_pred() -> spec_fn(FileTreeNodeBase) -> bool {
    |n: FileTreeNodeBase| n.data.file_type == FileEntryType::File
}

/// Number of plain-file nodes in a sequence of nodes.
pub open spec fn files_in(s: Seq<FileTreeNodeBase>) -> nat {
    s.filter(file_pred()).len()
}

/// In a well-formed tree the file count is the number of file nodes met by a
/// full traversal: summing over every directory, recursively, counts each
/// file once.
pub proof fn lemma_file_count_traversal(t: FileTreeNodeBase)
    requires
        wf(t),
    ensures
        files_in(preorder(t)) == file_count(t),
    decreases t,
{
    let ts = t.children@;
    let pl = preorder_list(ts, ts.len() as int);
    Seq::filter_distributes_over_add(seq![t], pl, file_pred());
    assert(seq![t] + pl =~= preorder(t));
    assert(seq![t].filter(file_pred()).len() == if t.data.file_type == FileEntryType::File {
        1nat
    } else {
        0nat
    }) by {
        reveal(Seq::filter);
        assert(seq![t].drop_last() =~= Seq::<FileTreeNodeBase>::empty());
        assert(Seq::<FileTreeNodeBase>::empty().filter(file_pred()) =~= Seq::<FileTreeNodeBase>::empty());
    }
    if t.data.file_type == FileEntryType::File {
        assert(pl =~= Seq::<FileTreeNodeBase>::empty());
        assert(pl.filter(file_pred()) =~= Seq::<FileTreeNodeBase>::empty()) by {
            reveal(Seq::filter);
        }
    } else {
        assert(decreases_to!(t => t.children));
        lemma_file_count_traversal_list(t.data.path@, ts, ts.len() as int);
    }
}

/// The list form of `lemma_file_count_traversal`.
pub proof fn lemma_file_count_traversal_list(dir: Seq<char>, ts: Seq<FileTreeNodeBase>, n: int)
    requires
        children_wf(dir, ts, n),
        0 <= n <= ts.len(),
    ensures
        files_in(preorder_list(ts, n)) == file_count_list(ts, n),
    decreases ts, n,
{
    if n == 0 {
        assert(preorder_list(ts, n).filter(file_pred()) =~= Seq::<FileTreeNodeBase>::empty()) by {
            reveal(Seq::filter);
        }
    } else {
        lemma_file_count_traversal_list(dir, ts, n - 1);
        lemma_file_count_traversal(ts[n - 1]);
        Seq::filter_distributes_over_add(preorder_list(ts, n - 1), preorder(ts[n - 1]), file_pred());
    }
}

} // verus!
