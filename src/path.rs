//! Textual paths: `/` separates components; trailing separators are not
//! significant.
use vstd::prelude::*;
use vstd::string::*;

use crate::error::FsError;

verus! {

/// Removes trailing separators, keeping a lone `/`.
pub open spec fn strip_trailing(s: Seq<char>) -> Seq<char>
    decreases s.len(),
{
    if s.len() > 1 && s.last() == '/' {
        strip_trailing(s.drop_last())
    } else {
        s
    }
}

/// Length of the directory prefix of `s`: everything up to and including the
/// last separator (0 when there is none).
pub open spec fn dir_len(s: Seq<char>) -> nat
    decreases s.len(),
{
    if s.len() == 0 {
        0
    } else if s.last() == '/' {
        s.len()
    } else {
        dir_len(s.drop_last())
    }
}

/// The last component of `s`.
pub open spec fn base_of(s: Seq<char>) -> Seq<char> {
    s.subrange(dir_len(s) as int, s.len() as int)
}

/// A single name: non-empty, without separator, and neither `.` nor `..`.
pub open spec fn is_plain_name(n: Seq<char>) -> bool {
    &&& n.len() > 0
    &&& forall|j: int| 0 <= j < n.len() ==> n[j] != '/'
    &&& n != seq!['.']
    &&& n != seq!['.', '.']
}

/// The resolved form of a raw path, if it names an entry.
pub open spec fn resolve(raw: Seq<char>) -> Option<Seq<char>> {
    let s = strip_trailing(raw);
    if is_plain_name(base_of(s)) {
        Some(s)
    } else {
        None
    }
}

/// The parent directory of a resolved path.
pub open spec fn parent_of(s: Seq<char>) -> Option<Seq<char>> {
    if dir_len(s) == 0 || dir_len(s) == s.len() {
        None
    } else {
        Some(strip_trailing(s.subrange(0, dir_len(s) as int)))
    }
}

/// The entry named `n` beside `s`, in the same directory.
pub open spec fn sibling(s: Seq<char>, n: Seq<char>) -> Seq<char> {
    s.subrange(0, dir_len(s) as int) + n
}

/// The entry named `n` inside directory `p`.
pub open spec fn join(p: Seq<char>, n: Seq<char>) -> Seq<char> {
    if p.len() == 0 || p.last() == '/' {
        p + n
    } else {
        p + seq!['/'] + n
    }
}

pub proof fn lemma_dir_len(s: Seq<char>)
    ensures
        dir_len(s) <= s.len(),
        dir_len(s) > 0 ==> s[dir_len(s) - 1] == '/',
        forall|j: int| dir_len(s) <= j < s.len() ==> s[j] != '/',
    decreases s.len(),
{
    if s.len() > 0 && s.last() != '/' {
        let t = s.drop_last();
        lemma_dir_len(t);
        assert forall|j: int| dir_len(s) <= j < s.len() implies s[j] != '/' by {
            if j < t.len() {
                assert(s[j] == t[j]);
            }
        }
    }
}

/// A suffix without separators leaves the directory prefix where it was.
pub proof fn lemma_dir_len_append(a: Seq<char>, n: Seq<char>)
    requires
        forall|j: int| 0 <= j < n.len() ==> n[j] != '/',
    ensures
        dir_len(a + n) == dir_len(a),
    decreases n.len(),
{
    if n.len() == 0 {
        assert(a + n =~= a);
    } else {
        lemma_dir_len_append(a, n.drop_last());
        assert((a + n).drop_last() =~= a + n.drop_last());
    }
}

/// Length of the directory prefix of `s`, computed by a scan from the end.
fn dir_len_exec(s: &str) -> (r: usize)
    ensures
        r == dir_len(s@),
{
    let len = s.unicode_len();
    let mut i: usize = len;
    assert(s@.subrange(0, len as int) =~= s@);
    while i > 0 && s.get_char(i - 1) != '/'
        invariant
            i <= len,
            len == s@.len(),
            dir_len(s@.subrange(0, i as int)) == dir_len(s@),
        decreases i,
    {
        assert(s@.subrange(0, i as int).drop_last() =~= s@.subrange(0, i - 1));
        i = i - 1;
    }
    i
}

/// The path without its trailing separators (a lone `/` is kept).
pub fn strip_trailing_exec(path: &str) -> (r: String)
    ensures
        r@ == strip_trailing(path@),
{
    let len = path.unicode_len();
    let mut n: usize = len;
    assert(path@.subrange(0, len as int) =~= path@);
    while n > 1 && path.get_char(n - 1) == '/'
        invariant
            n <= len,
            len == path@.len(),
            strip_trailing(path@.subrange(0, n as int)) == strip_trailing(path@),
        decreases n,
    {
        assert(path@.subrange(0, n as int).drop_last() =~= path@.subrange(0, n - 1));
        n = n - 1;
    }
    let s = path.substring_char(0, n);
    assert(strip_trailing(s@) == s@);
    String::from_str(s)
}

/// Validates and normalises a raw path: trailing separators are dropped,
/// and the path must end in a plain name.
pub fn str_to_path(path: &str) -> (r: Result<String, FsError>)
    ensures
        match resolve(path@) {
            Some(s) => r is Ok && r->Ok_0@ == s,
            None => r == Err::<String, FsError>(FsError::InvalidPath),
        },
{
    let s = strip_trailing_exec(path);
    let n = s.as_str().unicode_len();
    let d = dir_len_exec(s.as_str());
    proof {
        lemma_dir_len(s@);
    }
    let name = s.as_str().substring_char(d, n);
    if is_plain_name_exec(name) {
        Ok(s)
    } else {
        Err(FsError::InvalidPath)
    }
}

/// Whether `n` is a single plain name.
pub fn is_plain_name_exec(n: &str) -> (r: bool)
    ensures
        r == is_plain_name(n@),
{
    let len = n.unicode_len();
    if len == 0 {
        return false;
    }
    let mut i: usize = 0;
    while i < len
        invariant
            i <= len,
            len == n@.len(),
            forall|j: int| 0 <= j < i ==> n@[j] != '/',
        decreases len - i,
    {
        if n.get_char(i) == '/' {
            return false;
        }
        i = i + 1;
    }
    if len == 1 && n.get_char(0) == '.' {
        assert(n@ =~= seq!['.']);
        return false;
    }
    if len == 2 && n.get_char(0) == '.' && n.get_char(1) == '.' {
        assert(n@ =~= seq!['.', '.']);
        return false;
    }
    assert(n@ != seq!['.'] && n@ != seq!['.', '.']) by {
        if n@ == seq!['.'] {
            assert(n@[0] == '.');
        }
        if n@ == seq!['.', '.'] {
            assert(n@[0] == '.' && n@[1] == '.');
        }
    }
    true
}

/// The last component of a path.
pub fn base_name(path: &str) -> (r: String)
    ensures
        r@ == base_of(path@),
{
    let d = dir_len_exec(path);
    proof {
        lemma_dir_len(path@);
    }
    String::from_str(path.substring_char(d, path.unicode_len()))
}

/// The parent directory of a resolved path; `NoParent` when the path has no
/// directory component.
pub fn parent_path(path: &str) -> (r: Result<String, FsError>)
    ensures
        match parent_of(path@) {
            Some(p) => r is Ok && r->Ok_0@ == p,
            None => r == Err::<String, FsError>(FsError::NoParent),
        },
{
    let d = dir_len_exec(path);
    let len = path.unicode_len();
    proof {
        lemma_dir_len(path@);
    }
    if d == 0 || d == len {
        return Err(FsError::NoParent);
    }
    let prefix = path.substring_char(0, d);
    let mut n: usize = d;
    assert(prefix@.subrange(0, d as int) =~= prefix@);
    while n > 1 && prefix.get_char(n - 1) == '/'
        invariant
            n <= d,
            d == prefix@.len(),
            strip_trailing(prefix@.subrange(0, n as int)) == strip_trailing(prefix@),
        decreases n,
    {
        assert(prefix@.subrange(0, n as int).drop_last() =~= prefix@.subrange(0, n - 1));
        n = n - 1;
    }
    let s = prefix.substring_char(0, n);
    assert(strip_trailing(s@) == s@);
    Ok(String::from_str(s))
}

/// The path of the entry named `name` beside `path`.
pub fn sibling_path(path: &str, name: &str) -> (r: String)
    ensures
        r@ == sibling(path@, name@),
{
    let d = dir_len_exec(path);
    proof {
        lemma_dir_len(path@);
    }
    let prefix = String::from_str(path.substring_char(0, d));
    prefix.concat(name)
}

/// The path of the entry named `name` inside directory `dir`.
pub fn join_path(dir: &str, name: &str) -> (r: String)
    ensures
        r@ == join(dir@, name@),
{
    let len = dir.unicode_len();
    let base = String::from_str(dir);
    if len == 0 || dir.get_char(len - 1) == '/' {
        base.concat(name)
    } else {
        let sep = "/";
        proof {
            reveal_strlit("/");
        }
        base.concat(sep).concat(name)
    }
}

} // verus!
