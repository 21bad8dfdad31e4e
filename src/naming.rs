//! Collision-free names for newly created entries.
use vstd::prelude::*;
use vstd::string::*;

use crate::error::FsError;
use crate::path::{join, join_path};
use crate::tree::FileEntryType;

verus! {

/// Number of suffixed candidates tried after the bare one.
pub const MAX_SUFFIX: usize = 98;

pub open spec fn digit_char(d: nat) -> char {
    seq!['0', '1', '2', '3', '4', '5', '6', '7', '8', '9'][d as int]
}

/// Decimal text of a number below one hundred.
pub open spec fn number_text(i: nat) -> Seq<char> {
    if i < 10 {
        seq![digit_char(i)]
    } else {
        seq![digit_char(i / 10), digit_char(i % 10)]
    }
}

pub open spec fn untitled() -> Seq<char> {
    seq!['U', 'n', 't', 'i', 't', 'l', 'e', 'd']
}

/// New files are markdown documents; directories carry no extension.
pub open spec fn extension(kind: FileEntryType) -> Seq<char> {
    match kind {
        FileEntryType::File => seq!['.', 'm', 'd'],
        FileEntryType::Directory => Seq::empty(),
    }
}

/// The `i`-th candidate name: `Untitled`, then `Untitled (1)` and so on,
/// each followed by the kind's extension.
pub open spec fn candidate_name(kind: FileEntryType, i: nat) -> Seq<char> {
    if i == 0 {
        untitled() + extension(kind)
    } else {
        untitled() + seq![' ', '('] + number_text(i) + seq![')'] + extension(kind)
    }
}

/// The first candidate, from index `i` on, that is not among `names`.
pub open spec fn first_free_from(kind: FileEntryType, names: Seq<Seq<char>>, i: nat) -> Option<nat>
    decreases MAX_SUFFIX + 1 - i,
{
    if i > MAX_SUFFIX {
        None
    } else if !names.contains(candidate_name(kind, i)) {
        Some(i)
    } else {
        first_free_from(kind, names, i + 1)
    }
}

/// Views of a list of names.
pub open spec fn name_views(names: Seq<String>) -> Seq<Seq<char>> {
    names.map_values(|n: String| n@)
}

/// The path that `generate_unique_path` settles on, if any candidate is free.
pub open spec fn unique_path(parent: Seq<char>, kind: FileEntryType, names: Seq<Seq<char>>) -> Option<Seq<char>> {
    match first_free_from(kind, names, 0) {
        Some(i) => Some(join(parent, candidate_name(kind, i))),
        None => None,
    }
}

/// Decimal text of `i`, for `i` below one hundred.
fn number_string(i: usize) -> (r: String)
    requires
        i < 100,
    ensures
        r@ == number_text(i as nat),
{
    let digits = "0123456789";
    proof {
        reveal_strlit("0123456789");
    }
    if i < 10 {
        let d = digits.substring_char(i, i + 1);
        assert(d@ =~= seq![digit_char(i as nat)]);
        String::from_str(d)
    } else {
        let hi = digits.substring_char(i / 10, i / 10 + 1);
        let lo = digits.substring_char(i % 10, i % 10 + 1);
        assert(hi@ =~= seq![digit_char((i / 10) as nat)]);
        assert(lo@ =~= seq![digit_char((i % 10) as nat)]);
        let r = String::from_str(hi).concat(lo);
        assert(r@ =~= number_text(i as nat));
        r
    }
}

/// The `i`-th candidate name for an entry of kind `kind`.
pub fn candidate(kind: &FileEntryType, i: usize) -> (r: String)
    requires
        i <= MAX_SUFFIX,
    ensures
        r@ == candidate_name(*kind, i as nat),
{
    let base = "Untitled";
    let md = ".md";
    let open_paren = " (";
    let close_paren = ")";
    proof {
        reveal_strlit("Untitled");
        reveal_strlit(".md");
        reveal_strlit(" (");
        reveal_strlit(")");
    }
    let mut name = String::from_str(base);
    if i > 0 {
        let num = number_string(i);
        name = name.concat(open_paren).concat(num.as_str()).concat(close_paren);
    }
    match kind {
        FileEntryType::File => {
            name = name.concat(md);
        },
        FileEntryType::Directory => {},
    }
    assert(name@ =~= candidate_name(*kind, i as nat));
    name
}

/// The path of the `i`-th candidate inside `parent_path`, to be probed for
/// existence.
pub fn candidate_path(parent_path: &str, kind: &FileEntryType, i: usize) -> (r: String)
    requires
        i <= MAX_SUFFIX,
    ensures
        r@ == join(parent_path@, candidate_name(*kind, i as nat)),
{
    let name = candidate(kind, i);
    join_path(parent_path, name.as_str())
}

/// The search step after candidate `i` was probed: the next index to probe
/// while the name was taken and candidates remain, `None` once it was free or
/// the last candidate was taken.
pub fn next_candidate(i: usize, taken: bool) -> (r: Option<usize>)
    requires
        i <= MAX_SUFFIX,
    ensures
        r == (if taken && i < MAX_SUFFIX {
            Some((i + 1) as usize)
        } else {
            None::<usize>
        }),
{
    if taken && i < MAX_SUFFIX {
        Some(i + 1)
    } else {
        None
    }
}

/// Whether `name` occurs among `names`.
fn contains_name(names: &Vec<String>, name: &String) -> (r: bool)
    ensures
        r == name_views(names@).contains(name@),
{
    let mut j: usize = 0;
    while j < names.len()
        invariant
            j <= names@.len(),
            forall|k: int| 0 <= k < j ==> names@[k]@ != name@,
        decreases names@.len() - j,
    {
        if names[j] == *name {
            assert(name_views(names@)[j as int] == name@);
            return true;
        }
        j = j + 1;
    }
    assert(!name_views(names@).contains(name@)) by {
        if name_views(names@).contains(name@) {
            let k = choose|k: int| 0 <= k < name_views(names@).len() && name_views(names@)[k] == name@;
            assert(names@[k]@ == name@);
        }
    }
    false
}

/// Picks the first of `Untitled`, `Untitled (1)`, ..., `Untitled (98)` (with
/// `.md` for files) that is not among `existing`, the names present in
/// `parent_path`, and returns its path; fails with `NamespaceExhausted` when
/// all are taken.
pub fn generate_unique_path(parent_path: &str, file_type: &FileEntryType, existing: &Vec<String>) -> (r: Result<String, FsError>)
    ensures
        match unique_path(parent_path@, *file_type, name_views(existing@)) {
            Some(p) => r is Ok && r->Ok_0@ == p,
            None => r == Err::<String, FsError>(FsError::NamespaceExhausted),
        },
{
    let ghost names = name_views(existing@);
    let mut i: usize = 0;
    while i <= MAX_SUFFIX
        invariant
            i <= MAX_SUFFIX + 1,
            names == name_views(existing@),
            first_free_from(*file_type, names, i as nat) == first_free_from(*file_type, names, 0),
        decreases MAX_SUFFIX + 1 - i,
    {
        let name = candidate(file_type, i);
        if !contains_name(existing, &name) {
            return Ok(join_path(parent_path, name.as_str()));
        }
        i = i + 1;
    }
    Err(FsError::NamespaceExhausted)
}

/// In an empty directory the bare name is chosen; once an entry of that name
/// exists, the next choice is the one suffixed `(1)`.
pub proof fn lemma_unique_naming_sequence(parent: Seq<char>, kind: FileEntryType)
    ensures
        unique_path(parent, kind, Seq::empty()) == Some(join(parent, candidate_name(kind, 0))),
        unique_path(parent, kind, seq![candidate_name(kind, 0)]) == Some(
            join(parent, candidate_name(kind, 1)),
        ),
        candidate_name(FileEntryType::File, 0) =~= "Untitled.md"@,
        candidate_name(FileEntryType::File, 1) =~= "Untitled (1).md"@,
{
    reveal_strlit("Untitled.md");
    reveal_strlit("Untitled (1).md");
    let names: Seq<Seq<char>> = seq![candidate_name(kind, 0)];
    assert(!Seq::<Seq<char>>::empty().contains(candidate_name(kind, 0)));
    assert(names.contains(candidate_name(kind, 0))) by {
        assert(names[0] == candidate_name(kind, 0));
    }
    assert(candidate_name(kind, 1).len() != candidate_name(kind, 0).len());
    assert(!names.contains(candidate_name(kind, 1)));
    assert(first_free_from(kind, names, 0) == first_free_from(kind, names, 1));
}

/// When every candidate name is taken, no path is chosen.
pub proof fn lemma_exhaustion(parent: Seq<char>, kind: FileEntryType, names: Seq<Seq<char>>)
    requires
        forall|i: nat| i <= MAX_SUFFIX ==> names.contains(#[trigger] candidate_name(kind, i)),
    ensures
        unique_path(parent, kind, names) is None,
{
    lemma_exhausted_from(kind, names, 0);
}

proof fn lemma_exhausted_from(kind: FileEntryType, names: Seq<Seq<char>>, i: nat)
    requires
        forall|k: nat| k <= MAX_SUFFIX ==> names.contains(#[trigger] candidate_name(kind, k)),
    ensures
        first_free_from(kind, names, i) is None,
    decreases MAX_SUFFIX + 1 - i,
{
    if i <= MAX_SUFFIX {
        assert(names.contains(candidate_name(kind, i)));
        lemma_exhausted_from(kind, names, i + 1);
    }
}

} // verus!
