use vstd::prelude::*;
use vstd::string::{StrSliceExecFns, StringExecFns};

verus! {

/// A path is absolute when it starts at the root directory.
pub open spec fn is_absolute(p: Seq<char>) -> bool {
    p.len() > 0 && p[0] == '/'
}

/// The first segment of the path is `..`.
pub open spec fn starts_with_parent(p: Seq<char>) -> bool {
    &&& p.len() >= 2
    &&& p[0] == '.'
    &&& p[1] == '.'
    &&& (p.len() == 2 || p[2] == '/')
}

/// A path that stays inside the directory it is joined to, at least at its start.
pub open spec fn is_safe_relative(p: Seq<char>) -> bool {
    !is_absolute(p) && !starts_with_parent(p)
}

/// `base` followed by `rel`, with one separator between them when `base`
/// is not empty and does not already end with one.
pub open spec fn join_path(base: Seq<char>, rel: Seq<char>) -> Seq<char> {
    if base.len() == 0 || base.last() == '/' {
        base + rel
    } else {
        base + seq!['/'] + rel
    }
}

/// Index of the last separator in `p`, or -1 when it holds none.
pub open spec fn last_separator(p: Seq<char>) -> int
    decreases p.len(),
{
    if p.len() == 0 {
        -1
    } else if p.last() == '/' {
        p.len() - 1
    } else {
        last_separator(p.drop_last())
    }
}

/// The directory inside `base` that must exist before `rel` can be created.
pub open spec fn parent_dir(base: Seq<char>, rel: Seq<char>) -> Seq<char> {
    if last_separator(rel) < 0 {
        base
    } else {
        join_path(base, rel.subrange(0, last_separator(rel)))
    }
}

proof fn lemma_last_separator_bounds(p: Seq<char>)
    ensures
        -1 <= last_separator(p) < p.len(),
    decreases p.len(),
{
    if p.len() > 0 && p.last() != '/' {
        lemma_last_separator_bounds(p.drop_last());
    }
}

pub fn is_absolute_path(p: &str) -> (r: bool)
    ensures
        r == is_absolute(p@),
{
    p.unicode_len() > 0 && p.get_char(0) == '/'
}

pub fn starts_with_parent_dir(p: &str) -> (r: bool)
    ensures
        r == starts_with_parent(p@),
{
    let n = p.unicode_len();
    n >= 2 && p.get_char(0) == '.' && p.get_char(1) == '.' && (n == 2 || p.get_char(2) == '/')
}

/// Whether `p` may be staged: it is neither absolute nor leads out through `..`.
pub fn is_safe_relative_path(p: &str) -> (r: bool)
    ensures
        r == is_safe_relative(p@),
{
    !is_absolute_path(p) && !starts_with_parent_dir(p)
}

/// Joins a relative path to a base directory.
pub fn join(base: &str, rel: &str) -> (r: String)
    ensures
        r@ == join_path(base@, rel@),
{
    let n = base.unicode_len();
    let mut r = String::from_str(base);
    if n > 0 && base.get_char(n - 1) != '/' {
        r.append("/");
    }
    r.append(rel);
    proof {
        reveal_strlit("/");
        if n > 0 && base@.last() != '/' {
            assert(r@ == base@ + seq!['/'] + rel@);
        }
    }
    r
}

/// Finds the last separator of `p`.
pub fn find_last_separator(p: &str) -> (r: Option<usize>)
    ensures
        r is None <==> last_separator(p@) < 0,
        r is Some ==> r->0 == last_separator(p@),
{
    let n = p.unicode_len();
    let mut i: usize = n;
    assert(p@.subrange(0, n as int) =~= p@);
    while i > 0
        invariant
            i <= n,
            n == p@.len(),
            last_separator(p@) == last_separator(p@.subrange(0, i as int)),
        decreases i,
    {
        let ghost prefix = p@.subrange(0, i as int);
        if p.get_char(i - 1) == '/' {
            return Some(i - 1);
        }
        assert(prefix.drop_last() =~= p@.subrange(0, i - 1));
        i = i - 1;
    }
    None
}

/// The directory in which `rel`, joined to `base`, is created.
pub fn parent_of_joined(base: &str, rel: &str) -> (r: String)
    ensures
        r@ == parent_dir(base@, rel@),
{
    match find_last_separator(rel) {
        None => String::from_str(base),
        Some(k) => {
            proof {
                lemma_last_separator_bounds(rel@);
            }
            join(base, rel.substring_char(0, k))
        },
    }
}

} // verus!
