//! Path arithmetic on plain strings: joining, the parent directory, and
//! absoluteness, with exact specifications.

use vstd::prelude::*;

use crate::strutil;

verus! {

use vstd::string::StrSliceExecFns;

/// Joining a directory and a relative path with a separator.
pub open spec fn join_spec(dir: Seq<char>, rel: Seq<char>) -> Seq<char> {
    dir + "/"@ + rel
}

/// Joins a directory and a relative path.
pub fn join(dir: &str, rel: &str) -> (r: String)
    ensures
        r@ == join_spec(dir@, rel@),
{
    strutil::concat3(dir, "/", rel)
}

/// The index of the last `/` in `p`, or `-1` if there is none.
pub open spec fn last_slash(p: Seq<char>) -> int
    decreases p.len(),
{
    if p.len() == 0 {
        -1
    } else if p.last() == '/' {
        p.len() - 1
    } else {
        last_slash(p.drop_last())
    }
}

/// The parent directory of a path, mirroring how `/`-separated paths nest:
/// the root and the empty path have none; a bare name's parent is the empty
/// path; otherwise everything from the last separator on is dropped.
pub open spec fn parent_spec(p: Seq<char>) -> Option<Seq<char>> {
    let i = last_slash(p);
    if i == -1 {
        if p.len() == 0 {
            None
        } else {
            Some(Seq::<char>::empty())
        }
    } else if p.len() == 1 {
        None
    } else if i == 0 {
        Some(p.subrange(0, 1))
    } else {
        Some(p.subrange(0, i))
    }
}

/// A parent is always strictly shorter than its path.
pub proof fn lemma_parent_shorter(p: Seq<char>)
    ensures
        parent_spec(p) matches Some(q) ==> q.len() < p.len(),
{
    lemma_last_slash_range(p);
}

proof fn lemma_last_slash_range(p: Seq<char>)
    ensures
        -1 <= last_slash(p) < p.len(),
    decreases p.len(),
{
    if p.len() > 0 && p.last() != '/' {
        lemma_last_slash_range(p.drop_last());
    }
}

proof fn lemma_last_slash_skip(p: Seq<char>, j: int)
    requires
        0 <= j <= p.len(),
        forall|k: int| j <= k < p.len() ==> p[k] != '/',
    ensures
        last_slash(p) == last_slash(p.subrange(0, j)),
    decreases p.len() - j,
{
    if j < p.len() {
        assert(p.subrange(0, p.len() - 1) =~= p.drop_last());
        lemma_last_slash_skip(p.drop_last(), j);
        assert(p.drop_last().subrange(0, j) =~= p.subrange(0, j));
    } else {
        assert(p.subrange(0, p.len() as int) =~= p);
    }
}

/// The parent directory of a path.
pub fn parent(p: &str) -> (r: Option<String>)
    ensures
        match r {
            Some(q) => parent_spec(p@) == Some(q@),
            None => parent_spec(p@) is None,
        },
{
    let n = p.unicode_len();
    let mut j: usize = n;
    while j > 0 && p.get_char(j - 1) != '/'
        invariant
            0 <= j <= n,
            n == p@.len(),
            forall|k: int| j <= k < n ==> p@[k] != '/',
        decreases j,
    {
        j = j - 1;
    }
    proof {
        lemma_last_slash_skip(p@, j as int);
    }
    if j == 0 {
        // no separator at all
        proof {
            assert(p@.subrange(0, 0) =~= Seq::<char>::empty());
        }
        if p.unicode_len() == 0 {
            None
        } else {
            Some(String::new())
        }
    } else {
        proof {
            assert(p@.subrange(0, j as int).last() == p@[j - 1]);
            assert(last_slash(p@.subrange(0, j as int)) == j - 1);
        }
        if n == 1 {
            None
        } else if j == 1 {
            Some(p.substring_char(0, 1).to_owned())
        } else {
            Some(p.substring_char(0, j - 1).to_owned())
        }
    }
}

/// The character sequences a list of path strings denotes.
pub open spec fn paths_view(v: Seq<String>) -> Seq<Seq<char>> {
    v.map_values(|s: String| s@)
}

/// Appending a path to a list appends its character sequence to the view.
pub proof fn lemma_paths_view_push(v: Seq<String>, x: String)
    ensures
        paths_view(v.push(x)) =~= paths_view(v).push(x@),
{
}

/// Whether a path is absolute: it starts with the separator.
pub open spec fn is_absolute_spec(p: Seq<char>) -> bool {
    p.len() > 0 && p[0] == '/'
}

/// Whether a path is absolute.
pub fn is_absolute(p: &str) -> (r: bool)
    ensures
        r == is_absolute_spec(p@),
{
    p.unicode_len() > 0 && p.get_char(0) == '/'
}

} // verus!
