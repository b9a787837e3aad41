//! A character-level model of filesystem paths.
//!
//! Paths are modeled as '/'-separated strings: the parent of a path is
//! everything before its last separator, its file name everything after, and
//! joining appends a separator and a name. A path without a separator has no
//! parent.

use vstd::prelude::*;
use vstd::string::StrSliceExecFns;
use vstd::string::StringExecFns;

verus! {

/// Index of the last '/' in `p`, or -1 if there is none.
pub open spec fn spec_last_sep(p: Seq<char>) -> int
    decreases p.len(),
{
    if p.len() == 0 {
        -1
    } else if p[p.len() - 1] == '/' {
        p.len() - 1
    } else {
        spec_last_sep(p.drop_last())
    }
}

/// The last separator lies inside the path, and marks a '/'.
pub proof fn lemma_last_sep_bounds(p: Seq<char>)
    ensures
        -1 <= spec_last_sep(p) < p.len(),
        spec_last_sep(p) >= 0 ==> p[spec_last_sep(p)] == '/',
    decreases p.len(),
{
    if p.len() == 0 {
    } else if p[p.len() - 1] == '/' {
    } else {
        lemma_last_sep_bounds(p.drop_last());
    }
}

/// The parent directory: everything before the last separator, if any.
pub open spec fn spec_parent(p: Seq<char>) -> Option<Seq<char>> {
    if spec_last_sep(p) >= 0 {
        Some(p.subrange(0, spec_last_sep(p)))
    } else {
        None
    }
}

/// The file name: everything after the last separator, or the whole path.
pub open spec fn spec_file_name(p: Seq<char>) -> Seq<char> {
    p.subrange(spec_last_sep(p) + 1, p.len() as int)
}

/// `dir` and `name` joined by one separator.
pub open spec fn spec_join(dir: Seq<char>, name: Seq<char>) -> Seq<char> {
    dir + "/"@ + name
}

/// Index of the last '/' in `p`, scanning from the end.
pub fn last_sep_index(p: &str) -> (r: Option<usize>)
    ensures
        (match r {
            Option::Some(i) => spec_last_sep(p@) == i as int,
            Option::None => spec_last_sep(p@) == -1,
        }),
{
    let n = p.unicode_len();
    proof {
        assert(p@.subrange(0, n as int) =~= p@);
    }
    let mut i: usize = n;
    while i > 0
        invariant
            n == p@.len(),
            i <= n,
            spec_last_sep(p@) == spec_last_sep(p@.subrange(0, i as int)),
        decreases i,
    {
        let c = p.get_char(i - 1);
        proof {
            assert(p@.subrange(0, i as int)[i - 1] == p@[i - 1]);
        }
        if c == '/' {
            return Some(i - 1);
        }
        proof {
            assert(p@.subrange(0, i as int).drop_last() =~= p@.subrange(0, i as int - 1));
        }
        i -= 1;
    }
    proof {
        assert(p@.subrange(0, 0) =~= Seq::<char>::empty());
    }
    None
}

/// The parent directory of `p`, or `None` for a path without a separator.
pub fn parent_of(p: &str) -> (r: Option<String>)
    ensures
        (match r {
            Option::Some(d) => spec_parent(p@) matches Some(pd) && d@ == pd,
            Option::None => spec_parent(p@) is None,
        }),
{
    match last_sep_index(p) {
        Option::Some(i) => {
            proof {
                lemma_last_sep_bounds(p@);
            }
            Some(String::from_str(p.substring_char(0, i)))
        },
        Option::None => None,
    }
}

/// The file name of `p`: what follows its last separator, or all of `p`.
pub fn file_name_of(p: &str) -> (r: String)
    ensures
        r@ == spec_file_name(p@),
{
    let n = p.unicode_len();
    match last_sep_index(p) {
        Option::Some(i) => {
            proof {
                lemma_last_sep_bounds(p@);
            }
            String::from_str(p.substring_char(i + 1, n))
        },
        Option::None => String::from_str(p.substring_char(0, n)),
    }
}

/// Joins a directory and a file name with one separator.
pub fn join_path(dir: &str, name: &str) -> (r: String)
    ensures
        r@ == spec_join(dir@, name@),
{
    let mut s = String::from_str(dir);
    s.append("/");
    s.append(name);
    s
}

} // verus!
