//! Path strings: joining, file stems, and extension tests.
//!
//! The engine handles paths as plain strings with `/` as the separator. This
//! module gives it the few facts it needs about such a string: how to build
//! one, the stem of its file name, and whether the file name carries an
//! extension.

use vstd::prelude::*;

verus! {

/// `a` and `b` joined with the path separator.
pub open spec fn join_path(a: Seq<char>, b: Seq<char>) -> Seq<char> {
    a + "/"@ + b
}

/// The file-name portion of a path: everything after the last `/`, or the
/// whole path when it has none.
pub open spec fn after_last_slash(s: Seq<char>) -> Seq<char>
    decreases s.len(),
{
    if s.len() == 0 {
        s
    } else if s.last() == '/' {
        Seq::empty()
    } else {
        after_last_slash(s.drop_last()).push(s.last())
    }
}

/// The index of the last `.` of a file name that stands past the first
/// character, or `-1` when there is none. A dot in front marks a hidden
/// name rather than an extension, so index `0` never counts.
pub open spec fn last_dot_from(name: Seq<char>) -> int
    decreases name.len(),
{
    if name.len() <= 1 {
        -1
    } else if name.last() == '.' {
        name.len() - 1
    } else {
        last_dot_from(name.drop_last())
    }
}

/// The stem of a file name: what stands before its last `.`, or all of it
/// when it has no extension.
pub open spec fn stem_of(name: Seq<char>) -> Seq<char> {
    if last_dot_from(name) >= 0 {
        name.take(last_dot_from(name))
    } else {
        name
    }
}

/// Whether a file name has no extension.
pub open spec fn extensionless(name: Seq<char>) -> bool {
    last_dot_from(name) == -1
}

/// Joins two path fragments with `/`.
pub fn join(a: &str, b: &str) -> (r: String)
    ensures
        r@ == join_path(a@, b@),
{
    String::from_str(a).concat("/").concat(b)
}

/// A scan that found no `/` from `k` on, and a `/` just before `k` (or the
/// start of the string), has found the file-name portion.
proof fn lemma_after_last_slash(s: Seq<char>, k: int)
    requires
        0 <= k <= s.len(),
        forall|j: int| k <= j < s.len() ==> s[j] != '/',
        k == 0 || s[k - 1] == '/',
    ensures
        after_last_slash(s) == s.subrange(k, s.len() as int),
    decreases s.len(),
{
    if s.len() == 0 {
        assert(after_last_slash(s) =~= s.subrange(0, 0));
    } else if s.last() == '/' {
        assert(k == s.len());
        assert(after_last_slash(s) =~= s.subrange(k, s.len() as int));
    } else {
        assert(k < s.len());
        lemma_after_last_slash(s.drop_last(), k);
        assert(s.subrange(k, s.len() as int) =~= s.drop_last().subrange(
            k,
            s.len() - 1,
        ).push(s.last()));
    }
}

/// A scan that found a `.` at index `j` and none after it has found the
/// last dot.
proof fn lemma_last_dot_found(name: Seq<char>, j: int)
    requires
        1 <= j < name.len(),
        name[j] == '.',
        forall|k: int| j < k < name.len() ==> name[k] != '.',
    ensures
        last_dot_from(name) == j,
    decreases name.len(),
{
    if j < name.len() - 1 {
        assert(name.last() != '.');
        lemma_last_dot_found(name.drop_last(), j);
    }
}

/// A scan that found no `.` past the first character has found none at all.
proof fn lemma_last_dot_none(name: Seq<char>)
    requires
        forall|k: int| 1 <= k < name.len() ==> name[k] != '.',
    ensures
        last_dot_from(name) == -1,
    decreases name.len(),
{
    if name.len() > 1 {
        lemma_last_dot_none(name.drop_last());
    }
}

/// Where the file name of `path` begins: the index just past the last `/`,
/// or `0` when there is none.
fn name_start(path: &str) -> (start: usize)
    ensures
        start <= path@.len(),
        start == 0 || path@[start - 1] == '/',
        forall|j: int| start <= j < path@.len() ==> path@[j] != '/',
{
    let n = path.unicode_len();
    let mut q: usize = 0;
    let mut start: usize = 0;
    while q < n
        invariant
            n == path@.len(),
            start <= q <= n,
            start == 0 || path@[start - 1] == '/',
            forall|j: int| start <= j < q ==> path@[j] != '/',
        decreases n - q,
    {
        if path.get_char(q) == '/' {
            start = q + 1;
        }
        q = q + 1;
    }
    start
}

/// The last `.` of the file name of `path` that marks an extension: its
/// absolute index, when the name has one at relative index `1` or later.
fn last_dot_in_name(path: &str, start: usize) -> (dot: Option<usize>)
    requires
        start <= path@.len(),
    ensures
        match dot {
            Some(d) => {
                &&& start < d < path@.len()
                &&& path@[d as int] == '.'
                &&& forall|j: int| d < j < path@.len() ==> path@[j] != '.'
            },
            None => forall|j: int| start < j < path@.len() ==> path@[j] != '.',
        },
{
    let n = path.unicode_len();
    let mut p: usize = start;
    let mut dot: Option<usize> = None;
    while p < n
        invariant
            n == path@.len(),
            start <= p <= n,
            match dot {
                Some(d) => {
                    &&& start < d < p
                    &&& path@[d as int] == '.'
                    &&& forall|j: int| d < j < p ==> path@[j] != '.'
                },
                None => forall|j: int| start < j < p ==> path@[j] != '.',
            },
        decreases n - p,
    {
        if p > start && path.get_char(p) == '.' {
            dot = Some(p);
        }
        p = p + 1;
    }
    dot
}

/// The stem of the file name of `path`: the name without its extension.
pub fn file_stem(path: &str) -> (r: String)
    ensures
        r@ == stem_of(after_last_slash(path@)),
{
    let n = path.unicode_len();
    let start = name_start(path);
    proof {
        lemma_after_last_slash(path@, start as int);
    }
    let ghost name = after_last_slash(path@);
    let dot = last_dot_in_name(path, start);
    match dot {
        Some(d) => {
            proof {
                lemma_last_dot_found(name, d - start);
                assert(name.take(d - start) =~= path@.subrange(start as int, d as int));
            }
            path.substring_char(start, d).to_owned()
        },
        None => {
            proof {
                lemma_last_dot_none(name);
            }
            path.substring_char(start, n).to_owned()
        },
    }
}

/// Whether the file name `name` has no extension: no `.` past its first
/// character.
pub fn has_no_extension(name: &str) -> (r: bool)
    ensures
        r == extensionless(name@),
{
    let dot = last_dot_in_name(name, 0);
    match dot {
        Some(d) => {
            proof {
                lemma_last_dot_found(name@, d as int);
            }
            false
        },
        None => {
            proof {
                lemma_last_dot_none(name@);
            }
            true
        },
    }
}

} // verus!
