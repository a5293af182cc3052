//! Path-string helpers: the final component of a path (its basename), the
//! directory prefix in front of it, and the extension inside it. The
//! classifier's move-versus-rename heuristic compares basenames, so their
//! meaning is pinned down exactly.

use vstd::prelude::*;

verus! {

/// Both separators that the watcher's platforms use.
pub open spec fn is_sep(c: char) -> bool {
    c == '/' || c == '\\'
}

/// The suffix of `s` after its last separator: the whole of `s` when it holds
/// no separator, and empty when `s` ends with one.
pub open spec fn spec_basename(s: Seq<char>) -> Seq<char>
    decreases s.len(),
{
    if s.len() == 0 {
        Seq::empty()
    } else if is_sep(s[s.len() - 1]) {
        Seq::empty()
    } else {
        spec_basename(s.subrange(0, s.len() - 1)).push(s[s.len() - 1])
    }
}

/// The parent of a canonical path string: the prefix in front of the last
/// separator; the separator itself when nothing else stands before it (the
/// parent of `/a.txt` is `/`); nothing for a bare name without separators,
/// and nothing for the root alone, which has no parent.
pub open spec fn spec_parent(s: Seq<char>) -> Option<Seq<char>> {
    if s.len() == spec_basename(s).len() {
        None
    } else if s.len() - spec_basename(s).len() - 1 == 0 {
        if s.len() == 1 {
            None
        } else {
            Some(s.subrange(0, 1))
        }
    } else {
        Some(s.subrange(0, s.len() - spec_basename(s).len() - 1))
    }
}

/// Whether `name` has an extension: a `.` strictly inside it, not at index 0
/// (so a leading-dot name such as a VCS ignore file has none).
pub open spec fn has_extension(name: Seq<char>) -> bool {
    exists|i: int| 1 <= i < name.len() && name[i] == '.'
}

/// The index of the last `.` of `name`; meaningful only when one exists.
pub open spec fn last_dot(name: Seq<char>) -> int {
    choose|i: int|
        1 <= i < name.len() && name[i] == '.' && forall|j: int|
            i < j < name.len() ==> name[j] != '.'
}

/// The suffix of `name` after its last `.`, when `name` has an extension.
pub open spec fn spec_extension(name: Seq<char>) -> Option<Seq<char>> {
    if has_extension(name) {
        Some(name.subrange(last_dot(name) + 1, name.len() as int))
    } else {
        None
    }
}

/// `spec_basename(s)` is exactly the suffix of `s` that starts right after
/// its last separator.
proof fn lemma_basename_is_suffix(s: Seq<char>, j: int)
    requires
        0 <= j <= s.len(),
        forall|k: int| j <= k < s.len() ==> !is_sep(s[k]),
        j > 0 ==> is_sep(s[j - 1]),
    ensures
        spec_basename(s) == s.subrange(j, s.len() as int),
    decreases s.len(),
{
    if s.len() == 0 {
        assert(spec_basename(s) =~= s.subrange(0, 0));
    } else if j == s.len() {
        assert(spec_basename(s) =~= s.subrange(j, s.len() as int));
    } else {
        let prefix = s.subrange(0, s.len() - 1);
        lemma_basename_is_suffix(prefix, j);
        assert(spec_basename(s) =~= s.subrange(j, s.len() as int)) by {
            assert(prefix.subrange(j, prefix.len() as int) =~= s.subrange(j, s.len() - 1));
            assert(s.subrange(j, s.len() - 1).push(s[s.len() - 1]) =~= s.subrange(
                j,
                s.len() as int,
            ));
        }
    }
}

/// The char index right after the last separator of `path`, or 0 when no
/// separator exists. The basename is the suffix from this index on.
fn basename_start(path: &str) -> (j: usize)
    ensures
        j <= path@.len(),
        forall|k: int| j <= k < path@.len() ==> !is_sep(path@[k]),
        j > 0 ==> is_sep(path@[j - 1]),
        spec_basename(path@) == path@.subrange(j as int, path@.len() as int),
{
    let len = path.unicode_len();
    let mut j = len;
    while j > 0
        invariant
            j <= len,
            len == path@.len(),
            forall|k: int| j <= k < path@.len() ==> !is_sep(path@[k]),
        decreases j,
    {
        let c = path.get_char(j - 1);
        if c == '/' || c == '\\' {
            proof {
                lemma_basename_is_suffix(path@, j as int);
            }
            return j;
        }
        j = j - 1;
    }
    proof {
        lemma_basename_is_suffix(path@, 0);
    }
    0
}

/// The final component of `path`: everything after the last `/` or `\`,
/// the whole of `path` when it holds neither.
pub fn basename(path: &str) -> (r: String)
    ensures
        r@ == spec_basename(path@),
{
    let j = basename_start(path);
    let sub = path.substring_char(j, path.unicode_len());
    sub.to_owned()
}

/// The directory prefix of `path`: everything in front of the last `/` or
/// `\`, the separator alone for a root-level path, and nothing for a bare
/// name or for the root itself.
pub fn parent_dir(path: &str) -> (r: Option<String>)
    ensures
        match r {
            Some(p) => spec_parent(path@) matches Some(q) && p@ == q,
            None => spec_parent(path@) is None,
        },
{
    let j = basename_start(path);
    proof {
        assert(spec_basename(path@).len() == path@.len() - j);
    }
    if j == 0 {
        None
    } else if j == 1 {
        if path.unicode_len() == 1 {
            None
        } else {
            let sub = path.substring_char(0, 1);
            Some(sub.to_owned())
        }
    } else {
        let sub = path.substring_char(0, j - 1);
        Some(sub.to_owned())
    }
}

/// The extension of the file name `name`: the suffix after its last `.`,
/// where that `.` is not the leading character; nothing otherwise.
pub fn extension_of(name: &str) -> (r: Option<String>)
    ensures
        match r {
            Some(e) => spec_extension(name@) matches Some(q) && e@ == q,
            None => spec_extension(name@) is None,
        },
{
    let len = name.unicode_len();
    let mut j = len;
    while j > 1
        invariant
            j <= len,
            len == name@.len(),
            forall|k: int| j <= k < name@.len() ==> name@[k] != '.',
        decreases j,
    {
        let c = name.get_char(j - 1);
        if c == '.' {
            proof {
                let i = j - 1;
                assert(1 <= i < name@.len() && name@[i] == '.' && forall|k: int|
                    i < k < name@.len() ==> name@[k] != '.');
                let d = last_dot(name@);
                if d < i {
                    assert(name@[i] != '.');
                } else if d > i {
                    assert(name@[d] != '.');
                }
                assert(d == i);
            }
            let sub = name.substring_char(j, len);
            return Some(sub.to_owned());
        }
        j = j - 1;
    }
    proof {
        if has_extension(name@) {
            let i = choose|i: int| 1 <= i < name@.len() && name@[i] == '.';
            assert(name@[i] != '.');
        }
    }
    None
}

} // verus!
