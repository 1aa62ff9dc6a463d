//! Paths as the search for a directory name needs them: `/`-separated
//! strings, told apart as absolute or relative, and joined.

use crate::name::{is_suffix, leaf, leaf_name};
use vstd::prelude::*;
use vstd::string::*;

verus! {

/// The character that separates the components of a path.
pub const MAIN_SEPARATOR: char = '/';

/// Whether `path` starts at the root of the file system.
pub open spec fn is_absolute(path: Seq<char>) -> bool {
    path.len() > 0 && path[0] == MAIN_SEPARATOR
}

/// Whether something joined to `base` has to be set off by a separator of its
/// own: `base` is not empty and does not end in one.
pub open spec fn needs_separator(base: Seq<char>) -> bool {
    base.len() > 0 && base.last() != MAIN_SEPARATOR
}

/// `base` as the start of the paths directly below it.
pub open spec fn below(base: Seq<char>) -> Seq<char> {
    if needs_separator(base) {
        base.push(MAIN_SEPARATOR)
    } else {
        base
    }
}

/// `path` adjoined to `base`: an absolute `path` replaces `base`, a relative
/// one is appended to it, after a separator where `base` lacks one.
pub open spec fn joined(base: Seq<char>, path: Seq<char>) -> Seq<char> {
    if is_absolute(path) {
        path
    } else {
        below(base) + path
    }
}

/// The path at which a directory named by `prefix` and `suffix` is looked for
/// under `parent`.
pub open spec fn candidate(parent: Seq<char>, prefix: Seq<char>, suffix: Seq<char>) -> Seq<char> {
    joined(parent, leaf(prefix, suffix))
}

/// Whether `path` names an entry directly inside `parent`: `parent`, a
/// separator where it brings none, and one further component.
pub open spec fn is_child_of(path: Seq<char>, parent: Seq<char>) -> bool {
    &&& path.len() > below(parent).len()
    &&& path.subrange(0, below(parent).len() as int) == below(parent)
    &&& forall|i: int| below(parent).len() <= i < path.len() ==> path[i] != MAIN_SEPARATOR
}

/// Tells whether `path` starts at the root of the file system.
pub fn path_is_absolute(path: &str) -> (absolute: bool)
    ensures
        absolute == is_absolute(path@),
{
    !path.is_empty() && path.get_char(0) == '/'
}

/// Adjoins `path` to `base`.
pub fn join(base: &str, path: &str) -> (whole: String)
    ensures
        whole@ == joined(base@, path@),
{
    if path_is_absolute(path) {
        return path.to_owned();
    }
    let mut whole = base.to_owned();
    let len = base.unicode_len();
    if len > 0 && base.get_char(len - 1) != '/' {
        proof {
            reveal_strlit("/");
        }
        whole.append("/");
    }
    whole.append(path);
    whole
}

/// Computes the path at which a directory named by `prefix` and `suffix` is
/// looked for under `parent`.
pub fn candidate_path(parent: &str, prefix: &str, suffix: &str) -> (path: String)
    ensures
        path@ == candidate(parent@, prefix@, suffix@),
{
    let name = leaf_name(prefix, suffix);
    join(parent, name.as_str())
}

/// Resolving against an absolute working directory always gives an absolute
/// path, whatever is resolved.
pub proof fn lemma_joined_is_absolute(base: Seq<char>, path: Seq<char>)
    requires
        is_absolute(base),
    ensures
        is_absolute(joined(base, path)),
{
}

/// A directory whose prefix holds no path separator is created directly inside
/// its parent: its path is the parent's, a separator, and the name.
pub proof fn lemma_candidate_is_child(parent: Seq<char>, prefix: Seq<char>, suffix: Seq<char>)
    requires
        is_suffix(suffix),
        !prefix.contains(MAIN_SEPARATOR),
    ensures
        candidate(parent, prefix, suffix) == below(parent) + leaf(prefix, suffix),
        is_child_of(candidate(parent, prefix, suffix), parent),
{
    let name = leaf(prefix, suffix);
    assert forall|i: int| 0 <= i < name.len() implies name[i] != MAIN_SEPARATOR by {
        if prefix.len() > 0 {
            if i < prefix.len() {
                assert(prefix.contains(prefix[i]));
            } else if i > prefix.len() {
                assert(name[i] == suffix[i - prefix.len() - 1]);
            }
        } else {
            assert(name[i] == suffix[i]);
        }
    }
    let path = candidate(parent, prefix, suffix);
    assert(path.subrange(0, below(parent).len() as int) =~= below(parent));
    assert forall|i: int| below(parent).len() <= i < path.len() implies path[i]
        != MAIN_SEPARATOR by {
        assert(path[i] == name[i - below(parent).len()]);
    }
}

} // verus!
