//! Path strings and their concatenation.
//!
//! Paths are held as plain strings and joined with a single `/` separator,
//! so every derived path is a pure function of its components.

use vstd::prelude::*;

verus! {

/// `base` and `name` joined with a `/` separator.
pub open spec fn path_join(base: Seq<char>, name: Seq<char>) -> Seq<char> {
    base + seq!['/'] + name
}

/// `name` placed under `root`, where an empty `name` denotes `root` itself.
pub open spec fn path_under(root: Seq<char>, rel: Seq<char>) -> Seq<char> {
    if rel.len() == 0 {
        root
    } else {
        path_join(root, rel)
    }
}

/// Joins two path components with a `/` separator.
pub fn join(base: &str, name: &str) -> (r: String)
    ensures
        r@ == path_join(base@, name@),
{
    proof {
        reveal_strlit("/");
        assert("/"@ =~= seq!['/']);
    }
    let r = String::from_str(base).concat("/").concat(name);
    assert(r@ =~= path_join(base@, name@));
    r
}

/// Joins a relative path under a root, keeping the root itself for the
/// empty relative path.
pub fn join_under(root: &str, rel: &str) -> (r: String)
    ensures
        r@ == path_under(root@, rel@),
{
    if rel.unicode_len() == 0 {
        assert(root@ =~= path_under(root@, rel@));
        String::from_str(root)
    } else {
        join(root, rel)
    }
}

} // verus!
