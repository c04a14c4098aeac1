//! Resolving a requested minor version against a set of revision tags.
//!
//! A request names a release line, such as a bare major.minor pair.  The
//! candidate tags are those of the form `v<version>.<patch>` whose patch
//! component is a plain decimal number; the resolver picks the highest
//! patch, comparing numerically, and rebuilds the full tag from it.

use vstd::prelude::*;

use crate::errors::BuildError;
use crate::numerals::{dec_rep, dec_val, parses_as_number};
use crate::numerals::{parse_number, render_number};

verus! {

/// The prefix every candidate tag starts with: `v<version>.`.
pub open spec fn tag_prefix(version: Seq<char>) -> Seq<char> {
    seq!['v'] + version + seq!['.']
}

/// Whether `tag` is a candidate for the requested `version`: it carries the
/// `v<version>.` prefix and its remainder is a decimal patch number.
pub open spec fn is_candidate(tag: Seq<char>, version: Seq<char>) -> bool {
    &&& tag.len() >= tag_prefix(version).len()
    &&& tag.take(tag_prefix(version).len() as int) == tag_prefix(version)
    &&& parses_as_number(tag.skip(tag_prefix(version).len() as int))
}

/// The patch number of a candidate tag.
pub open spec fn patch_of(tag: Seq<char>, version: Seq<char>) -> int {
    dec_val(tag.skip(tag_prefix(version).len() as int))
}

/// The highest patch number among the candidate tags, or `None` when no
/// tag is a candidate.
pub open spec fn max_patch(tags: Seq<String>, version: Seq<char>) -> Option<int>
    decreases tags.len(),
{
    if tags.len() == 0 {
        None
    } else {
        let rest = max_patch(tags.drop_last(), version);
        if is_candidate(tags.last()@, version) {
            let p = patch_of(tags.last()@, version);
            match rest {
                Option::None => Some(p),
                Option::Some(m) => if p > m {
                    Some(p)
                } else {
                    Some(m)
                },
            }
        } else {
            rest
        }
    }
}

/// `max_patch` is sound and complete: when it yields a patch, some
/// candidate tag carries it and no candidate tag exceeds it; when it yields
/// nothing, no tag is a candidate.
pub proof fn lemma_max_patch_correct(tags: Seq<String>, version: Seq<char>)
    ensures
        match max_patch(tags, version) {
            Option::Some(m) => (exists|i: int|
                0 <= i < tags.len() && is_candidate(tags[i]@, version) && patch_of(
                    tags[i]@,
                    version,
                ) == m) && (forall|i: int|
                0 <= i < tags.len() && is_candidate(tags[i]@, version) ==> patch_of(
                    tags[i]@,
                    version,
                ) <= m),
            Option::None => forall|i: int|
                0 <= i < tags.len() ==> !is_candidate(tags[i]@, version),
        },
    decreases tags.len(),
{
    if tags.len() > 0 {
        lemma_max_patch_correct(tags.drop_last(), version);
        let rest = tags.drop_last();
        assert(forall|i: int| 0 <= i < rest.len() ==> rest[i] == tags[i]);
        assert(tags.last() == tags[tags.len() - 1]);
        match max_patch(tags, version) {
            Option::Some(m) => {
                if is_candidate(tags.last()@, version) && (max_patch(rest, version) is None
                    || patch_of(tags.last()@, version) > max_patch(rest, version)->0) {
                    assert(is_candidate(tags[tags.len() - 1]@, version) && patch_of(
                        tags[tags.len() - 1]@,
                        version,
                    ) == m);
                } else {
                    let j = choose|j: int|
                        0 <= j < rest.len() && is_candidate(rest[j]@, version) && patch_of(
                            rest[j]@,
                            version,
                        ) == m;
                    assert(is_candidate(tags[j]@, version) && patch_of(tags[j]@, version) == m);
                }
            },
            Option::None => {},
        }
    }
}

/// A tag that is not a candidate never influences resolution: appending it
/// to the tag set leaves the selected patch unchanged.  In particular a tag
/// whose patch component is not numeric is excluded, not an error.
pub proof fn lemma_non_candidate_ignored(tags: Seq<String>, tag: String, version: Seq<char>)
    requires
        !is_candidate(tag@, version),
    ensures
        max_patch(tags.push(tag), version) == max_patch(tags, version),
{
    assert(tags.push(tag).drop_last() =~= tags);
    assert(tags.push(tag).last() == tag);
}

/// Builds the tag prefix `v<version>.` for the requested version.
pub fn make_prefix(version: &str) -> (r: String)
    ensures
        r@ == tag_prefix(version@),
{
    proof {
        reveal_strlit("v");
        reveal_strlit(".");
        assert("v"@ =~= seq!['v']);
        assert("."@ =~= seq!['.']);
    }
    let r = String::from_str("v").concat(version).concat(".");
    assert(r@ =~= tag_prefix(version@));
    r
}

/// Whether `s` starts with `prefix`, character for character.
fn has_prefix(s: &str, prefix: &str) -> (r: bool)
    ensures
        r == (s@.len() >= prefix@.len() && s@.take(prefix@.len() as int) == prefix@),
{
    let sn = s.unicode_len();
    let pn = prefix.unicode_len();
    if sn < pn {
        return false;
    }
    let mut i: usize = 0;
    while i < pn
        invariant
            0 <= i <= pn,
            pn == prefix@.len(),
            pn <= sn == s@.len(),
            forall|k: int| 0 <= k < i ==> s@[k] == prefix@[k],
        decreases pn - i,
    {
        if s.get_char(i) != prefix.get_char(i) {
            assert(s@.take(pn as int)[i as int] != prefix@[i as int]);
            return false;
        }
        i = i + 1;
    }
    assert(s@.take(pn as int) =~= prefix@);
    true
}

/// The patch number `tag` contributes for a requested version whose tag
/// prefix is `prefix`, or `None` when `tag` is not a candidate.
fn candidate_patch(tag: &str, prefix: &str) -> (r: Option<usize>)
    ensures
        r is Some <==> (tag@.len() >= prefix@.len() && tag@.take(prefix@.len() as int) == prefix@
            && parses_as_number(tag@.skip(prefix@.len() as int))),
        r is Some ==> r->0 as int == dec_val(tag@.skip(prefix@.len() as int)),
{
    if !has_prefix(tag, prefix) {
        return None;
    }
    let pn = prefix.unicode_len();
    let tn = tag.unicode_len();
    let rest = tag.substring_char(pn, tn);
    assert(rest@ =~= tag@.skip(pn as int));
    parse_number(rest)
}

/// Resolves the requested minor version against the given tags: the result
/// is the full tag `v<version>.<patch>` carrying the highest numeric patch
/// among the candidates, or `VersionNotFound` when no tag is a candidate.
pub fn resolve_version(tags: &Vec<String>, version: &str) -> (r: Result<String, BuildError>)
    ensures
        match r {
            Result::Ok(tag) => max_patch(tags@, version@) is Some && tag@ == tag_prefix(version@)
                + dec_rep(max_patch(tags@, version@)->0),
            Result::Err(e) => max_patch(tags@, version@) is None && (e matches
                BuildError::VersionNotFound { version: v } && v@ == version@),
        },
{
    let prefix = make_prefix(version);
    let mut best: Option<usize> = None;
    let mut i: usize = 0;
    while i < tags.len()
        invariant
            0 <= i <= tags@.len(),
            prefix@ == tag_prefix(version@),
            match best {
                Option::None => max_patch(tags@.take(i as int), version@) is None,
                Option::Some(b) => max_patch(tags@.take(i as int), version@) == Some(b as int),
            },
        decreases tags@.len() - i,
    {
        let p = candidate_patch(tags[i].as_str(), prefix.as_str());
        proof {
            assert(tags@.take(i + 1 as int).drop_last() =~= tags@.take(i as int));
            assert(tags@.take(i + 1 as int).last() == tags@[i as int]);
        }
        match p {
            Option::Some(p) => {
                match best {
                    Option::None => {
                        best = Some(p);
                    },
                    Option::Some(b) => {
                        if p > b {
                            best = Some(p);
                        }
                    },
                }
            },
            Option::None => {},
        }
        i = i + 1;
    }
    proof {
        assert(tags@.take(tags@.len() as int) =~= tags@);
    }
    match best {
        Option::Some(b) => {
            let number = render_number(b);
            let tag = prefix.concat(number.as_str());
            Ok(tag)
        },
        Option::None => Err(
            BuildError::VersionNotFound { version: String::from_str(version) },
        ),
    }
}

} // verus!
