//! What holds of the traversal check on every input.
//!
//! The check compares canonical texts character by character and knows
//! nothing of path segments. The laws below say where this agrees with
//! containment by segments, for any separator, and where it does not.

use crate::error::ErrorKind;
use crate::resolution::Resolution;
use crate::traversal::verdict;
use vstd::prelude::*;

verus! {

/// `candidate` is `base` itself, or is `base` followed by `separator` and
/// anything after it.
pub open spec fn segment_prefixed(base: Seq<char>, candidate: Seq<char>, separator: char) -> bool {
    candidate == base || base.push(separator).is_prefix_of(candidate)
}

/// `candidate` begins with `base` and goes on, but not with `separator`.
///
/// Either it continues the last segment of `base`, as `/srv/data-old`
/// continues `/srv/data`, or `base` ends in the separator itself, as the
/// root directory does.
pub open spec fn bare_prefixed(base: Seq<char>, candidate: Seq<char>, separator: char) -> bool {
    &&& base.is_prefix_of(candidate)
    &&& candidate.len() > base.len()
    &&& candidate[base.len() as int] != separator
}

/// `candidate` is strictly below `base`: it begins with `base` and goes on
/// into a further segment, after `separator` or, where `base` ends in the
/// separator, directly.
pub open spec fn strictly_below(base: Seq<char>, candidate: Seq<char>, separator: char) -> bool {
    &&& base.is_prefix_of(candidate)
    &&& candidate.len() > base.len()
    &&& (candidate[base.len() as int] == separator
        || (base.len() > 0 && base.last() == separator))
}

/// A candidate begins with `base` exactly when it is prefixed by segments or
/// barely prefixed, and it is never both.
pub proof fn lemma_prefix_splits(base: Seq<char>, candidate: Seq<char>, separator: char)
    ensures
        base.is_prefix_of(candidate) <==> segment_prefixed(base, candidate, separator)
            || bare_prefixed(base, candidate, separator),
        !(segment_prefixed(base, candidate, separator)
            && bare_prefixed(base, candidate, separator)),
{
    let longer = base.push(separator);
    if longer.is_prefix_of(candidate) {
        assert(candidate[base.len() as int] == longer[base.len() as int]);
        assert(base =~= candidate.subrange(0, base.len() as int));
    }
    if base.is_prefix_of(candidate) {
        if candidate.len() == base.len() {
            assert(candidate =~= base);
        } else if candidate[base.len() as int] == separator {
            assert(longer =~= candidate.subrange(0, longer.len() as int));
        }
    }
}

/// A path checked against itself is inside: for every canonical text the
/// answer is `Ok(false)`.
pub proof fn lemma_same_path_is_inside(path: String)
    ensures
        verdict(Resolution::Canonical(path), Resolution::Canonical(path))
            == Ok::<bool, ErrorKind>(false),
{
}

/// A candidate that neither is the base nor begins with the base followed by
/// the separator is reported as a traversal, unless it is barely prefixed by
/// the base.
pub proof fn lemma_unrelated_is_traversal(base: String, candidate: String, separator: char)
    requires
        !segment_prefixed(base@, candidate@, separator),
        !bare_prefixed(base@, candidate@, separator),
    ensures
        verdict(Resolution::Canonical(base), Resolution::Canonical(candidate))
            == Ok::<bool, ErrorKind>(true),
{
    lemma_prefix_splits(base@, candidate@, separator);
}

/// A candidate strictly below the base is inside: the answer is `Ok(false)`.
pub proof fn lemma_descendant_is_inside(base: String, candidate: String, separator: char)
    requires
        strictly_below(base@, candidate@, separator),
    ensures
        verdict(Resolution::Canonical(base), Resolution::Canonical(candidate))
            == Ok::<bool, ErrorKind>(false),
{
}

/// A candidate that is barely prefixed by the base is reported as inside,
/// though it may be a sibling of the base: the answer is `Ok(false)`.
pub proof fn lemma_bare_prefix_is_inside(base: String, candidate: String, separator: char)
    requires
        bare_prefixed(base@, candidate@, separator),
    ensures
        verdict(Resolution::Canonical(base), Resolution::Canonical(candidate))
            == Ok::<bool, ErrorKind>(false),
{
}

/// A base that does not exist gives `Err(NotFound)`, whatever the candidate.
pub proof fn lemma_missing_base(candidate: Resolution)
    ensures
        verdict(Resolution::Failed(ErrorKind::NotFound), candidate)
            == Err::<bool, ErrorKind>(ErrorKind::NotFound),
{
}

/// A candidate that does not exist gives `Err(NotFound)`, unless the base
/// failed in another way first.
pub proof fn lemma_missing_candidate(base: Resolution)
    requires
        base.text() matches Err(kind) ==> kind == ErrorKind::NotFound,
    ensures
        verdict(base, Resolution::Failed(ErrorKind::NotFound))
            == Err::<bool, ErrorKind>(ErrorKind::NotFound),
{
}

} // verus!
