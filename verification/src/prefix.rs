//! Prefix comparison of canonical path texts, counted in characters.
//!
//! Two items of this module are trusted rather than proved: the equality of
//! string slices and the call that cuts a range of characters out of a text.

use substring::Substring;
use vstd::prelude::*;

verus! {

/// The characters of `text` from index `start` up to, but not including,
/// index `end`. Both indices count characters and are cut off at the length
/// of `text`; the range is empty where `end <= start`.
pub open spec fn char_range(text: Seq<char>, start: int, end: int) -> Seq<char> {
    if end <= start {
        Seq::empty()
    } else {
        text.subrange(
            vstd::math::min(start, text.len() as int),
            vstd::math::min(end, text.len() as int),
        )
    }
}

/// Whether `candidate` lies outside `base`: `base` is not a prefix of it.
pub open spec fn outside(base: Seq<char>, candidate: Seq<char>) -> bool {
    !base.is_prefix_of(candidate)
}

/// Trusted, not proved: `<str as PartialEq>::eq` of the standard library.
/// Two string slices are equal exactly when they hold the same characters.
pub assume_specification[ <str as PartialEq>::eq ](left: &str, right: &str) -> (same: bool)
    ensures
        same == (left@ == right@),
;

/// Trusted, not proved: `substring::Substring::substring` on `str`.
///
/// The result holds the characters of `text` whose index, counted in
/// characters, is at least `start` and less than `end`. An index past the
/// end of `text` counts as the end, and the result is empty where
/// `end <= start`. The call returns for every `start` and `end`.
#[verifier::external_body]
fn char_slice<'a>(text: &'a str, start: usize, end: usize) -> (part: &'a str)
    ensures
        part@ == char_range(text@, start as int, end as int),
{
    text.substring(start, end)
}

/// `base` is a prefix of `candidate` exactly when the leading characters of
/// `candidate`, as many as `base` has, are `base` itself.
pub proof fn lemma_leading_part_decides(base: Seq<char>, candidate: Seq<char>)
    ensures
        base.is_prefix_of(candidate) <==> char_range(candidate, 0, base.len() as int) == base,
{
    let head = char_range(candidate, 0, base.len() as int);
    if base.len() == 0 {
        assert(head =~= base);
        assert(base =~= candidate.subrange(0, 0));
    } else if base.len() > candidate.len() {
        assert(head.len() == candidate.len());
    }
}

/// Decides whether the canonical text `candidate` lies outside the canonical
/// text `base`, by comparing `base` with the leading characters of
/// `candidate`, as many as `base` has.
pub fn escapes(base: &str, candidate: &str) -> (escaped: bool)
    ensures
        escaped == outside(base@, candidate@),
{
    let width: usize = base.unicode_len();
    let head = char_slice(candidate, 0, width);
    proof {
        lemma_leading_part_decides(base@, candidate@);
    }
    !head.eq(base)
}

} // verus!
