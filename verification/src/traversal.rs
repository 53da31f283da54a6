//! The traversal check: is a candidate path outside a base directory?

use crate::error::ErrorKind;
use crate::prefix::{escapes, outside};
use crate::resolution::Resolution;
use vstd::prelude::*;

verus! {

/// What the check answers for a base and a candidate.
///
/// A failure of the base is reported before one of the candidate. Where both
/// have canonical text, the answer is `true` exactly when the candidate lies
/// outside the base.
pub open spec fn verdict(base: Resolution, candidate: Resolution) -> Result<bool, ErrorKind> {
    match base.text() {
        Err(kind) => Err(kind),
        Ok(base_text) => match candidate.text() {
            Err(kind) => Err(kind),
            Ok(candidate_text) => Ok(outside(base_text, candidate_text)),
        },
    }
}

/// Checks whether `candidate` escapes `base`.
///
/// `Ok(true)` reports a traversal: the candidate's canonical text does not
/// begin with that of the base. `Ok(false)` reports that it does. An `Err`
/// carries the kind of failure that kept one of the two from having
/// canonical text.
pub fn is_path_traversal(
    base: &Resolution,
    candidate: &Resolution,
) -> (answer: Result<bool, ErrorKind>)
    ensures
        answer == verdict(*base, *candidate),
{
    let base_text = match base.canonical_text() {
        Err(kind) => return Err(kind),
        Ok(text) => text,
    };
    let candidate_text = match candidate.canonical_text() {
        Err(kind) => return Err(kind),
        Ok(text) => text,
    };
    Ok(escapes(base_text, candidate_text))
}

/// The traversal check as a method of the base.
pub trait PathTrav {
    /// What resolving this base produced.
    spec fn resolved(&self) -> Resolution;

    /// Checks whether `rel` escapes this base.
    fn is_path_trav(&self, rel: &Resolution) -> (answer: Result<bool, ErrorKind>)
        ensures
            answer == verdict(self.resolved(), *rel),
    ;
}

impl PathTrav for Resolution {
    open spec fn resolved(&self) -> Resolution {
        *self
    }

    fn is_path_trav(&self, rel: &Resolution) -> (answer: Result<bool, ErrorKind>) {
        is_path_traversal(self, rel)
    }
}

} // verus!
