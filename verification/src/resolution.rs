//! What resolving a path against the filesystem produced.

use crate::error::ErrorKind;
use vstd::prelude::*;

verus! {

/// The outcome of resolving one path: following its symbolic links and its
/// `.` and `..` segments down to an absolute location.
///
/// The value holds a snapshot. It says nothing of the filesystem after the
/// moment at which the path was resolved.
#[derive(Debug, PartialEq, Eq)]
pub enum Resolution {
    /// The filesystem could not resolve the path, for the reason given.
    Failed(ErrorKind),
    /// The path resolved, but its canonical form is not valid text.
    NotText,
    /// The canonical form of the path: absolute and free of symbolic links.
    Canonical(String),
}

impl Resolution {
    /// The canonical text of the path, or the kind of failure that stands in
    /// its place: the filesystem's own kind where resolving failed, and
    /// `InvalidData` where the canonical form is not valid text.
    pub open spec fn text(self) -> Result<Seq<char>, ErrorKind> {
        match self {
            Resolution::Failed(kind) => Err(kind),
            Resolution::NotText => Err(ErrorKind::InvalidData),
            Resolution::Canonical(text) => Ok(text@),
        }
    }

    /// Hands out the canonical text, or the kind of failure in its place.
    pub fn canonical_text(&self) -> (found: Result<&str, ErrorKind>)
        ensures
            self.text() == match found {
                Ok(text) => Ok(text@),
                Err(kind) => Err(kind),
            },
    {
        match self {
            Resolution::Failed(kind) => Err(*kind),
            Resolution::NotText => Err(ErrorKind::InvalidData),
            Resolution::Canonical(text) => Ok(text.as_str()),
        }
    }
}

impl Clone for Resolution {
    fn clone(&self) -> (copy: Self)
        ensures
            copy == *self,
    {
        match self {
            Resolution::Failed(kind) => Resolution::Failed(*kind),
            Resolution::NotText => Resolution::NotText,
            Resolution::Canonical(text) => Resolution::Canonical(text.clone()),
        }
    }
}

} // verus!
