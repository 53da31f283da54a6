//! Path-traversal detection over resolved paths.
//!
//! Given a base directory and a candidate path, both already resolved
//! against the filesystem, the check tells whether the candidate lies
//! outside the base: whether its canonical text does not begin with the
//! canonical text of the base. Resolving is the caller's part; the library
//! takes the outcome as a [`Resolution`] and holds no state.
//!
//! The comparison is by characters, not by path segments. A sibling whose
//! name begins with the name of the base therefore counts as inside. The
//! module [`laws`] states this, and what else holds of every input.
//!
//! - [`error`]: the kinds of failure that resolving a path can report.
//! - [`resolution`]: what resolving one path produced.
//! - [`prefix`]: the comparison of two canonical texts.
//! - [`traversal`]: the check, as a function and as a method of the base.
//! - [`laws`]: what the check answers on whole classes of inputs.

pub mod error;
pub mod laws;
pub mod prefix;
pub mod resolution;
pub mod traversal;

pub use error::ErrorKind;
pub use resolution::Resolution;
pub use traversal::{is_path_traversal, PathTrav};
