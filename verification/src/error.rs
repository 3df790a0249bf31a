//! The failure values this library surfaces to its callers.

use vstd::prelude::*;

verus! {

/// What can go wrong while resolving or running a hook, or while reading a
/// commit. A hook that runs and exits nonzero is not an error: see
/// `HookResult`.
#[derive(Debug)]
pub enum HooksError {
    /// The path is not inside a repository, the commit id cannot be
    /// resolved, or the repository's configuration cannot be read.
    Repository(String),
    /// The configured hooks path holds home-directory or variable syntax
    /// that cannot be expanded.
    PathExpansion(String),
    /// A temporary file could not be handled, or a process could not be
    /// spawned.
    Io(String),
    /// A path was not valid text.
    PathToString,
}

impl HooksError {
    /// A short description, for display by a caller.
    pub fn message(self) -> (r: String)
        ensures
            self matches HooksError::Repository(m) ==> r@ == m@,
            self matches HooksError::PathExpansion(m) ==> r@ == m@,
            self matches HooksError::Io(m) ==> r@ == m@,
            self is PathToString ==> r@ == "path is not valid unicode"@,
    {
        match self {
            HooksError::Repository(m) => m,
            HooksError::PathExpansion(m) => m,
            HooksError::Io(m) => m,
            HooksError::PathToString => String::from_str("path is not valid unicode"),
        }
    }
}

} // verus!
