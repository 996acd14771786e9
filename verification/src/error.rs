//! Errors of windows.

use vstd::prelude::*;

verus! {

/// The operation does not exist on this platform.
#[derive(Clone, Copy, Debug, PartialEq, Eq, Structural)]
pub struct NotSupportedError;

/// A request to the system failed.
#[derive(Clone, Copy, Debug, PartialEq, Eq, Structural)]
pub enum ExternalError {
    NotSupported(NotSupportedError),
}

/// The system reported an error.
#[derive(Clone, Debug)]
pub struct OsError;

impl Default for OsError {
    fn default() -> (error: Self)
        ensures
            error == OsError,
    {
        OsError
    }
}

impl OsError {
    /// The error in words.
    pub fn message(&self) -> (text: String)
        ensures
            text@ == "Android OS Error"@,
    {
        "Android OS Error".to_owned()
    }
}

} // verus!
