//! The pipeline's failure taxonomy. Only the missing-input-source condition is
//! ever fatal; the read-failure member exists in the taxonomy but the steady
//! loop recovers from read failures by retrying instead of raising it.

use vstd::prelude::*;

verus! {

/// Errors the translation pipeline can report.
#[derive(Clone, Copy, PartialEq, Eq, Structural, Debug)]
pub enum Mouse2JoyError {
    /// No qualifying input source was found during the scan; fatal at startup.
    NoMouseError,
    /// A batch read from the selected device failed; declared but recovered
    /// from in place, never raised out of the loop.
    FailedToReadInput,
}

impl Mouse2JoyError {
    /// The human-readable description of the error.
    pub fn message(&self) -> (r: &'static str)
        ensures
            *self == Mouse2JoyError::NoMouseError ==> r@ == (
            "Failed to find a mouse device.  Make sure you are running the application with root priviledges."
            )@,
            *self == Mouse2JoyError::FailedToReadInput ==> r@ == ("Failed to read a mouse input")@,
    {
        match self {
            Mouse2JoyError::NoMouseError => "Failed to find a mouse device.  Make sure you are running the application with root priviledges.",
            Mouse2JoyError::FailedToReadInput => "Failed to read a mouse input",
        }
    }
}

} // verus!
