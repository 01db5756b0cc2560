//! The companion AMM program, which so far defines only its error type.

use vstd::prelude::*;

verus! {

/// Errors of the AMM program.
#[derive(Debug, Clone, Copy, PartialEq, Eq, Structural)]
pub enum ProtocolError {
    DefaultError,
}

impl ProtocolError {
    /// The message under which the error is reported.
    pub fn message(&self) -> (r: &'static str)
        ensures
            r@ == "DefaultError"@,
    {
        match self {
            ProtocolError::DefaultError => "DefaultError",
        }
    }
}

} // verus!
