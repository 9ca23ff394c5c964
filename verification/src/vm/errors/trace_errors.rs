//! What can go wrong when a trace is relocated.

use vstd::prelude::*;
use vstd::string::StringExecFns;

verus! {

/// What can go wrong when a trace is relocated.
#[derive(Debug, PartialEq, Eq, Structural, Clone, Copy)]
pub enum TraceError {
    /// The relocation table has no entry for the segment of an address.
    NoRelocationFound,
}

impl TraceError {
    /// The message of the error.
    pub open spec fn message(&self) -> Seq<char> {
        match self {
            TraceError::NoRelocationFound => "No relocation found for this segment"@,
        }
    }

    /// The message of the error, as a `String`.
    pub fn to_string(&self) -> (r: String)
        ensures
            r@ == self.message(),
    {
        match self {
            TraceError::NoRelocationFound => String::from_str(
                "No relocation found for this segment",
            ),
        }
    }
}

} // verus!
