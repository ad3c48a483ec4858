//! The default failure taxonomy carried through a pipeline.

use vstd::prelude::*;

verus! {

/// A closed set of failure kinds, each carrying a caller-supplied message.
/// Pipelines are generic over the error type; this taxonomy is the default.
#[derive(Debug, PartialEq, Eq)]
pub enum Failure {
    InvalidInput(String),
    ArithmeticError(String),
    Custom(String),
}

impl Failure {
    /// The human-readable rendering of this failure: a fixed prefix naming
    /// the kind, followed by the carried message.
    pub open spec fn spec_message(&self) -> Seq<char> {
        match self {
            Failure::InvalidInput(m) => "Invalid input: "@ + m@,
            Failure::ArithmeticError(m) => "Arithmetic error: "@ + m@,
            Failure::Custom(m) => "Custom error: "@ + m@,
        }
    }

    /// Renders the failure as text for callers that print it.
    pub fn message(&self) -> (r: String)
        ensures
            r@ == self.spec_message(),
    {
        match self {
            Failure::InvalidInput(m) => String::from_str("Invalid input: ").concat(m.as_str()),
            Failure::ArithmeticError(m) => String::from_str("Arithmetic error: ").concat(
                m.as_str(),
            ),
            Failure::Custom(m) => String::from_str("Custom error: ").concat(m.as_str()),
        }
    }
}

} // verus!
