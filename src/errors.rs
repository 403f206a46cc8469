//! Errors of the parser and of the circuit run.

use crate::plonk::{Error, VerifyFailure};
use vstd::prelude::*;

verus! {

/// Why a line of input is not an operation.
#[derive(Clone, Copy, Debug, PartialEq, Eq, Structural)]
pub enum ParserError {
    /// The operator is not one of `+`, `-` and `*`.
    InvalidOperator,
    /// An operand is not a decimal `u64`.
    InvalidOperand,
    /// More than three whitespace-separated tokens.
    TooManyInputs,
    /// Fewer than three whitespace-separated tokens.
    NotEnoughInputs,
}

impl ParserError {
    /// A message for the user.
    pub fn message(&self) -> (r: &'static str)
        ensures
            *self == ParserError::InvalidOperator ==> r@
                == "invalid operator. valid operators include `+`, `-`, and `*`."@,
            *self == ParserError::InvalidOperand ==> r@
                == "invalid operand, operand must be numeric"@,
            *self == ParserError::TooManyInputs ==> r@
                == "too many inputs, valid format is `a operator b`"@,
            *self == ParserError::NotEnoughInputs ==> r@
                == "not enough inputs, valid format is `a operator b`"@,
    {
        match self {
            ParserError::InvalidOperator => "invalid operator. valid operators include `+`, `-`, and `*`.",
            ParserError::InvalidOperand => "invalid operand, operand must be numeric",
            ParserError::TooManyInputs => "too many inputs, valid format is `a operator b`",
            ParserError::NotEnoughInputs => "not enough inputs, valid format is `a operator b`",
        }
    }
}

/// Why running the circuit failed.
#[derive(Debug)]
pub enum CircuitError {
    /// The circuit could not be laid out.
    ProverError(Error),
    /// The laid-out circuit does not satisfy its constraints.
    VerifierError(Vec<VerifyFailure>),
    /// No operation was set before the run.
    NoOperation,
}

} // verus!
