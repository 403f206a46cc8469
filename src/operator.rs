//! The three operations that the circuit can prove.

use crate::errors::ParserError;
use crate::field::{field_add, field_mul, field_sub, FieldElement};
use vstd::prelude::*;

verus! {

/// An arithmetic operator of the calculator.
#[derive(Clone, Copy, Debug, PartialEq, Eq, Structural)]
pub enum Operator {
    Add,
    Sub,
    Mul,
}

impl Operator {
    /// What the operator computes in the field, on canonical values.
    pub open spec fn spec_apply(self, a: nat, b: nat) -> nat {
        match self {
            Operator::Add => field_add(a, b),
            Operator::Sub => field_sub(a, b),
            Operator::Mul => field_mul(a, b),
        }
    }

    /// The operator that a character names, if any.
    pub open spec fn spec_from_char(c: char) -> Option<Operator> {
        if c == '+' {
            Some(Operator::Add)
        } else if c == '-' {
            Some(Operator::Sub)
        } else if c == '*' {
            Some(Operator::Mul)
        } else {
            None
        }
    }

    /// The operator that a token names: a token of one operator character.
    pub open spec fn spec_from_token(t: Seq<char>) -> Option<Operator> {
        if t.len() == 1 {
            Operator::spec_from_char(t[0])
        } else {
            None
        }
    }

    /// Applies the operator to two field elements.
    pub fn apply(self, a: &FieldElement, b: &FieldElement) -> (r: FieldElement)
        requires
            a.wf(),
            b.wf(),
        ensures
            r.wf(),
            r@ == self.spec_apply(a@, b@),
    {
        match self {
            Operator::Add => a.add(b),
            Operator::Sub => a.sub(b),
            Operator::Mul => a.mul(b),
        }
    }

    /// Reads `+`, `-` or `*`.
    pub fn from_char(c: char) -> (r: Result<Operator, ParserError>)
        ensures
            match Operator::spec_from_char(c) {
                Some(op) => r == Ok::<Operator, ParserError>(op),
                None => r == Err::<Operator, ParserError>(ParserError::InvalidOperator),
            },
    {
        match c {
            '+' => Ok(Operator::Add),
            '-' => Ok(Operator::Sub),
            '*' => Ok(Operator::Mul),
            _ => Err(ParserError::InvalidOperator),
        }
    }

    /// Reads a whitespace-free token that must be exactly one operator.
    pub fn from_token(token: &[char]) -> (r: Result<Operator, ParserError>)
        ensures
            match Operator::spec_from_token(token@) {
                Some(op) => r == Ok::<Operator, ParserError>(op),
                None => r == Err::<Operator, ParserError>(ParserError::InvalidOperator),
            },
    {
        if token.len() == 1 {
            Operator::from_char(token[0])
        } else {
            Err(ParserError::InvalidOperator)
        }
    }
}

} // verus!
