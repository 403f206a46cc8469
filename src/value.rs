//! A witness value: a field element, or a placeholder while only the shape of
//! a circuit is laid out.

use crate::field::{element_of, lemma_element_of, FieldElement};
use crate::operator::Operator;
use vstd::prelude::*;

verus! {

/// A known field element, or an unknown one.
#[derive(Debug)]
pub enum Value {
    Known(FieldElement),
    Unknown,
}

/// `x op y` on values: known when both sides are known.
pub open spec fn value_apply(op: Operator, x: Value, y: Value) -> Value {
    match (x, y) {
        (Value::Known(a), Value::Known(b)) => Value::Known(element_of(op.spec_apply(a@, b@))),
        _ => Value::Unknown,
    }
}

impl Value {
    /// A known value holds a canonical element.
    pub open spec fn wf(&self) -> bool {
        match self {
            Value::Known(f) => f.wf(),
            Value::Unknown => true,
        }
    }

    /// The number a known value holds.
    pub open spec fn spec_known(&self) -> Option<nat> {
        match self {
            Value::Known(f) => Some(f@),
            Value::Unknown => None,
        }
    }

    /// A known value.
    pub fn known(f: FieldElement) -> (r: Value)
        ensures
            r == Value::Known(f),
    {
        Value::Known(f)
    }

    /// The placeholder value.
    pub fn unknown() -> (r: Value)
        ensures
            r == Value::Unknown,
    {
        Value::Unknown
    }

    /// `self op o`: known when both sides are known, unknown otherwise.
    pub fn apply(&self, op: Operator, o: &Value) -> (r: Value)
        requires
            self.wf(),
            o.wf(),
        ensures
            r.wf(),
            r == value_apply(op, *self, *o),
            r.spec_known() == (match (self.spec_known(), o.spec_known()) {
                (Some(x), Some(y)) => Some(op.spec_apply(x, y)),
                _ => None,
            }),
    {
        match (self, o) {
            (Value::Known(x), Value::Known(y)) => {
                let f = op.apply(x, y);
                proof {
                    lemma_element_of(f);
                }
                Value::Known(f)
            },
            _ => Value::Unknown,
        }
    }
}

impl Clone for Value {
    fn clone(&self) -> (r: Value)
        ensures
            r == *self,
    {
        match self {
            Value::Known(f) => Value::Known(f.clone()),
            Value::Unknown => Value::Unknown,
        }
    }
}

} // verus!
