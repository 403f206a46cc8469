//! A small arithmetic constraint circuit proving knowledge of `a` and `b`
//! with a public `c = a op b`, for `op` one of `+`, `-` and `*` over the
//! Pallas base field.

pub mod calculator_circuit;
pub mod chips;
pub mod errors;
pub mod field;
pub mod operator;
pub mod plonk;
pub mod value;
pub mod zk_calculator;
