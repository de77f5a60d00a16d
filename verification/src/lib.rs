//! Symbolic differentiation of arithmetic formulas.
//!
//! Formulas are trees over 64-bit integer constants and named variables.
//! The arithmetic operators fold neutral and absorbing constants while a
//! tree is built, `Expression::diff` differentiates a tree with respect to
//! one variable, and `Expression::render` writes a tree as infix text.
//! Every operation is total, and its result is stated over
//! [`formula::Formula`], the mathematical value of a tree.

pub mod algebra;
pub mod formula;
pub mod laws;
pub mod render;
