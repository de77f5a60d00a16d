//! Expression trees and the operators that build them.
//!
//! An [`Expression`] owns its children, so a tree is finite and shares
//! nothing. What a tree means is its view, a
//! [`Formula`](crate::formula::Formula): equality, the operators and
//! differentiation are all stated over views. Constants are folded in 64-bit
//! two's-complement arithmetic, so every operation is total.

use crate::formula::Formula;
use std::ops::{Add, Div, Mul, Sub};
use vstd::prelude::*;
use vstd::std_specs::cmp::PartialEqSpecImpl;
use vstd::std_specs::ops::{AddSpecImpl, DivSpecImpl, MulSpecImpl, SubSpecImpl};

verus! {

/// An arithmetic formula as an owned tree.
///
/// `Const` and `Variable` are the leaves. The binary nodes hold their left
/// operand first; `Pow` holds the base, then the index. `Neg` is arithmetic
/// negation and `Exp` the natural exponential.
#[derive(Debug)]
pub enum Expression {
    Const(i64),
    Variable(String),
    Add(Box<Expression>, Box<Expression>),
    Sub(Box<Expression>, Box<Expression>),
    Mul(Box<Expression>, Box<Expression>),
    Div(Box<Expression>, Box<Expression>),
    Pow(Box<Expression>, Box<Expression>),
    Neg(Box<Expression>),
    Exp(Box<Expression>),
}

impl View for Expression {
    type V = Formula;

    /// The formula that the tree denotes.
    open spec fn view(&self) -> Formula
        decreases self,
    {
        match self {
            Expression::Const(value) => Formula::Const(*value as int),
            Expression::Variable(name) => Formula::Variable(name@),
            Expression::Add(lhs, rhs) => Formula::Add(
                Box::new((**lhs).view()),
                Box::new((**rhs).view()),
            ),
            Expression::Sub(lhs, rhs) => Formula::Sub(
                Box::new((**lhs).view()),
                Box::new((**rhs).view()),
            ),
            Expression::Mul(lhs, rhs) => Formula::Mul(
                Box::new((**lhs).view()),
                Box::new((**rhs).view()),
            ),
            Expression::Div(lhs, rhs) => Formula::Div(
                Box::new((**lhs).view()),
                Box::new((**rhs).view()),
            ),
            Expression::Pow(base, index) => Formula::Pow(
                Box::new((**base).view()),
                Box::new((**index).view()),
            ),
            Expression::Neg(inner) => Formula::Neg(Box::new((**inner).view())),
            Expression::Exp(inner) => Formula::Exp(Box::new((**inner).view())),
        }
    }
}

impl Clone for Expression {
    /// A deep copy: the result shares nothing with `self`.
    fn clone(&self) -> (res: Expression)
        ensures
            res == *self,
        decreases self,
    {
        match self {
            Expression::Const(value) => Expression::Const(*value),
            Expression::Variable(name) => Expression::Variable(name.clone()),
            Expression::Add(lhs, rhs) => Expression::Add(
                Box::new((**lhs).clone()),
                Box::new((**rhs).clone()),
            ),
            Expression::Sub(lhs, rhs) => Expression::Sub(
                Box::new((**lhs).clone()),
                Box::new((**rhs).clone()),
            ),
            Expression::Mul(lhs, rhs) => Expression::Mul(
                Box::new((**lhs).clone()),
                Box::new((**rhs).clone()),
            ),
            Expression::Div(lhs, rhs) => Expression::Div(
                Box::new((**lhs).clone()),
                Box::new((**rhs).clone()),
            ),
            Expression::Pow(base, index) => Expression::Pow(
                Box::new((**base).clone()),
                Box::new((**index).clone()),
            ),
            Expression::Neg(inner) => Expression::Neg(Box::new((**inner).clone())),
            Expression::Exp(inner) => Expression::Exp(Box::new((**inner).clone())),
        }
    }
}

impl Expression {
    /// Raises `self` to `index`. Nothing is simplified.
    pub fn pow(self, index: Expression) -> (res: Expression)
        ensures
            res@ == self@.power(index@),
    {
        Expression::Pow(Box::new(self), Box::new(index))
    }

    /// Differentiates `self` with respect to the variable named
    /// `respect_to`.
    pub fn diff(self, respect_to: &String) -> (res: Expression)
        ensures
            res@ == self@.derivative(respect_to@),
        decreases self,
    {
        match self {
            Expression::Const(_) => Expression::Const(0),
            Expression::Variable(name) => {
                if name == *respect_to {
                    Expression::Const(1)
                } else {
                    Expression::Const(0)
                }
            },
            Expression::Add(lhs, rhs) => lhs.diff(respect_to) + rhs.diff(respect_to),
            Expression::Sub(lhs, rhs) => lhs.diff(respect_to) - rhs.diff(respect_to),
            Expression::Mul(f, g) => {
                f.clone().diff(respect_to) * *g.clone() + *f * g.diff(respect_to)
            },
            Expression::Div(f, g) => {
                (*g.clone() * f.clone().diff(respect_to) - *f * g.clone().diff(respect_to)) / (
                g.pow(Expression::Const(2)))
            },
            Expression::Pow(base, index) => {
                base.clone().diff(respect_to) * *index.clone() * Expression::Pow(
                    base,
                    Box::new(*index - Expression::Const(1)),
                )
            },
            Expression::Neg(inner) => Expression::Neg(Box::new(inner.diff(respect_to))),
            Expression::Exp(inner) => {
                let chain = inner.clone().diff(respect_to);
                chain * Expression::Exp(inner)
            },
        }
    }
}

impl Expression {
    /// Whether `self` and `other` have the same shape and the same leaves.
    fn same_tree(&self, other: &Expression) -> (res: bool)
        ensures
            res == (self@ == other@),
        decreases self,
    {
        match (self, other) {
            (Expression::Const(a), Expression::Const(b)) => *a == *b,
            (Expression::Variable(a), Expression::Variable(b)) => *a == *b,
            (Expression::Add(a, b), Expression::Add(c, d)) => a.same_tree(c) && b.same_tree(d),
            (Expression::Sub(a, b), Expression::Sub(c, d)) => a.same_tree(c) && b.same_tree(d),
            (Expression::Mul(a, b), Expression::Mul(c, d)) => a.same_tree(c) && b.same_tree(d),
            (Expression::Div(a, b), Expression::Div(c, d)) => a.same_tree(c) && b.same_tree(d),
            (Expression::Pow(a, b), Expression::Pow(c, d)) => a.same_tree(c) && b.same_tree(d),
            (Expression::Neg(a), Expression::Neg(c)) => a.same_tree(c),
            (Expression::Exp(a), Expression::Exp(c)) => a.same_tree(c),
            _ => false,
        }
    }
}

impl PartialEqSpecImpl for Expression {
    open spec fn obeys_eq_spec() -> bool {
        true
    }

    /// Two trees are equal when they denote the same formula.
    open spec fn eq_spec(&self, other: &Expression) -> bool {
        self@ == other@
    }
}

impl PartialEq for Expression {
    /// Structural equality: same shape, same constants, same names.
    fn eq(&self, other: &Expression) -> (res: bool) {
        self.same_tree(other)
    }
}

impl Eq for Expression {

}

/// `+` is stated over views, on [`Add::add`] itself, so no tree is named
/// here as its result.
impl AddSpecImpl for Expression {
    open spec fn obeys_add_spec() -> bool {
        false
    }

    open spec fn add_req(self, rhs: Expression) -> bool {
        true
    }

    open spec fn add_spec(self, rhs: Expression) -> Expression {
        arbitrary()
    }
}

impl Add for Expression {
    type Output = Expression;

    /// Adds two expressions, folding constants and dropping zeros.
    fn add(self, rhs: Expression) -> (res: Expression)
        ensures
            res@ == self@.sum(rhs@),
    {
        match self {
            Expression::Const(lhs) => {
                if lhs == 0 {
                    return rhs;
                } else if let Expression::Const(rhs) = rhs {
                    return Expression::Const(lhs.wrapping_add(rhs));
                }
            },
            _ => {
                if let Expression::Const(rhs) = rhs {
                    if rhs == 0 {
                        return self;
                    }
                }
            },
        }
        Expression::Add(Box::new(self), Box::new(rhs))
    }
}

/// `-` is stated over views, on [`Sub::sub`] itself, so no tree is named
/// here as its result.
impl SubSpecImpl for Expression {
    open spec fn obeys_sub_spec() -> bool {
        false
    }

    open spec fn sub_req(self, rhs: Expression) -> bool {
        true
    }

    open spec fn sub_spec(self, rhs: Expression) -> Expression {
        arbitrary()
    }
}

impl Sub for Expression {
    type Output = Expression;

    /// Subtracts `rhs` from `self`, folding constants and dropping zeros.
    /// A zero on the left is dropped without negating `rhs`.
    fn sub(self, rhs: Expression) -> (res: Expression)
        ensures
            res@ == self@.difference(rhs@),
    {
        match self {
            Expression::Const(lhs) => {
                if lhs == 0 {
                    return rhs;
                } else if let Expression::Const(rhs) = rhs {
                    return Expression::Const(lhs.wrapping_sub(rhs));
                }
            },
            _ => {
                if let Expression::Const(rhs) = rhs {
                    if rhs == 0 {
                        return self;
                    }
                }
            },
        }
        Expression::Sub(Box::new(self), Box::new(rhs))
    }
}

/// `*` is stated over views, on [`Mul::mul`] itself, so no tree is named
/// here as its result.
impl MulSpecImpl for Expression {
    open spec fn obeys_mul_spec() -> bool {
        false
    }

    open spec fn mul_req(self, rhs: Expression) -> bool {
        true
    }

    open spec fn mul_spec(self, rhs: Expression) -> Expression {
        arbitrary()
    }
}

impl Mul for Expression {
    type Output = Expression;

    /// Multiplies two expressions, folding constants, dropping ones and
    /// letting a zero absorb the other operand.
    fn mul(self, rhs: Expression) -> (res: Expression)
        ensures
            res@ == self@.product(rhs@),
    {
        match self {
            Expression::Const(lhs) => {
                if lhs == 0 {
                    return Expression::Const(0);
                } else if lhs == 1 {
                    return rhs;
                } else if let Expression::Const(rhs) = rhs {
                    return Expression::Const(lhs.wrapping_mul(rhs));
                }
            },
            _ => {
                if let Expression::Const(rhs) = rhs {
                    if rhs == 0 {
                        return Expression::Const(0);
                    } else if rhs == 1 {
                        return self;
                    }
                }
            },
        }
        Expression::Mul(Box::new(self), Box::new(rhs))
    }
}

/// `/` is stated over views, on [`Div::div`] itself, so no tree is named
/// here as its result.
impl DivSpecImpl for Expression {
    open spec fn obeys_div_spec() -> bool {
        false
    }

    open spec fn div_req(self, rhs: Expression) -> bool {
        true
    }

    open spec fn div_spec(self, rhs: Expression) -> Expression {
        arbitrary()
    }
}

impl Div for Expression {
    type Output = Expression;

    /// Divides `self` by `rhs`. Nothing is simplified and the denominator
    /// is not inspected.
    fn div(self, rhs: Expression) -> (res: Expression)
        ensures
            res@ == self@.quotient(rhs@),
    {
        Expression::Div(Box::new(self), Box::new(rhs))
    }
}

} // verus!
