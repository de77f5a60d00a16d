//! Laws of the operators, of differentiation and of rendering.
//!
//! Each law is a proof function over the formulas in which the contracts of
//! the executable operations are written, so it holds of every result they
//! return.

use crate::algebra::Expression;
use crate::formula::{fits_i64, wrap64, Formula};
use vstd::prelude::*;

verus! {

/// Adding zero to a constant, on either side, gives the constant back.
pub proof fn lemma_add_zero_to_constant(a: i64)
    ensures
        Formula::Const(a as int).sum(Formula::Const(0)) == Formula::Const(a as int),
        Formula::Const(0).sum(Formula::Const(a as int)) == Formula::Const(a as int),
{
}

/// Adding zero to any expression, on either side, gives the expression
/// back.
pub proof fn lemma_add_zero(e: Expression)
    ensures
        e@.sum(Formula::Const(0)) == e@,
        Formula::Const(0).sum(e@) == e@,
{
}

/// Subtracting from zero gives the subtrahend itself, not its negation, and
/// subtracting zero from any expression gives the expression back.
pub proof fn lemma_sub_zero(e: Expression)
    ensures
        Formula::Const(0).difference(e@) == e@,
        e@.difference(Formula::Const(0)) == e@,
{
}

/// The sum of two constants is the constant of their sum in 64-bit
/// two's-complement arithmetic, which is their sum wherever that fits.
pub proof fn lemma_add_constants(a: i64, b: i64)
    ensures
        Formula::Const(a as int).sum(Formula::Const(b as int)) == Formula::Const(wrap64(a + b)),
        fits_i64(a + b) ==> Formula::Const(a as int).sum(Formula::Const(b as int))
            == Formula::Const(a + b),
{
}

/// The difference of two constants is the constant of their difference in
/// 64-bit two's-complement arithmetic, which is their difference wherever
/// that fits. A zero minuend is left out: it gives the subtrahend back
/// unchanged, which is the difference only if the subtrahend is its own
/// negation.
pub proof fn lemma_sub_constants(a: i64, b: i64)
    requires
        a != 0 || b == 0 || b == i64::MIN,
    ensures
        Formula::Const(a as int).difference(Formula::Const(b as int)) == Formula::Const(
            wrap64(a - b),
        ),
        fits_i64(a - b) ==> Formula::Const(a as int).difference(Formula::Const(b as int))
            == Formula::Const(a - b),
{
}

/// The product of two constants is the constant of their product in 64-bit
/// two's-complement arithmetic, which is their product wherever that fits.
pub proof fn lemma_mul_constants(a: i64, b: i64)
    ensures
        Formula::Const(a as int).product(Formula::Const(b as int)) == Formula::Const(
            wrap64(a * b),
        ),
        fits_i64(a * b) ==> Formula::Const(a as int).product(Formula::Const(b as int))
            == Formula::Const(a * b),
{
}

/// Multiplying any expression by zero, on either side, gives zero.
pub proof fn lemma_mul_zero(e: Expression)
    ensures
        Formula::Const(0).product(e@) == Formula::Const(0),
        e@.product(Formula::Const(0)) == Formula::Const(0),
{
}

/// Multiplying any expression by one, on either side, gives the expression
/// back.
pub proof fn lemma_mul_one(e: Expression)
    ensures
        Formula::Const(1).product(e@) == e@,
        e@.product(Formula::Const(1)) == e@,
{
}

/// The derivative of a constant is zero, whatever the variable.
pub proof fn lemma_diff_constant(a: i64, x: String)
    ensures
        Formula::Const(a as int).derivative(x@) == Formula::Const(0),
{
}

/// The derivative of a variable is one with respect to itself and zero
/// with respect to any other variable.
pub proof fn lemma_diff_variable(name: String, x: String)
    ensures
        name@ == x@ ==> Formula::Variable(name@).derivative(x@) == Formula::Const(1),
        name@ != x@ ==> Formula::Variable(name@).derivative(x@) == Formula::Const(0),
{
}

/// Differentiation is a function of its inputs: equal trees, differentiated
/// with respect to equal names, have equal derivatives.
pub proof fn lemma_diff_deterministic(a: Expression, b: Expression, x: String, y: String)
    requires
        a@ == b@,
        x@ == y@,
    ensures
        a@.derivative(x@) == b@.derivative(y@),
{
}

/// Rendering is a function of the tree: equal trees have equal texts.
pub proof fn lemma_render_deterministic(a: Expression, b: Expression)
    requires
        a@ == b@,
    ensures
        a@.text() == b@.text(),
{
}

/// The operators keep variable names non-empty.
pub proof fn lemma_operators_well_formed(lhs: Formula, rhs: Formula)
    requires
        lhs.well_formed(),
        rhs.well_formed(),
    ensures
        lhs.sum(rhs).well_formed(),
        lhs.difference(rhs).well_formed(),
        lhs.product(rhs).well_formed(),
        lhs.quotient(rhs).well_formed(),
        lhs.power(rhs).well_formed(),
{
}

/// The product rule keeps variable names non-empty.
proof fn lemma_product_rule_well_formed(f: Formula, g: Formula, df: Formula, dg: Formula)
    requires
        f.well_formed(),
        g.well_formed(),
        df.well_formed(),
        dg.well_formed(),
    ensures
        df.product(g).sum(f.product(dg)).well_formed(),
{
    lemma_operators_well_formed(df, g);
    lemma_operators_well_formed(f, dg);
    lemma_operators_well_formed(df.product(g), f.product(dg));
}

/// The quotient rule keeps variable names non-empty.
proof fn lemma_quotient_rule_well_formed(f: Formula, g: Formula, df: Formula, dg: Formula)
    requires
        f.well_formed(),
        g.well_formed(),
        df.well_formed(),
        dg.well_formed(),
    ensures
        g.product(df).difference(f.product(dg)).quotient(
            g.power(Formula::Const(2)),
        ).well_formed(),
{
    lemma_operators_well_formed(g, df);
    lemma_operators_well_formed(f, dg);
    lemma_operators_well_formed(g.product(df), f.product(dg));
    lemma_operators_well_formed(g, Formula::Const(2));
    lemma_operators_well_formed(
        g.product(df).difference(f.product(dg)),
        g.power(Formula::Const(2)),
    );
}

/// The power rule keeps variable names non-empty.
proof fn lemma_power_rule_well_formed(base: Formula, index: Formula, dbase: Formula)
    requires
        base.well_formed(),
        index.well_formed(),
        dbase.well_formed(),
    ensures
        dbase.product(index).product(
            base.power(index.difference(Formula::Const(1))),
        ).well_formed(),
{
    lemma_operators_well_formed(dbase, index);
    lemma_operators_well_formed(index, Formula::Const(1));
    lemma_operators_well_formed(base, index.difference(Formula::Const(1)));
    lemma_operators_well_formed(
        dbase.product(index),
        base.power(index.difference(Formula::Const(1))),
    );
}

/// Differentiation keeps variable names non-empty.
pub proof fn lemma_derivative_well_formed(e: Formula, x: Seq<char>)
    requires
        e.well_formed(),
    ensures
        e.derivative(x).well_formed(),
    decreases e,
{
    match e {
        Formula::Const(_) => {},
        Formula::Variable(_) => {},
        Formula::Add(f, g) => {
            lemma_derivative_well_formed(*f, x);
            lemma_derivative_well_formed(*g, x);
            lemma_operators_well_formed(f.derivative(x), g.derivative(x));
        },
        Formula::Sub(f, g) => {
            lemma_derivative_well_formed(*f, x);
            lemma_derivative_well_formed(*g, x);
            lemma_operators_well_formed(f.derivative(x), g.derivative(x));
        },
        Formula::Mul(f, g) => {
            lemma_derivative_well_formed(*f, x);
            lemma_derivative_well_formed(*g, x);
            lemma_product_rule_well_formed(*f, *g, f.derivative(x), g.derivative(x));
        },
        Formula::Div(f, g) => {
            lemma_derivative_well_formed(*f, x);
            lemma_derivative_well_formed(*g, x);
            lemma_quotient_rule_well_formed(*f, *g, f.derivative(x), g.derivative(x));
        },
        Formula::Pow(base, index) => {
            lemma_derivative_well_formed(*base, x);
            lemma_power_rule_well_formed(*base, *index, base.derivative(x));
        },
        Formula::Neg(f) => {
            lemma_derivative_well_formed(*f, x);
        },
        Formula::Exp(f) => {
            lemma_derivative_well_formed(*f, x);
            lemma_operators_well_formed(f.derivative(x), e);
        },
    }
}

} // verus!
