//! The mathematical model of expression trees.
//!
//! A [`Formula`] is what an expression tree denotes: constants are
//! unbounded integers and variable names are sequences of characters.
//! The rules by which trees are combined, differentiated and rendered are
//! stated here as functions on formulas; the executable code is proved
//! against them.

use vstd::prelude::*;

verus! {

/// A formula over integer constants and named variables.
pub enum Formula {
    Const(int),
    Variable(Seq<char>),
    Add(Box<Formula>, Box<Formula>),
    Sub(Box<Formula>, Box<Formula>),
    Mul(Box<Formula>, Box<Formula>),
    Div(Box<Formula>, Box<Formula>),
    Pow(Box<Formula>, Box<Formula>),
    Neg(Box<Formula>),
    Exp(Box<Formula>),
}

/// Whether `n` can be held by a 64-bit signed constant.
pub open spec fn fits_i64(n: int) -> bool {
    -0x8000_0000_0000_0000 <= n <= 0x7fff_ffff_ffff_ffff
}

/// The 64-bit two's-complement value of `n`: the one integer in the range of
/// `i64` that differs from `n` by a multiple of 2^64.
pub open spec fn wrap64(n: int) -> int {
    let low = n % 0x1_0000_0000_0000_0000;
    if low > 0x7fff_ffff_ffff_ffff {
        low - 0x1_0000_0000_0000_0000
    } else {
        low
    }
}

/// The character that writes the decimal digit `d`.
pub open spec fn digit(d: int) -> char
    recommends
        0 <= d <= 9,
{
    ('0' as int + d) as char
}

/// The decimal digits of `n`, most significant first, without leading
/// zeros; zero is written as one digit.
pub open spec fn digits(n: nat) -> Seq<char>
    decreases n,
{
    if n < 10 {
        seq![digit(n as int)]
    } else {
        digits(n / 10).push(digit(n as int % 10))
    }
}

/// The decimal text of `v`: a minus sign if `v` is negative, then the
/// digits of its magnitude.
pub open spec fn decimal(v: int) -> Seq<char> {
    if v < 0 {
        seq!['-'] + digits((-v) as nat)
    } else {
        digits(v as nat)
    }
}

impl Formula {
    /// The result of `self + rhs`. A zero on the left is dropped, two
    /// constants are folded, a zero on the right is dropped, and anything
    /// else becomes an `Add` node; the first rule that applies is taken.
    pub open spec fn sum(self, rhs: Formula) -> Formula {
        if self == Formula::Const(0) {
            rhs
        } else if self is Const && rhs is Const {
            Formula::Const(wrap64(self->Const_0 + rhs->Const_0))
        } else if rhs == Formula::Const(0) {
            self
        } else {
            Formula::Add(Box::new(self), Box::new(rhs))
        }
    }

    /// The result of `self - rhs`, by the rules of [`Formula::sum`] with
    /// subtraction in place of addition. A zero on the left is dropped
    /// without negating the right operand: `0 - x` is `x`.
    pub open spec fn difference(self, rhs: Formula) -> Formula {
        if self == Formula::Const(0) {
            rhs
        } else if self is Const && rhs is Const {
            Formula::Const(wrap64(self->Const_0 - rhs->Const_0))
        } else if rhs == Formula::Const(0) {
            self
        } else {
            Formula::Sub(Box::new(self), Box::new(rhs))
        }
    }

    /// The result of `self * rhs`. A zero on the left absorbs, a one on the
    /// left is dropped, two constants are folded, a zero on the right
    /// absorbs, a one on the right is dropped, and anything else becomes a
    /// `Mul` node; the first rule that applies is taken.
    pub open spec fn product(self, rhs: Formula) -> Formula {
        if self == Formula::Const(0) {
            Formula::Const(0)
        } else if self == Formula::Const(1) {
            rhs
        } else if self is Const && rhs is Const {
            Formula::Const(wrap64(self->Const_0 * rhs->Const_0))
        } else if rhs == Formula::Const(0) {
            Formula::Const(0)
        } else if rhs == Formula::Const(1) {
            self
        } else {
            Formula::Mul(Box::new(self), Box::new(rhs))
        }
    }

    /// The result of `self / rhs`: always a `Div` node.
    pub open spec fn quotient(self, rhs: Formula) -> Formula {
        Formula::Div(Box::new(self), Box::new(rhs))
    }

    /// `self` raised to `index`: always a `Pow` node.
    pub open spec fn power(self, index: Formula) -> Formula {
        Formula::Pow(Box::new(self), Box::new(index))
    }

    /// Whether every variable of `self` has a name of at least one
    /// character. No operation asks for this; all of them keep it.
    pub open spec fn well_formed(self) -> bool
        decreases self,
    {
        match self {
            Formula::Const(_) => true,
            Formula::Variable(name) => name.len() > 0,
            Formula::Add(lhs, rhs) => lhs.well_formed() && rhs.well_formed(),
            Formula::Sub(lhs, rhs) => lhs.well_formed() && rhs.well_formed(),
            Formula::Mul(lhs, rhs) => lhs.well_formed() && rhs.well_formed(),
            Formula::Div(lhs, rhs) => lhs.well_formed() && rhs.well_formed(),
            Formula::Pow(base, index) => base.well_formed() && index.well_formed(),
            Formula::Neg(inner) => inner.well_formed(),
            Formula::Exp(inner) => inner.well_formed(),
        }
    }

    /// The text of `self` in infix notation. Sums and differences are
    /// enclosed in parentheses, as is the base of a power; products and
    /// quotients are not.
    pub open spec fn text(self) -> Seq<char>
        decreases self,
    {
        match self {
            Formula::Const(value) => decimal(value),
            Formula::Variable(name) => name,
            Formula::Add(lhs, rhs) => seq!['('] + lhs.text() + seq![' ', '+', ' '] + rhs.text()
                + seq![')'],
            Formula::Sub(lhs, rhs) => seq!['('] + lhs.text() + seq![' ', '-', ' '] + rhs.text()
                + seq![')'],
            Formula::Mul(lhs, rhs) => lhs.text() + seq!['*'] + rhs.text(),
            Formula::Div(lhs, rhs) => lhs.text() + seq!['/'] + rhs.text(),
            Formula::Pow(base, index) => seq!['('] + base.text() + seq![')', '*', '*']
                + index.text(),
            Formula::Neg(inner) => seq!['-'] + inner.text(),
            Formula::Exp(inner) => seq!['e', 'x', 'p', '('] + inner.text() + seq![')'],
        }
    }

    /// The derivative of `self` with respect to the variable named `x`.
    ///
    /// Sums, differences, products and quotients follow the usual rules of
    /// calculus. The index of a power is taken to be independent of `x`.
    /// The parts of a result are combined by [`Formula::sum`],
    /// [`Formula::difference`], [`Formula::product`] and
    /// [`Formula::quotient`], and are simplified no further.
    pub open spec fn derivative(self, x: Seq<char>) -> Formula
        decreases self,
    {
        match self {
            Formula::Const(_) => Formula::Const(0),
            Formula::Variable(name) => if name == x {
                Formula::Const(1)
            } else {
                Formula::Const(0)
            },
            Formula::Add(f, g) => f.derivative(x).sum(g.derivative(x)),
            Formula::Sub(f, g) => f.derivative(x).difference(g.derivative(x)),
            Formula::Mul(f, g) => f.derivative(x).product(*g).sum(f.product(g.derivative(x))),
            Formula::Div(f, g) => g.product(f.derivative(x)).difference(
                f.product(g.derivative(x)),
            ).quotient(g.power(Formula::Const(2))),
            Formula::Pow(base, index) => base.derivative(x).product(*index).product(
                base.power(index.difference(Formula::Const(1))),
            ),
            Formula::Neg(f) => Formula::Neg(Box::new(f.derivative(x))),
            Formula::Exp(f) => f.derivative(x).product(self),
        }
    }
}

} // verus!
