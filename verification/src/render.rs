//! Rendering of expression trees as text.

use crate::algebra::Expression;
use crate::formula::{decimal, digit, digits};
use vstd::prelude::*;
use vstd::string::StringExecFns;

verus! {

/// The one-character text of the decimal digit `d`.
fn digit_text(d: u64) -> (text: &'static str)
    requires
        d < 10,
    ensures
        text@ == seq![digit(d as int)],
{
    proof {
        reveal_strlit("0");
        reveal_strlit("1");
        reveal_strlit("2");
        reveal_strlit("3");
        reveal_strlit("4");
        reveal_strlit("5");
        reveal_strlit("6");
        reveal_strlit("7");
        reveal_strlit("8");
        reveal_strlit("9");
    }
    if d == 0 {
        "0"
    } else if d == 1 {
        "1"
    } else if d == 2 {
        "2"
    } else if d == 3 {
        "3"
    } else if d == 4 {
        "4"
    } else if d == 5 {
        "5"
    } else if d == 6 {
        "6"
    } else if d == 7 {
        "7"
    } else if d == 8 {
        "8"
    } else {
        "9"
    }
}

/// Appends the decimal digits of `n` to `out`.
fn append_digits(n: u64, out: &mut String)
    ensures
        final(out)@ == old(out)@ + digits(n as nat),
    decreases n,
{
    if n >= 10 {
        append_digits(n / 10, out);
    }
    out.append(digit_text(n % 10));
}

/// Appends the decimal text of `value` to `out`.
fn append_decimal(value: i64, out: &mut String)
    ensures
        final(out)@ == old(out)@ + decimal(value as int),
{
    if value < 0 {
        let magnitude: u64 = (-(value + 1)) as u64 + 1;
        out.append("-");
        proof {
            reveal_strlit("-");
        }
        append_digits(magnitude, out);
    } else {
        append_digits(value as u64, out);
    }
}

impl Expression {
    /// Appends the text of `self` to `out`.
    fn append_text(&self, out: &mut String)
        ensures
            final(out)@ == old(out)@ + self@.text(),
        decreases self,
    {
        proof {
            reveal_strlit("(");
            reveal_strlit(")");
            reveal_strlit(" + ");
            reveal_strlit(" - ");
            reveal_strlit("*");
            reveal_strlit("/");
            reveal_strlit(")**");
            reveal_strlit("-");
            reveal_strlit("exp(");
        }
        match self {
            Expression::Const(value) => {
                append_decimal(*value, out);
            },
            Expression::Variable(name) => {
                out.append(name.as_str());
            },
            Expression::Add(lhs, rhs) => {
                out.append("(");
                lhs.append_text(out);
                out.append(" + ");
                rhs.append_text(out);
                out.append(")");
            },
            Expression::Sub(lhs, rhs) => {
                out.append("(");
                lhs.append_text(out);
                out.append(" - ");
                rhs.append_text(out);
                out.append(")");
            },
            Expression::Mul(lhs, rhs) => {
                lhs.append_text(out);
                out.append("*");
                rhs.append_text(out);
            },
            Expression::Div(lhs, rhs) => {
                lhs.append_text(out);
                out.append("/");
                rhs.append_text(out);
            },
            Expression::Pow(base, index) => {
                out.append("(");
                base.append_text(out);
                out.append(")**");
                index.append_text(out);
            },
            Expression::Neg(inner) => {
                out.append("-");
                inner.append_text(out);
            },
            Expression::Exp(inner) => {
                out.append("exp(");
                inner.append_text(out);
                out.append(")");
            },
        }
    }

    /// Writes `self` in infix notation.
    pub fn render(&self) -> (text: String)
        ensures
            text@ == self@.text(),
    {
        let mut text = String::new();
        self.append_text(&mut text);
        text
    }
}

} // verus!
