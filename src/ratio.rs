//! Ratios such as `16 / 9`, for aspect ratios.

use vstd::prelude::*;
use crate::length::Fraction;
use crate::number::{lemma_mul_bound, lemma_pow10_monotone, lemma_pow10_positive, lemma_pow10_twelve, scale_up, Number, MAX_SCALE};
use crate::parse::{parse_number, number_spec, Kind, Parse};
use crate::errors::AllowedValues;
use crate::tokens::{ValueToken, Tok};
use crate::values::{MaybeAuto, NonNegative, NonNegativeNumber, Numeric};

verus! {

/// A ratio of two numbers that are not negative: `a / b`, or `a` alone for `a / 1`.
#[derive(Clone, Copy, Debug, PartialEq, Eq, Structural)]
pub struct Ratio(pub NonNegativeNumber, pub NonNegativeNumber);

impl Ratio {
    pub open spec fn wf(self) -> bool {
        self.0.0.wf() && self.1.0.wf()
    }

    /// Degenerate: one side is zero or infinite (an exact number is never infinite).
    pub open spec fn degenerate(self) -> bool {
        self.0.0.mantissa == 0 || self.1.0.mantissa == 0
    }

    pub fn is_degenerate(&self) -> (r: bool)
        ensures
            r == self.degenerate(),
    {
        self.0.is_zero() || self.0.is_infinite() || self.1.is_zero() || self.1.is_infinite()
    }

    /// The ratio as one fraction; its denominator is zero when `b` is.
    pub fn as_fraction(&self) -> (r: Fraction)
        requires
            self.wf(),
        ensures
            r.num == self.0.0.num() * self.1.0.den(),
            r.den == self.1.0.num() * self.0.0.den(),
    {
        let a = self.0.0;
        let b = self.1.0;
        let pa = scale_up(1, a.scale);
        let pb = scale_up(1, b.scale);
        proof {
            lemma_pow10_positive(a.scale as nat);
            lemma_pow10_positive(b.scale as nat);
            lemma_pow10_monotone(a.scale as nat, MAX_SCALE as nat);
            lemma_pow10_monotone(b.scale as nat, MAX_SCALE as nat);
            lemma_pow10_twelve();
            lemma_mul_bound(a.mantissa as int, b.den());
            lemma_mul_bound(b.mantissa as int, a.den());
        }
        Fraction { num: a.mantissa as i128 * pb, den: b.mantissa as i128 * pa }
    }
}

/// The token at `pos` is the delimiter `c`.
pub open spec fn is_delim(toks: Seq<ValueToken>, pos: int, c: char) -> bool {
    0 <= pos < toks.len() && toks[pos].tok == Tok::Delim(c)
}

impl Parse for Ratio {
    open spec fn parse_spec(toks: Seq<ValueToken>, pos: int) -> Result<(Self, int), Kind> {
        match number_spec(toks, pos, AllowedValues::NonNegative) {
            Err(k) => Err(k),
            Ok((a, e)) => if is_delim(toks, e, '/') {
                match number_spec(toks, e + 1, AllowedValues::NonNegative) {
                    Err(k) => Err(k),
                    Ok((b, e2)) => Ok((Ratio(NonNegative(a), NonNegative(b)), e2)),
                }
            } else {
                Ok((Ratio(NonNegative(a), NonNegative(Number { mantissa: 1, scale: 0 })), e))
            },
        }
    }

    open spec fn valid(&self) -> bool {
        self.wf()
    }

    fn parse(toks: &Vec<ValueToken>, pos: usize) -> (r: Result<(Self, usize), Kind>) {
        let (a, e) = parse_number(toks, pos, AllowedValues::NonNegative)?;
        let slash = e < toks.len() && match &toks[e].tok {
            Tok::Delim(c) => *c == '/',
            _ => false,
        };
        if slash {
            let (b, e2) = parse_number(toks, e + 1, AllowedValues::NonNegative)?;
            Ok((Ratio(NonNegative(a), NonNegative(b)), e2))
        } else {
            Ok((Ratio(NonNegative(a), NonNegative(Number::one())), e))
        }
    }
}

pub type RatioOrAuto = MaybeAuto<Ratio>;

} // verus!
