//! What goes wrong while parsing, and the ranges that numbers are held to.

use vstd::prelude::*;
use crate::tokens::Tok;
use crate::number::Number;

verus! {

/// The range of numbers that a value admits.
#[derive(Clone, Copy, Debug, PartialEq, Eq, Structural)]
pub enum AllowedValues {
    All,
    NonNegative,
    AtLeastOne,
}

impl AllowedValues {
    pub open spec fn allows(self, n: Number) -> bool {
        match self {
            AllowedValues::All => true,
            AllowedValues::NonNegative => n.mantissa >= 0,
            AllowedValues::AtLeastOne => n.num() >= n.den(),
        }
    }

    /// Whether `value` lies in the range.
    pub fn is_ok(&self, value: &Number) -> (r: bool)
        requires
            value.wf(),
        ensures
            r == self.allows(*value),
    {
        match self {
            AllowedValues::All => true,
            AllowedValues::NonNegative => value.mantissa >= 0,
            AllowedValues::AtLeastOne => value.at_least_one(),
        }
    }

    /// `value`, raised to the bottom of the range where it lies below it.
    pub fn clamp(&self, value: Number) -> (r: Number)
        requires
            value.wf(),
        ensures
            r.wf(),
            self.allows(value) ==> r == value,
            !self.allows(value) && *self == AllowedValues::NonNegative ==> r.mantissa == 0,
            !self.allows(value) && *self == AllowedValues::AtLeastOne ==> r.mantissa == 1 && r.scale == 0,
    {
        if self.is_ok(&value) {
            value
        } else {
            match self {
                AllowedValues::AtLeastOne => Number::one(),
                _ => Number::zero(),
            }
        }
    }

    pub fn default() -> (r: AllowedValues)
        ensures
            r == AllowedValues::All,
    {
        AllowedValues::All
    }
}

/// Why a value, declaration, selector or rule could not be parsed.
#[derive(Clone, Debug, PartialEq, Eq)]
pub enum BevyCssParsingErrorKind {
    /// The input ended where more was expected.
    EndOfInput,
    /// A token of the wrong kind.
    UnexpectedToken(Tok),
    /// A unit that no length has.
    UnexpectedDimension(String),
    /// A property name that is not supported.
    UnknownProperty(String),
    /// A number other than `0` without a unit where a length is expected.
    MissingDimension,
    /// A keyword that the property does not take.
    InvalidValue(String),
    /// A number outside the range the value admits.
    OutOfRange(AllowedValues),
    /// A number too long, too precise or too large to be held exactly.
    UnsupportedNumber,
    /// A function, such as `calc(`, where a plain value is expected.
    FunctionNotSupported(String),
    /// Tokens left over after a complete declaration value.
    DeclarationValueNotExhausted,
    /// A selector outside the supported subset.
    SelectorError,
    /// An `@` rule, which is not supported.
    UnsupportedAtRule(String),
}

} // verus!
