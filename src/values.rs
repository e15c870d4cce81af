//! The value model: numbers with units, percentages, `auto`, ratios and four-sided
//! values, and how lengths resolve to pixels.

use vstd::prelude::*;
use crate::number::Number;

verus! {

/// What every numeric value offers.
pub trait Numeric: Sized {
    spec fn spec_is_zero(&self) -> bool;

    spec fn spec_is_negative(&self) -> bool;

    fn zero() -> (r: Self)
        ensures
            r.spec_is_zero(),
            !r.spec_is_negative();

    fn one() -> (r: Self)
        ensures
            !r.spec_is_zero(),
            !r.spec_is_negative();

    fn is_zero(&self) -> (r: bool)
        ensures
            r == self.spec_is_zero();

    fn is_negative(&self) -> (r: bool)
        ensures
            r == self.spec_is_negative();

    /// Exact values are never infinite.
    fn is_infinite(&self) -> (r: bool)
        ensures
            !r;
}

impl Numeric for Number {
    open spec fn spec_is_zero(&self) -> bool {
        self.mantissa == 0
    }

    open spec fn spec_is_negative(&self) -> bool {
        self.mantissa < 0
    }

    fn zero() -> (r: Self) {
        Number::zero()
    }

    fn one() -> (r: Self) {
        Number::one()
    }

    fn is_zero(&self) -> (r: bool) {
        self.mantissa == 0
    }

    fn is_negative(&self) -> (r: bool) {
        self.mantissa < 0
    }

    fn is_infinite(&self) -> (r: bool) {
        false
    }
}

/// A value that must not be negative.
#[derive(Clone, Copy, Debug, PartialEq, Eq, Structural)]
pub struct NonNegative<T>(pub T);

impl<T: Numeric> Numeric for NonNegative<T> {
    open spec fn spec_is_zero(&self) -> bool {
        self.0.spec_is_zero()
    }

    open spec fn spec_is_negative(&self) -> bool {
        self.0.spec_is_negative()
    }

    fn zero() -> (r: Self) {
        NonNegative(T::zero())
    }

    fn one() -> (r: Self) {
        NonNegative(T::one())
    }

    fn is_zero(&self) -> (r: bool) {
        self.0.is_zero()
    }

    fn is_negative(&self) -> (r: bool) {
        self.0.is_negative()
    }

    fn is_infinite(&self) -> (r: bool) {
        self.0.is_infinite()
    }
}

pub type NonNegativeNumber = NonNegative<Number>;

/// A value where the keyword `auto` may stand instead.
#[derive(Clone, Copy, Debug, PartialEq, Eq, Structural)]
pub enum MaybeAuto<T> {
    Auto,
    NotAuto(T),
}

impl<T: Copy> MaybeAuto<T> {
    pub fn auto() -> (r: Self)
        ensures
            r is Auto,
    {
        MaybeAuto::Auto
    }

    pub fn is_auto(&self) -> (r: bool)
        ensures
            r == (*self is Auto),
    {
        match self {
            MaybeAuto::Auto => true,
            MaybeAuto::NotAuto(_) => false,
        }
    }

    /// The value, or what `func` gives for `auto`.
    pub fn auto_eval<F: FnOnce() -> T>(&self, func: F) -> (r: T)
        requires
            *self is Auto ==> func.requires(()),
        ensures
            match *self {
                MaybeAuto::NotAuto(v) => r == v,
                MaybeAuto::Auto => func.ensures((), r),
            },
    {
        match self {
            MaybeAuto::NotAuto(v) => *v,
            MaybeAuto::Auto => func(),
        }
    }

    pub fn non_auto(&self) -> (r: Option<T>)
        ensures
            r == match *self {
                MaybeAuto::NotAuto(v) => Some(v),
                MaybeAuto::Auto => None::<T>,
            },
    {
        match self {
            MaybeAuto::NotAuto(v) => Some(*v),
            MaybeAuto::Auto => None,
        }
    }
}

impl<T: Numeric> Numeric for MaybeAuto<T> {
    open spec fn spec_is_zero(&self) -> bool {
        match *self {
            MaybeAuto::Auto => false,
            MaybeAuto::NotAuto(v) => v.spec_is_zero(),
        }
    }

    open spec fn spec_is_negative(&self) -> bool {
        match *self {
            MaybeAuto::Auto => false,
            MaybeAuto::NotAuto(v) => v.spec_is_negative(),
        }
    }

    fn zero() -> (r: Self) {
        MaybeAuto::NotAuto(T::zero())
    }

    fn one() -> (r: Self) {
        MaybeAuto::NotAuto(T::one())
    }

    fn is_zero(&self) -> (r: bool) {
        match self {
            MaybeAuto::Auto => false,
            MaybeAuto::NotAuto(v) => v.is_zero(),
        }
    }

    fn is_negative(&self) -> (r: bool) {
        match self {
            MaybeAuto::Auto => false,
            MaybeAuto::NotAuto(v) => v.is_negative(),
        }
    }

    fn is_infinite(&self) -> (r: bool) {
        match self {
            MaybeAuto::Auto => false,
            MaybeAuto::NotAuto(v) => v.is_infinite(),
        }
    }
}

/// Four values, one for each side of a box.
#[derive(Clone, Copy, Debug, PartialEq, Eq, Structural)]
pub struct SidedValue<T> {
    pub top: T,
    pub right: T,
    pub bottom: T,
    pub left: T,
}

impl<T: Copy> SidedValue<T> {
    /// Four sides given one by one.
    pub fn new_4(top: T, right: T, bottom: T, left: T) -> (r: Self)
        ensures
            r == (SidedValue { top, right, bottom, left }),
    {
        SidedValue { top, right, bottom, left }
    }

    /// Three values: the top, both left and right, the bottom.
    pub fn new_3(top: T, right_left: T, bottom: T) -> (r: Self)
        ensures
            r == (SidedValue { top, right: right_left, bottom, left: right_left }),
    {
        SidedValue { top, right: right_left, bottom, left: right_left }
    }

    /// Two values: top and bottom, then left and right.
    pub fn new_2(top_bottom: T, right_left: T) -> (r: Self)
        ensures
            r == (SidedValue { top: top_bottom, right: right_left, bottom: top_bottom, left: right_left }),
    {
        SidedValue { top: top_bottom, right: right_left, bottom: top_bottom, left: right_left }
    }

    /// One value for all four sides.
    pub fn new_1(value: T) -> (r: Self)
        ensures
            r == (SidedValue { top: value, right: value, bottom: value, left: value }),
    {
        SidedValue { top: value, right: value, bottom: value, left: value }
    }
}

/// The four sides that 1, 2, 3 or 4 values give, by the shorthand rule of CSS.
pub open spec fn expand_sides<T>(v: Seq<T>) -> SidedValue<T>
    recommends
        1 <= v.len() <= 4,
{
    if v.len() == 1 {
        SidedValue { top: v[0], right: v[0], bottom: v[0], left: v[0] }
    } else if v.len() == 2 {
        SidedValue { top: v[0], right: v[1], bottom: v[0], left: v[1] }
    } else if v.len() == 3 {
        SidedValue { top: v[0], right: v[1], bottom: v[2], left: v[1] }
    } else {
        SidedValue { top: v[0], right: v[1], bottom: v[2], left: v[3] }
    }
}

} // verus!
