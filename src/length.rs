//! Lengths and percentages, and how they resolve to pixels.

use vstd::prelude::*;
use crate::errors::AllowedValues;
use crate::number::{ordering, lemma_pow10_monotone, lemma_pow10_positive, lemma_pow10_twelve, pow10, scale_up, Number, MAX_MANTISSA, MAX_SCALE};
use crate::values::{MaybeAuto, NonNegative, Numeric};

verus! {

/// An exact fraction `num / den`, the unit in which resolved lengths come out.
#[derive(Clone, Copy, Debug, PartialEq, Eq, Structural)]
pub struct Fraction {
    pub num: i128,
    pub den: i128,
}

impl Fraction {
    pub open spec fn same(self, o: Fraction) -> bool {
        self.num * o.den == o.num * self.den
    }
}

/// `n / d` rounded toward zero.
pub open spec fn trunc_div(n: int, d: int) -> int {
    if n >= 0 {
        n / d
    } else {
        -((-n) / d)
    }
}

/// What resolving relative lengths needs to know of where they are used.
#[derive(Clone, Copy, Debug, PartialEq, Eq, Structural)]
pub struct CssContext {
    pub font_size: Number,
    pub root_font_size: Number,
    pub vertical_text: bool,
    pub viewport_width: Number,
    pub viewport_height: Number,
}

/// The font size a context starts from.
pub const DEFAULT_FONT_SIZE: i64 = 12;

impl CssContext {
    pub open spec fn wf(self) -> bool {
        &&& self.font_size.wf()
        &&& self.root_font_size.wf()
        &&& self.viewport_width.wf()
        &&& self.viewport_height.wf()
    }

    /// The default font size for both font sizes and an empty viewport.
    pub fn default() -> (r: CssContext)
        ensures
            r.wf(),
            r.font_size == Number::from_int_spec(DEFAULT_FONT_SIZE),
            r.root_font_size == Number::from_int_spec(DEFAULT_FONT_SIZE),
            !r.vertical_text,
            r.viewport_width.mantissa == 0,
            r.viewport_height.mantissa == 0,
    {
        CssContext {
            font_size: Number::from_int(DEFAULT_FONT_SIZE),
            root_font_size: Number::from_int(DEFAULT_FONT_SIZE),
            vertical_text: false,
            viewport_width: Number::zero(),
            viewport_height: Number::zero(),
        }
    }
}

/// A length in an absolute unit, at 96 pixels to the inch.
#[derive(Clone, Copy, Debug, PartialEq, Eq, Structural)]
pub enum AbsoluteLength {
    Px(Number),
    Mm(Number),
    Cm(Number),
    /// Quarter millimetres.
    Q(Number),
    In(Number),
    /// Picas, a sixth of an inch.
    Pc(Number),
    /// Points, a 72nd of an inch.
    Pt(Number),
}

impl AbsoluteLength {
    pub open spec fn raw(self) -> Number {
        match self {
            AbsoluteLength::Px(v) | AbsoluteLength::Mm(v) | AbsoluteLength::Cm(v) | AbsoluteLength::Q(v)
            | AbsoluteLength::In(v) | AbsoluteLength::Pc(v) | AbsoluteLength::Pt(v) => v,
        }
    }

    /// Pixels per unit, as `(numerator, denominator)`.
    pub open spec fn px_ratio(self) -> (int, int) {
        match self {
            AbsoluteLength::Px(_) => (1, 1),
            AbsoluteLength::Mm(_) => (5, 127),
            AbsoluteLength::Cm(_) => (50, 127),
            AbsoluteLength::Q(_) => (5, 508),
            AbsoluteLength::In(_) => (96, 1),
            AbsoluteLength::Pc(_) => (16, 1),
            AbsoluteLength::Pt(_) => (4, 3),
        }
    }

    pub open spec fn wf(self) -> bool {
        self.raw().wf()
    }

    pub fn raw_value(&self) -> (r: Number)
        ensures
            r == self.raw(),
    {
        match *self {
            AbsoluteLength::Px(v) | AbsoluteLength::Mm(v) | AbsoluteLength::Cm(v) | AbsoluteLength::Q(v)
            | AbsoluteLength::In(v) | AbsoluteLength::Pc(v) | AbsoluteLength::Pt(v) => v,
        }
    }

    /// The length in pixels: the value times the unit's ratio to the pixel.
    pub fn to_px(&self) -> (r: Fraction)
        requires
            self.wf(),
        ensures
            r.num == self.raw().num() * self.px_ratio().0,
            r.den == self.raw().den() * self.px_ratio().1,
            r.den > 0,
    {
        let (a, b): (i128, i128) = match self {
            AbsoluteLength::Px(_) => (1, 1),
            AbsoluteLength::Mm(_) => (5, 127),
            AbsoluteLength::Cm(_) => (50, 127),
            AbsoluteLength::Q(_) => (5, 508),
            AbsoluteLength::In(_) => (96, 1),
            AbsoluteLength::Pc(_) => (16, 1),
            AbsoluteLength::Pt(_) => (4, 3),
        };
        let v = self.raw_value();
        let p = scale_up(1, v.scale);
        proof {
            lemma_pow10_positive(v.scale as nat);
            lemma_pow10_monotone(v.scale as nat, MAX_SCALE as nat);
            lemma_pow10_twelve();
        }
        Fraction { num: v.mantissa as i128 * a, den: p * b }
    }

    /// The same unit with the value times `rhs`, where the product fits.
    pub fn mul(&self, rhs: &Number) -> (r: Option<AbsoluteLength>)
        requires
            self.wf(),
            rhs.wf(),
        ensures
            match self.raw().times(*rhs) {
                Some(v) => r == Some(self.with_raw(v)),
                None => r is None,
            },
    {
        let v = self.raw_value().mul(rhs)?;
        Some(match self {
            AbsoluteLength::Px(_) => AbsoluteLength::Px(v),
            AbsoluteLength::Mm(_) => AbsoluteLength::Mm(v),
            AbsoluteLength::Cm(_) => AbsoluteLength::Cm(v),
            AbsoluteLength::Q(_) => AbsoluteLength::Q(v),
            AbsoluteLength::In(_) => AbsoluteLength::In(v),
            AbsoluteLength::Pc(_) => AbsoluteLength::Pc(v),
            AbsoluteLength::Pt(_) => AbsoluteLength::Pt(v),
        })
    }

    /// The pixel fraction of a well-formed length is small enough to compare.
    pub proof fn lemma_px_bounds(self)
        requires
            self.wf(),
        ensures
            -100_000_000_000_000_000 <= self.raw().num() * self.px_ratio().0 <= 100_000_000_000_000_000,
            1 <= self.raw().den() * self.px_ratio().1 <= 1_000_000_000_000_000,
    {
        let (a, b) = self.px_ratio();
        let v = self.raw();
        assert(1 <= a <= 96 && 1 <= b <= 508);
        lemma_pow10_positive(v.scale as nat);
        lemma_pow10_monotone(v.scale as nat, MAX_SCALE as nat);
        lemma_pow10_twelve();
        assert(-100_000_000_000_000_000 <= v.num() * a <= 100_000_000_000_000_000) by (nonlinear_arith)
            requires -MAX_MANTISSA <= v.num() <= MAX_MANTISSA, 1 <= a <= 96;
        assert(1 <= v.den() * b <= 1_000_000_000_000_000) by (nonlinear_arith)
            requires 1 <= v.den() <= 1_000_000_000_000, 1 <= b <= 508;
    }

    pub open spec fn with_raw(self, v: Number) -> AbsoluteLength {
        match self {
            AbsoluteLength::Px(_) => AbsoluteLength::Px(v),
            AbsoluteLength::Mm(_) => AbsoluteLength::Mm(v),
            AbsoluteLength::Cm(_) => AbsoluteLength::Cm(v),
            AbsoluteLength::Q(_) => AbsoluteLength::Q(v),
            AbsoluteLength::In(_) => AbsoluteLength::In(v),
            AbsoluteLength::Pc(_) => AbsoluteLength::Pc(v),
            AbsoluteLength::Pt(_) => AbsoluteLength::Pt(v),
        }
    }

    /// How this length compares with `other` in pixels.
    pub fn partial_cmp(&self, other: &AbsoluteLength) -> (r: Option<core::cmp::Ordering>)
        requires
            self.wf(),
            other.wf(),
        ensures
            r == Some(ordering(
                self.raw().num() * self.px_ratio().0 * (other.raw().den() * other.px_ratio().1),
                other.raw().num() * other.px_ratio().0 * (self.raw().den() * self.px_ratio().1),
            )),
    {
        let a = self.to_px();
        let b = other.to_px();
        proof {
            lemma_pow10_positive(self.raw().scale as nat);
            lemma_pow10_positive(other.raw().scale as nat);
            lemma_pow10_monotone(self.raw().scale as nat, MAX_SCALE as nat);
            lemma_pow10_monotone(other.raw().scale as nat, MAX_SCALE as nat);
            lemma_pow10_twelve();
            self.lemma_px_bounds();
            other.lemma_px_bounds();
            assert(-100_000_000_000_000_000_000_000_000_000_000 <= a.num * b.den <= 100_000_000_000_000_000_000_000_000_000_000)
                by (nonlinear_arith)
                requires -100_000_000_000_000_000 <= a.num <= 100_000_000_000_000_000, 1 <= b.den <= 1_000_000_000_000_000;
            assert(-100_000_000_000_000_000_000_000_000_000_000 <= b.num * a.den <= 100_000_000_000_000_000_000_000_000_000_000)
                by (nonlinear_arith)
                requires -100_000_000_000_000_000 <= b.num <= 100_000_000_000_000_000, 1 <= a.den <= 1_000_000_000_000_000;
        }
        let x = a.num * b.den;
        let y = b.num * a.den;
        Some(if x < y {
            core::cmp::Ordering::Less
        } else if x > y {
            core::cmp::Ordering::Greater
        } else {
            core::cmp::Ordering::Equal
        })
    }

    pub fn to_computed_value(&self) -> (r: Fraction)
        requires
            self.wf(),
        ensures
            r.num == self.raw().num() * self.px_ratio().0,
            r.den == self.raw().den() * self.px_ratio().1,
            r.den > 0,
    {
        self.to_px()
    }

    pub fn to_computed_px(&self, _context: &CssContext) -> (r: Fraction)
        requires
            self.wf(),
        ensures
            r.num == self.raw().num() * self.px_ratio().0,
            r.den == self.raw().den() * self.px_ratio().1,
            r.den > 0,
    {
        self.to_px()
    }
}

/// `a * b` for two mantissas, as an `i128`.
fn mul_mantissas(a: i64, b: i64) -> (r: i128)
    requires
        -MAX_MANTISSA <= a <= MAX_MANTISSA,
        -MAX_MANTISSA <= b <= MAX_MANTISSA,
    ensures
        r == a * b,
        -1_000_000_000_000_000_000_000_000_000_000 <= r <= 1_000_000_000_000_000_000_000_000_000_000,
{
    proof {
        assert(-1_000_000_000_000_000_000_000_000_000_000 <= a * b <= 1_000_000_000_000_000_000_000_000_000_000)
            by (nonlinear_arith)
            requires -MAX_MANTISSA <= a <= MAX_MANTISSA, -MAX_MANTISSA <= b <= MAX_MANTISSA;
    }
    a as i128 * b as i128
}

/// `10^(s + t)` as an `i128`.
fn pow_product(s: u32, t: u32) -> (r: i128)
    requires
        s <= MAX_SCALE,
        t <= MAX_SCALE,
    ensures
        r == pow10(s as nat) * pow10(t as nat),
        1 <= r <= 1_000_000_000_000_000_000_000_000,
{
    let a = scale_up(1, s);
    let b = scale_up(1, t);
    proof {
        lemma_pow10_positive(s as nat);
        lemma_pow10_positive(t as nat);
        lemma_pow10_monotone(s as nat, MAX_SCALE as nat);
        lemma_pow10_monotone(t as nat, MAX_SCALE as nat);
        lemma_pow10_twelve();
        assert(1 <= a * b <= 1_000_000_000_000_000_000_000_000) by (nonlinear_arith)
            requires 1 <= a <= 1_000_000_000_000, 1 <= b <= 1_000_000_000_000;
    }
    a * b
}

/// A length relative to a font size.
#[derive(Clone, Copy, Debug, PartialEq, Eq, Structural)]
pub enum FontRelativeLength {
    /// The font size of the element.
    Em(Number),
    /// The font size of the root.
    Rem(Number),
    /// The height of an `x`, taken as half the font size.
    Ex(Number),
    /// The advance of a `0`: half the font size, or all of it for vertical text.
    Ch(Number),
}

impl FontRelativeLength {
    pub open spec fn raw(self) -> Number {
        match self {
            FontRelativeLength::Em(v) | FontRelativeLength::Rem(v) | FontRelativeLength::Ex(v)
            | FontRelativeLength::Ch(v) => v,
        }
    }

    pub open spec fn wf(self) -> bool {
        self.raw().wf()
    }

    /// The font size the length is relative to.
    pub open spec fn base(self, base_length: Number, root_base_length: Number) -> Number {
        match self {
            FontRelativeLength::Rem(_) => root_base_length,
            _ => base_length,
        }
    }

    /// What divides base times value: 2 where half the base is taken.
    pub open spec fn halving(self, is_vertical: bool) -> int {
        match self {
            FontRelativeLength::Ex(_) => 2,
            FontRelativeLength::Ch(_) => if is_vertical { 1 } else { 2 },
            _ => 1,
        }
    }

    pub fn raw_value(&self) -> (r: Number)
        ensures
            r == self.raw(),
    {
        match *self {
            FontRelativeLength::Em(v) | FontRelativeLength::Rem(v) | FontRelativeLength::Ex(v)
            | FontRelativeLength::Ch(v) => v,
        }
    }

    /// The length in pixels for the given font sizes.
    pub fn to_px(&self, base_length: Number, is_vertical: bool, root_base_length: Number) -> (r: Fraction)
        requires
            self.wf(),
            base_length.wf(),
            root_base_length.wf(),
        ensures
            r.num == self.base(base_length, root_base_length).num() * self.raw().num(),
            r.den == self.base(base_length, root_base_length).den() * self.raw().den()
                * self.halving(is_vertical),
            r.den > 0,
    {
        let v = self.raw_value();
        let (base, k): (Number, i128) = match self {
            FontRelativeLength::Em(_) => (base_length, 1),
            FontRelativeLength::Rem(_) => (root_base_length, 1),
            FontRelativeLength::Ex(_) => (base_length, 2),
            FontRelativeLength::Ch(_) => (base_length, if is_vertical { 1 } else { 2 }),
        };
        let num = mul_mantissas(base.mantissa, v.mantissa);
        let den = pow_product(base.scale, v.scale);
        Fraction { num, den: den * k }
    }

    pub fn to_computed_px(&self, context: &CssContext) -> (r: Fraction)
        requires
            self.wf(),
            context.wf(),
        ensures
            r.num == self.base(context.font_size, context.root_font_size).num() * self.raw().num(),
            r.den == self.base(context.font_size, context.root_font_size).den() * self.raw().den()
                * self.halving(context.vertical_text),
            r.den > 0,
    {
        self.to_px(context.font_size, context.vertical_text, context.root_font_size)
    }
}

/// A length in hundredths of the viewport.
#[derive(Clone, Copy, Debug, PartialEq, Eq, Structural)]
pub enum ViewportRelativeLength {
    Vw(Number),
    Vh(Number),
    /// Of the smaller of width and height.
    Vmin(Number),
    /// Of the larger of width and height.
    Vmax(Number),
}

/// The smaller of two numbers by value.
pub open spec fn min_number(a: Number, b: Number) -> Number {
    if b.num() * a.den() < a.num() * b.den() {
        b
    } else {
        a
    }
}

/// The larger of two numbers by value.
pub open spec fn max_number(a: Number, b: Number) -> Number {
    if a.num() * b.den() < b.num() * a.den() {
        b
    } else {
        a
    }
}

impl ViewportRelativeLength {
    pub open spec fn raw(self) -> Number {
        match self {
            ViewportRelativeLength::Vw(v) | ViewportRelativeLength::Vh(v) | ViewportRelativeLength::Vmin(v)
            | ViewportRelativeLength::Vmax(v) => v,
        }
    }

    pub open spec fn wf(self) -> bool {
        self.raw().wf()
    }

    /// The side of the viewport the length is a fraction of.
    pub open spec fn side(self, width: Number, height: Number) -> Number {
        match self {
            ViewportRelativeLength::Vw(_) => width,
            ViewportRelativeLength::Vh(_) => height,
            ViewportRelativeLength::Vmin(_) => min_number(width, height),
            ViewportRelativeLength::Vmax(_) => max_number(width, height),
        }
    }

    pub fn raw_value(&self) -> (r: Number)
        ensures
            r == self.raw(),
    {
        match *self {
            ViewportRelativeLength::Vw(v) | ViewportRelativeLength::Vh(v) | ViewportRelativeLength::Vmin(v)
            | ViewportRelativeLength::Vmax(v) => v,
        }
    }

    /// The length in whole pixels, `side * value / 100` rounded toward zero.
    pub fn to_px(&self, width: Number, height: Number) -> (r: Fraction)
        requires
            self.wf(),
            width.wf(),
            height.wf(),
        ensures
            r.num == trunc_div(
                self.side(width, height).num() * self.raw().num(),
                self.side(width, height).den() * self.raw().den() * 100,
            ),
            r.den == 1,
    {
        let v = self.raw_value();
        let side = match self {
            ViewportRelativeLength::Vw(_) => width,
            ViewportRelativeLength::Vh(_) => height,
            ViewportRelativeLength::Vmin(_) => if height.less_than(&width) { height } else { width },
            ViewportRelativeLength::Vmax(_) => if width.less_than(&height) { height } else { width },
        };
        let n = mul_mantissas(side.mantissa, v.mantissa);
        let d = pow_product(side.scale, v.scale) * 100;
        let q = if n >= 0 { n / d } else { -((-n) / d) };
        Fraction { num: q, den: 1 }
    }

    pub fn to_computed_px(&self, context: &CssContext) -> (r: Fraction)
        requires
            self.wf(),
            context.wf(),
        ensures
            r.num == trunc_div(
                self.side(context.viewport_width, context.viewport_height).num() * self.raw().num(),
                self.side(context.viewport_width, context.viewport_height).den() * self.raw().den() * 100,
            ),
            r.den == 1,
    {
        self.to_px(context.viewport_width, context.viewport_height)
    }
}

impl Numeric for AbsoluteLength {
    open spec fn spec_is_zero(&self) -> bool {
        self.raw().mantissa == 0
    }

    open spec fn spec_is_negative(&self) -> bool {
        self.raw().mantissa < 0
    }

    fn zero() -> (r: Self) {
        AbsoluteLength::Px(Number::zero())
    }

    fn one() -> (r: Self) {
        AbsoluteLength::Px(Number::one())
    }

    fn is_zero(&self) -> (r: bool) {
        self.raw_value().mantissa == 0
    }

    fn is_negative(&self) -> (r: bool) {
        self.raw_value().mantissa < 0
    }

    fn is_infinite(&self) -> (r: bool) {
        false
    }
}

impl Numeric for FontRelativeLength {
    open spec fn spec_is_zero(&self) -> bool {
        self.raw().mantissa == 0
    }

    open spec fn spec_is_negative(&self) -> bool {
        self.raw().mantissa < 0
    }

    fn zero() -> (r: Self) {
        FontRelativeLength::Em(Number::zero())
    }

    fn one() -> (r: Self) {
        FontRelativeLength::Em(Number::one())
    }

    fn is_zero(&self) -> (r: bool) {
        self.raw_value().mantissa == 0
    }

    fn is_negative(&self) -> (r: bool) {
        self.raw_value().mantissa < 0
    }

    fn is_infinite(&self) -> (r: bool) {
        false
    }
}

impl Numeric for ViewportRelativeLength {
    open spec fn spec_is_zero(&self) -> bool {
        self.raw().mantissa == 0
    }

    open spec fn spec_is_negative(&self) -> bool {
        self.raw().mantissa < 0
    }

    fn zero() -> (r: Self) {
        ViewportRelativeLength::Vw(Number::zero())
    }

    fn one() -> (r: Self) {
        ViewportRelativeLength::Vw(Number::one())
    }

    fn is_zero(&self) -> (r: bool) {
        self.raw_value().mantissa == 0
    }

    fn is_negative(&self) -> (r: bool) {
        self.raw_value().mantissa < 0
    }

    fn is_infinite(&self) -> (r: bool) {
        false
    }
}

/// A length that is not a `calc()` expression.
#[derive(Clone, Copy, Debug, PartialEq, Eq, Structural)]
pub enum NoCalcLength {
    Absolute(AbsoluteLength),
    FontRelative(FontRelativeLength),
    ViewportRelative(ViewportRelativeLength),
}

impl NoCalcLength {
    pub open spec fn raw(self) -> Number {
        match self {
            NoCalcLength::Absolute(l) => l.raw(),
            NoCalcLength::FontRelative(l) => l.raw(),
            NoCalcLength::ViewportRelative(l) => l.raw(),
        }
    }

    pub open spec fn wf(self) -> bool {
        self.raw().wf()
    }

    /// The length in pixels under `context`, as `(numerator, denominator)`.
    pub open spec fn px(self, context: CssContext) -> (int, int) {
        match self {
            NoCalcLength::Absolute(l) => (l.raw().num() * l.px_ratio().0, l.raw().den() * l.px_ratio().1),
            NoCalcLength::FontRelative(l) => {
                let b = l.base(context.font_size, context.root_font_size);
                (b.num() * l.raw().num(), b.den() * l.raw().den() * l.halving(context.vertical_text))
            },
            NoCalcLength::ViewportRelative(l) => {
                let side = l.side(context.viewport_width, context.viewport_height);
                (trunc_div(side.num() * l.raw().num(), side.den() * l.raw().den() * 100), 1)
            },
        }
    }

    pub fn raw_value(&self) -> (r: Number)
        ensures
            r == self.raw(),
    {
        match self {
            NoCalcLength::Absolute(l) => l.raw_value(),
            NoCalcLength::FontRelative(l) => l.raw_value(),
            NoCalcLength::ViewportRelative(l) => l.raw_value(),
        }
    }

    pub fn to_computed_px(&self, context: &CssContext) -> (r: Fraction)
        requires
            self.wf(),
            context.wf(),
        ensures
            (r.num as int, r.den as int) == self.px(*context),
    {
        match self {
            NoCalcLength::Absolute(l) => l.to_computed_px(context),
            NoCalcLength::FontRelative(l) => l.to_computed_px(context),
            NoCalcLength::ViewportRelative(l) => l.to_computed_px(context),
        }
    }
}

impl NoCalcLength {
    /// The same kind of length with the value times `rhs`, where the product fits.
    pub open spec fn times(self, rhs: Number) -> Option<NoCalcLength> {
        match self.raw().times(rhs) {
            None => None,
            Some(v) => Some(match self {
                NoCalcLength::Absolute(l) => NoCalcLength::Absolute(l.with_raw(v)),
                NoCalcLength::FontRelative(l) => NoCalcLength::FontRelative(match l {
                    FontRelativeLength::Em(_) => FontRelativeLength::Em(v),
                    FontRelativeLength::Rem(_) => FontRelativeLength::Rem(v),
                    FontRelativeLength::Ex(_) => FontRelativeLength::Ex(v),
                    FontRelativeLength::Ch(_) => FontRelativeLength::Ch(v),
                }),
                NoCalcLength::ViewportRelative(l) => NoCalcLength::ViewportRelative(match l {
                    ViewportRelativeLength::Vw(_) => ViewportRelativeLength::Vw(v),
                    ViewportRelativeLength::Vh(_) => ViewportRelativeLength::Vh(v),
                    ViewportRelativeLength::Vmin(_) => ViewportRelativeLength::Vmin(v),
                    ViewportRelativeLength::Vmax(_) => ViewportRelativeLength::Vmax(v),
                }),
            }),
        }
    }

    pub fn mul(&self, rhs: &Number) -> (r: Option<NoCalcLength>)
        requires
            self.wf(),
            rhs.wf(),
        ensures
            r == self.times(*rhs),
    {
        let v = self.raw_value().mul(rhs)?;
        Some(match self {
            NoCalcLength::Absolute(l) => NoCalcLength::Absolute(match l {
                AbsoluteLength::Px(_) => AbsoluteLength::Px(v),
                AbsoluteLength::Mm(_) => AbsoluteLength::Mm(v),
                AbsoluteLength::Cm(_) => AbsoluteLength::Cm(v),
                AbsoluteLength::Q(_) => AbsoluteLength::Q(v),
                AbsoluteLength::In(_) => AbsoluteLength::In(v),
                AbsoluteLength::Pc(_) => AbsoluteLength::Pc(v),
                AbsoluteLength::Pt(_) => AbsoluteLength::Pt(v),
            }),
            NoCalcLength::FontRelative(l) => NoCalcLength::FontRelative(match l {
                FontRelativeLength::Em(_) => FontRelativeLength::Em(v),
                FontRelativeLength::Rem(_) => FontRelativeLength::Rem(v),
                FontRelativeLength::Ex(_) => FontRelativeLength::Ex(v),
                FontRelativeLength::Ch(_) => FontRelativeLength::Ch(v),
            }),
            NoCalcLength::ViewportRelative(l) => NoCalcLength::ViewportRelative(match l {
                ViewportRelativeLength::Vw(_) => ViewportRelativeLength::Vw(v),
                ViewportRelativeLength::Vh(_) => ViewportRelativeLength::Vh(v),
                ViewportRelativeLength::Vmin(_) => ViewportRelativeLength::Vmin(v),
                ViewportRelativeLength::Vmax(_) => ViewportRelativeLength::Vmax(v),
            }),
        })
    }

    /// Two lengths of the same unit, relative lengths among them, compare by value;
    /// absolute lengths compare in pixels; other pairs do not compare.
    pub open spec fn cmp_spec(self, other: NoCalcLength) -> Option<core::cmp::Ordering> {
        match (self, other) {
            (NoCalcLength::Absolute(a), NoCalcLength::Absolute(b)) => Some(ordering(
                a.raw().num() * a.px_ratio().0 * (b.raw().den() * b.px_ratio().1),
                b.raw().num() * b.px_ratio().0 * (a.raw().den() * a.px_ratio().1),
            )),
            (NoCalcLength::FontRelative(a), NoCalcLength::FontRelative(b)) =>
                if a.same_unit(b) {
                    Some(ordering(a.raw().num() * b.raw().den(), b.raw().num() * a.raw().den()))
                } else {
                    None
                },
            (NoCalcLength::ViewportRelative(a), NoCalcLength::ViewportRelative(b)) =>
                if a.same_unit(b) {
                    Some(ordering(a.raw().num() * b.raw().den(), b.raw().num() * a.raw().den()))
                } else {
                    None
                },
            _ => None,
        }
    }

    pub fn partial_cmp(&self, other: &NoCalcLength) -> (r: Option<core::cmp::Ordering>)
        requires
            self.wf(),
            other.wf(),
        ensures
            r == self.cmp_spec(*other),
    {
        match (self, other) {
            (NoCalcLength::Absolute(a), NoCalcLength::Absolute(b)) => a.partial_cmp(b),
            (NoCalcLength::FontRelative(a), NoCalcLength::FontRelative(b)) =>
                if a.is_same_unit(b) {
                    Some(a.raw_value().compare(&b.raw_value()))
                } else {
                    None
                },
            (NoCalcLength::ViewportRelative(a), NoCalcLength::ViewportRelative(b)) =>
                if a.is_same_unit(b) {
                    Some(a.raw_value().compare(&b.raw_value()))
                } else {
                    None
                },
            _ => None,
        }
    }
}

impl FontRelativeLength {
    pub open spec fn same_unit(self, o: FontRelativeLength) -> bool {
        (self is Em && o is Em) || (self is Rem && o is Rem) || (self is Ex && o is Ex) || (self is Ch && o is Ch)
    }

    pub fn is_same_unit(&self, o: &FontRelativeLength) -> (r: bool)
        ensures
            r == self.same_unit(*o),
    {
        match (self, o) {
            (FontRelativeLength::Em(_), FontRelativeLength::Em(_)) | (FontRelativeLength::Rem(_), FontRelativeLength::Rem(_))
            | (FontRelativeLength::Ex(_), FontRelativeLength::Ex(_)) | (FontRelativeLength::Ch(_), FontRelativeLength::Ch(_)) => true,
            _ => false,
        }
    }
}

impl ViewportRelativeLength {
    pub open spec fn same_unit(self, o: ViewportRelativeLength) -> bool {
        (self is Vw && o is Vw) || (self is Vh && o is Vh) || (self is Vmin && o is Vmin) || (self is Vmax && o is Vmax)
    }

    pub fn is_same_unit(&self, o: &ViewportRelativeLength) -> (r: bool)
        ensures
            r == self.same_unit(*o),
    {
        match (self, o) {
            (ViewportRelativeLength::Vw(_), ViewportRelativeLength::Vw(_)) | (ViewportRelativeLength::Vh(_), ViewportRelativeLength::Vh(_))
            | (ViewportRelativeLength::Vmin(_), ViewportRelativeLength::Vmin(_)) | (ViewportRelativeLength::Vmax(_), ViewportRelativeLength::Vmax(_)) => true,
            _ => false,
        }
    }
}

impl Numeric for NoCalcLength {
    open spec fn spec_is_zero(&self) -> bool {
        self.raw().mantissa == 0
    }

    open spec fn spec_is_negative(&self) -> bool {
        self.raw().mantissa < 0
    }

    fn zero() -> (r: Self) {
        NoCalcLength::Absolute(AbsoluteLength::Px(Number::zero()))
    }

    fn one() -> (r: Self) {
        NoCalcLength::Absolute(AbsoluteLength::Px(Number::one()))
    }

    fn is_zero(&self) -> (r: bool) {
        self.raw_value().mantissa == 0
    }

    fn is_negative(&self) -> (r: bool) {
        self.raw_value().mantissa < 0
    }

    fn is_infinite(&self) -> (r: bool) {
        false
    }
}

/// A length of any kind; `calc()` is not supported, so it is always a plain length.
#[derive(Clone, Copy, Debug, PartialEq, Eq, Structural)]
pub enum Length {
    NoCalc(NoCalcLength),
}

impl Length {
    pub open spec fn wf(self) -> bool {
        match self {
            Length::NoCalc(l) => l.wf(),
        }
    }

    /// Lengths compare as their plain lengths do.
    pub fn partial_cmp(&self, other: &Length) -> (r: Option<core::cmp::Ordering>)
        requires
            self.wf(),
            other.wf(),
        ensures
            match (*self, *other) {
                (Length::NoCalc(a), Length::NoCalc(b)) => r == a.cmp_spec(b),
            },
    {
        match (self, other) {
            (Length::NoCalc(a), Length::NoCalc(b)) => a.partial_cmp(b),
        }
    }

    /// The length times `rhs`, where the product fits.
    pub fn mul(&self, rhs: &Number) -> (r: Option<Length>)
        requires
            self.wf(),
            rhs.wf(),
        ensures
            match *self {
                Length::NoCalc(l) => r == match l.times(*rhs) {
                    Some(x) => Some(Length::NoCalc(x)),
                    None => None::<Length>,
                },
            },
    {
        match self {
            Length::NoCalc(l) => Some(Length::NoCalc(l.mul(rhs)?)),
        }
    }
}

impl NoCalcLength {
    /// The same unit with value `v`.
    pub open spec fn with_raw(self, v: Number) -> NoCalcLength {
        match self {
            NoCalcLength::Absolute(AbsoluteLength::Px(_)) => NoCalcLength::Absolute(AbsoluteLength::Px(v)),
            NoCalcLength::Absolute(AbsoluteLength::Mm(_)) => NoCalcLength::Absolute(AbsoluteLength::Mm(v)),
            NoCalcLength::Absolute(AbsoluteLength::Cm(_)) => NoCalcLength::Absolute(AbsoluteLength::Cm(v)),
            NoCalcLength::Absolute(AbsoluteLength::Q(_)) => NoCalcLength::Absolute(AbsoluteLength::Q(v)),
            NoCalcLength::Absolute(AbsoluteLength::In(_)) => NoCalcLength::Absolute(AbsoluteLength::In(v)),
            NoCalcLength::Absolute(AbsoluteLength::Pc(_)) => NoCalcLength::Absolute(AbsoluteLength::Pc(v)),
            NoCalcLength::Absolute(AbsoluteLength::Pt(_)) => NoCalcLength::Absolute(AbsoluteLength::Pt(v)),
            NoCalcLength::FontRelative(FontRelativeLength::Em(_)) => NoCalcLength::FontRelative(FontRelativeLength::Em(v)),
            NoCalcLength::FontRelative(FontRelativeLength::Rem(_)) => NoCalcLength::FontRelative(FontRelativeLength::Rem(v)),
            NoCalcLength::FontRelative(FontRelativeLength::Ex(_)) => NoCalcLength::FontRelative(FontRelativeLength::Ex(v)),
            NoCalcLength::FontRelative(FontRelativeLength::Ch(_)) => NoCalcLength::FontRelative(FontRelativeLength::Ch(v)),
            NoCalcLength::ViewportRelative(ViewportRelativeLength::Vw(_)) => NoCalcLength::ViewportRelative(ViewportRelativeLength::Vw(v)),
            NoCalcLength::ViewportRelative(ViewportRelativeLength::Vh(_)) => NoCalcLength::ViewportRelative(ViewportRelativeLength::Vh(v)),
            NoCalcLength::ViewportRelative(ViewportRelativeLength::Vmin(_)) => NoCalcLength::ViewportRelative(ViewportRelativeLength::Vmin(v)),
            NoCalcLength::ViewportRelative(ViewportRelativeLength::Vmax(_)) => NoCalcLength::ViewportRelative(ViewportRelativeLength::Vmax(v)),
        }
    }

    pub fn rebuilt(&self, v: Number) -> (r: NoCalcLength)
        ensures
            r == self.with_raw(v),
    {
        match self {
            NoCalcLength::Absolute(AbsoluteLength::Px(_)) => NoCalcLength::Absolute(AbsoluteLength::Px(v)),
            NoCalcLength::Absolute(AbsoluteLength::Mm(_)) => NoCalcLength::Absolute(AbsoluteLength::Mm(v)),
            NoCalcLength::Absolute(AbsoluteLength::Cm(_)) => NoCalcLength::Absolute(AbsoluteLength::Cm(v)),
            NoCalcLength::Absolute(AbsoluteLength::Q(_)) => NoCalcLength::Absolute(AbsoluteLength::Q(v)),
            NoCalcLength::Absolute(AbsoluteLength::In(_)) => NoCalcLength::Absolute(AbsoluteLength::In(v)),
            NoCalcLength::Absolute(AbsoluteLength::Pc(_)) => NoCalcLength::Absolute(AbsoluteLength::Pc(v)),
            NoCalcLength::Absolute(AbsoluteLength::Pt(_)) => NoCalcLength::Absolute(AbsoluteLength::Pt(v)),
            NoCalcLength::FontRelative(FontRelativeLength::Em(_)) => NoCalcLength::FontRelative(FontRelativeLength::Em(v)),
            NoCalcLength::FontRelative(FontRelativeLength::Rem(_)) => NoCalcLength::FontRelative(FontRelativeLength::Rem(v)),
            NoCalcLength::FontRelative(FontRelativeLength::Ex(_)) => NoCalcLength::FontRelative(FontRelativeLength::Ex(v)),
            NoCalcLength::FontRelative(FontRelativeLength::Ch(_)) => NoCalcLength::FontRelative(FontRelativeLength::Ch(v)),
            NoCalcLength::ViewportRelative(ViewportRelativeLength::Vw(_)) => NoCalcLength::ViewportRelative(ViewportRelativeLength::Vw(v)),
            NoCalcLength::ViewportRelative(ViewportRelativeLength::Vh(_)) => NoCalcLength::ViewportRelative(ViewportRelativeLength::Vh(v)),
            NoCalcLength::ViewportRelative(ViewportRelativeLength::Vmin(_)) => NoCalcLength::ViewportRelative(ViewportRelativeLength::Vmin(v)),
            NoCalcLength::ViewportRelative(ViewportRelativeLength::Vmax(_)) => NoCalcLength::ViewportRelative(ViewportRelativeLength::Vmax(v)),
        }
    }

    /// Both lengths are in the same unit.
    pub open spec fn same_unit(self, o: NoCalcLength) -> bool {
        (self is Absolute && o is Absolute && self->Absolute_0 is Px && o->Absolute_0 is Px) ||
            (self is Absolute && o is Absolute && self->Absolute_0 is Mm && o->Absolute_0 is Mm) ||
            (self is Absolute && o is Absolute && self->Absolute_0 is Cm && o->Absolute_0 is Cm) ||
            (self is Absolute && o is Absolute && self->Absolute_0 is Q && o->Absolute_0 is Q) ||
            (self is Absolute && o is Absolute && self->Absolute_0 is In && o->Absolute_0 is In) ||
            (self is Absolute && o is Absolute && self->Absolute_0 is Pc && o->Absolute_0 is Pc) ||
            (self is Absolute && o is Absolute && self->Absolute_0 is Pt && o->Absolute_0 is Pt) ||
            (self is FontRelative && o is FontRelative && self->FontRelative_0 is Em && o->FontRelative_0 is Em) ||
            (self is FontRelative && o is FontRelative && self->FontRelative_0 is Rem && o->FontRelative_0 is Rem) ||
            (self is FontRelative && o is FontRelative && self->FontRelative_0 is Ex && o->FontRelative_0 is Ex) ||
            (self is FontRelative && o is FontRelative && self->FontRelative_0 is Ch && o->FontRelative_0 is Ch) ||
            (self is ViewportRelative && o is ViewportRelative && self->ViewportRelative_0 is Vw && o->ViewportRelative_0 is Vw) ||
            (self is ViewportRelative && o is ViewportRelative && self->ViewportRelative_0 is Vh && o->ViewportRelative_0 is Vh) ||
            (self is ViewportRelative && o is ViewportRelative && self->ViewportRelative_0 is Vmin && o->ViewportRelative_0 is Vmin) ||
            (self is ViewportRelative && o is ViewportRelative && self->ViewportRelative_0 is Vmax && o->ViewportRelative_0 is Vmax)
    }

    pub fn is_same_unit(&self, o: &NoCalcLength) -> (r: bool)
        ensures
            r == self.same_unit(*o),
    {
        match (self, o) {
            (NoCalcLength::Absolute(AbsoluteLength::Px(_)), NoCalcLength::Absolute(AbsoluteLength::Px(_))) |
            (NoCalcLength::Absolute(AbsoluteLength::Mm(_)), NoCalcLength::Absolute(AbsoluteLength::Mm(_))) |
            (NoCalcLength::Absolute(AbsoluteLength::Cm(_)), NoCalcLength::Absolute(AbsoluteLength::Cm(_))) |
            (NoCalcLength::Absolute(AbsoluteLength::Q(_)), NoCalcLength::Absolute(AbsoluteLength::Q(_))) |
            (NoCalcLength::Absolute(AbsoluteLength::In(_)), NoCalcLength::Absolute(AbsoluteLength::In(_))) |
            (NoCalcLength::Absolute(AbsoluteLength::Pc(_)), NoCalcLength::Absolute(AbsoluteLength::Pc(_))) |
            (NoCalcLength::Absolute(AbsoluteLength::Pt(_)), NoCalcLength::Absolute(AbsoluteLength::Pt(_))) |
            (NoCalcLength::FontRelative(FontRelativeLength::Em(_)), NoCalcLength::FontRelative(FontRelativeLength::Em(_))) |
            (NoCalcLength::FontRelative(FontRelativeLength::Rem(_)), NoCalcLength::FontRelative(FontRelativeLength::Rem(_))) |
            (NoCalcLength::FontRelative(FontRelativeLength::Ex(_)), NoCalcLength::FontRelative(FontRelativeLength::Ex(_))) |
            (NoCalcLength::FontRelative(FontRelativeLength::Ch(_)), NoCalcLength::FontRelative(FontRelativeLength::Ch(_))) |
            (NoCalcLength::ViewportRelative(ViewportRelativeLength::Vw(_)), NoCalcLength::ViewportRelative(ViewportRelativeLength::Vw(_))) |
            (NoCalcLength::ViewportRelative(ViewportRelativeLength::Vh(_)), NoCalcLength::ViewportRelative(ViewportRelativeLength::Vh(_))) |
            (NoCalcLength::ViewportRelative(ViewportRelativeLength::Vmin(_)), NoCalcLength::ViewportRelative(ViewportRelativeLength::Vmin(_))) |
            (NoCalcLength::ViewportRelative(ViewportRelativeLength::Vmax(_)), NoCalcLength::ViewportRelative(ViewportRelativeLength::Vmax(_))) => true,
            _ => false,
        }
    }

    /// The sum of two lengths in the same unit; `None` for different units or where the
    /// sum does not fit.
    pub fn try_sum(&self, that: &NoCalcLength) -> (r: Option<NoCalcLength>)
        requires
            self.wf(),
            that.wf(),
        ensures
            r == if self.same_unit(*that) {
                match self.raw().plus(that.raw()) {
                    Some(v) => Some(self.with_raw(v)),
                    None => None::<NoCalcLength>,
                }
            } else {
                None::<NoCalcLength>
            },
    {
        if !self.is_same_unit(that) {
            return None;
        }
        let v = self.raw_value().add(&that.raw_value())?;
        Some(self.rebuilt(v))
    }
}

impl Length {
    /// The sum of two lengths in the same unit, as for [`NoCalcLength::try_sum`].
    pub fn try_sum(&self, that: &Length) -> (r: Option<Length>)
        requires
            self.wf(),
            that.wf(),
        ensures
            match (*self, *that) {
                (Length::NoCalc(a), Length::NoCalc(b)) => r == if a.same_unit(b) {
                    match a.raw().plus(b.raw()) {
                        Some(v) => Some(Length::NoCalc(a.with_raw(v))),
                        None => None::<Length>,
                    }
                } else {
                    None::<Length>
                },
            },
    {
        match (self, that) {
            (Length::NoCalc(a), Length::NoCalc(b)) => Some(Length::NoCalc(a.try_sum(b)?)),
        }
    }
}

impl LengthPercentage {
    /// Lengths in the same unit, or two percentages, summed; other pairs give `None`.
    pub fn try_sum(&self, that: &LengthPercentage) -> (r: Option<LengthPercentage>)
        requires
            self.wf(),
            that.wf(),
        ensures
            match (*self, *that) {
                (LengthPercentage::Length(a), LengthPercentage::Length(b)) => r == if a.same_unit(b) {
                    match a.raw().plus(b.raw()) {
                        Some(v) => Some(LengthPercentage::Length(a.with_raw(v))),
                        None => None::<LengthPercentage>,
                    }
                } else {
                    None::<LengthPercentage>
                },
                (LengthPercentage::Percentage(a), LengthPercentage::Percentage(b)) => r == match a.percent.plus(b.percent) {
                    Some(p) => Some(LengthPercentage::Percentage(Percentage { percent: p, clamping: None })),
                    None => None::<LengthPercentage>,
                },
                _ => r is None,
            },
    {
        match (self, that) {
            (LengthPercentage::Length(a), LengthPercentage::Length(b)) => Some(LengthPercentage::Length(a.try_sum(b)?)),
            (LengthPercentage::Percentage(a), LengthPercentage::Percentage(b)) => Some(LengthPercentage::Percentage(a.try_sum(b)?)),
            _ => None,
        }
    }
}

/// A percentage, held as the number written before the `%`.
#[derive(Clone, Copy, Debug, PartialEq, Eq, Structural)]
pub struct Percentage {
    pub percent: Number,
    /// The range to clamp to when the value is read.
    pub clamping: Option<AllowedValues>,
}

impl Percentage {
    pub fn new(percent: Number) -> (r: Percentage)
        ensures
            r == (Percentage { percent, clamping: None }),
    {
        Percentage { percent, clamping: None }
    }

    pub fn hundred() -> (r: Percentage)
        ensures
            r == (Percentage { percent: Number::from_int_spec(100), clamping: None }),
    {
        Percentage::new(Number::from_int(100))
    }

    pub fn is_hundred(&self) -> (r: bool)
        requires
            self.percent.wf(),
        ensures
            r == self.percent.same(Number::from_int_spec(100)),
    {
        self.percent.same_value(&Number::from_int(100))
    }

    pub fn is_calc(&self) -> (r: bool)
        ensures
            r == (self.clamping is Some),
    {
        self.clamping.is_some()
    }

    /// The percentage, clamped where a range is set.
    pub fn get(&self) -> (r: Number)
        requires
            self.percent.wf(),
        ensures
            r.wf(),
            match self.clamping {
                None => r == self.percent,
                Some(a) => a.allows(self.percent) ==> r == self.percent,
            },
    {
        match self.clamping {
            None => self.percent,
            Some(a) => a.clamp(self.percent),
        }
    }
}

impl Percentage {
    /// The sum of two percentages, without a clamping range; `None` where it does not fit.
    pub fn try_sum(&self, that: &Percentage) -> (r: Option<Percentage>)
        requires
            self.percent.wf(),
            that.percent.wf(),
        ensures
            r == match self.percent.plus(that.percent) {
                Some(p) => Some(Percentage { percent: p, clamping: None }),
                None => None::<Percentage>,
            },
    {
        Some(Percentage::new(self.percent.add(&that.percent)?))
    }

    /// What is left of a hundred percent; `None` where it does not fit.
    pub fn reverse(self) -> (r: Option<Percentage>)
        requires
            self.percent.wf(),
        ensures
            r == match Number::from_int_spec(100).plus(Number { mantissa: (-self.percent.mantissa) as i64, scale: self.percent.scale }) {
                Some(p) => Some(Percentage { percent: p, clamping: self.clamping }),
                None => None::<Percentage>,
            },
    {
        let negated = Number { mantissa: -self.percent.mantissa, scale: self.percent.scale };
        let p = Number::from_int(100).add(&negated)?;
        Some(Percentage { percent: p, clamping: self.clamping })
    }

    /// The percentage, lowered to a hundred where it is more.
    pub fn limit_to_hundred(self) -> (r: Percentage)
        requires
            self.percent.wf(),
        ensures
            r.clamping == self.clamping,
            self.percent.num() > 100 * self.percent.den() ==> r.percent == Number::from_int_spec(100),
            self.percent.num() <= 100 * self.percent.den() ==> r.percent == self.percent,
    {
        let hundred = Number::from_int(100);
        if hundred.less_than(&self.percent) {
            Percentage { percent: hundred, clamping: self.clamping }
        } else {
            self
        }
    }
}

impl Numeric for Percentage {
    open spec fn spec_is_zero(&self) -> bool {
        self.percent.mantissa == 0
    }

    open spec fn spec_is_negative(&self) -> bool {
        self.percent.mantissa < 0
    }

    fn zero() -> (r: Self) {
        Percentage::new(Number::zero())
    }

    fn one() -> (r: Self) {
        Percentage::hundred()
    }

    fn is_zero(&self) -> (r: bool) {
        self.percent.mantissa == 0
    }

    fn is_negative(&self) -> (r: bool) {
        self.percent.mantissa < 0
    }

    fn is_infinite(&self) -> (r: bool) {
        false
    }
}

/// A length or a percentage.
#[derive(Clone, Copy, Debug, PartialEq, Eq, Structural)]
pub enum LengthPercentage {
    Length(NoCalcLength),
    Percentage(Percentage),
}

impl LengthPercentage {
    pub open spec fn raw(self) -> Number {
        match self {
            LengthPercentage::Length(l) => l.raw(),
            LengthPercentage::Percentage(p) => p.percent,
        }
    }

    pub open spec fn wf(self) -> bool {
        self.raw().wf()
    }
}

impl LengthPercentage {
    /// Lengths compare as lengths, percentages by value, and a length with a percentage
    /// not at all.
    pub open spec fn cmp_spec(self, other: LengthPercentage) -> Option<core::cmp::Ordering> {
        match (self, other) {
            (LengthPercentage::Length(a), LengthPercentage::Length(b)) => a.cmp_spec(b),
            (LengthPercentage::Percentage(a), LengthPercentage::Percentage(b)) =>
                Some(ordering(a.percent.num() * b.percent.den(), b.percent.num() * a.percent.den())),
            _ => None,
        }
    }

    pub fn partial_cmp(&self, other: &LengthPercentage) -> (r: Option<core::cmp::Ordering>)
        requires
            self.wf(),
            other.wf(),
        ensures
            r == self.cmp_spec(*other),
    {
        match (self, other) {
            (LengthPercentage::Length(a), LengthPercentage::Length(b)) => a.partial_cmp(b),
            (LengthPercentage::Percentage(a), LengthPercentage::Percentage(b)) => Some(a.percent.compare(&b.percent)),
            _ => None,
        }
    }

    /// The value times `rhs`, where the product fits.
    pub fn mul(&self, rhs: &Number) -> (r: Option<LengthPercentage>)
        requires
            self.wf(),
            rhs.wf(),
        ensures
            match *self {
                LengthPercentage::Length(l) => r == match l.times(*rhs) {
                    Some(x) => Some(LengthPercentage::Length(x)),
                    None => None::<LengthPercentage>,
                },
                LengthPercentage::Percentage(p) => r == match p.percent.times(*rhs) {
                    Some(x) => Some(LengthPercentage::Percentage(Percentage { percent: x, clamping: None })),
                    None => None::<LengthPercentage>,
                },
            },
    {
        match self {
            LengthPercentage::Length(l) => Some(LengthPercentage::Length(l.mul(rhs)?)),
            LengthPercentage::Percentage(p) => Some(LengthPercentage::Percentage(Percentage::new(p.percent.mul(rhs)?))),
        }
    }
}

impl Numeric for LengthPercentage {
    open spec fn spec_is_zero(&self) -> bool {
        self.raw().mantissa == 0
    }

    open spec fn spec_is_negative(&self) -> bool {
        self.raw().mantissa < 0
    }

    fn zero() -> (r: Self) {
        LengthPercentage::Length(NoCalcLength::Absolute(AbsoluteLength::Px(Number::zero())))
    }

    fn one() -> (r: Self) {
        LengthPercentage::Length(NoCalcLength::Absolute(AbsoluteLength::Px(Number::one())))
    }

    fn is_zero(&self) -> (r: bool) {
        match self {
            LengthPercentage::Length(l) => l.raw_value().mantissa == 0,
            LengthPercentage::Percentage(p) => p.percent.mantissa == 0,
        }
    }

    fn is_negative(&self) -> (r: bool) {
        match self {
            LengthPercentage::Length(l) => l.raw_value().mantissa < 0,
            LengthPercentage::Percentage(p) => p.percent.mantissa < 0,
        }
    }

    fn is_infinite(&self) -> (r: bool) {
        false
    }
}

pub type NonNegativeLengthPercentage = NonNegative<LengthPercentage>;

pub type LengthPercentageOrAuto = MaybeAuto<LengthPercentage>;

} // verus!
