//! Reading values from tokens. Each parser takes the tokens of a value, whitespace left
//! out, and a position; it returns the value and the position after it.

use vstd::prelude::*;
use crate::errors::{AllowedValues, BevyCssParsingErrorKind};
use crate::length::{AbsoluteLength, FontRelativeLength, Length, LengthPercentage, NoCalcLength, Percentage, ViewportRelativeLength};
use crate::number::{numeric_end, numeric_fits, numeric_number, parse_numeric, Number};
use crate::text::{eq_ignore_ascii_case, same_ci};
use crate::tokens::{ValueToken, Tok};
use crate::values::{expand_sides, MaybeAuto, NonNegative, SidedValue};

verus! {

pub type Kind = BevyCssParsingErrorKind;

/// The number that a number, percentage or dimension token was written with.
pub open spec fn token_number(t: ValueToken) -> Result<Number, Kind> {
    let s = t.text@;
    let rest = s.len() - numeric_end(s);
    let fits_kind = match t.tok {
        Tok::Number => rest == 0,
        Tok::Percentage => rest == 1,
        Tok::Dimension(u) => rest == u@.len(),
        _ => false,
    };
    if numeric_fits(s) && fits_kind {
        Ok(numeric_number(s))
    } else {
        Err(BevyCssParsingErrorKind::UnsupportedNumber)
    }
}

/// Reads the number of a number, percentage or dimension token from its text.
pub fn number_of(t: &ValueToken) -> (r: Result<Number, Kind>)
    ensures
        r == token_number(*t),
        r is Ok ==> r->Ok_0.wf(),
{
    let len = t.text.as_str().unicode_len();
    match parse_numeric(t.text.as_str()) {
        None => Err(BevyCssParsingErrorKind::UnsupportedNumber),
        Some((n, e)) => {
            let rest = len - e;
            let fits_kind = match &t.tok {
                Tok::Number => rest == 0,
                Tok::Percentage => rest == 1,
                Tok::Dimension(u) => rest == u.as_str().unicode_len(),
                _ => false,
            };
            if fits_kind {
                Ok(n)
            } else {
                Err(BevyCssParsingErrorKind::UnsupportedNumber)
            }
        },
    }
}

/// The error for an unexpected token, or for the end of the tokens.
pub open spec fn unexpected(toks: Seq<ValueToken>, pos: int) -> Kind {
    if pos >= toks.len() {
        BevyCssParsingErrorKind::EndOfInput
    } else {
        BevyCssParsingErrorKind::UnexpectedToken(toks[pos].tok)
    }
}

pub fn unexpected_at(toks: &Vec<ValueToken>, pos: usize) -> (r: Kind)
    ensures
        r == unexpected(toks@, pos as int),
{
    if pos >= toks.len() {
        BevyCssParsingErrorKind::EndOfInput
    } else {
        BevyCssParsingErrorKind::UnexpectedToken(toks[pos].tok.clone_tok())
    }
}

/// A number where `allowed` says which are accepted.
pub open spec fn number_spec(toks: Seq<ValueToken>, pos: int, allowed: AllowedValues) -> Result<(Number, int), Kind> {
    if 0 <= pos < toks.len() && toks[pos].tok is Number {
        match token_number(toks[pos]) {
            Err(k) => Err(k),
            Ok(n) => if allowed.allows(n) {
                Ok((n, pos + 1))
            } else {
                Err(BevyCssParsingErrorKind::OutOfRange(allowed))
            },
        }
    } else if 0 <= pos < toks.len() && toks[pos].tok is Function {
        Err(BevyCssParsingErrorKind::FunctionNotSupported(toks[pos].tok->Function_0))
    } else {
        Err(unexpected(toks, pos))
    }
}

pub fn parse_number(toks: &Vec<ValueToken>, pos: usize, allowed: AllowedValues) -> (r: Result<(Number, usize), Kind>)
    ensures
        spec_result(r) == number_spec(toks@, pos as int, allowed),
        r is Ok ==> r->Ok_0.0.wf() && r->Ok_0.1 == pos + 1,
{
    if pos < toks.len() {
        match &toks[pos].tok {
            Tok::Number => {
                let n = number_of(&toks[pos])?;
                if allowed.is_ok(&n) {
                    return Ok((n, pos + 1));
                } else {
                    return Err(BevyCssParsingErrorKind::OutOfRange(allowed));
                }
            },
            Tok::Function(name) => {
                return Err(BevyCssParsingErrorKind::FunctionNotSupported(name.clone()));
            },
            _ => {},
        }
    }
    Err(unexpected_at(toks, pos))
}

/// A parse result with the position as an `int`.
pub open spec fn spec_result<T>(r: Result<(T, usize), Kind>) -> Result<(T, int), Kind> {
    match r {
        Ok((v, e)) => Ok((v, e as int)),
        Err(k) => Err(k),
    }
}

/// The length that `v` in `unit` stands for, if the unit is one of a length.
pub open spec fn unit_length(unit: Seq<char>, v: Number) -> Option<NoCalcLength> {
    if same_ci(unit, "px"@) {
        Some(NoCalcLength::Absolute(AbsoluteLength::Px(v)))
    } else if same_ci(unit, "cm"@) {
        Some(NoCalcLength::Absolute(AbsoluteLength::Cm(v)))
    } else if same_ci(unit, "mm"@) {
        Some(NoCalcLength::Absolute(AbsoluteLength::Mm(v)))
    } else if same_ci(unit, "q"@) {
        Some(NoCalcLength::Absolute(AbsoluteLength::Q(v)))
    } else if same_ci(unit, "in"@) {
        Some(NoCalcLength::Absolute(AbsoluteLength::In(v)))
    } else if same_ci(unit, "pc"@) {
        Some(NoCalcLength::Absolute(AbsoluteLength::Pc(v)))
    } else if same_ci(unit, "pt"@) {
        Some(NoCalcLength::Absolute(AbsoluteLength::Pt(v)))
    } else if same_ci(unit, "em"@) {
        Some(NoCalcLength::FontRelative(FontRelativeLength::Em(v)))
    } else if same_ci(unit, "ex"@) {
        Some(NoCalcLength::FontRelative(FontRelativeLength::Ex(v)))
    } else if same_ci(unit, "ch"@) {
        Some(NoCalcLength::FontRelative(FontRelativeLength::Ch(v)))
    } else if same_ci(unit, "rem"@) {
        Some(NoCalcLength::FontRelative(FontRelativeLength::Rem(v)))
    } else if same_ci(unit, "vw"@) {
        Some(NoCalcLength::ViewportRelative(ViewportRelativeLength::Vw(v)))
    } else if same_ci(unit, "vh"@) {
        Some(NoCalcLength::ViewportRelative(ViewportRelativeLength::Vh(v)))
    } else if same_ci(unit, "vmin"@) {
        Some(NoCalcLength::ViewportRelative(ViewportRelativeLength::Vmin(v)))
    } else if same_ci(unit, "vmax"@) {
        Some(NoCalcLength::ViewportRelative(ViewportRelativeLength::Vmax(v)))
    } else {
        None
    }
}

impl NoCalcLength {
    /// The length that `value` in `unit` stands for.
    pub fn parse_dimension(unit: &String, value: Number) -> (r: Result<NoCalcLength, Kind>)
        ensures
            r == match unit_length(unit@, value) {
                Some(l) => Ok::<NoCalcLength, Kind>(l),
                None => Err(BevyCssParsingErrorKind::UnexpectedDimension(*unit)),
            },
    {
        if eq_ignore_ascii_case(unit.as_str(), "px") {
            Ok(NoCalcLength::Absolute(AbsoluteLength::Px(value)))
        } else if eq_ignore_ascii_case(unit.as_str(), "cm") {
            Ok(NoCalcLength::Absolute(AbsoluteLength::Cm(value)))
        } else if eq_ignore_ascii_case(unit.as_str(), "mm") {
            Ok(NoCalcLength::Absolute(AbsoluteLength::Mm(value)))
        } else if eq_ignore_ascii_case(unit.as_str(), "q") {
            Ok(NoCalcLength::Absolute(AbsoluteLength::Q(value)))
        } else if eq_ignore_ascii_case(unit.as_str(), "in") {
            Ok(NoCalcLength::Absolute(AbsoluteLength::In(value)))
        } else if eq_ignore_ascii_case(unit.as_str(), "pc") {
            Ok(NoCalcLength::Absolute(AbsoluteLength::Pc(value)))
        } else if eq_ignore_ascii_case(unit.as_str(), "pt") {
            Ok(NoCalcLength::Absolute(AbsoluteLength::Pt(value)))
        } else if eq_ignore_ascii_case(unit.as_str(), "em") {
            Ok(NoCalcLength::FontRelative(FontRelativeLength::Em(value)))
        } else if eq_ignore_ascii_case(unit.as_str(), "ex") {
            Ok(NoCalcLength::FontRelative(FontRelativeLength::Ex(value)))
        } else if eq_ignore_ascii_case(unit.as_str(), "ch") {
            Ok(NoCalcLength::FontRelative(FontRelativeLength::Ch(value)))
        } else if eq_ignore_ascii_case(unit.as_str(), "rem") {
            Ok(NoCalcLength::FontRelative(FontRelativeLength::Rem(value)))
        } else if eq_ignore_ascii_case(unit.as_str(), "vw") {
            Ok(NoCalcLength::ViewportRelative(ViewportRelativeLength::Vw(value)))
        } else if eq_ignore_ascii_case(unit.as_str(), "vh") {
            Ok(NoCalcLength::ViewportRelative(ViewportRelativeLength::Vh(value)))
        } else if eq_ignore_ascii_case(unit.as_str(), "vmin") {
            Ok(NoCalcLength::ViewportRelative(ViewportRelativeLength::Vmin(value)))
        } else if eq_ignore_ascii_case(unit.as_str(), "vmax") {
            Ok(NoCalcLength::ViewportRelative(ViewportRelativeLength::Vmax(value)))
        } else {
            Err(BevyCssParsingErrorKind::UnexpectedDimension(unit.clone()))
        }
    }
}

/// Reads a value from tokens.
pub trait Parse: Sized {
    /// The value at `pos`, and the position after it.
    spec fn parse_spec(toks: Seq<ValueToken>, pos: int) -> Result<(Self, int), Kind>;

    /// The numbers in the value are well formed.
    spec fn valid(&self) -> bool;

    fn parse(toks: &Vec<ValueToken>, pos: usize) -> (r: Result<(Self, usize), Kind>)
        requires
            pos <= toks@.len(),
        ensures
            spec_result(r) == Self::parse_spec(toks@, pos as int),
            r is Ok ==> r->Ok_0.0.valid() && pos < r->Ok_0.1 <= toks@.len();
}

pub open spec fn zero_length() -> NoCalcLength {
    NoCalcLength::Absolute(AbsoluteLength::Px(Number { mantissa: 0, scale: 0 }))
}

/// A length, a percentage when `with_percentage`, or a bare `0`.
pub open spec fn length_spec(toks: Seq<ValueToken>, pos: int, allowed: AllowedValues, with_percentage: bool)
    -> Result<(LengthPercentage, int), Kind>
{
    if 0 <= pos < toks.len() {
        let t = toks[pos];
        match t.tok {
            Tok::Dimension(u) => match token_number(t) {
                Err(k) => Err(k),
                Ok(n) => if !allowed.allows(n) {
                    Err(BevyCssParsingErrorKind::OutOfRange(allowed))
                } else {
                    match unit_length(u@, n) {
                        Some(l) => Ok((LengthPercentage::Length(l), pos + 1)),
                        None => Err(BevyCssParsingErrorKind::UnexpectedDimension(u)),
                    }
                },
            },
            Tok::Percentage => if with_percentage {
                match token_number(t) {
                    Err(k) => Err(k),
                    Ok(n) => if !allowed.allows(n) {
                        Err(BevyCssParsingErrorKind::OutOfRange(allowed))
                    } else {
                        Ok((LengthPercentage::Percentage(Percentage { percent: n, clamping: None }), pos + 1))
                    },
                }
            } else {
                Err(BevyCssParsingErrorKind::UnexpectedToken(t.tok))
            },
            Tok::Number => match token_number(t) {
                Err(k) => Err(k),
                Ok(n) => if !allowed.allows(n) {
                    Err(BevyCssParsingErrorKind::OutOfRange(allowed))
                } else if n.mantissa == 0 {
                    Ok((LengthPercentage::Length(zero_length()), pos + 1))
                } else {
                    Err(BevyCssParsingErrorKind::MissingDimension)
                },
            },
            Tok::Function(name) => Err(BevyCssParsingErrorKind::FunctionNotSupported(name)),
            _ => Err(BevyCssParsingErrorKind::UnexpectedToken(t.tok)),
        }
    } else {
        Err(BevyCssParsingErrorKind::EndOfInput)
    }
}

/// Reads a length (or a percentage, when `with_percentage`) at `pos`.
pub fn parse_length(toks: &Vec<ValueToken>, pos: usize, allowed: AllowedValues, with_percentage: bool)
    -> (r: Result<(LengthPercentage, usize), Kind>)
    ensures
        spec_result(r) == length_spec(toks@, pos as int, allowed, with_percentage),
        r is Ok ==> r->Ok_0.0.wf() && r->Ok_0.1 == pos + 1,
        r is Ok && !with_percentage ==> r->Ok_0.0 is Length,
{
    if pos >= toks.len() {
        return Err(BevyCssParsingErrorKind::EndOfInput);
    }
    let t = &toks[pos];
    match &t.tok {
        Tok::Dimension(u) => {
            let n = number_of(t)?;
            if !allowed.is_ok(&n) {
                return Err(BevyCssParsingErrorKind::OutOfRange(allowed));
            }
            let l = NoCalcLength::parse_dimension(u, n)?;
            Ok((LengthPercentage::Length(l), pos + 1))
        },
        Tok::Percentage => {
            if !with_percentage {
                return Err(BevyCssParsingErrorKind::UnexpectedToken(t.tok.clone_tok()));
            }
            let n = number_of(t)?;
            if !allowed.is_ok(&n) {
                return Err(BevyCssParsingErrorKind::OutOfRange(allowed));
            }
            Ok((LengthPercentage::Percentage(Percentage::new(n)), pos + 1))
        },
        Tok::Number => {
            let n = number_of(t)?;
            if !allowed.is_ok(&n) {
                Err(BevyCssParsingErrorKind::OutOfRange(allowed))
            } else if n.mantissa == 0 {
                Ok((LengthPercentage::Length(NoCalcLength::Absolute(AbsoluteLength::Px(Number::zero()))), pos + 1))
            } else {
                Err(BevyCssParsingErrorKind::MissingDimension)
            }
        },
        Tok::Function(name) => Err(BevyCssParsingErrorKind::FunctionNotSupported(name.clone())),
        _ => Err(BevyCssParsingErrorKind::UnexpectedToken(t.tok.clone_tok())),
    }
}

impl Number {
    /// A number where `allowed` says which are accepted.
    pub fn parse_internal(toks: &Vec<ValueToken>, pos: usize, allowed: AllowedValues) -> (r: Result<(Number, usize), Kind>)
        ensures
            spec_result(r) == number_spec(toks@, pos as int, allowed),
            r is Ok ==> r->Ok_0.0.wf() && r->Ok_0.1 == pos + 1,
    {
        parse_number(toks, pos, allowed)
    }
}

impl LengthPercentage {
    /// A length or a percentage where `allowed` says which numbers are accepted.
    pub fn parse_internal(toks: &Vec<ValueToken>, pos: usize, allowed: AllowedValues) -> (r: Result<(LengthPercentage, usize), Kind>)
        ensures
            spec_result(r) == length_spec(toks@, pos as int, allowed, true),
            r is Ok ==> r->Ok_0.0.wf() && r->Ok_0.1 == pos + 1,
    {
        parse_length(toks, pos, allowed, true)
    }
}

impl Length {
    /// A length where `allowed` says which numbers are accepted.
    pub fn parse_internal(toks: &Vec<ValueToken>, pos: usize, allowed: AllowedValues) -> (r: Result<(Length, usize), Kind>)
        ensures
            match length_spec(toks@, pos as int, allowed, false) {
                Ok((LengthPercentage::Length(l), e)) => r == Ok::<(Length, usize), Kind>((Length::NoCalc(l), e as usize)),
                Ok(_) => false,
                Err(k) => r == Err::<(Length, usize), Kind>(k),
            },
    {
        match parse_length(toks, pos, allowed, false)? {
            (LengthPercentage::Length(l), e) => Ok((Length::NoCalc(l), e)),
            (LengthPercentage::Percentage(_), _) => Err(BevyCssParsingErrorKind::EndOfInput),
        }
    }
}

impl<T: Parse + Copy> MaybeAuto<T> {
    /// `auto`, or a value of `T`.
    pub fn parse_maybe_auto(toks: &Vec<ValueToken>, pos: usize) -> (r: Result<(MaybeAuto<T>, usize), Kind>)
        requires
            pos <= toks@.len(),
        ensures
            spec_result(r) == <MaybeAuto<T> as Parse>::parse_spec(toks@, pos as int),
    {
        <MaybeAuto<T> as Parse>::parse(toks, pos)
    }
}

impl<T: Parse + Copy> SidedValue<T> {
    /// One to four values of `T`, spread over the sides.
    pub fn parse_internal(toks: &Vec<ValueToken>, pos: usize) -> (r: Result<(SidedValue<T>, usize), Kind>)
        requires
            pos <= toks@.len(),
        ensures
            spec_result(r) == <SidedValue<T> as Parse>::parse_spec(toks@, pos as int),
    {
        <SidedValue<T> as Parse>::parse(toks, pos)
    }
}

impl Parse for Number {
    open spec fn parse_spec(toks: Seq<ValueToken>, pos: int) -> Result<(Self, int), Kind> {
        number_spec(toks, pos, AllowedValues::All)
    }

    open spec fn valid(&self) -> bool {
        self.wf()
    }

    fn parse(toks: &Vec<ValueToken>, pos: usize) -> (r: Result<(Self, usize), Kind>) {
        parse_number(toks, pos, AllowedValues::All)
    }
}

impl Parse for NonNegative<Number> {
    open spec fn parse_spec(toks: Seq<ValueToken>, pos: int) -> Result<(Self, int), Kind> {
        match number_spec(toks, pos, AllowedValues::NonNegative) {
            Ok((n, e)) => Ok((NonNegative(n), e)),
            Err(k) => Err(k),
        }
    }

    open spec fn valid(&self) -> bool {
        self.0.wf() && self.0.mantissa >= 0
    }

    fn parse(toks: &Vec<ValueToken>, pos: usize) -> (r: Result<(Self, usize), Kind>) {
        let (n, e) = parse_number(toks, pos, AllowedValues::NonNegative)?;
        Ok((NonNegative(n), e))
    }
}

impl Parse for LengthPercentage {
    open spec fn parse_spec(toks: Seq<ValueToken>, pos: int) -> Result<(Self, int), Kind> {
        length_spec(toks, pos, AllowedValues::All, true)
    }

    open spec fn valid(&self) -> bool {
        self.wf()
    }

    fn parse(toks: &Vec<ValueToken>, pos: usize) -> (r: Result<(Self, usize), Kind>) {
        parse_length(toks, pos, AllowedValues::All, true)
    }
}

impl Parse for NonNegative<LengthPercentage> {
    open spec fn parse_spec(toks: Seq<ValueToken>, pos: int) -> Result<(Self, int), Kind> {
        match length_spec(toks, pos, AllowedValues::NonNegative, true) {
            Ok((l, e)) => Ok((NonNegative(l), e)),
            Err(k) => Err(k),
        }
    }

    open spec fn valid(&self) -> bool {
        self.0.wf()
    }

    fn parse(toks: &Vec<ValueToken>, pos: usize) -> (r: Result<(Self, usize), Kind>) {
        let (l, e) = parse_length(toks, pos, AllowedValues::NonNegative, true)?;
        Ok((NonNegative(l), e))
    }
}

impl Parse for Length {
    open spec fn parse_spec(toks: Seq<ValueToken>, pos: int) -> Result<(Self, int), Kind> {
        match length_spec(toks, pos, AllowedValues::All, false) {
            Ok((LengthPercentage::Length(l), e)) => Ok((Length::NoCalc(l), e)),
            Ok((LengthPercentage::Percentage(_), _)) => Err(BevyCssParsingErrorKind::EndOfInput),
            Err(k) => Err(k),
        }
    }

    open spec fn valid(&self) -> bool {
        match *self {
            Length::NoCalc(l) => l.wf(),
        }
    }

    fn parse(toks: &Vec<ValueToken>, pos: usize) -> (r: Result<(Self, usize), Kind>) {
        match parse_length(toks, pos, AllowedValues::All, false)? {
            (LengthPercentage::Length(l), e) => Ok((Length::NoCalc(l), e)),
            (LengthPercentage::Percentage(_), _) => Err(BevyCssParsingErrorKind::EndOfInput),
        }
    }
}

impl Parse for NonNegative<Length> {
    open spec fn parse_spec(toks: Seq<ValueToken>, pos: int) -> Result<(Self, int), Kind> {
        match length_spec(toks, pos, AllowedValues::NonNegative, false) {
            Ok((LengthPercentage::Length(l), e)) => Ok((NonNegative(Length::NoCalc(l)), e)),
            Ok((LengthPercentage::Percentage(_), _)) => Err(BevyCssParsingErrorKind::EndOfInput),
            Err(k) => Err(k),
        }
    }

    open spec fn valid(&self) -> bool {
        match self.0 {
            Length::NoCalc(l) => l.wf(),
        }
    }

    fn parse(toks: &Vec<ValueToken>, pos: usize) -> (r: Result<(Self, usize), Kind>) {
        match parse_length(toks, pos, AllowedValues::NonNegative, false)? {
            (LengthPercentage::Length(l), e) => Ok((NonNegative(Length::NoCalc(l)), e)),
            (LengthPercentage::Percentage(_), _) => Err(BevyCssParsingErrorKind::EndOfInput),
        }
    }
}

/// A percentage alone.
pub open spec fn percentage_spec(toks: Seq<ValueToken>, pos: int, allowed: AllowedValues) -> Result<(Percentage, int), Kind> {
    if 0 <= pos < toks.len() && toks[pos].tok is Percentage {
        match token_number(toks[pos]) {
            Err(k) => Err(k),
            Ok(n) => if allowed.allows(n) {
                Ok((Percentage { percent: n, clamping: None }, pos + 1))
            } else {
                Err(BevyCssParsingErrorKind::OutOfRange(allowed))
            },
        }
    } else if 0 <= pos < toks.len() && toks[pos].tok is Function {
        Err(BevyCssParsingErrorKind::FunctionNotSupported(toks[pos].tok->Function_0))
    } else {
        Err(unexpected(toks, pos))
    }
}

impl Parse for Percentage {
    open spec fn parse_spec(toks: Seq<ValueToken>, pos: int) -> Result<(Self, int), Kind> {
        percentage_spec(toks, pos, AllowedValues::All)
    }

    open spec fn valid(&self) -> bool {
        self.percent.wf()
    }

    fn parse(toks: &Vec<ValueToken>, pos: usize) -> (r: Result<(Self, usize), Kind>) {
        if pos < toks.len() {
            match &toks[pos].tok {
                Tok::Percentage => {
                    let n = number_of(&toks[pos])?;
                    return Ok((Percentage::new(n), pos + 1));
                },
                Tok::Function(name) => {
                    return Err(BevyCssParsingErrorKind::FunctionNotSupported(name.clone()));
                },
                _ => {},
            }
        }
        Err(unexpected_at(toks, pos))
    }
}

/// The token at `pos` is the identifier `word`, in any case.
pub open spec fn is_ident(toks: Seq<ValueToken>, pos: int, word: Seq<char>) -> bool {
    0 <= pos < toks.len() && toks[pos].tok is Ident && same_ci(toks[pos].tok->Ident_0@, word)
}

pub fn ident_at(toks: &Vec<ValueToken>, pos: usize, word: &str) -> (r: bool)
    ensures
        r == is_ident(toks@, pos as int, word@),
{
    if pos < toks.len() {
        match &toks[pos].tok {
            Tok::Ident(s) => eq_ignore_ascii_case(s.as_str(), word),
            _ => false,
        }
    } else {
        false
    }
}

impl<T: Parse + Copy> Parse for MaybeAuto<T> {
    open spec fn parse_spec(toks: Seq<ValueToken>, pos: int) -> Result<(Self, int), Kind> {
        if is_ident(toks, pos, "auto"@) {
            Ok((MaybeAuto::Auto, pos + 1))
        } else {
            match T::parse_spec(toks, pos) {
                Ok((v, e)) => Ok((MaybeAuto::NotAuto(v), e)),
                Err(k) => Err(k),
            }
        }
    }

    open spec fn valid(&self) -> bool {
        match *self {
            MaybeAuto::Auto => true,
            MaybeAuto::NotAuto(v) => v.valid(),
        }
    }

    fn parse(toks: &Vec<ValueToken>, pos: usize) -> (r: Result<(Self, usize), Kind>) {
        if ident_at(toks, pos, "auto") {
            assert(pos < toks.len());
            Ok((MaybeAuto::Auto, pos + 1))
        } else {
            let (v, e) = T::parse(toks, pos)?;
            Ok((MaybeAuto::NotAuto(v), e))
        }
    }
}

impl<P: Parse> Parse for Option<P> {
    /// `none`, or a value.
    open spec fn parse_spec(toks: Seq<ValueToken>, pos: int) -> Result<(Self, int), Kind> {
        if is_ident(toks, pos, "none"@) {
            Ok((None, pos + 1))
        } else {
            match P::parse_spec(toks, pos) {
                Ok((v, e)) => Ok((Some(v), e)),
                Err(k) => Err(k),
            }
        }
    }

    open spec fn valid(&self) -> bool {
        match *self {
            None => true,
            Some(v) => v.valid(),
        }
    }

    fn parse(toks: &Vec<ValueToken>, pos: usize) -> (r: Result<(Self, usize), Kind>) {
        if ident_at(toks, pos, "none") {
            assert(pos < toks.len());
            Ok((None, pos + 1))
        } else {
            let (v, e) = P::parse(toks, pos)?;
            Ok((Some(v), e))
        }
    }
}

impl<T: Parse + Copy> Parse for SidedValue<T> {
    /// One to four values, read while they parse, spread over the sides.
    open spec fn parse_spec(toks: Seq<ValueToken>, pos: int) -> Result<(Self, int), Kind> {
        match T::parse_spec(toks, pos) {
            Err(k) => Err(k),
            Ok((a, e1)) => match T::parse_spec(toks, e1) {
                Err(_) => Ok((expand_sides(seq![a]), e1)),
                Ok((b, e2)) => match T::parse_spec(toks, e2) {
                    Err(_) => Ok((expand_sides(seq![a, b]), e2)),
                    Ok((c, e3)) => match T::parse_spec(toks, e3) {
                        Err(_) => Ok((expand_sides(seq![a, b, c]), e3)),
                        Ok((d, e4)) => Ok((expand_sides(seq![a, b, c, d]), e4)),
                    },
                },
            },
        }
    }

    open spec fn valid(&self) -> bool {
        self.top.valid() && self.right.valid() && self.bottom.valid() && self.left.valid()
    }

    fn parse(toks: &Vec<ValueToken>, pos: usize) -> (r: Result<(Self, usize), Kind>) {
        let (a, e1) = T::parse(toks, pos)?;
        let (b, e2) = match T::parse(toks, e1) {
            Ok(x) => x,
            Err(_) => return Ok((SidedValue::new_1(a), e1)),
        };
        let (c, e3) = match T::parse(toks, e2) {
            Ok(x) => x,
            Err(_) => return Ok((SidedValue::new_2(a, b), e2)),
        };
        match T::parse(toks, e3) {
            Ok((d, e4)) => Ok((SidedValue::new_4(a, b, c, d), e4)),
            Err(_) => Ok((SidedValue::new_3(a, b, c), e3)),
        }
    }
}

} // verus!
