//! The supported properties: the registry from names to properties, and the typed
//! declarations that their values parse to.

use vstd::prelude::*;
use crate::color::Color;
use crate::errors::BevyCssParsingErrorKind;
use crate::keywords::{AlignContent, AlignItems, AlignSelf, Direction, Display, FlexDirection, FlexWrap, JustifyContent, Overflow, PositionType};
use crate::length::LengthPercentageOrAuto;
use crate::parse::{ident_at, is_ident, spec_result, Kind, Parse};
use crate::ratio::{is_delim, RatioOrAuto};
use crate::text::{eq_ignore_ascii_case, same_ci};
use crate::tokens::{Tok, ValueToken};
use crate::values::{NonNegativeNumber, SidedValue};

verus! {

/// A supported property.
#[derive(Clone, Copy, Debug, PartialEq, Eq, Structural)]
pub enum PropertyId {
    Display,
    Direction,
    Width,
    Height,
    MinWidth,
    MinHeight,
    MaxWidth,
    MaxHeight,
    Overflow,
    Position,
    Top,
    Right,
    Bottom,
    Left,
    FlexDirection,
    FlexWrap,
    FlexGrow,
    FlexShrink,
    FlexBasis,
    AspectRatio,
    AlignItems,
    AlignSelf,
    AlignContent,
    JustifyContent,
    Margin,
    MarginTop,
    MarginRight,
    MarginBottom,
    MarginLeft,
    Padding,
    PaddingTop,
    PaddingRight,
    PaddingBottom,
    PaddingLeft,
    BorderWidth,
    BorderWidthTop,
    BorderWidthRight,
    BorderWidthBottom,
    BorderWidthLeft,
    Color,
}

impl PropertyId {
    /// The property a name stands for, in any case.
    pub open spec fn from_name_spec(name: Seq<char>) -> Option<PropertyId> {
        if same_ci(name, "display"@) {
            Some(PropertyId::Display)
        } else if same_ci(name, "direction"@) {
            Some(PropertyId::Direction)
        } else if same_ci(name, "width"@) {
            Some(PropertyId::Width)
        } else if same_ci(name, "height"@) {
            Some(PropertyId::Height)
        } else if same_ci(name, "min-width"@) {
            Some(PropertyId::MinWidth)
        } else if same_ci(name, "min-height"@) {
            Some(PropertyId::MinHeight)
        } else if same_ci(name, "max-width"@) {
            Some(PropertyId::MaxWidth)
        } else if same_ci(name, "max-height"@) {
            Some(PropertyId::MaxHeight)
        } else if same_ci(name, "overflow"@) {
            Some(PropertyId::Overflow)
        } else if same_ci(name, "position"@) {
            Some(PropertyId::Position)
        } else if same_ci(name, "top"@) {
            Some(PropertyId::Top)
        } else if same_ci(name, "right"@) {
            Some(PropertyId::Right)
        } else if same_ci(name, "bottom"@) {
            Some(PropertyId::Bottom)
        } else if same_ci(name, "left"@) {
            Some(PropertyId::Left)
        } else if same_ci(name, "flex-direction"@) {
            Some(PropertyId::FlexDirection)
        } else if same_ci(name, "flex-wrap"@) {
            Some(PropertyId::FlexWrap)
        } else if same_ci(name, "flex-grow"@) {
            Some(PropertyId::FlexGrow)
        } else if same_ci(name, "flex-shrink"@) {
            Some(PropertyId::FlexShrink)
        } else if same_ci(name, "flex-basis"@) {
            Some(PropertyId::FlexBasis)
        } else if same_ci(name, "aspect-ratio"@) {
            Some(PropertyId::AspectRatio)
        } else if same_ci(name, "align-items"@) {
            Some(PropertyId::AlignItems)
        } else if same_ci(name, "align-self"@) {
            Some(PropertyId::AlignSelf)
        } else if same_ci(name, "align-content"@) {
            Some(PropertyId::AlignContent)
        } else if same_ci(name, "justify-content"@) {
            Some(PropertyId::JustifyContent)
        } else if same_ci(name, "margin"@) {
            Some(PropertyId::Margin)
        } else if same_ci(name, "margin-top"@) {
            Some(PropertyId::MarginTop)
        } else if same_ci(name, "margin-right"@) {
            Some(PropertyId::MarginRight)
        } else if same_ci(name, "margin-bottom"@) {
            Some(PropertyId::MarginBottom)
        } else if same_ci(name, "margin-left"@) {
            Some(PropertyId::MarginLeft)
        } else if same_ci(name, "padding"@) {
            Some(PropertyId::Padding)
        } else if same_ci(name, "padding-top"@) {
            Some(PropertyId::PaddingTop)
        } else if same_ci(name, "padding-right"@) {
            Some(PropertyId::PaddingRight)
        } else if same_ci(name, "padding-bottom"@) {
            Some(PropertyId::PaddingBottom)
        } else if same_ci(name, "padding-left"@) {
            Some(PropertyId::PaddingLeft)
        } else if same_ci(name, "border-width"@) {
            Some(PropertyId::BorderWidth)
        } else if same_ci(name, "border-width-top"@) {
            Some(PropertyId::BorderWidthTop)
        } else if same_ci(name, "border-width-right"@) {
            Some(PropertyId::BorderWidthRight)
        } else if same_ci(name, "border-width-bottom"@) {
            Some(PropertyId::BorderWidthBottom)
        } else if same_ci(name, "border-width-left"@) {
            Some(PropertyId::BorderWidthLeft)
        } else if same_ci(name, "color"@) {
            Some(PropertyId::Color)
        } else {
            None
        }
    }

    pub fn from_name(name: &str) -> (r: Option<PropertyId>)
        ensures
            r == PropertyId::from_name_spec(name@),
    {
        if eq_ignore_ascii_case(name, "display") {
            Some(PropertyId::Display)
        } else if eq_ignore_ascii_case(name, "direction") {
            Some(PropertyId::Direction)
        } else if eq_ignore_ascii_case(name, "width") {
            Some(PropertyId::Width)
        } else if eq_ignore_ascii_case(name, "height") {
            Some(PropertyId::Height)
        } else if eq_ignore_ascii_case(name, "min-width") {
            Some(PropertyId::MinWidth)
        } else if eq_ignore_ascii_case(name, "min-height") {
            Some(PropertyId::MinHeight)
        } else if eq_ignore_ascii_case(name, "max-width") {
            Some(PropertyId::MaxWidth)
        } else if eq_ignore_ascii_case(name, "max-height") {
            Some(PropertyId::MaxHeight)
        } else if eq_ignore_ascii_case(name, "overflow") {
            Some(PropertyId::Overflow)
        } else if eq_ignore_ascii_case(name, "position") {
            Some(PropertyId::Position)
        } else if eq_ignore_ascii_case(name, "top") {
            Some(PropertyId::Top)
        } else if eq_ignore_ascii_case(name, "right") {
            Some(PropertyId::Right)
        } else if eq_ignore_ascii_case(name, "bottom") {
            Some(PropertyId::Bottom)
        } else if eq_ignore_ascii_case(name, "left") {
            Some(PropertyId::Left)
        } else if eq_ignore_ascii_case(name, "flex-direction") {
            Some(PropertyId::FlexDirection)
        } else if eq_ignore_ascii_case(name, "flex-wrap") {
            Some(PropertyId::FlexWrap)
        } else if eq_ignore_ascii_case(name, "flex-grow") {
            Some(PropertyId::FlexGrow)
        } else if eq_ignore_ascii_case(name, "flex-shrink") {
            Some(PropertyId::FlexShrink)
        } else if eq_ignore_ascii_case(name, "flex-basis") {
            Some(PropertyId::FlexBasis)
        } else if eq_ignore_ascii_case(name, "aspect-ratio") {
            Some(PropertyId::AspectRatio)
        } else if eq_ignore_ascii_case(name, "align-items") {
            Some(PropertyId::AlignItems)
        } else if eq_ignore_ascii_case(name, "align-self") {
            Some(PropertyId::AlignSelf)
        } else if eq_ignore_ascii_case(name, "align-content") {
            Some(PropertyId::AlignContent)
        } else if eq_ignore_ascii_case(name, "justify-content") {
            Some(PropertyId::JustifyContent)
        } else if eq_ignore_ascii_case(name, "margin") {
            Some(PropertyId::Margin)
        } else if eq_ignore_ascii_case(name, "margin-top") {
            Some(PropertyId::MarginTop)
        } else if eq_ignore_ascii_case(name, "margin-right") {
            Some(PropertyId::MarginRight)
        } else if eq_ignore_ascii_case(name, "margin-bottom") {
            Some(PropertyId::MarginBottom)
        } else if eq_ignore_ascii_case(name, "margin-left") {
            Some(PropertyId::MarginLeft)
        } else if eq_ignore_ascii_case(name, "padding") {
            Some(PropertyId::Padding)
        } else if eq_ignore_ascii_case(name, "padding-top") {
            Some(PropertyId::PaddingTop)
        } else if eq_ignore_ascii_case(name, "padding-right") {
            Some(PropertyId::PaddingRight)
        } else if eq_ignore_ascii_case(name, "padding-bottom") {
            Some(PropertyId::PaddingBottom)
        } else if eq_ignore_ascii_case(name, "padding-left") {
            Some(PropertyId::PaddingLeft)
        } else if eq_ignore_ascii_case(name, "border-width") {
            Some(PropertyId::BorderWidth)
        } else if eq_ignore_ascii_case(name, "border-width-top") {
            Some(PropertyId::BorderWidthTop)
        } else if eq_ignore_ascii_case(name, "border-width-right") {
            Some(PropertyId::BorderWidthRight)
        } else if eq_ignore_ascii_case(name, "border-width-bottom") {
            Some(PropertyId::BorderWidthBottom)
        } else if eq_ignore_ascii_case(name, "border-width-left") {
            Some(PropertyId::BorderWidthLeft)
        } else if eq_ignore_ascii_case(name, "color") {
            Some(PropertyId::Color)
        } else {
            None
        }
    }
}

/// One parsed declaration, a property with its value.
#[derive(Clone, Copy, Debug, PartialEq, Eq, Structural)]
pub enum BevyPropertyDeclaration {
    Display(Display),
    Direction(Direction),
    Width(LengthPercentageOrAuto),
    Height(LengthPercentageOrAuto),
    MinWidth(LengthPercentageOrAuto),
    MinHeight(LengthPercentageOrAuto),
    MaxWidth(LengthPercentageOrAuto),
    MaxHeight(LengthPercentageOrAuto),
    Overflow(Overflow),
    Position(PositionType),
    Top(LengthPercentageOrAuto),
    Right(LengthPercentageOrAuto),
    Bottom(LengthPercentageOrAuto),
    Left(LengthPercentageOrAuto),
    FlexDirection(FlexDirection),
    FlexWrap(FlexWrap),
    FlexGrow(NonNegativeNumber),
    FlexShrink(NonNegativeNumber),
    FlexBasis(LengthPercentageOrAuto),
    AspectRatio(RatioOrAuto),
    AlignItems(AlignItems),
    AlignSelf(AlignSelf),
    AlignContent(AlignContent),
    JustifyContent(JustifyContent),
    Margin(SidedValue<LengthPercentageOrAuto>),
    MarginTop(LengthPercentageOrAuto),
    MarginRight(LengthPercentageOrAuto),
    MarginBottom(LengthPercentageOrAuto),
    MarginLeft(LengthPercentageOrAuto),
    Padding(SidedValue<LengthPercentageOrAuto>),
    PaddingTop(LengthPercentageOrAuto),
    PaddingRight(LengthPercentageOrAuto),
    PaddingBottom(LengthPercentageOrAuto),
    PaddingLeft(LengthPercentageOrAuto),
    BorderWidth(SidedValue<LengthPercentageOrAuto>),
    BorderWidthTop(LengthPercentageOrAuto),
    BorderWidthRight(LengthPercentageOrAuto),
    BorderWidthBottom(LengthPercentageOrAuto),
    BorderWidthLeft(LengthPercentageOrAuto),
    Color(Color),
}

impl BevyPropertyDeclaration {
    /// The numbers in the declaration are well formed.
    pub open spec fn valid(self) -> bool {
        match self {
            BevyPropertyDeclaration::Display(x) => x.valid(),
            BevyPropertyDeclaration::Direction(x) => x.valid(),
            BevyPropertyDeclaration::Width(x) => x.valid(),
            BevyPropertyDeclaration::Height(x) => x.valid(),
            BevyPropertyDeclaration::MinWidth(x) => x.valid(),
            BevyPropertyDeclaration::MinHeight(x) => x.valid(),
            BevyPropertyDeclaration::MaxWidth(x) => x.valid(),
            BevyPropertyDeclaration::MaxHeight(x) => x.valid(),
            BevyPropertyDeclaration::Overflow(x) => x.valid(),
            BevyPropertyDeclaration::Position(x) => x.valid(),
            BevyPropertyDeclaration::Top(x) => x.valid(),
            BevyPropertyDeclaration::Right(x) => x.valid(),
            BevyPropertyDeclaration::Bottom(x) => x.valid(),
            BevyPropertyDeclaration::Left(x) => x.valid(),
            BevyPropertyDeclaration::FlexDirection(x) => x.valid(),
            BevyPropertyDeclaration::FlexWrap(x) => x.valid(),
            BevyPropertyDeclaration::FlexGrow(x) => x.valid(),
            BevyPropertyDeclaration::FlexShrink(x) => x.valid(),
            BevyPropertyDeclaration::FlexBasis(x) => x.valid(),
            BevyPropertyDeclaration::AspectRatio(x) => x.valid(),
            BevyPropertyDeclaration::AlignItems(x) => x.valid(),
            BevyPropertyDeclaration::AlignSelf(x) => x.valid(),
            BevyPropertyDeclaration::AlignContent(x) => x.valid(),
            BevyPropertyDeclaration::JustifyContent(x) => x.valid(),
            BevyPropertyDeclaration::Margin(x) => x.valid(),
            BevyPropertyDeclaration::MarginTop(x) => x.valid(),
            BevyPropertyDeclaration::MarginRight(x) => x.valid(),
            BevyPropertyDeclaration::MarginBottom(x) => x.valid(),
            BevyPropertyDeclaration::MarginLeft(x) => x.valid(),
            BevyPropertyDeclaration::Padding(x) => x.valid(),
            BevyPropertyDeclaration::PaddingTop(x) => x.valid(),
            BevyPropertyDeclaration::PaddingRight(x) => x.valid(),
            BevyPropertyDeclaration::PaddingBottom(x) => x.valid(),
            BevyPropertyDeclaration::PaddingLeft(x) => x.valid(),
            BevyPropertyDeclaration::BorderWidth(x) => x.valid(),
            BevyPropertyDeclaration::BorderWidthTop(x) => x.valid(),
            BevyPropertyDeclaration::BorderWidthRight(x) => x.valid(),
            BevyPropertyDeclaration::BorderWidthBottom(x) => x.valid(),
            BevyPropertyDeclaration::BorderWidthLeft(x) => x.valid(),
            BevyPropertyDeclaration::Color(x) => x.valid(),
        }
    }

    /// The value of property `id` read from the start of `toks`, and where it ends.
    pub open spec fn value_spec(id: PropertyId, toks: Seq<ValueToken>) -> Result<(BevyPropertyDeclaration, int), Kind> {
        match id {
            PropertyId::Display => match <Display as Parse>::parse_spec(toks, 0) {
                Ok((x, e)) => Ok((BevyPropertyDeclaration::Display(x), e)),
                Err(k) => Err(k),
            },
            PropertyId::Direction => match <Direction as Parse>::parse_spec(toks, 0) {
                Ok((x, e)) => Ok((BevyPropertyDeclaration::Direction(x), e)),
                Err(k) => Err(k),
            },
            PropertyId::Width => match <LengthPercentageOrAuto as Parse>::parse_spec(toks, 0) {
                Ok((x, e)) => Ok((BevyPropertyDeclaration::Width(x), e)),
                Err(k) => Err(k),
            },
            PropertyId::Height => match <LengthPercentageOrAuto as Parse>::parse_spec(toks, 0) {
                Ok((x, e)) => Ok((BevyPropertyDeclaration::Height(x), e)),
                Err(k) => Err(k),
            },
            PropertyId::MinWidth => match <LengthPercentageOrAuto as Parse>::parse_spec(toks, 0) {
                Ok((x, e)) => Ok((BevyPropertyDeclaration::MinWidth(x), e)),
                Err(k) => Err(k),
            },
            PropertyId::MinHeight => match <LengthPercentageOrAuto as Parse>::parse_spec(toks, 0) {
                Ok((x, e)) => Ok((BevyPropertyDeclaration::MinHeight(x), e)),
                Err(k) => Err(k),
            },
            PropertyId::MaxWidth => match <LengthPercentageOrAuto as Parse>::parse_spec(toks, 0) {
                Ok((x, e)) => Ok((BevyPropertyDeclaration::MaxWidth(x), e)),
                Err(k) => Err(k),
            },
            PropertyId::MaxHeight => match <LengthPercentageOrAuto as Parse>::parse_spec(toks, 0) {
                Ok((x, e)) => Ok((BevyPropertyDeclaration::MaxHeight(x), e)),
                Err(k) => Err(k),
            },
            PropertyId::Overflow => match <Overflow as Parse>::parse_spec(toks, 0) {
                Ok((x, e)) => Ok((BevyPropertyDeclaration::Overflow(x), e)),
                Err(k) => Err(k),
            },
            PropertyId::Position => match <PositionType as Parse>::parse_spec(toks, 0) {
                Ok((x, e)) => Ok((BevyPropertyDeclaration::Position(x), e)),
                Err(k) => Err(k),
            },
            PropertyId::Top => match <LengthPercentageOrAuto as Parse>::parse_spec(toks, 0) {
                Ok((x, e)) => Ok((BevyPropertyDeclaration::Top(x), e)),
                Err(k) => Err(k),
            },
            PropertyId::Right => match <LengthPercentageOrAuto as Parse>::parse_spec(toks, 0) {
                Ok((x, e)) => Ok((BevyPropertyDeclaration::Right(x), e)),
                Err(k) => Err(k),
            },
            PropertyId::Bottom => match <LengthPercentageOrAuto as Parse>::parse_spec(toks, 0) {
                Ok((x, e)) => Ok((BevyPropertyDeclaration::Bottom(x), e)),
                Err(k) => Err(k),
            },
            PropertyId::Left => match <LengthPercentageOrAuto as Parse>::parse_spec(toks, 0) {
                Ok((x, e)) => Ok((BevyPropertyDeclaration::Left(x), e)),
                Err(k) => Err(k),
            },
            PropertyId::FlexDirection => match <FlexDirection as Parse>::parse_spec(toks, 0) {
                Ok((x, e)) => Ok((BevyPropertyDeclaration::FlexDirection(x), e)),
                Err(k) => Err(k),
            },
            PropertyId::FlexWrap => match <FlexWrap as Parse>::parse_spec(toks, 0) {
                Ok((x, e)) => Ok((BevyPropertyDeclaration::FlexWrap(x), e)),
                Err(k) => Err(k),
            },
            PropertyId::FlexGrow => match <NonNegativeNumber as Parse>::parse_spec(toks, 0) {
                Ok((x, e)) => Ok((BevyPropertyDeclaration::FlexGrow(x), e)),
                Err(k) => Err(k),
            },
            PropertyId::FlexShrink => match <NonNegativeNumber as Parse>::parse_spec(toks, 0) {
                Ok((x, e)) => Ok((BevyPropertyDeclaration::FlexShrink(x), e)),
                Err(k) => Err(k),
            },
            PropertyId::FlexBasis => match <LengthPercentageOrAuto as Parse>::parse_spec(toks, 0) {
                Ok((x, e)) => Ok((BevyPropertyDeclaration::FlexBasis(x), e)),
                Err(k) => Err(k),
            },
            PropertyId::AspectRatio => match <RatioOrAuto as Parse>::parse_spec(toks, 0) {
                Ok((x, e)) => Ok((BevyPropertyDeclaration::AspectRatio(x), e)),
                Err(k) => Err(k),
            },
            PropertyId::AlignItems => match <AlignItems as Parse>::parse_spec(toks, 0) {
                Ok((x, e)) => Ok((BevyPropertyDeclaration::AlignItems(x), e)),
                Err(k) => Err(k),
            },
            PropertyId::AlignSelf => match <AlignSelf as Parse>::parse_spec(toks, 0) {
                Ok((x, e)) => Ok((BevyPropertyDeclaration::AlignSelf(x), e)),
                Err(k) => Err(k),
            },
            PropertyId::AlignContent => match <AlignContent as Parse>::parse_spec(toks, 0) {
                Ok((x, e)) => Ok((BevyPropertyDeclaration::AlignContent(x), e)),
                Err(k) => Err(k),
            },
            PropertyId::JustifyContent => match <JustifyContent as Parse>::parse_spec(toks, 0) {
                Ok((x, e)) => Ok((BevyPropertyDeclaration::JustifyContent(x), e)),
                Err(k) => Err(k),
            },
            PropertyId::Margin => match <SidedValue<LengthPercentageOrAuto> as Parse>::parse_spec(toks, 0) {
                Ok((x, e)) => Ok((BevyPropertyDeclaration::Margin(x), e)),
                Err(k) => Err(k),
            },
            PropertyId::MarginTop => match <LengthPercentageOrAuto as Parse>::parse_spec(toks, 0) {
                Ok((x, e)) => Ok((BevyPropertyDeclaration::MarginTop(x), e)),
                Err(k) => Err(k),
            },
            PropertyId::MarginRight => match <LengthPercentageOrAuto as Parse>::parse_spec(toks, 0) {
                Ok((x, e)) => Ok((BevyPropertyDeclaration::MarginRight(x), e)),
                Err(k) => Err(k),
            },
            PropertyId::MarginBottom => match <LengthPercentageOrAuto as Parse>::parse_spec(toks, 0) {
                Ok((x, e)) => Ok((BevyPropertyDeclaration::MarginBottom(x), e)),
                Err(k) => Err(k),
            },
            PropertyId::MarginLeft => match <LengthPercentageOrAuto as Parse>::parse_spec(toks, 0) {
                Ok((x, e)) => Ok((BevyPropertyDeclaration::MarginLeft(x), e)),
                Err(k) => Err(k),
            },
            PropertyId::Padding => match <SidedValue<LengthPercentageOrAuto> as Parse>::parse_spec(toks, 0) {
                Ok((x, e)) => Ok((BevyPropertyDeclaration::Padding(x), e)),
                Err(k) => Err(k),
            },
            PropertyId::PaddingTop => match <LengthPercentageOrAuto as Parse>::parse_spec(toks, 0) {
                Ok((x, e)) => Ok((BevyPropertyDeclaration::PaddingTop(x), e)),
                Err(k) => Err(k),
            },
            PropertyId::PaddingRight => match <LengthPercentageOrAuto as Parse>::parse_spec(toks, 0) {
                Ok((x, e)) => Ok((BevyPropertyDeclaration::PaddingRight(x), e)),
                Err(k) => Err(k),
            },
            PropertyId::PaddingBottom => match <LengthPercentageOrAuto as Parse>::parse_spec(toks, 0) {
                Ok((x, e)) => Ok((BevyPropertyDeclaration::PaddingBottom(x), e)),
                Err(k) => Err(k),
            },
            PropertyId::PaddingLeft => match <LengthPercentageOrAuto as Parse>::parse_spec(toks, 0) {
                Ok((x, e)) => Ok((BevyPropertyDeclaration::PaddingLeft(x), e)),
                Err(k) => Err(k),
            },
            PropertyId::BorderWidth => match <SidedValue<LengthPercentageOrAuto> as Parse>::parse_spec(toks, 0) {
                Ok((x, e)) => Ok((BevyPropertyDeclaration::BorderWidth(x), e)),
                Err(k) => Err(k),
            },
            PropertyId::BorderWidthTop => match <LengthPercentageOrAuto as Parse>::parse_spec(toks, 0) {
                Ok((x, e)) => Ok((BevyPropertyDeclaration::BorderWidthTop(x), e)),
                Err(k) => Err(k),
            },
            PropertyId::BorderWidthRight => match <LengthPercentageOrAuto as Parse>::parse_spec(toks, 0) {
                Ok((x, e)) => Ok((BevyPropertyDeclaration::BorderWidthRight(x), e)),
                Err(k) => Err(k),
            },
            PropertyId::BorderWidthBottom => match <LengthPercentageOrAuto as Parse>::parse_spec(toks, 0) {
                Ok((x, e)) => Ok((BevyPropertyDeclaration::BorderWidthBottom(x), e)),
                Err(k) => Err(k),
            },
            PropertyId::BorderWidthLeft => match <LengthPercentageOrAuto as Parse>::parse_spec(toks, 0) {
                Ok((x, e)) => Ok((BevyPropertyDeclaration::BorderWidthLeft(x), e)),
                Err(k) => Err(k),
            },
            PropertyId::Color => match <Color as Parse>::parse_spec(toks, 0) {
                Ok((x, e)) => Ok((BevyPropertyDeclaration::Color(x), e)),
                Err(k) => Err(k),
            },
        }
    }

    #[verifier::rlimit(100)]
    #[verifier::spinoff_prover]
    pub fn parse_value(id: PropertyId, toks: &Vec<ValueToken>) -> (r: Result<(BevyPropertyDeclaration, usize), Kind>)
        ensures
            spec_result(r) == BevyPropertyDeclaration::value_spec(id, toks@),
            r is Ok ==> r->Ok_0.0.valid() && r->Ok_0.1 <= toks@.len(),
    {
        match id {
            PropertyId::Display => {
                let (x, e) = <Display as Parse>::parse(toks, 0)?;
                Ok((BevyPropertyDeclaration::Display(x), e))
            },
            PropertyId::Direction => {
                let (x, e) = <Direction as Parse>::parse(toks, 0)?;
                Ok((BevyPropertyDeclaration::Direction(x), e))
            },
            PropertyId::Width => {
                let (x, e) = <LengthPercentageOrAuto as Parse>::parse(toks, 0)?;
                Ok((BevyPropertyDeclaration::Width(x), e))
            },
            PropertyId::Height => {
                let (x, e) = <LengthPercentageOrAuto as Parse>::parse(toks, 0)?;
                Ok((BevyPropertyDeclaration::Height(x), e))
            },
            PropertyId::MinWidth => {
                let (x, e) = <LengthPercentageOrAuto as Parse>::parse(toks, 0)?;
                Ok((BevyPropertyDeclaration::MinWidth(x), e))
            },
            PropertyId::MinHeight => {
                let (x, e) = <LengthPercentageOrAuto as Parse>::parse(toks, 0)?;
                Ok((BevyPropertyDeclaration::MinHeight(x), e))
            },
            PropertyId::MaxWidth => {
                let (x, e) = <LengthPercentageOrAuto as Parse>::parse(toks, 0)?;
                Ok((BevyPropertyDeclaration::MaxWidth(x), e))
            },
            PropertyId::MaxHeight => {
                let (x, e) = <LengthPercentageOrAuto as Parse>::parse(toks, 0)?;
                Ok((BevyPropertyDeclaration::MaxHeight(x), e))
            },
            PropertyId::Overflow => {
                let (x, e) = <Overflow as Parse>::parse(toks, 0)?;
                Ok((BevyPropertyDeclaration::Overflow(x), e))
            },
            PropertyId::Position => {
                let (x, e) = <PositionType as Parse>::parse(toks, 0)?;
                Ok((BevyPropertyDeclaration::Position(x), e))
            },
            PropertyId::Top => {
                let (x, e) = <LengthPercentageOrAuto as Parse>::parse(toks, 0)?;
                Ok((BevyPropertyDeclaration::Top(x), e))
            },
            PropertyId::Right => {
                let (x, e) = <LengthPercentageOrAuto as Parse>::parse(toks, 0)?;
                Ok((BevyPropertyDeclaration::Right(x), e))
            },
            PropertyId::Bottom => {
                let (x, e) = <LengthPercentageOrAuto as Parse>::parse(toks, 0)?;
                Ok((BevyPropertyDeclaration::Bottom(x), e))
            },
            PropertyId::Left => {
                let (x, e) = <LengthPercentageOrAuto as Parse>::parse(toks, 0)?;
                Ok((BevyPropertyDeclaration::Left(x), e))
            },
            PropertyId::FlexDirection => {
                let (x, e) = <FlexDirection as Parse>::parse(toks, 0)?;
                Ok((BevyPropertyDeclaration::FlexDirection(x), e))
            },
            PropertyId::FlexWrap => {
                let (x, e) = <FlexWrap as Parse>::parse(toks, 0)?;
                Ok((BevyPropertyDeclaration::FlexWrap(x), e))
            },
            PropertyId::FlexGrow => {
                let (x, e) = <NonNegativeNumber as Parse>::parse(toks, 0)?;
                Ok((BevyPropertyDeclaration::FlexGrow(x), e))
            },
            PropertyId::FlexShrink => {
                let (x, e) = <NonNegativeNumber as Parse>::parse(toks, 0)?;
                Ok((BevyPropertyDeclaration::FlexShrink(x), e))
            },
            PropertyId::FlexBasis => {
                let (x, e) = <LengthPercentageOrAuto as Parse>::parse(toks, 0)?;
                Ok((BevyPropertyDeclaration::FlexBasis(x), e))
            },
            PropertyId::AspectRatio => {
                let (x, e) = <RatioOrAuto as Parse>::parse(toks, 0)?;
                Ok((BevyPropertyDeclaration::AspectRatio(x), e))
            },
            PropertyId::AlignItems => {
                let (x, e) = <AlignItems as Parse>::parse(toks, 0)?;
                Ok((BevyPropertyDeclaration::AlignItems(x), e))
            },
            PropertyId::AlignSelf => {
                let (x, e) = <AlignSelf as Parse>::parse(toks, 0)?;
                Ok((BevyPropertyDeclaration::AlignSelf(x), e))
            },
            PropertyId::AlignContent => {
                let (x, e) = <AlignContent as Parse>::parse(toks, 0)?;
                Ok((BevyPropertyDeclaration::AlignContent(x), e))
            },
            PropertyId::JustifyContent => {
                let (x, e) = <JustifyContent as Parse>::parse(toks, 0)?;
                Ok((BevyPropertyDeclaration::JustifyContent(x), e))
            },
            PropertyId::Margin => {
                let (x, e) = <SidedValue<LengthPercentageOrAuto> as Parse>::parse(toks, 0)?;
                Ok((BevyPropertyDeclaration::Margin(x), e))
            },
            PropertyId::MarginTop => {
                let (x, e) = <LengthPercentageOrAuto as Parse>::parse(toks, 0)?;
                Ok((BevyPropertyDeclaration::MarginTop(x), e))
            },
            PropertyId::MarginRight => {
                let (x, e) = <LengthPercentageOrAuto as Parse>::parse(toks, 0)?;
                Ok((BevyPropertyDeclaration::MarginRight(x), e))
            },
            PropertyId::MarginBottom => {
                let (x, e) = <LengthPercentageOrAuto as Parse>::parse(toks, 0)?;
                Ok((BevyPropertyDeclaration::MarginBottom(x), e))
            },
            PropertyId::MarginLeft => {
                let (x, e) = <LengthPercentageOrAuto as Parse>::parse(toks, 0)?;
                Ok((BevyPropertyDeclaration::MarginLeft(x), e))
            },
            PropertyId::Padding => {
                let (x, e) = <SidedValue<LengthPercentageOrAuto> as Parse>::parse(toks, 0)?;
                Ok((BevyPropertyDeclaration::Padding(x), e))
            },
            PropertyId::PaddingTop => {
                let (x, e) = <LengthPercentageOrAuto as Parse>::parse(toks, 0)?;
                Ok((BevyPropertyDeclaration::PaddingTop(x), e))
            },
            PropertyId::PaddingRight => {
                let (x, e) = <LengthPercentageOrAuto as Parse>::parse(toks, 0)?;
                Ok((BevyPropertyDeclaration::PaddingRight(x), e))
            },
            PropertyId::PaddingBottom => {
                let (x, e) = <LengthPercentageOrAuto as Parse>::parse(toks, 0)?;
                Ok((BevyPropertyDeclaration::PaddingBottom(x), e))
            },
            PropertyId::PaddingLeft => {
                let (x, e) = <LengthPercentageOrAuto as Parse>::parse(toks, 0)?;
                Ok((BevyPropertyDeclaration::PaddingLeft(x), e))
            },
            PropertyId::BorderWidth => {
                let (x, e) = <SidedValue<LengthPercentageOrAuto> as Parse>::parse(toks, 0)?;
                Ok((BevyPropertyDeclaration::BorderWidth(x), e))
            },
            PropertyId::BorderWidthTop => {
                let (x, e) = <LengthPercentageOrAuto as Parse>::parse(toks, 0)?;
                Ok((BevyPropertyDeclaration::BorderWidthTop(x), e))
            },
            PropertyId::BorderWidthRight => {
                let (x, e) = <LengthPercentageOrAuto as Parse>::parse(toks, 0)?;
                Ok((BevyPropertyDeclaration::BorderWidthRight(x), e))
            },
            PropertyId::BorderWidthBottom => {
                let (x, e) = <LengthPercentageOrAuto as Parse>::parse(toks, 0)?;
                Ok((BevyPropertyDeclaration::BorderWidthBottom(x), e))
            },
            PropertyId::BorderWidthLeft => {
                let (x, e) = <LengthPercentageOrAuto as Parse>::parse(toks, 0)?;
                Ok((BevyPropertyDeclaration::BorderWidthLeft(x), e))
            },
            PropertyId::Color => {
                let (x, e) = <Color as Parse>::parse(toks, 0)?;
                Ok((BevyPropertyDeclaration::Color(x), e))
            },
        }
    }

    /// A declaration of property `id` with value `toks`: the value, then `!important` at most
    /// (accepted, and of no effect), then nothing.
    pub open spec fn declaration_spec(id: PropertyId, toks: Seq<ValueToken>) -> Result<BevyPropertyDeclaration, Kind> {
        match BevyPropertyDeclaration::value_spec(id, toks) {
            Err(k) => Err(k),
            Ok((d, e)) => if e == toks.len() || (is_delim(toks, e, '!') && is_ident(toks, e + 1, "important"@)
                && e + 2 == toks.len()) {
                Ok(d)
            } else {
                Err(BevyCssParsingErrorKind::DeclarationValueNotExhausted)
            },
        }
    }

    /// Parses the value `toks` (whitespace left out) of a declaration of property `id`.
    pub fn parse_declaration(id: PropertyId, toks: &Vec<ValueToken>) -> (r: Result<BevyPropertyDeclaration, Kind>)
        ensures
            r == BevyPropertyDeclaration::declaration_spec(id, toks@),
            r is Ok ==> r->Ok_0.valid(),
    {
        let (d, e) = BevyPropertyDeclaration::parse_value(id, toks)?;
        if e == toks.len() {
            return Ok(d);
        }
        let bang = match &toks[e].tok {
            Tok::Delim(c) => *c == '!',
            _ => false,
        };
        if bang && e + 1 < toks.len() && ident_at(toks, e + 1, "important") && e + 2 == toks.len() {
            Ok(d)
        } else {
            Err(BevyCssParsingErrorKind::DeclarationValueNotExhausted)
        }
    }

    /// Parses a declaration of the property named `property_name`, with value `toks`.
    pub fn parse_input(property_name: &String, toks: &Vec<ValueToken>) -> (r: Result<BevyPropertyDeclaration, Kind>)
        ensures
            match PropertyId::from_name_spec(property_name@) {
                Some(id) => r == BevyPropertyDeclaration::declaration_spec(id, toks@),
                None => r == Err::<BevyPropertyDeclaration, Kind>(BevyCssParsingErrorKind::UnknownProperty(*property_name)),
            },
            r is Ok ==> r->Ok_0.valid(),
    {
        match PropertyId::from_name(property_name.as_str()) {
            Some(id) => BevyPropertyDeclaration::parse_declaration(id, toks),
            None => Err(BevyCssParsingErrorKind::UnknownProperty(property_name.clone())),
        }
    }
}

} // verus!
