//! The keyword values of the layout properties.

use vstd::prelude::*;
use crate::errors::BevyCssParsingErrorKind;
use crate::parse::{unexpected, unexpected_at, Kind, Parse};
use crate::text::{eq_ignore_ascii_case, same_ci};
use crate::tokens::{ValueToken, Tok};

verus! {

/// How a node is laid out.
#[derive(Clone, Copy, Debug, PartialEq, Eq, Structural)]
pub enum Display {
    Flex,
    /// `none`: the node is not shown.
    NotDisplayed,
}

impl Display {
    /// The value that keyword `s` names, in any case.
    pub open spec fn from_keyword(s: Seq<char>) -> Option<Display> {
        if same_ci(s, "flex"@) {
            Option::Some(Display::Flex)
        } else if same_ci(s, "none"@) {
            Option::Some(Display::NotDisplayed)
        } else {
            Option::None
        }
    }

    pub fn keyword(s: &String) -> (r: Option<Display>)
        ensures
            r == Display::from_keyword(s@),
    {
        if eq_ignore_ascii_case(s.as_str(), "flex") {
            Option::Some(Display::Flex)
        } else if eq_ignore_ascii_case(s.as_str(), "none") {
            Option::Some(Display::NotDisplayed)
        } else {
            Option::None
        }
    }
}

impl Parse for Display {
    open spec fn parse_spec(toks: Seq<ValueToken>, pos: int) -> Result<(Self, int), Kind> {
        if 0 <= pos < toks.len() && toks[pos].tok is Ident {
            match Display::from_keyword(toks[pos].tok->Ident_0@) {
                Option::Some(v) => Ok((v, pos + 1)),
                Option::None => Err(BevyCssParsingErrorKind::InvalidValue(toks[pos].tok->Ident_0)),
            }
        } else {
            Err(unexpected(toks, pos))
        }
    }

    open spec fn valid(&self) -> bool {
        true
    }

    fn parse(toks: &Vec<ValueToken>, pos: usize) -> (r: Result<(Self, usize), Kind>) {
        if pos < toks.len() {
            if let Tok::Ident(s) = &toks[pos].tok {
                return match Display::keyword(s) {
                    Option::Some(v) => Ok((v, pos + 1)),
                    Option::None => Err(BevyCssParsingErrorKind::InvalidValue(s.clone())),
                };
            }
        }
        Err(unexpected_at(toks, pos))
    }
}

/// The direction of text and items.
#[derive(Clone, Copy, Debug, PartialEq, Eq, Structural)]
pub enum Direction {
    Inherit,
    LeftToRight,
    RightToLeft,
}

impl Direction {
    /// The value that keyword `s` names, in any case.
    pub open spec fn from_keyword(s: Seq<char>) -> Option<Direction> {
        if same_ci(s, "inherit"@) {
            Option::Some(Direction::Inherit)
        } else if same_ci(s, "ltr"@) {
            Option::Some(Direction::LeftToRight)
        } else if same_ci(s, "rtl"@) {
            Option::Some(Direction::RightToLeft)
        } else {
            Option::None
        }
    }

    pub fn keyword(s: &String) -> (r: Option<Direction>)
        ensures
            r == Direction::from_keyword(s@),
    {
        if eq_ignore_ascii_case(s.as_str(), "inherit") {
            Option::Some(Direction::Inherit)
        } else if eq_ignore_ascii_case(s.as_str(), "ltr") {
            Option::Some(Direction::LeftToRight)
        } else if eq_ignore_ascii_case(s.as_str(), "rtl") {
            Option::Some(Direction::RightToLeft)
        } else {
            Option::None
        }
    }
}

impl Parse for Direction {
    open spec fn parse_spec(toks: Seq<ValueToken>, pos: int) -> Result<(Self, int), Kind> {
        if 0 <= pos < toks.len() && toks[pos].tok is Ident {
            match Direction::from_keyword(toks[pos].tok->Ident_0@) {
                Option::Some(v) => Ok((v, pos + 1)),
                Option::None => Err(BevyCssParsingErrorKind::InvalidValue(toks[pos].tok->Ident_0)),
            }
        } else {
            Err(unexpected(toks, pos))
        }
    }

    open spec fn valid(&self) -> bool {
        true
    }

    fn parse(toks: &Vec<ValueToken>, pos: usize) -> (r: Result<(Self, usize), Kind>) {
        if pos < toks.len() {
            if let Tok::Ident(s) = &toks[pos].tok {
                return match Direction::keyword(s) {
                    Option::Some(v) => Ok((v, pos + 1)),
                    Option::None => Err(BevyCssParsingErrorKind::InvalidValue(s.clone())),
                };
            }
        }
        Err(unexpected_at(toks, pos))
    }
}

/// Whether a node is placed in the flow or by its offsets.
#[derive(Clone, Copy, Debug, PartialEq, Eq, Structural)]
pub enum PositionType {
    Relative,
    Absolute,
}

impl PositionType {
    /// The value that keyword `s` names, in any case.
    pub open spec fn from_keyword(s: Seq<char>) -> Option<PositionType> {
        if same_ci(s, "relative"@) {
            Option::Some(PositionType::Relative)
        } else if same_ci(s, "absolute"@) {
            Option::Some(PositionType::Absolute)
        } else {
            Option::None
        }
    }

    pub fn keyword(s: &String) -> (r: Option<PositionType>)
        ensures
            r == PositionType::from_keyword(s@),
    {
        if eq_ignore_ascii_case(s.as_str(), "relative") {
            Option::Some(PositionType::Relative)
        } else if eq_ignore_ascii_case(s.as_str(), "absolute") {
            Option::Some(PositionType::Absolute)
        } else {
            Option::None
        }
    }
}

impl Parse for PositionType {
    open spec fn parse_spec(toks: Seq<ValueToken>, pos: int) -> Result<(Self, int), Kind> {
        if 0 <= pos < toks.len() && toks[pos].tok is Ident {
            match PositionType::from_keyword(toks[pos].tok->Ident_0@) {
                Option::Some(v) => Ok((v, pos + 1)),
                Option::None => Err(BevyCssParsingErrorKind::InvalidValue(toks[pos].tok->Ident_0)),
            }
        } else {
            Err(unexpected(toks, pos))
        }
    }

    open spec fn valid(&self) -> bool {
        true
    }

    fn parse(toks: &Vec<ValueToken>, pos: usize) -> (r: Result<(Self, usize), Kind>) {
        if pos < toks.len() {
            if let Tok::Ident(s) = &toks[pos].tok {
                return match PositionType::keyword(s) {
                    Option::Some(v) => Ok((v, pos + 1)),
                    Option::None => Err(BevyCssParsingErrorKind::InvalidValue(s.clone())),
                };
            }
        }
        Err(unexpected_at(toks, pos))
    }
}

/// The main axis of a flex container.
#[derive(Clone, Copy, Debug, PartialEq, Eq, Structural)]
pub enum FlexDirection {
    Row,
    Column,
    RowReverse,
    ColumnReverse,
}

impl FlexDirection {
    /// The value that keyword `s` names, in any case.
    pub open spec fn from_keyword(s: Seq<char>) -> Option<FlexDirection> {
        if same_ci(s, "row"@) {
            Option::Some(FlexDirection::Row)
        } else if same_ci(s, "column"@) {
            Option::Some(FlexDirection::Column)
        } else if same_ci(s, "row-reverse"@) {
            Option::Some(FlexDirection::RowReverse)
        } else if same_ci(s, "column-reverse"@) {
            Option::Some(FlexDirection::ColumnReverse)
        } else {
            Option::None
        }
    }

    pub fn keyword(s: &String) -> (r: Option<FlexDirection>)
        ensures
            r == FlexDirection::from_keyword(s@),
    {
        if eq_ignore_ascii_case(s.as_str(), "row") {
            Option::Some(FlexDirection::Row)
        } else if eq_ignore_ascii_case(s.as_str(), "column") {
            Option::Some(FlexDirection::Column)
        } else if eq_ignore_ascii_case(s.as_str(), "row-reverse") {
            Option::Some(FlexDirection::RowReverse)
        } else if eq_ignore_ascii_case(s.as_str(), "column-reverse") {
            Option::Some(FlexDirection::ColumnReverse)
        } else {
            Option::None
        }
    }
}

impl Parse for FlexDirection {
    open spec fn parse_spec(toks: Seq<ValueToken>, pos: int) -> Result<(Self, int), Kind> {
        if 0 <= pos < toks.len() && toks[pos].tok is Ident {
            match FlexDirection::from_keyword(toks[pos].tok->Ident_0@) {
                Option::Some(v) => Ok((v, pos + 1)),
                Option::None => Err(BevyCssParsingErrorKind::InvalidValue(toks[pos].tok->Ident_0)),
            }
        } else {
            Err(unexpected(toks, pos))
        }
    }

    open spec fn valid(&self) -> bool {
        true
    }

    fn parse(toks: &Vec<ValueToken>, pos: usize) -> (r: Result<(Self, usize), Kind>) {
        if pos < toks.len() {
            if let Tok::Ident(s) = &toks[pos].tok {
                return match FlexDirection::keyword(s) {
                    Option::Some(v) => Ok((v, pos + 1)),
                    Option::None => Err(BevyCssParsingErrorKind::InvalidValue(s.clone())),
                };
            }
        }
        Err(unexpected_at(toks, pos))
    }
}

/// Whether flex items wrap onto more lines.
#[derive(Clone, Copy, Debug, PartialEq, Eq, Structural)]
pub enum FlexWrap {
    NoWrap,
    Wrap,
    WrapReverse,
}

impl FlexWrap {
    /// The value that keyword `s` names, in any case.
    pub open spec fn from_keyword(s: Seq<char>) -> Option<FlexWrap> {
        if same_ci(s, "nowrap"@) {
            Option::Some(FlexWrap::NoWrap)
        } else if same_ci(s, "wrap"@) {
            Option::Some(FlexWrap::Wrap)
        } else if same_ci(s, "wrap-reverse"@) {
            Option::Some(FlexWrap::WrapReverse)
        } else {
            Option::None
        }
    }

    pub fn keyword(s: &String) -> (r: Option<FlexWrap>)
        ensures
            r == FlexWrap::from_keyword(s@),
    {
        if eq_ignore_ascii_case(s.as_str(), "nowrap") {
            Option::Some(FlexWrap::NoWrap)
        } else if eq_ignore_ascii_case(s.as_str(), "wrap") {
            Option::Some(FlexWrap::Wrap)
        } else if eq_ignore_ascii_case(s.as_str(), "wrap-reverse") {
            Option::Some(FlexWrap::WrapReverse)
        } else {
            Option::None
        }
    }
}

impl Parse for FlexWrap {
    open spec fn parse_spec(toks: Seq<ValueToken>, pos: int) -> Result<(Self, int), Kind> {
        if 0 <= pos < toks.len() && toks[pos].tok is Ident {
            match FlexWrap::from_keyword(toks[pos].tok->Ident_0@) {
                Option::Some(v) => Ok((v, pos + 1)),
                Option::None => Err(BevyCssParsingErrorKind::InvalidValue(toks[pos].tok->Ident_0)),
            }
        } else {
            Err(unexpected(toks, pos))
        }
    }

    open spec fn valid(&self) -> bool {
        true
    }

    fn parse(toks: &Vec<ValueToken>, pos: usize) -> (r: Result<(Self, usize), Kind>) {
        if pos < toks.len() {
            if let Tok::Ident(s) = &toks[pos].tok {
                return match FlexWrap::keyword(s) {
                    Option::Some(v) => Ok((v, pos + 1)),
                    Option::None => Err(BevyCssParsingErrorKind::InvalidValue(s.clone())),
                };
            }
        }
        Err(unexpected_at(toks, pos))
    }
}

/// How items are aligned on the cross axis.
#[derive(Clone, Copy, Debug, PartialEq, Eq, Structural)]
pub enum AlignItems {
    FlexStart,
    FlexEnd,
    Center,
    Baseline,
    Stretch,
}

impl AlignItems {
    /// The value that keyword `s` names, in any case.
    pub open spec fn from_keyword(s: Seq<char>) -> Option<AlignItems> {
        if same_ci(s, "flex-start"@) {
            Option::Some(AlignItems::FlexStart)
        } else if same_ci(s, "flex-end"@) {
            Option::Some(AlignItems::FlexEnd)
        } else if same_ci(s, "center"@) {
            Option::Some(AlignItems::Center)
        } else if same_ci(s, "baseline"@) {
            Option::Some(AlignItems::Baseline)
        } else if same_ci(s, "stretch"@) {
            Option::Some(AlignItems::Stretch)
        } else {
            Option::None
        }
    }

    pub fn keyword(s: &String) -> (r: Option<AlignItems>)
        ensures
            r == AlignItems::from_keyword(s@),
    {
        if eq_ignore_ascii_case(s.as_str(), "flex-start") {
            Option::Some(AlignItems::FlexStart)
        } else if eq_ignore_ascii_case(s.as_str(), "flex-end") {
            Option::Some(AlignItems::FlexEnd)
        } else if eq_ignore_ascii_case(s.as_str(), "center") {
            Option::Some(AlignItems::Center)
        } else if eq_ignore_ascii_case(s.as_str(), "baseline") {
            Option::Some(AlignItems::Baseline)
        } else if eq_ignore_ascii_case(s.as_str(), "stretch") {
            Option::Some(AlignItems::Stretch)
        } else {
            Option::None
        }
    }
}

impl Parse for AlignItems {
    open spec fn parse_spec(toks: Seq<ValueToken>, pos: int) -> Result<(Self, int), Kind> {
        if 0 <= pos < toks.len() && toks[pos].tok is Ident {
            match AlignItems::from_keyword(toks[pos].tok->Ident_0@) {
                Option::Some(v) => Ok((v, pos + 1)),
                Option::None => Err(BevyCssParsingErrorKind::InvalidValue(toks[pos].tok->Ident_0)),
            }
        } else {
            Err(unexpected(toks, pos))
        }
    }

    open spec fn valid(&self) -> bool {
        true
    }

    fn parse(toks: &Vec<ValueToken>, pos: usize) -> (r: Result<(Self, usize), Kind>) {
        if pos < toks.len() {
            if let Tok::Ident(s) = &toks[pos].tok {
                return match AlignItems::keyword(s) {
                    Option::Some(v) => Ok((v, pos + 1)),
                    Option::None => Err(BevyCssParsingErrorKind::InvalidValue(s.clone())),
                };
            }
        }
        Err(unexpected_at(toks, pos))
    }
}

/// How one item is aligned on the cross axis.
#[derive(Clone, Copy, Debug, PartialEq, Eq, Structural)]
pub enum AlignSelf {
    Auto,
    FlexStart,
    FlexEnd,
    Center,
    Baseline,
    Stretch,
}

impl AlignSelf {
    /// The value that keyword `s` names, in any case.
    pub open spec fn from_keyword(s: Seq<char>) -> Option<AlignSelf> {
        if same_ci(s, "auto"@) {
            Option::Some(AlignSelf::Auto)
        } else if same_ci(s, "flex-start"@) {
            Option::Some(AlignSelf::FlexStart)
        } else if same_ci(s, "flex-end"@) {
            Option::Some(AlignSelf::FlexEnd)
        } else if same_ci(s, "center"@) {
            Option::Some(AlignSelf::Center)
        } else if same_ci(s, "baseline"@) {
            Option::Some(AlignSelf::Baseline)
        } else if same_ci(s, "stretch"@) {
            Option::Some(AlignSelf::Stretch)
        } else {
            Option::None
        }
    }

    pub fn keyword(s: &String) -> (r: Option<AlignSelf>)
        ensures
            r == AlignSelf::from_keyword(s@),
    {
        if eq_ignore_ascii_case(s.as_str(), "auto") {
            Option::Some(AlignSelf::Auto)
        } else if eq_ignore_ascii_case(s.as_str(), "flex-start") {
            Option::Some(AlignSelf::FlexStart)
        } else if eq_ignore_ascii_case(s.as_str(), "flex-end") {
            Option::Some(AlignSelf::FlexEnd)
        } else if eq_ignore_ascii_case(s.as_str(), "center") {
            Option::Some(AlignSelf::Center)
        } else if eq_ignore_ascii_case(s.as_str(), "baseline") {
            Option::Some(AlignSelf::Baseline)
        } else if eq_ignore_ascii_case(s.as_str(), "stretch") {
            Option::Some(AlignSelf::Stretch)
        } else {
            Option::None
        }
    }
}

impl Parse for AlignSelf {
    open spec fn parse_spec(toks: Seq<ValueToken>, pos: int) -> Result<(Self, int), Kind> {
        if 0 <= pos < toks.len() && toks[pos].tok is Ident {
            match AlignSelf::from_keyword(toks[pos].tok->Ident_0@) {
                Option::Some(v) => Ok((v, pos + 1)),
                Option::None => Err(BevyCssParsingErrorKind::InvalidValue(toks[pos].tok->Ident_0)),
            }
        } else {
            Err(unexpected(toks, pos))
        }
    }

    open spec fn valid(&self) -> bool {
        true
    }

    fn parse(toks: &Vec<ValueToken>, pos: usize) -> (r: Result<(Self, usize), Kind>) {
        if pos < toks.len() {
            if let Tok::Ident(s) = &toks[pos].tok {
                return match AlignSelf::keyword(s) {
                    Option::Some(v) => Ok((v, pos + 1)),
                    Option::None => Err(BevyCssParsingErrorKind::InvalidValue(s.clone())),
                };
            }
        }
        Err(unexpected_at(toks, pos))
    }
}

/// How lines are spread on the cross axis.
#[derive(Clone, Copy, Debug, PartialEq, Eq, Structural)]
pub enum AlignContent {
    FlexStart,
    FlexEnd,
    Center,
    Stretch,
    SpaceBetween,
    SpaceAround,
}

impl AlignContent {
    /// The value that keyword `s` names, in any case.
    pub open spec fn from_keyword(s: Seq<char>) -> Option<AlignContent> {
        if same_ci(s, "flex-start"@) {
            Option::Some(AlignContent::FlexStart)
        } else if same_ci(s, "flex-end"@) {
            Option::Some(AlignContent::FlexEnd)
        } else if same_ci(s, "center"@) {
            Option::Some(AlignContent::Center)
        } else if same_ci(s, "stretch"@) {
            Option::Some(AlignContent::Stretch)
        } else if same_ci(s, "space-between"@) {
            Option::Some(AlignContent::SpaceBetween)
        } else if same_ci(s, "space-around"@) {
            Option::Some(AlignContent::SpaceAround)
        } else {
            Option::None
        }
    }

    pub fn keyword(s: &String) -> (r: Option<AlignContent>)
        ensures
            r == AlignContent::from_keyword(s@),
    {
        if eq_ignore_ascii_case(s.as_str(), "flex-start") {
            Option::Some(AlignContent::FlexStart)
        } else if eq_ignore_ascii_case(s.as_str(), "flex-end") {
            Option::Some(AlignContent::FlexEnd)
        } else if eq_ignore_ascii_case(s.as_str(), "center") {
            Option::Some(AlignContent::Center)
        } else if eq_ignore_ascii_case(s.as_str(), "stretch") {
            Option::Some(AlignContent::Stretch)
        } else if eq_ignore_ascii_case(s.as_str(), "space-between") {
            Option::Some(AlignContent::SpaceBetween)
        } else if eq_ignore_ascii_case(s.as_str(), "space-around") {
            Option::Some(AlignContent::SpaceAround)
        } else {
            Option::None
        }
    }
}

impl Parse for AlignContent {
    open spec fn parse_spec(toks: Seq<ValueToken>, pos: int) -> Result<(Self, int), Kind> {
        if 0 <= pos < toks.len() && toks[pos].tok is Ident {
            match AlignContent::from_keyword(toks[pos].tok->Ident_0@) {
                Option::Some(v) => Ok((v, pos + 1)),
                Option::None => Err(BevyCssParsingErrorKind::InvalidValue(toks[pos].tok->Ident_0)),
            }
        } else {
            Err(unexpected(toks, pos))
        }
    }

    open spec fn valid(&self) -> bool {
        true
    }

    fn parse(toks: &Vec<ValueToken>, pos: usize) -> (r: Result<(Self, usize), Kind>) {
        if pos < toks.len() {
            if let Tok::Ident(s) = &toks[pos].tok {
                return match AlignContent::keyword(s) {
                    Option::Some(v) => Ok((v, pos + 1)),
                    Option::None => Err(BevyCssParsingErrorKind::InvalidValue(s.clone())),
                };
            }
        }
        Err(unexpected_at(toks, pos))
    }
}

/// How items are spread on the main axis.
#[derive(Clone, Copy, Debug, PartialEq, Eq, Structural)]
pub enum JustifyContent {
    FlexStart,
    FlexEnd,
    Center,
    SpaceBetween,
    SpaceAround,
    SpaceEvenly,
}

impl JustifyContent {
    /// The value that keyword `s` names, in any case.
    pub open spec fn from_keyword(s: Seq<char>) -> Option<JustifyContent> {
        if same_ci(s, "flex-start"@) {
            Option::Some(JustifyContent::FlexStart)
        } else if same_ci(s, "flex-end"@) {
            Option::Some(JustifyContent::FlexEnd)
        } else if same_ci(s, "center"@) {
            Option::Some(JustifyContent::Center)
        } else if same_ci(s, "space-between"@) {
            Option::Some(JustifyContent::SpaceBetween)
        } else if same_ci(s, "space-around"@) {
            Option::Some(JustifyContent::SpaceAround)
        } else if same_ci(s, "space-evenly"@) {
            Option::Some(JustifyContent::SpaceEvenly)
        } else {
            Option::None
        }
    }

    pub fn keyword(s: &String) -> (r: Option<JustifyContent>)
        ensures
            r == JustifyContent::from_keyword(s@),
    {
        if eq_ignore_ascii_case(s.as_str(), "flex-start") {
            Option::Some(JustifyContent::FlexStart)
        } else if eq_ignore_ascii_case(s.as_str(), "flex-end") {
            Option::Some(JustifyContent::FlexEnd)
        } else if eq_ignore_ascii_case(s.as_str(), "center") {
            Option::Some(JustifyContent::Center)
        } else if eq_ignore_ascii_case(s.as_str(), "space-between") {
            Option::Some(JustifyContent::SpaceBetween)
        } else if eq_ignore_ascii_case(s.as_str(), "space-around") {
            Option::Some(JustifyContent::SpaceAround)
        } else if eq_ignore_ascii_case(s.as_str(), "space-evenly") {
            Option::Some(JustifyContent::SpaceEvenly)
        } else {
            Option::None
        }
    }
}

impl Parse for JustifyContent {
    open spec fn parse_spec(toks: Seq<ValueToken>, pos: int) -> Result<(Self, int), Kind> {
        if 0 <= pos < toks.len() && toks[pos].tok is Ident {
            match JustifyContent::from_keyword(toks[pos].tok->Ident_0@) {
                Option::Some(v) => Ok((v, pos + 1)),
                Option::None => Err(BevyCssParsingErrorKind::InvalidValue(toks[pos].tok->Ident_0)),
            }
        } else {
            Err(unexpected(toks, pos))
        }
    }

    open spec fn valid(&self) -> bool {
        true
    }

    fn parse(toks: &Vec<ValueToken>, pos: usize) -> (r: Result<(Self, usize), Kind>) {
        if pos < toks.len() {
            if let Tok::Ident(s) = &toks[pos].tok {
                return match JustifyContent::keyword(s) {
                    Option::Some(v) => Ok((v, pos + 1)),
                    Option::None => Err(BevyCssParsingErrorKind::InvalidValue(s.clone())),
                };
            }
        }
        Err(unexpected_at(toks, pos))
    }
}

/// Whether content outside a node shows.
#[derive(Clone, Copy, Debug, PartialEq, Eq, Structural)]
pub enum Overflow {
    Visible,
    Hidden,
}

impl Overflow {
    /// The value that keyword `s` names, in any case.
    pub open spec fn from_keyword(s: Seq<char>) -> Option<Overflow> {
        if same_ci(s, "visible"@) {
            Option::Some(Overflow::Visible)
        } else if same_ci(s, "hidden"@) {
            Option::Some(Overflow::Hidden)
        } else {
            Option::None
        }
    }

    pub fn keyword(s: &String) -> (r: Option<Overflow>)
        ensures
            r == Overflow::from_keyword(s@),
    {
        if eq_ignore_ascii_case(s.as_str(), "visible") {
            Option::Some(Overflow::Visible)
        } else if eq_ignore_ascii_case(s.as_str(), "hidden") {
            Option::Some(Overflow::Hidden)
        } else {
            Option::None
        }
    }
}

impl Parse for Overflow {
    open spec fn parse_spec(toks: Seq<ValueToken>, pos: int) -> Result<(Self, int), Kind> {
        if 0 <= pos < toks.len() && toks[pos].tok is Ident {
            match Overflow::from_keyword(toks[pos].tok->Ident_0@) {
                Option::Some(v) => Ok((v, pos + 1)),
                Option::None => Err(BevyCssParsingErrorKind::InvalidValue(toks[pos].tok->Ident_0)),
            }
        } else {
            Err(unexpected(toks, pos))
        }
    }

    open spec fn valid(&self) -> bool {
        true
    }

    fn parse(toks: &Vec<ValueToken>, pos: usize) -> (r: Result<(Self, usize), Kind>) {
        if pos < toks.len() {
            if let Tok::Ident(s) = &toks[pos].tok {
                return match Overflow::keyword(s) {
                    Option::Some(v) => Ok((v, pos + 1)),
                    Option::None => Err(BevyCssParsingErrorKind::InvalidValue(s.clone())),
                };
            }
        }
        Err(unexpected_at(toks, pos))
    }
}

} // verus!
