//! Fill colours, read by `cssparser`.

use vstd::prelude::*;
use cssparser::{Color as CssColor, Parser, ParserInput};
use crate::errors::BevyCssParsingErrorKind;
use crate::parse::{is_ident, ident_at, Kind, Parse};
use crate::tokens::ValueToken;

verus! {

/// A colour as red, green, blue and alpha bytes.
#[derive(Clone, Copy, Debug, PartialEq, Eq, Structural)]
pub struct Color {
    pub red: u8,
    pub green: u8,
    pub blue: u8,
    pub alpha: u8,
}

impl Color {
    pub fn rgba_u8(red: u8, green: u8, blue: u8, alpha: u8) -> (r: Color)
        ensures
            r == (Color { red, green, blue, alpha }),
    {
        Color { red, green, blue, alpha }
    }

    /// An opaque colour.
    pub fn rgb_u8(red: u8, green: u8, blue: u8) -> (r: Color)
        ensures
            r == (Color { red, green, blue, alpha: 255 }),
    {
        Color { red, green, blue, alpha: 255 }
    }

    /// No colour at all: transparent black.
    pub fn none() -> (r: Color)
        ensures
            r == (Color { red: 0, green: 0, blue: 0, alpha: 0 }),
    {
        Color { red: 0, green: 0, blue: 0, alpha: 0 }
    }

    /// The colour that `cssparser` read, or why there is none.
    pub open spec fn from_parsed_spec(parsed: Option<(u8, u8, u8, u8)>, text: String) -> Result<Color, Kind> {
        match parsed {
            Some((red, green, blue, alpha)) => Ok(Color { red, green, blue, alpha }),
            None => Err(BevyCssParsingErrorKind::InvalidValue(text)),
        }
    }

    /// The colour that `cssparser` read from `text`, or why there is none.
    pub fn from_parsed(parsed: Option<(u8, u8, u8, u8)>, text: &String) -> (r: Result<Color, Kind>)
        ensures
            r == Color::from_parsed_spec(parsed, *text),
    {
        match parsed {
            Some((red, green, blue, alpha)) => Ok(Color { red, green, blue, alpha }),
            None => Err(BevyCssParsingErrorKind::InvalidValue(text.clone())),
        }
    }
}

/// The red, green, blue and alpha bytes that `cssparser` reads from a colour's text.
pub uninterp spec fn css_color(s: Seq<char>) -> Option<(u8, u8, u8, u8)>;

/// Relies on `cssparser::Color::parse`: the bytes of the RGBA colour it reads from the start
/// of `s`, or `None` where it fails or reads `currentcolor`.
#[verifier::external_body]
fn parse_color_text(s: &str) -> (r: Option<(u8, u8, u8, u8)>)
    ensures
        r == css_color(s@),
{
    match CssColor::parse(&mut Parser::new(&mut ParserInput::new(s))) {
        Ok(CssColor::RGBA(c)) => Some((c.red, c.green, c.blue, c.alpha)),
        _ => None,
    }
}

impl Parse for Color {
    /// `none`, or one token that `cssparser` reads as a colour.
    open spec fn parse_spec(toks: Seq<ValueToken>, pos: int) -> Result<(Self, int), Kind> {
        if is_ident(toks, pos, "none"@) {
            Ok((Color { red: 0, green: 0, blue: 0, alpha: 0 }, pos + 1))
        } else if 0 <= pos < toks.len() {
            match Color::from_parsed_spec(css_color(toks[pos].text@), toks[pos].text) {
                Ok(c) => Ok((c, pos + 1)),
                Err(k) => Err(k),
            }
        } else {
            Err(BevyCssParsingErrorKind::EndOfInput)
        }
    }

    open spec fn valid(&self) -> bool {
        true
    }

    fn parse(toks: &Vec<ValueToken>, pos: usize) -> (r: Result<(Self, usize), Kind>) {
        if ident_at(toks, pos, "none") {
            assert(pos < toks.len());
            return Ok((Color::none(), pos + 1));
        }
        if pos >= toks.len() {
            return Err(BevyCssParsingErrorKind::EndOfInput);
        }
        let parsed = parse_color_text(toks[pos].text.as_str());
        let c = Color::from_parsed(parsed, &toks[pos].text)?;
        Ok((c, pos + 1))
    }
}

} // verus!
