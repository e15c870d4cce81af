//! Reports of failed rules and declarations, for whoever shows them to a person.

use vstd::prelude::*;
use vstd::string::StringExecFns;
use crate::errors::{AllowedValues, BevyCssParsingErrorKind};
use crate::tokens::Tok;

verus! {

/// What failed, and where its text begins: line from 0, column from 1.
#[derive(Clone, Debug, PartialEq, Eq)]
pub struct BevyCssParsingError {
    pub kind: BevyCssParsingErrorKind,
    pub line: u32,
    pub column: u32,
}

/// A failed rule or declaration: its text, what went wrong and where.
#[derive(Clone, Debug, PartialEq, Eq)]
pub enum BevyCssContextualError {
    /// An `@` rule, which is not supported.
    UnsupportedAtRule(String, BevyCssParsingError),
    /// An `@` rule that is malformed.
    InvalidAtRule(String, BevyCssParsingError),
    /// A declaration of an unknown property.
    UnsupportedProperty(String, BevyCssParsingError),
    /// A declaration, rule or value that is malformed.
    InvalidValue(String, BevyCssParsingError),
}

/// How a token is named in a report.
pub open spec fn token_text_spec(t: Tok) -> Seq<char> {
    match t {
        Tok::Ident(s) => "identifier "@ + s@,
        Tok::AtKeyword(s) => "keyword @"@ + s@,
        Tok::IdHash(s) => "id selector #"@ + s@,
        Tok::Delim(_) => "delimiter"@,
        Tok::Number => "number"@,
        Tok::Percentage => "percentage"@,
        Tok::Dimension(s) => "dimension with unit "@ + s@,
        Tok::Function(s) => "function "@ + s@,
        Tok::WhiteSpace => "whitespace"@,
        Tok::Colon => "colon (:)"@,
        Tok::Semicolon => "semicolon (;)"@,
        Tok::Comma => "comma (,)"@,
        Tok::CurlyBlock => "curly bracket {"@,
        Tok::Other => "token"@,
    }
}

pub fn token_text(t: &Tok) -> (r: String)
    ensures
        r@ == token_text_spec(*t),
{
    match t {
        Tok::Ident(s) => {
            let mut r = String::from_str("identifier ");
            r.append(s.as_str());
            r
        },
        Tok::AtKeyword(s) => {
            let mut r = String::from_str("keyword @");
            r.append(s.as_str());
            r
        },
        Tok::IdHash(s) => {
            let mut r = String::from_str("id selector #");
            r.append(s.as_str());
            r
        },
        Tok::Delim(_) => String::from_str("delimiter"),
        Tok::Number => String::from_str("number"),
        Tok::Percentage => String::from_str("percentage"),
        Tok::Dimension(s) => {
            let mut r = String::from_str("dimension with unit ");
            r.append(s.as_str());
            r
        },
        Tok::Function(s) => {
            let mut r = String::from_str("function ");
            r.append(s.as_str());
            r
        },
        Tok::WhiteSpace => String::from_str("whitespace"),
        Tok::Colon => String::from_str("colon (:)"),
        Tok::Semicolon => String::from_str("semicolon (;)"),
        Tok::Comma => String::from_str("comma (,)"),
        Tok::CurlyBlock => String::from_str("curly bracket {"),
        Tok::Other => String::from_str("token"),
    }
}

pub open spec fn allowed_text_spec(a: AllowedValues) -> Seq<char> {
    match a {
        AllowedValues::All => "All"@,
        AllowedValues::NonNegative => "NonNegative"@,
        AllowedValues::AtLeastOne => "AtLeastOne"@,
    }
}

pub fn allowed_text(a: &AllowedValues) -> (r: &'static str)
    ensures
        r@ == allowed_text_spec(*a),
{
    match a {
        AllowedValues::All => "All",
        AllowedValues::NonNegative => "NonNegative",
        AllowedValues::AtLeastOne => "AtLeastOne",
    }
}

/// How a failure is described in a report.
pub open spec fn kind_text_spec(k: BevyCssParsingErrorKind) -> Seq<char> {
    match k {
        BevyCssParsingErrorKind::EndOfInput => "The end of input was reached unexpectedly"@,
        BevyCssParsingErrorKind::UnexpectedToken(t) => "An unexpected "@ + token_text_spec(t) + " was found"@,
        BevyCssParsingErrorKind::UnexpectedDimension(s) => "Unexpected dimension "@ + s@,
        BevyCssParsingErrorKind::UnknownProperty(s) => "Unknown property "@ + s@,
        BevyCssParsingErrorKind::MissingDimension => "A number other than 0 is missing its dimension"@,
        BevyCssParsingErrorKind::InvalidValue(s) => "Invalid keyword "@ + s@,
        BevyCssParsingErrorKind::OutOfRange(a) => "Number out of range, allowed: "@ + allowed_text_spec(a),
        BevyCssParsingErrorKind::UnsupportedNumber => "A number too long or too precise"@,
        BevyCssParsingErrorKind::FunctionNotSupported(s) => "Function not supported: "@ + s@,
        BevyCssParsingErrorKind::DeclarationValueNotExhausted => "Declaration value not exhausted"@,
        BevyCssParsingErrorKind::SelectorError => "Invalid or unsupported selector"@,
        BevyCssParsingErrorKind::UnsupportedAtRule(s) => "Unsupported @-rule @"@ + s@,
    }
}

pub fn kind_text(k: &BevyCssParsingErrorKind) -> (r: String)
    ensures
        r@ == kind_text_spec(*k),
{
    match k {
        BevyCssParsingErrorKind::EndOfInput => String::from_str("The end of input was reached unexpectedly"),
        BevyCssParsingErrorKind::UnexpectedToken(t) => {
            let mut r = String::from_str("An unexpected ");
            r.append(token_text(t).as_str());
            r.append(" was found");
            r
        },
        BevyCssParsingErrorKind::UnexpectedDimension(s) => {
            let mut r = String::from_str("Unexpected dimension ");
            r.append(s.as_str());
            r
        },
        BevyCssParsingErrorKind::UnknownProperty(s) => {
            let mut r = String::from_str("Unknown property ");
            r.append(s.as_str());
            r
        },
        BevyCssParsingErrorKind::MissingDimension => String::from_str("A number other than 0 is missing its dimension"),
        BevyCssParsingErrorKind::InvalidValue(s) => {
            let mut r = String::from_str("Invalid keyword ");
            r.append(s.as_str());
            r
        },
        BevyCssParsingErrorKind::OutOfRange(a) => {
            let mut r = String::from_str("Number out of range, allowed: ");
            r.append(allowed_text(a));
            r
        },
        BevyCssParsingErrorKind::UnsupportedNumber => String::from_str("A number too long or too precise"),
        BevyCssParsingErrorKind::FunctionNotSupported(s) => {
            let mut r = String::from_str("Function not supported: ");
            r.append(s.as_str());
            r
        },
        BevyCssParsingErrorKind::DeclarationValueNotExhausted => String::from_str("Declaration value not exhausted"),
        BevyCssParsingErrorKind::SelectorError => String::from_str("Invalid or unsupported selector"),
        BevyCssParsingErrorKind::UnsupportedAtRule(s) => {
            let mut r = String::from_str("Unsupported @-rule @");
            r.append(s.as_str());
            r
        },
    }
}

pub open spec fn digit_char(d: nat) -> char {
    if d == 0 { '0' } else if d == 1 { '1' } else if d == 2 { '2' } else if d == 3 { '3' }
    else if d == 4 { '4' } else if d == 5 { '5' } else if d == 6 { '6' } else if d == 7 { '7' }
    else if d == 8 { '8' } else { '9' }
}

/// `n` written in decimal.
pub open spec fn decimal(n: nat) -> Seq<char>
    decreases n,
{
    if n < 10 {
        seq![digit_char(n)]
    } else {
        decimal(n / 10).push(digit_char(n % 10))
    }
}

fn digit_str(d: u32) -> (r: &'static str)
    requires
        d < 10,
    ensures
        r@ == seq![digit_char(d as nat)],
{
    proof {
        reveal_strlit("0");
        reveal_strlit("1");
        reveal_strlit("2");
        reveal_strlit("3");
        reveal_strlit("4");
        reveal_strlit("5");
        reveal_strlit("6");
        reveal_strlit("7");
        reveal_strlit("8");
        reveal_strlit("9");
    }
    let r = if d == 0 { "0" } else if d == 1 { "1" } else if d == 2 { "2" } else if d == 3 { "3" }
    else if d == 4 { "4" } else if d == 5 { "5" } else if d == 6 { "6" } else if d == 7 { "7" }
    else if d == 8 { "8" } else { "9" };
    proof {
        assert(r@ =~= seq![digit_char(d as nat)]);
    }
    r
}

pub fn decimal_string(n: u32) -> (r: String)
    ensures
        r@ == decimal(n as nat),
    decreases n,
{
    if n < 10 {
        String::from_str(digit_str(n))
    } else {
        let mut r = decimal_string(n / 10);
        r.append(digit_str(n % 10));
        r
    }
}

impl BevyCssContextualError {
    /// The report for a declaration with text `css` that failed with `err`.
    pub fn for_declaration(css: String, err: BevyCssParsingError) -> (r: BevyCssContextualError)
        ensures
            r == (if err.kind is UnknownProperty {
                BevyCssContextualError::UnsupportedProperty(css, err)
            } else {
                BevyCssContextualError::InvalidValue(css, err)
            }),
    {
        match err.kind {
            BevyCssParsingErrorKind::UnknownProperty(_) => BevyCssContextualError::UnsupportedProperty(css, err),
            _ => BevyCssContextualError::InvalidValue(css, err),
        }
    }

    pub open spec fn error_spec(self) -> BevyCssParsingError {
        match self {
            BevyCssContextualError::UnsupportedAtRule(_, e) | BevyCssContextualError::InvalidAtRule(_, e)
            | BevyCssContextualError::UnsupportedProperty(_, e) | BevyCssContextualError::InvalidValue(_, e) => e,
        }
    }

    pub fn parsing_error(&self) -> (r: &BevyCssParsingError)
        ensures
            *r == self.error_spec(),
    {
        match self {
            BevyCssContextualError::UnsupportedAtRule(_, e) | BevyCssContextualError::InvalidAtRule(_, e)
            | BevyCssContextualError::UnsupportedProperty(_, e) | BevyCssContextualError::InvalidValue(_, e) => e,
        }
    }

    pub open spec fn message_spec(self) -> Seq<char> {
        match self {
            BevyCssContextualError::UnsupportedAtRule(css, e) =>
                "Unsupported/unrecognised @-rule ("@ + css@ + "), "@ + kind_text_spec(e.kind),
            BevyCssContextualError::InvalidAtRule(css, e) =>
                "Invalid @-rule ("@ + css@ + "), "@ + kind_text_spec(e.kind),
            BevyCssContextualError::UnsupportedProperty(css, e) =>
                "Unsupported/unrecognised property name ("@ + css@ + "), "@ + kind_text_spec(e.kind),
            BevyCssContextualError::InvalidValue(_, e) =>
                "The value of a property is invalid: "@ + kind_text_spec(e.kind),
        }
    }

    /// What went wrong, in words.
    pub fn message(&self) -> (r: String)
        ensures
            r@ == self.message_spec(),
    {
        let (mut r, css) = match self {
            BevyCssContextualError::UnsupportedAtRule(css, _) => (String::from_str("Unsupported/unrecognised @-rule ("), Some(css)),
            BevyCssContextualError::InvalidAtRule(css, _) => (String::from_str("Invalid @-rule ("), Some(css)),
            BevyCssContextualError::UnsupportedProperty(css, _) => (String::from_str("Unsupported/unrecognised property name ("), Some(css)),
            BevyCssContextualError::InvalidValue(_, _) => (String::from_str("The value of a property is invalid: "), None),
        };
        if let Some(css) = css {
            r.append(css.as_str());
            r.append("), ");
        }
        r.append(kind_text(&self.parsing_error().kind).as_str());
        proof {
            assert(r@ =~= self.message_spec());
        }
        r
    }

    /// `Failed to parse css at (line: L, col: C): <message>`.
    pub fn error_string_with_location(&self) -> (r: String)
        ensures
            r@ == "Failed to parse css at (line: "@ + decimal(self.error_spec().line as nat) + ", col: "@
                + decimal(self.error_spec().column as nat) + "): "@ + self.message_spec(),
    {
        let e = self.parsing_error();
        let mut r = String::from_str("Failed to parse css at (line: ");
        r.append(decimal_string(e.line).as_str());
        r.append(", col: ");
        r.append(decimal_string(e.column).as_str());
        r.append("): ");
        r.append(self.message().as_str());
        r
    }
}

} // verus!
