//! Declaration lists and rule lists: how tokens group into declarations and rules.

use vstd::prelude::*;
use crate::declaration::{BevyPropertyDeclaration, PropertyId};
use crate::errors::BevyCssParsingErrorKind;
use crate::parse::{Kind, Parse};
use crate::diagnostics::{BevyCssContextualError, BevyCssParsingError};
use crate::selectors::{first_non_ws, trim_end};
use crate::tokens::{css_tokens, tokenize, value_token, RawToken, Tok, ValueToken};
use vstd::string::StringExecFns;

verus! {

/// The tokens of `toks[a..b]` that are not whitespace, as value tokens.
pub open spec fn significant(toks: Seq<RawToken>, a: int, b: int) -> Seq<ValueToken>
    decreases b - a,
{
    if a >= b || b > toks.len() || a < 0 {
        Seq::empty()
    } else {
        let rest = significant(toks, a, b - 1);
        if toks[b - 1].tok is WhiteSpace {
            rest
        } else {
            rest.push(value_token(toks[b - 1]))
        }
    }
}

/// What the declaration written in `toks[a..b]` parses to; `None` where there is only
/// whitespace.
pub open spec fn declaration_of(toks: Seq<RawToken>, a: int, b: int) -> Option<Result<BevyPropertyDeclaration, Kind>> {
    let s = first_non_ws(toks, a, b);
    if s >= b || s < 0 || b > toks.len() {
        None
    } else {
        match toks[s].tok {
            Tok::Ident(name) => {
                let c = first_non_ws(toks, s + 1, b);
                if c < b && toks[c].tok is Colon {
                    Some(match PropertyId::from_name_spec(name@) {
                        Some(id) => BevyPropertyDeclaration::declaration_spec(id, significant(toks, c + 1, b)),
                        None => Err(BevyCssParsingErrorKind::UnknownProperty(name)),
                    })
                } else if c < b {
                    Some(Err(BevyCssParsingErrorKind::UnexpectedToken(toks[c].tok)))
                } else {
                    Some(Err(BevyCssParsingErrorKind::EndOfInput))
                }
            },
            Tok::AtKeyword(name) => Some(Err(BevyCssParsingErrorKind::UnsupportedAtRule(name))),
            _ => Some(Err(BevyCssParsingErrorKind::UnexpectedToken(toks[s].tok))),
        }
    }
}

pub open spec fn opt_seq<T>(o: Option<T>) -> Seq<T> {
    match o {
        Some(x) => seq![x],
        None => Seq::empty(),
    }
}

/// The declarations of a list separated by semicolons, the current one begun at `start`,
/// read from `i`: each parsed declaration or the error it failed with.
pub open spec fn declarations_from(toks: Seq<RawToken>, start: int, i: int) -> Seq<Result<BevyPropertyDeclaration, Kind>>
    decreases toks.len() - i,
{
    if i >= toks.len() {
        opt_seq(declaration_of(toks, start, toks.len() as int))
    } else if i >= 0 && toks[i].tok is Semicolon {
        opt_seq(declaration_of(toks, start, i)) + declarations_from(toks, i + 1, i + 1)
    } else {
        declarations_from(toks, start, i + 1)
    }
}

/// The declarations among `results` that parsed, in order.
pub open spec fn parsed_only(results: Seq<Result<BevyPropertyDeclaration, Kind>>) -> Seq<BevyPropertyDeclaration>
    decreases results.len(),
{
    if results.len() == 0 {
        Seq::empty()
    } else {
        let rest = parsed_only(results.drop_last());
        match results.last() {
            Ok(d) => rest.push(d),
            Err(_) => rest,
        }
    }
}

/// The value tokens of `toks[a..b]`, whitespace left out.
pub fn significant_tokens(toks: &Vec<RawToken>, a: usize, b: usize) -> (r: Vec<ValueToken>)
    requires
        a <= b <= toks@.len(),
    ensures
        r@ == significant(toks@, a as int, b as int),
{
    let mut out: Vec<ValueToken> = Vec::new();
    let mut i = a;
    while i < b
        invariant
            a <= i <= b,
            b <= toks@.len(),
            out@ == significant(toks@, a as int, i as int),
        decreases b - i,
    {
        if !toks[i].tok.is_whitespace() {
            out.push(toks[i].to_value_token());
        }
        i = i + 1;
    }
    out
}

fn skip_whitespace(toks: &Vec<RawToken>, a: usize, b: usize) -> (r: usize)
    requires
        a <= b <= toks@.len(),
    ensures
        r == first_non_ws(toks@, a as int, b as int),
        a <= r <= b,
{
    let mut s = a;
    while s < b && toks[s].tok.is_whitespace()
        invariant
            a <= s <= b,
            b <= toks@.len(),
            first_non_ws(toks@, a as int, b as int) == first_non_ws(toks@, s as int, b as int),
        decreases b - s,
    {
        s = s + 1;
    }
    s
}

/// Parses the declaration written in `toks[a..b]`; `None` where there is only whitespace.
pub fn parse_declaration_at(toks: &Vec<RawToken>, a: usize, b: usize) -> (r: Option<Result<BevyPropertyDeclaration, Kind>>)
    requires
        a <= b <= toks@.len(),
    ensures
        r == declaration_of(toks@, a as int, b as int),
        r matches Some(Ok(d)) ==> d.valid(),
{
    let s = skip_whitespace(toks, a, b);
    if s >= b {
        return None;
    }
    match &toks[s].tok {
        Tok::Ident(name) => {
            let c = skip_whitespace(toks, s + 1, b);
            if c < b {
                match &toks[c].tok {
                    Tok::Colon => {
                        let value = significant_tokens(toks, c + 1, b);
                        Some(BevyPropertyDeclarationParser::parse_value(name, &value))
                    },
                    other => Some(Err(BevyCssParsingErrorKind::UnexpectedToken(other.clone_tok()))),
                }
            } else {
                Some(Err(BevyCssParsingErrorKind::EndOfInput))
            }
        },
        Tok::AtKeyword(name) => Some(Err(BevyCssParsingErrorKind::UnsupportedAtRule(name.clone()))),
        other => Some(Err(BevyCssParsingErrorKind::UnexpectedToken(other.clone_tok()))),
    }
}

/// Reads one declaration's value.
pub struct BevyPropertyDeclarationParser;

impl BevyPropertyDeclarationParser {
    /// The declaration of the property named `name` with value `toks` (whitespace left
    /// out): the value, `!important` at most, and nothing after.
    pub fn parse_value(name: &String, toks: &Vec<ValueToken>) -> (r: Result<BevyPropertyDeclaration, Kind>)
        ensures
            match PropertyId::from_name_spec(name@) {
                Some(id) => r == BevyPropertyDeclaration::declaration_spec(id, toks@),
                None => r == Err::<BevyPropertyDeclaration, Kind>(BevyCssParsingErrorKind::UnknownProperty(*name)),
            },
            r is Ok ==> r->Ok_0.valid(),
    {
        BevyPropertyDeclaration::parse_input(name, toks)
    }
}

/// Reads a list of declarations separated by semicolons.
pub struct BevyPropertyListParser;

impl BevyPropertyListParser {
    /// Every declaration of the list, parsed or with the error it failed with.
    pub fn parse_results(toks: &Vec<RawToken>) -> (r: Vec<Result<BevyPropertyDeclaration, Kind>>)
        ensures
            r@ == declarations_from(toks@, 0, 0),
            forall|k: int| 0 <= k < r@.len() ==> (#[trigger] r@[k] matches Ok(d) ==> d.valid()),
    {
        let mut out: Vec<Result<BevyPropertyDeclaration, Kind>> = Vec::new();
        let mut start: usize = 0;
        let mut i: usize = 0;
        while i < toks.len()
            invariant
                start <= i <= toks@.len(),
                declarations_from(toks@, 0, 0) == out@ + declarations_from(toks@, start as int, i as int),
                forall|k: int| 0 <= k < out@.len() ==> (#[trigger] out@[k] matches Ok(d) ==> d.valid()),
            decreases toks@.len() - i,
        {
            if toks[i].tok.is_semicolon() {
                let ghost before = out@;
                let one = parse_declaration_at(toks, start, i);
                match one {
                    Some(x) => out.push(x),
                    None => {},
                }
                proof {
                    assert(out@ =~= before + opt_seq(declaration_of(toks@, start as int, i as int)));
                    assert(before + (opt_seq(declaration_of(toks@, start as int, i as int))
                        + declarations_from(toks@, i + 1, i + 1)) =~= out@ + declarations_from(toks@, i + 1, i + 1));
                }
                start = i + 1;
            }
            i = i + 1;
        }
        let ghost before = out@;
        match parse_declaration_at(toks, start, i) {
            Some(x) => out.push(x),
            None => {},
        }
        proof {
            assert(out@ =~= before + opt_seq(declaration_of(toks@, start as int, i as int)));
        }
        out
    }

    /// The declarations of the list that parsed, in order; the others are left out.
    pub fn parse_with(toks: &Vec<RawToken>) -> (r: Vec<BevyPropertyDeclaration>)
        ensures
            r@ == parsed_only(declarations_from(toks@, 0, 0)),
            forall|k: int| 0 <= k < r@.len() ==> (#[trigger] r@[k]).valid(),
    {
        let results = BevyPropertyListParser::parse_results(toks);
        keep_parsed(&results)
    }
}

/// The parsed declarations among `results`, in order.
pub fn keep_parsed(results: &Vec<Result<BevyPropertyDeclaration, Kind>>) -> (r: Vec<BevyPropertyDeclaration>)
    requires
        forall|k: int| 0 <= k < results@.len() ==> (#[trigger] results@[k] matches Ok(d) ==> d.valid()),
    ensures
        r@ == parsed_only(results@),
        forall|k: int| 0 <= k < r@.len() ==> (#[trigger] r@[k]).valid(),
{
    let mut out: Vec<BevyPropertyDeclaration> = Vec::new();
    let mut i: usize = 0;
    while i < results.len()
        invariant
            i <= results@.len(),
            out@ == parsed_only(results@.subrange(0, i as int)),
            forall|k: int| 0 <= k < results@.len() ==> (#[trigger] results@[k] matches Ok(d) ==> d.valid()),
            forall|k: int| 0 <= k < out@.len() ==> (#[trigger] out@[k]).valid(),
        decreases results@.len() - i,
    {
        proof {
            assert(results@.subrange(0, i + 1).drop_last() =~= results@.subrange(0, i as int));
        }
        match &results[i] {
            Ok(d) => out.push(*d),
            Err(_) => {},
        }
        i = i + 1;
    }
    proof {
        assert(results@.subrange(0, i as int) =~= results@);
    }
    out
}

/// Reads a value of type `T` from the start of `s`; what follows it is not looked at.
pub fn parse_str<T: Parse>(s: &str) -> (r: Result<T, Kind>)
    ensures
        r matches Ok(v) ==> v.valid(),
        match T::parse_spec(significant(css_tokens(s@), 0, css_tokens(s@).len() as int), 0) {
            Ok((v, _)) => r == Ok::<T, Kind>(v),
            Err(k) => r == Err::<T, Kind>(k),
        },
{
    let raw = tokenize(s);
    let toks = significant_tokens(&raw, 0, raw.len());
    let r = match T::parse(&toks, 0) {
        Ok((v, _)) => Ok(v),
        Err(k) => Err(k),
    };
    r
}

/// Parses `value` as the value of a declaration of the property named `property`.
#[verifier::rlimit(60)]
pub fn parse_property_value(property: &str, value: &str) -> (r: Result<BevyPropertyDeclaration, Kind>)
    ensures
        PropertyId::from_name_spec(property@) is None ==> r is Err && r->Err_0 is UnknownProperty
            && r->Err_0->UnknownProperty_0@ == property@,
        PropertyId::from_name_spec(property@) is Some ==> !(r matches Err(BevyCssParsingErrorKind::UnknownProperty(_))),
        PropertyId::from_name_spec(property@) is Some ==> r
            == BevyPropertyDeclaration::declaration_spec(PropertyId::from_name_spec(property@)->Some_0,
                significant(css_tokens(value@), 0, css_tokens(value@).len() as int)),
        r matches Ok(d) ==> d.valid(),
{
    let raw = tokenize(value);
    let toks = significant_tokens(&raw, 0, raw.len());
    assert(toks@ == significant(css_tokens(value@), 0, css_tokens(value@).len() as int));
    BevyPropertyDeclaration::parse_input(&String::from_str(property), &toks)
}

/// The source text of `toks[a..b]`.
pub open spec fn source_text(toks: Seq<RawToken>, a: int, b: int) -> Seq<char>
    decreases b - a,
{
    if a >= b || b > toks.len() || a < 0 {
        Seq::empty()
    } else {
        source_text(toks, a, b - 1) + toks[b - 1].text@
    }
}

/// A report as whether the property was unknown, the text, and the failure.
pub open spec fn report_view(e: BevyCssContextualError) -> (bool, Seq<char>, BevyCssParsingError) {
    match e {
        BevyCssContextualError::UnsupportedProperty(css, err) => (true, css@, err),
        BevyCssContextualError::UnsupportedAtRule(css, err) | BevyCssContextualError::InvalidAtRule(css, err)
        | BevyCssContextualError::InvalidValue(css, err) => (false, css@, err),
    }
}

/// The report for the declaration in `toks[a..b]`, where it fails: whether the property
/// was unknown, its text without the whitespace around it, and where that text begins.
pub open spec fn declaration_error_of(toks: Seq<RawToken>, a: int, b: int) -> Option<(bool, Seq<char>, BevyCssParsingError)> {
    match declaration_of(toks, a, b) {
        Some(Err(k)) => {
            let s = first_non_ws(toks, a, b);
            Some((
                k is UnknownProperty,
                source_text(toks, s, trim_end(toks, s, b)),
                BevyCssParsingError { kind: k, line: toks[s].line, column: toks[s].column },
            ))
        },
        _ => None,
    }
}

/// The reports for the failed declarations of a list, as [`declarations_from`] reads it.
pub open spec fn errors_from(toks: Seq<RawToken>, start: int, i: int) -> Seq<(bool, Seq<char>, BevyCssParsingError)>
    decreases toks.len() - i,
{
    if i >= toks.len() {
        opt_seq(declaration_error_of(toks, start, toks.len() as int))
    } else if i >= 0 && toks[i].tok is Semicolon {
        opt_seq(declaration_error_of(toks, start, i)) + errors_from(toks, i + 1, i + 1)
    } else {
        errors_from(toks, start, i + 1)
    }
}

/// The source text of `toks[a..b]`.
pub fn source_text_of(toks: &Vec<RawToken>, a: usize, b: usize) -> (r: String)
    requires
        a <= b <= toks@.len(),
    ensures
        r@ == source_text(toks@, a as int, b as int),
{
    let mut r = String::new();
    let mut i = a;
    while i < b
        invariant
            a <= i <= b,
            b <= toks@.len(),
            r@ == source_text(toks@, a as int, i as int),
        decreases b - i,
    {
        r.append(toks[i].text.as_str());
        i = i + 1;
    }
    r
}

/// The report for the declaration in `toks[a..b]`, where it fails.
pub fn declaration_error_at(toks: &Vec<RawToken>, a: usize, b: usize) -> (r: Option<BevyCssContextualError>)
    requires
        a <= b <= toks@.len(),
    ensures
        match r {
            Some(e) => declaration_error_of(toks@, a as int, b as int) == Some(report_view(e)),
            None => declaration_error_of(toks@, a as int, b as int) is None,
        },
{
    match parse_declaration_at(toks, a, b) {
        Some(Err(kind)) => {
            let s = skip_whitespace(toks, a, b);
            let mut e = b;
            while e > s && toks[e - 1].tok.is_whitespace()
                invariant
                    s <= e <= b,
                    b <= toks@.len(),
                    trim_end(toks@, s as int, b as int) == trim_end(toks@, s as int, e as int),
                decreases e - s,
            {
                e = e - 1;
            }
            let css = source_text_of(toks, s, e);
            let err = BevyCssParsingError { kind, line: toks[s].line, column: toks[s].column };
            Some(BevyCssContextualError::for_declaration(css, err))
        },
        _ => None,
    }
}

impl BevyPropertyListParser {
    /// The reports for the declarations of the list that failed, in order.
    pub fn parse_errors(toks: &Vec<RawToken>) -> (r: Vec<BevyCssContextualError>)
        ensures
            r@.map_values(|e: BevyCssContextualError| report_view(e)) == errors_from(toks@, 0, 0),
    {
        let mut out: Vec<BevyCssContextualError> = Vec::new();
        let mut start: usize = 0;
        let mut i: usize = 0;
        while i < toks.len()
            invariant
                start <= i <= toks@.len(),
                errors_from(toks@, 0, 0) == out@.map_values(|e: BevyCssContextualError| report_view(e))
                    + errors_from(toks@, start as int, i as int),
            decreases toks@.len() - i,
        {
            if toks[i].tok.is_semicolon() {
                let ghost before = out@.map_values(|e: BevyCssContextualError| report_view(e));
                match declaration_error_at(toks, start, i) {
                    Some(x) => out.push(x),
                    None => {},
                }
                proof {
                    let one = opt_seq(declaration_error_of(toks@, start as int, i as int));
                    assert(out@.map_values(|e: BevyCssContextualError| report_view(e)) =~= before + one);
                    assert(before + (one + errors_from(toks@, i + 1, i + 1))
                        =~= out@.map_values(|e: BevyCssContextualError| report_view(e)) + errors_from(toks@, i + 1, i + 1));
                }
                start = i + 1;
            }
            i = i + 1;
        }
        let ghost before = out@.map_values(|e: BevyCssContextualError| report_view(e));
        match declaration_error_at(toks, start, i) {
            Some(x) => out.push(x),
            None => {},
        }
        proof {
            assert(out@.map_values(|e: BevyCssContextualError| report_view(e))
                =~= before + opt_seq(declaration_error_of(toks@, start as int, i as int)));
        }
        out
    }
}

} // verus!
