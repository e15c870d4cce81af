//! Stylesheets and inline styles: rule lists read from tokens, and the style that the
//! rules matching an identity give.

use vstd::prelude::*;
use crate::classes::class_items;
use crate::declaration::BevyPropertyDeclaration;
use crate::errors::BevyCssParsingErrorKind;
use crate::length::CssContext;
use crate::parse::Kind;
use crate::diagnostics::{BevyCssContextualError, BevyCssParsingError};
use crate::rules::{declarations_from, errors_from, parsed_only, report_view, source_text, source_text_of, BevyPropertyListParser};
use crate::selectors::{components_of, first_non_ws, list_from, list_matches, BevySelectorList, CssTag, SimpleSelector};
use crate::style::{apply_all, apply_colors, apply_declarations, color_all, Style, UiColor};
use crate::tokens::{css_tokens, tokenize, RawToken, Tok};

verus! {

/// A style rule: selectors, and the declarations for what they match.
#[derive(Debug)]
pub struct BevyStyleRule {
    pub selectors: BevySelectorList,
    pub declarations: Vec<BevyPropertyDeclaration>,
}

/// A rule of a stylesheet; style rules are the only kind.
#[derive(Debug)]
pub enum BevyCssRule {
    Style(BevyStyleRule),
}

/// A rule as selectors (each a sequence of simple selectors) and declarations.
pub open spec fn rule_view(r: BevyCssRule) -> (Seq<Seq<SimpleSelector>>, Seq<BevyPropertyDeclaration>) {
    match r {
        BevyCssRule::Style(s) => (components_of(s.selectors.0@), s.declarations@),
    }
}

pub open spec fn result_view(r: Result<BevyCssRule, Kind>) -> Result<(Seq<Seq<SimpleSelector>>, Seq<BevyPropertyDeclaration>), Kind> {
    match r {
        Ok(x) => Ok(rule_view(x)),
        Err(k) => Err(k),
    }
}

/// Every declaration of the rule is well formed.
pub open spec fn rule_valid(r: BevyCssRule) -> bool {
    match r {
        BevyCssRule::Style(s) => forall|k: int| 0 <= k < s.declarations@.len() ==> (#[trigger] s.declarations@[k]).valid(),
    }
}

/// The name of the `@` rule that `toks[start..i]` begins, if it begins one.
pub open spec fn at_rule_name(toks: Seq<RawToken>, start: int, i: int) -> Option<String> {
    let s = first_non_ws(toks, start, i);
    if 0 <= s < i && i <= toks.len() && toks[s].tok is AtKeyword {
        Some(toks[s].tok->AtKeyword_0)
    } else {
        None
    }
}

/// The rule whose prelude is `toks[start..j]` and whose block is `toks[j]`.
pub open spec fn rule_at(toks: Seq<RawToken>, start: int, j: int) -> Result<(Seq<Seq<SimpleSelector>>, Seq<BevyPropertyDeclaration>), Kind> {
    match at_rule_name(toks, start, j) {
        Some(name) => Err(BevyCssParsingErrorKind::UnsupportedAtRule(name)),
        None => match list_from(toks, start, start, j) {
            None => Err(BevyCssParsingErrorKind::SelectorError),
            Some(sels) => Ok((sels, parsed_only(declarations_from(toks[j].block@, 0, 0)))),
        },
    }
}

/// The rules of a rule list, the current one begun at `start`, read from `i`: a `{}` block
/// ends a rule; a `;` ends an `@` rule without a block.
pub open spec fn rules_from(toks: Seq<RawToken>, start: int, i: int) -> Seq<Result<(Seq<Seq<SimpleSelector>>, Seq<BevyPropertyDeclaration>), Kind>>
    decreases toks.len() - i,
{
    if i >= toks.len() {
        let s = first_non_ws(toks, start, toks.len() as int);
        if s >= toks.len() {
            Seq::empty()
        } else {
            match at_rule_name(toks, start, toks.len() as int) {
                Some(name) => seq![Err(BevyCssParsingErrorKind::UnsupportedAtRule(name))],
                None => seq![Err(BevyCssParsingErrorKind::EndOfInput)],
            }
        }
    } else if i >= 0 && toks[i].tok is CurlyBlock {
        seq![rule_at(toks, start, i)] + rules_from(toks, i + 1, i + 1)
    } else if i >= 0 && toks[i].tok is Semicolon && at_rule_name(toks, start, i) is Some {
        seq![Err(BevyCssParsingErrorKind::UnsupportedAtRule(at_rule_name(toks, start, i)->Some_0))]
            + rules_from(toks, i + 1, i + 1)
    } else {
        rules_from(toks, start, i + 1)
    }
}

/// The rules among `results` that parsed, in order.
pub open spec fn parsed_rules(results: Seq<Result<(Seq<Seq<SimpleSelector>>, Seq<BevyPropertyDeclaration>), Kind>>)
    -> Seq<(Seq<Seq<SimpleSelector>>, Seq<BevyPropertyDeclaration>)>
    decreases results.len(),
{
    if results.len() == 0 {
        Seq::empty()
    } else {
        let rest = parsed_rules(results.drop_last());
        match results.last() {
            Ok(r) => rest.push(r),
            Err(_) => rest,
        }
    }
}

fn skip_whitespace(toks: &Vec<RawToken>, a: usize, b: usize) -> (r: usize)
    requires
        a <= b <= toks@.len(),
    ensures
        r == first_non_ws(toks@, a as int, b as int),
        a <= r <= b,
{
    let mut s = a;
    while s < b && toks[s].tok.is_whitespace()
        invariant
            a <= s <= b,
            b <= toks@.len(),
            first_non_ws(toks@, a as int, b as int) == first_non_ws(toks@, s as int, b as int),
        decreases b - s,
    {
        s = s + 1;
    }
    s
}

fn at_rule_at(toks: &Vec<RawToken>, start: usize, i: usize) -> (r: Option<String>)
    requires
        start <= i <= toks@.len(),
    ensures
        r == at_rule_name(toks@, start as int, i as int),
{
    let s = skip_whitespace(toks, start, i);
    if s < i {
        match &toks[s].tok {
            Tok::AtKeyword(name) => Some(name.clone()),
            _ => None,
        }
    } else {
        None
    }
}

/// Reads the parts of one style rule: the selectors before the block, the declarations in it.
pub struct BevyTopLevelParser;

impl BevyTopLevelParser {
    /// The selector list written in `toks[a..b]`.
    pub fn parse_prelude(toks: &Vec<RawToken>, a: usize, b: usize) -> (r: Option<BevySelectorList>)
        requires
            a <= b <= toks@.len(),
        ensures
            match r {
                Some(l) => list_from(toks@, a as int, a as int, b as int) == Some(components_of(l.0@)),
                None => list_from(toks@, a as int, a as int, b as int) is None,
            },
    {
        BevySelectorList::parse_range(toks, a, b)
    }

    /// The rule with selectors `prelude` and the declarations of `block` that parse.
    pub fn parse_block(prelude: BevySelectorList, block: &Vec<RawToken>) -> (r: BevyCssRule)
        ensures
            rule_view(r) == (components_of(prelude.0@), parsed_only(declarations_from(block@, 0, 0))),
            rule_valid(r),
    {
        let declarations = BevyPropertyListParser::parse_with(block);
        BevyCssRule::Style(BevyStyleRule { selectors: prelude, declarations })
    }
}

/// Reads a list of rules.
pub struct BevySheetParser;

impl BevySheetParser {
    fn rule_at(toks: &Vec<RawToken>, start: usize, j: usize) -> (r: Result<BevyCssRule, Kind>)
        requires
            start <= j < toks@.len(),
        ensures
            result_view(r) == rule_at(toks@, start as int, j as int),
            r matches Ok(x) ==> rule_valid(x),
    {
        if let Some(name) = at_rule_at(toks, start, j) {
            return Err(BevyCssParsingErrorKind::UnsupportedAtRule(name));
        }
        match BevyTopLevelParser::parse_prelude(toks, start, j) {
            None => Err(BevyCssParsingErrorKind::SelectorError),
            Some(selectors) => Ok(BevyTopLevelParser::parse_block(selectors, &toks[j].block)),
        }
    }

    /// Every rule of the list, parsed or with the error it failed with.
    pub fn parse_results(toks: &Vec<RawToken>) -> (r: Vec<Result<BevyCssRule, Kind>>)
        ensures
            r@.map_values(|x: Result<BevyCssRule, Kind>| result_view(x)) == rules_from(toks@, 0, 0),
    {
        let mut out: Vec<Result<BevyCssRule, Kind>> = Vec::new();
        let mut start: usize = 0;
        let mut i: usize = 0;
        while i < toks.len()
            invariant
                start <= i <= toks@.len(),
                rules_from(toks@, 0, 0) == out@.map_values(|x: Result<BevyCssRule, Kind>| result_view(x))
                    + rules_from(toks@, start as int, i as int),
            decreases toks@.len() - i,
        {
            let ghost before = out@.map_values(|x: Result<BevyCssRule, Kind>| result_view(x));
            if toks[i].tok.is_curly_block() {
                let rule = BevySheetParser::rule_at(toks, start, i);
                out.push(rule);
                proof {
                    assert(out@.map_values(|x: Result<BevyCssRule, Kind>| result_view(x))
                        =~= before.push(rule_at(toks@, start as int, i as int)));
                    assert(before + (seq![rule_at(toks@, start as int, i as int)] + rules_from(toks@, i + 1, i + 1))
                        =~= out@.map_values(|x: Result<BevyCssRule, Kind>| result_view(x)) + rules_from(toks@, i + 1, i + 1));
                }
                start = i + 1;
            } else if toks[i].tok.is_semicolon() {
                if let Some(name) = at_rule_at(toks, start, i) {
                    out.push(Err(BevyCssParsingErrorKind::UnsupportedAtRule(name)));
                    proof {
                        let e = Err::<(Seq<Seq<SimpleSelector>>, Seq<BevyPropertyDeclaration>), Kind>(
                            BevyCssParsingErrorKind::UnsupportedAtRule(at_rule_name(toks@, start as int, i as int)->Some_0));
                        assert(out@.map_values(|x: Result<BevyCssRule, Kind>| result_view(x)) =~= before.push(e));
                        assert(before + (seq![e] + rules_from(toks@, i + 1, i + 1))
                            =~= out@.map_values(|x: Result<BevyCssRule, Kind>| result_view(x)) + rules_from(toks@, i + 1, i + 1));
                    }
                    start = i + 1;
                }
            }
            i = i + 1;
        }
        let ghost before = out@.map_values(|x: Result<BevyCssRule, Kind>| result_view(x));
        let s = skip_whitespace(toks, start, i);
        if s < i {
            let e = match at_rule_at(toks, start, i) {
                Some(name) => BevyCssParsingErrorKind::UnsupportedAtRule(name),
                None => BevyCssParsingErrorKind::EndOfInput,
            };
            out.push(Err(e));
            proof {
                assert(out@.map_values(|x: Result<BevyCssRule, Kind>| result_view(x)) =~= before.push(Err(e)));
            }
        } else {
            proof {
                assert(before + Seq::empty() =~= before);
            }
        }
        out
    }

    /// The rules of the list that parsed, in order; the others are left out.
    pub fn parse_with(toks: &Vec<RawToken>) -> (r: Vec<BevyCssRule>)
        ensures
            r@.map_values(|x: BevyCssRule| rule_view(x)) == parsed_rules(rules_from(toks@, 0, 0)),
            forall|k: int| 0 <= k < r@.len() ==> rule_valid(#[trigger] r@[k]),
    {
        let mut out: Vec<BevyCssRule> = Vec::new();
        let mut start: usize = 0;
        let mut i: usize = 0;
        while i < toks.len()
            invariant
                start <= i <= toks@.len(),
                parsed_rules(rules_from(toks@, 0, 0)) == out@.map_values(|x: BevyCssRule| rule_view(x))
                    + parsed_rules(rules_from(toks@, start as int, i as int)),
                forall|k: int| 0 <= k < out@.len() ==> rule_valid(#[trigger] out@[k]),
            decreases toks@.len() - i,
        {
            let ghost before = out@.map_values(|x: BevyCssRule| rule_view(x));
            if toks[i].tok.is_curly_block() {
                let rule = BevySheetParser::rule_at(toks, start, i);
                let ghost one = seq![rule_at(toks@, start as int, i as int)];
                proof {
                    lemma_parsed_rules_concat(one, rules_from(toks@, i + 1, i + 1));
                    reveal_with_fuel(parsed_rules, 2);
                    assert(one.drop_last() =~= Seq::empty());
                }
                match rule {
                    Ok(x) => {
                        out.push(x);
                        proof {
                            assert(out@.map_values(|x: BevyCssRule| rule_view(x)) =~= before + parsed_rules(one));
                        }
                    },
                    Err(_) => {
                        proof {
                            assert(before + parsed_rules(one) =~= before);
                        }
                    },
                }
                proof {
                    assert(before + (parsed_rules(one) + parsed_rules(rules_from(toks@, i + 1, i + 1)))
                        =~= (before + parsed_rules(one)) + parsed_rules(rules_from(toks@, i + 1, i + 1)));
                }
                start = i + 1;
            } else if toks[i].tok.is_semicolon() {
                if let Some(_) = at_rule_at(toks, start, i) {
                    proof {
                        let one = seq![Err::<(Seq<Seq<SimpleSelector>>, Seq<BevyPropertyDeclaration>), Kind>(
                            BevyCssParsingErrorKind::UnsupportedAtRule(at_rule_name(toks@, start as int, i as int)->Some_0))];
                        lemma_parsed_rules_concat(one, rules_from(toks@, i + 1, i + 1));
                        reveal_with_fuel(parsed_rules, 2);
                        assert(one.drop_last() =~= Seq::empty());
                        assert(parsed_rules(one) =~= Seq::empty());
                        assert(Seq::empty() + parsed_rules(rules_from(toks@, i + 1, i + 1))
                            =~= parsed_rules(rules_from(toks@, i + 1, i + 1)));
                    }
                    start = i + 1;
                }
            }
            i = i + 1;
        }
        proof {
            reveal_with_fuel(parsed_rules, 2);
            let rest = rules_from(toks@, start as int, i as int);
            if rest.len() == 1 {
                assert(rest.drop_last() =~= Seq::empty());
            }
            assert(parsed_rules(rest) =~= Seq::empty());
            assert(out@.map_values(|x: BevyCssRule| rule_view(x)) + Seq::empty()
                =~= out@.map_values(|x: BevyCssRule| rule_view(x)));
        }
        out
    }
}

/// Leaving out failed rules distributes over joining lists.
pub proof fn lemma_parsed_rules_concat(
    a: Seq<Result<(Seq<Seq<SimpleSelector>>, Seq<BevyPropertyDeclaration>), Kind>>,
    b: Seq<Result<(Seq<Seq<SimpleSelector>>, Seq<BevyPropertyDeclaration>), Kind>>,
)
    ensures
        parsed_rules(a + b) == parsed_rules(a) + parsed_rules(b),
    decreases b.len(),
{
    if b.len() == 0 {
        assert(a + b =~= a);
        assert(parsed_rules(a) + parsed_rules(b) =~= parsed_rules(a));
    } else {
        lemma_parsed_rules_concat(a, b.drop_last());
        assert((a + b).drop_last() =~= a + b.drop_last());
        match b.last() {
            Ok(r) => {
                assert(parsed_rules(a) + parsed_rules(b.drop_last()).push(r)
                    =~= (parsed_rules(a) + parsed_rules(b.drop_last())).push(r));
            },
            Err(_) => {},
        }
    }
}

/// The report for a rule that failed with `k`, its text in `toks[s..end]`.
pub open spec fn rule_report(toks: Seq<RawToken>, s: int, end: int, k: Kind) -> (bool, Seq<char>, BevyCssParsingError) {
    (false, source_text(toks, s, end), BevyCssParsingError { kind: k, line: toks[s].line, column: toks[s].column })
}

/// The reports for a rule list, as [`rules_from`] reads it: a failed rule is reported
/// whole; a rule that parsed reports the declarations of its block that failed.
pub open spec fn sheet_errors_from(toks: Seq<RawToken>, start: int, i: int) -> Seq<(bool, Seq<char>, BevyCssParsingError)>
    decreases toks.len() - i,
{
    if i >= toks.len() {
        let s = first_non_ws(toks, start, toks.len() as int);
        if s >= toks.len() {
            Seq::empty()
        } else {
            match at_rule_name(toks, start, toks.len() as int) {
                Some(name) => seq![rule_report(toks, s, toks.len() as int, BevyCssParsingErrorKind::UnsupportedAtRule(name))],
                None => seq![rule_report(toks, s, toks.len() as int, BevyCssParsingErrorKind::EndOfInput)],
            }
        }
    } else if i >= 0 && toks[i].tok is CurlyBlock {
        let s = first_non_ws(toks, start, i);
        let one = match rule_at(toks, start, i) {
            Ok(_) => errors_from(toks[i].block@, 0, 0),
            Err(k) => seq![rule_report(toks, s, i + 1, k)],
        };
        one + sheet_errors_from(toks, i + 1, i + 1)
    } else if i >= 0 && toks[i].tok is Semicolon && at_rule_name(toks, start, i) is Some {
        seq![rule_report(toks, first_non_ws(toks, start, i), i + 1,
            BevyCssParsingErrorKind::UnsupportedAtRule(at_rule_name(toks, start, i)->Some_0))]
            + sheet_errors_from(toks, i + 1, i + 1)
    } else {
        sheet_errors_from(toks, start, i + 1)
    }
}

fn rule_error(toks: &Vec<RawToken>, s: usize, end: usize, kind: Kind) -> (r: BevyCssContextualError)
    requires
        s < end <= toks@.len(),
    ensures
        report_view(r) == rule_report(toks@, s as int, end as int, kind),
{
    let css = source_text_of(toks, s, end);
    let err = BevyCssParsingError { kind, line: toks[s].line, column: toks[s].column };
    match err.kind {
        BevyCssParsingErrorKind::UnsupportedAtRule(_) => BevyCssContextualError::UnsupportedAtRule(css, err),
        _ => BevyCssContextualError::InvalidValue(css, err),
    }
}

pub open spec fn reports(v: Seq<BevyCssContextualError>) -> Seq<(bool, Seq<char>, BevyCssParsingError)> {
    v.map_values(|e: BevyCssContextualError| report_view(e))
}

impl BevySheetParser {
    /// The reports for the rules that failed, and for the failed declarations of the
    /// rules that parsed, in order.
    pub fn parse_errors(toks: &Vec<RawToken>) -> (r: Vec<BevyCssContextualError>)
        ensures
            reports(r@) == sheet_errors_from(toks@, 0, 0),
    {
        let mut out: Vec<BevyCssContextualError> = Vec::new();
        let mut start: usize = 0;
        let mut i: usize = 0;
        assert(reports(out@) =~= Seq::empty());
        while i < toks.len()
            invariant
                start <= i <= toks@.len(),
                sheet_errors_from(toks@, 0, 0) == reports(out@) + sheet_errors_from(toks@, start as int, i as int),
            decreases toks@.len() - i,
        {
            let ghost before = reports(out@);
            let ghost old_out = out@;
            if toks[i].tok.is_curly_block() {
                let s = skip_whitespace(toks, start, i);
                let ghost one = match rule_at(toks@, start as int, i as int) {
                    Ok(_) => errors_from(toks@[i as int].block@, 0, 0),
                    Err(k) => seq![rule_report(toks@, s as int, i + 1, k)],
                };
                match BevySheetParser::rule_at(toks, start, i) {
                    Ok(_) => {
                        let mut inner = BevyPropertyListParser::parse_errors(&toks[i].block);
                        let ghost inner_seq = inner@;
                        out.append(&mut inner);
                        proof {
                            assert(reports(out@) =~= before + reports(inner_seq));
                        }
                    },
                    Err(k) => {
                        let e = rule_error(toks, s, i + 1, k);
                        out.push(e);
                        proof {
                            assert(reports(out@) =~= before.push(report_view(e)));
                            assert(reports(out@) =~= before + one);
                        }
                    },
                }
                proof {
                    assert(before + (one + sheet_errors_from(toks@, i + 1, i + 1))
                        =~= reports(out@) + sheet_errors_from(toks@, i + 1, i + 1));
                }
                start = i + 1;
            } else if toks[i].tok.is_semicolon() {
                if let Some(name) = at_rule_at(toks, start, i) {
                    let s = skip_whitespace(toks, start, i);
                    let e = rule_error(toks, s, i + 1, BevyCssParsingErrorKind::UnsupportedAtRule(name));
                    out.push(e);
                    proof {
                        let one = seq![rule_report(toks@, s as int, i + 1,
                            BevyCssParsingErrorKind::UnsupportedAtRule(at_rule_name(toks@, start as int, i as int)->Some_0))];
                        assert(reports(out@) =~= before + one);
                        assert(before + (one + sheet_errors_from(toks@, i + 1, i + 1))
                            =~= reports(out@) + sheet_errors_from(toks@, i + 1, i + 1));
                    }
                    start = i + 1;
                }
            }
            i = i + 1;
        }
        let ghost before = reports(out@);
        let s = skip_whitespace(toks, start, i);
        if s < i {
            let kind = match at_rule_at(toks, start, i) {
                Some(name) => BevyCssParsingErrorKind::UnsupportedAtRule(name),
                None => BevyCssParsingErrorKind::EndOfInput,
            };
            let e = rule_error(toks, s, i, kind);
            out.push(e);
            proof {
                assert(reports(out@) =~= before.push(report_view(e)));
            }
        } else {
            proof {
                assert(before + Seq::empty() =~= before);
            }
        }
        out
    }
}

/// The style that the rules of `rules` matching an identity give, each rule's
/// declarations applied in order, rule after rule.
pub open spec fn sheet_style(style: Style, rules: Seq<BevyCssRule>, id: Option<String>, classes: Seq<String>, context: CssContext) -> Style
    decreases rules.len(),
{
    if rules.len() == 0 {
        style
    } else {
        let before = sheet_style(style, rules.drop_last(), id, classes, context);
        match rules.last() {
            BevyCssRule::Style(r) => if list_matches(r.selectors.0@, id, classes) {
                apply_all(before, r.declarations@, context)
            } else {
                before
            },
        }
    }
}

/// The colour that the rules of `rules` matching an identity give.
pub open spec fn sheet_color(color: UiColor, rules: Seq<BevyCssRule>, id: Option<String>, classes: Seq<String>) -> UiColor
    decreases rules.len(),
{
    if rules.len() == 0 {
        color
    } else {
        let before = sheet_color(color, rules.drop_last(), id, classes);
        match rules.last() {
            BevyCssRule::Style(r) => if list_matches(r.selectors.0@, id, classes) {
                color_all(before, r.declarations@)
            } else {
                before
            },
        }
    }
}

/// A parsed stylesheet: its rules, in the order written.
#[derive(Debug)]
pub struct CssStylesheet {
    pub rules: Vec<BevyCssRule>,
}

impl CssStylesheet {
    pub open spec fn wf(&self) -> bool {
        forall|k: int| 0 <= k < self.rules@.len() ==> rule_valid(#[trigger] self.rules@[k])
    }

    /// The rules of `css` that parse; the others are skipped.
    pub fn parse_sheet(css_string: &str) -> (r: Vec<BevyCssRule>)
        ensures
            forall|k: int| 0 <= k < r@.len() ==> rule_valid(#[trigger] r@[k]),
            r@.map_values(|x: BevyCssRule| rule_view(x)) == parsed_rules(rules_from(css_tokens(css_string@), 0, 0)),
    {
        let toks = tokenize(css_string);
        BevySheetParser::parse_with(&toks)
    }

    /// The reports for what in `css_string` failed to parse.
    pub fn parse_errors(css_string: &str) -> (r: Vec<BevyCssContextualError>)
        ensures
            reports(r@) == sheet_errors_from(css_tokens(css_string@), 0, 0),
    {
        BevySheetParser::parse_errors(&tokenize(css_string))
    }

    pub fn new(css_string: &str) -> (r: CssStylesheet)
        ensures
            r.wf(),
            r.rules@.map_values(|x: BevyCssRule| rule_view(x)) == parsed_rules(rules_from(css_tokens(css_string@), 0, 0)),
    {
        CssStylesheet { rules: CssStylesheet::parse_sheet(css_string) }
    }

    /// Applies the rules that match `tag` to `style` and `color`, in order.
    #[verifier::rlimit(60)]
    #[verifier::spinoff_prover]
    pub fn apply(&self, tag: &CssTag, context: &CssContext, style: &mut Style, color: &mut UiColor)
        requires
            self.wf(),
            context.wf(),
        ensures
            *final(style) == sheet_style(*old(style), self.rules@, tag.id, class_items(tag.classes), *context),
            *final(color) == sheet_color(*old(color), self.rules@, tag.id, class_items(tag.classes)),
    {
        let ghost style0 = *style;
        let ghost color0 = *color;
        let mut i: usize = 0;
        while i < self.rules.len()
            invariant
                i <= self.rules@.len(),
                self.wf(),
                context.wf(),
                *style == sheet_style(style0, self.rules@.subrange(0, i as int), tag.id, class_items(tag.classes), *context),
                *color == sheet_color(color0, self.rules@.subrange(0, i as int), tag.id, class_items(tag.classes)),
            decreases self.rules@.len() - i,
        {
            proof {
                assert(self.rules@.subrange(0, i + 1).drop_last() =~= self.rules@.subrange(0, i as int));
            }
            match &self.rules[i] {
                BevyCssRule::Style(r) => {
                    assert(rule_valid(self.rules@[i as int]));
                    if r.selectors.matches(tag) {
                        apply_declarations(&r.declarations, context, style);
                        apply_colors(&r.declarations, color);
                    }
                },
            }
            i = i + 1;
        }
        proof {
            assert(self.rules@.subrange(0, i as int) =~= self.rules@);
        }
    }
}

/// Declarations written inline, without selector or braces: `"width: 100%; height: 10px;"`.
pub struct CssStyle<'i>(pub &'i str);

impl<'i> CssStyle<'i> {
    /// The declarations that parse; the others are skipped.
    pub fn parse_inline(&self) -> (r: Vec<BevyPropertyDeclaration>)
        ensures
            forall|k: int| 0 <= k < r@.len() ==> (#[trigger] r@[k]).valid(),
            r@ == parsed_only(declarations_from(css_tokens(self.0@), 0, 0)),
    {
        let toks = tokenize(self.0);
        BevyPropertyListParser::parse_with(&toks)
    }

    /// The default style with the declarations applied in order.
    pub fn to_style(&self, context: &CssContext) -> (r: Style)
        requires
            context.wf(),
        ensures
            r == apply_all(Style::default_spec(), parsed_only(declarations_from(css_tokens(self.0@), 0, 0)), *context),
    {
        let decls = self.parse_inline();
        let mut style = Style::default();
        apply_declarations(&decls, context, &mut style);
        style
    }

    /// The default colour with the `color` declarations applied in order.
    pub fn to_ui_color(&self) -> (r: UiColor)
        ensures
            r == color_all(UiColor::default_spec(), parsed_only(declarations_from(css_tokens(self.0@), 0, 0))),
    {
        let decls = self.parse_inline();
        let mut color = UiColor::default();
        apply_colors(&decls, &mut color);
        color
    }
}

} // verus!
