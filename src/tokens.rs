//! The token layer: `cssparser` reads the text, and its tokens are turned into
//! plain [`RawToken`] trees that the rest of the library parses.

use vstd::prelude::*;
use cssparser::{ParseError, Parser, ParserInput, SourceLocation, Token};

verus! {

/// `cssparser::Parser`, the tokenizer's state, carried through unopened.
#[verifier::external_type_specification]
#[verifier::external_body]
pub struct ExParser<'i, 't>(Parser<'i, 't>);

/// `cssparser::SourceLocation`: the line (from 0) and column (from 1) of a place in the
/// text, two public `u32` fields.
#[verifier::external_type_specification]
pub struct ExSourceLocation(SourceLocation);

/// `cssparser::Token`, read only by [`tok_of`].
#[verifier::external_type_specification]
#[verifier::external_body]
pub struct ExToken<'a>(Token<'a>);

/// The kinds of token that the grammar of this library reads.
#[derive(Clone, Debug, PartialEq, Eq)]
pub enum Tok {
    Ident(String),
    AtKeyword(String),
    /// `#name` where `name` is a valid identifier.
    IdHash(String),
    Delim(char),
    Number,
    Percentage,
    /// A number with a unit; the unit as written.
    Dimension(String),
    /// `name(`, the start of a function block.
    Function(String),
    /// Whitespace or a comment.
    WhiteSpace,
    Colon,
    Semicolon,
    Comma,
    CurlyBlock,
    Other,
}

impl Tok {
    pub open spec fn opens_block(&self) -> bool {
        self is Function || self is CurlyBlock
    }

    /// A copy of the token.
    pub fn clone_tok(&self) -> (r: Tok)
        ensures
            r == *self,
    {
        match self {
            Tok::Ident(s) => Tok::Ident(s.clone()),
            Tok::AtKeyword(s) => Tok::AtKeyword(s.clone()),
            Tok::IdHash(s) => Tok::IdHash(s.clone()),
            Tok::Delim(c) => Tok::Delim(*c),
            Tok::Number => Tok::Number,
            Tok::Percentage => Tok::Percentage,
            Tok::Dimension(s) => Tok::Dimension(s.clone()),
            Tok::Function(s) => Tok::Function(s.clone()),
            Tok::WhiteSpace => Tok::WhiteSpace,
            Tok::Colon => Tok::Colon,
            Tok::Semicolon => Tok::Semicolon,
            Tok::Comma => Tok::Comma,
            Tok::CurlyBlock => Tok::CurlyBlock,
            Tok::Other => Tok::Other,
        }
    }

    pub fn is_whitespace(&self) -> (r: bool)
        ensures
            r == (*self is WhiteSpace),
    {
        match self {
            Tok::WhiteSpace => true,
            _ => false,
        }
    }

    pub fn is_semicolon(&self) -> (r: bool)
        ensures
            r == (*self is Semicolon),
    {
        match self {
            Tok::Semicolon => true,
            _ => false,
        }
    }

    pub fn is_curly_block(&self) -> (r: bool)
        ensures
            r == (*self is CurlyBlock),
    {
        match self {
            Tok::CurlyBlock => true,
            _ => false,
        }
    }

    pub fn is_comma(&self) -> (r: bool)
        ensures
            r == (*self is Comma),
    {
        match self {
            Tok::Comma => true,
            _ => false,
        }
    }

    pub fn is_block(&self) -> (r: bool)
        ensures
            r == self.opens_block(),
    {
        match self {
            Tok::Function(_) | Tok::CurlyBlock => true,
            _ => false,
        }
    }
}

/// A token with its source text; a block token also holds the tokens inside it.
#[derive(Debug)]
pub struct RawToken {
    pub tok: Tok,
    /// The text the token was read from; for a block, all of it up to the closing.
    pub text: String,
    pub block: Vec<RawToken>,
    /// Where the token begins: line from 0, column from 1.
    pub line: u32,
    pub column: u32,
}

/// A token of a value: its kind and its text, without the tokens of a block.
#[derive(Debug)]
pub struct ValueToken {
    pub tok: Tok,
    pub text: String,
}

/// The part of a token that values are read from.
pub open spec fn value_token(t: RawToken) -> ValueToken {
    ValueToken { tok: t.tok, text: t.text }
}

impl RawToken {
    pub fn to_value_token(&self) -> (r: ValueToken)
        ensures
            r == value_token(*self),
    {
        ValueToken { tok: self.tok.clone_tok(), text: self.text.clone() }
    }
}

/// Relies on the variants of `cssparser::Token`: each kind of token this library reads
/// becomes the [`Tok`] of the same name, with the identifier, unit or name it carries;
/// comments count as whitespace; every other token, `(` and `[` blocks among them, is `Other`.
#[verifier::external_body]
fn tok_of(t: &Token) -> Tok {
    match t {
        Token::Ident(s) => Tok::Ident(s.to_string()),
        Token::AtKeyword(s) => Tok::AtKeyword(s.to_string()),
        Token::IDHash(s) => Tok::IdHash(s.to_string()),
        Token::Delim(c) => Tok::Delim(*c),
        Token::Number { .. } => Tok::Number,
        Token::Percentage { .. } => Tok::Percentage,
        Token::Dimension { unit, .. } => Tok::Dimension(unit.to_string()),
        Token::Function(s) => Tok::Function(s.to_string()),
        Token::WhiteSpace(_) | Token::Comment(_) => Tok::WhiteSpace,
        Token::Colon => Tok::Colon, Token::Semicolon => Tok::Semicolon, Token::Comma => Tok::Comma,
        Token::CurlyBracketBlock => Tok::CurlyBlock,
        _ => Tok::Other,
    }
}

/// Relies on `Parser::next_including_whitespace_and_comments` for the next token (`None`
/// at the end), on `Parser::parse_nested_block` right after a token that opens a block, which
/// hands the block to [`collect`] and moves past its end, and on `Parser::position`,
/// `Parser::current_source_location` and `Parser::slice_from` for the token's text, from
/// where it begins, and for its line and column. Nothing is claimed of the result.
#[verifier::external_body]
fn next_token<'i, 't>(p: &mut Parser<'i, 't>, budget: usize) -> Option<(Token<'i>, Vec<RawToken>, String, SourceLocation)> {
    let start = p.position();
    let location = p.current_source_location();
    let token = p.next_including_whitespace_and_comments().ok()?.clone();
    let block = match token {
        Token::Function(_) | Token::CurlyBracketBlock | Token::ParenthesisBlock | Token::SquareBracketBlock =>
            p.parse_nested_block(|q| Ok::<_, ParseError<'i, ()>>(collect(q, budget))).unwrap_or_default(),
        _ => Vec::new(),
    };
    Some((token, block, p.slice_from(start).to_owned(), location))
}

/// Reads at most `budget` tokens from `p`; the tokens of each block are read into the
/// token that opens it.
pub fn collect<'i, 't>(p: &mut Parser<'i, 't>, budget: usize) -> (r: Vec<RawToken>)
    ensures
        r@.len() <= budget,
{
    let mut out: Vec<RawToken> = Vec::new();
    let mut n: usize = 0;
    while n < budget
        invariant
            out@.len() == n,
            n <= budget,
        decreases budget - n,
    {
        let (token, block, text, location) = match next_token(p, budget) {
            Some(x) => x,
            None => break,
        };
        let tok = tok_of(&token);
        out.push(RawToken { tok, text, block, line: location.line, column: location.column });
        n = n + 1;
    }
    out
}

/// The tokens that `cssparser` reads from a text, blocks nested inside the tokens that
/// open them.
pub uninterp spec fn css_tokens(s: Seq<char>) -> Seq<RawToken>;

/// Relies on `Parser::parse_entirely` over a new `Parser` on `s`: [`collect`] reads all of
/// its tokens (there are no more tokens than bytes). The tokens depend on `s` alone.
#[verifier::external_body]
pub fn tokenize(s: &str) -> (r: Vec<RawToken>)
    ensures
        r@ == css_tokens(s@),
{
    let mut input = ParserInput::new(s);
    let mut parser = Parser::new(&mut input);
    parser.parse_entirely(|p| Ok::<_, ParseError<()>>(collect(p, s.len()))).unwrap_or_default()
}

} // verus!
