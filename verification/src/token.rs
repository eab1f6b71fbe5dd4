//! Tokens, token sets and tokenizing errors.

use crate::kinds::{TokenKind, VersionProfile};
use crate::registry::code_of;
use crate::text::{column_of, line_of, line_text, position_of};
use std::collections::HashMap;
use vstd::prelude::*;

verus! {

/// One token of a source text.
#[derive(Debug)]
pub struct TokenInfo {
    /// The numeric code of the token's kind under the profile that the
    /// text was tokenized with.
    pub token_type: usize,
    /// The text of the token; empty for a token that stands for no text.
    pub string: String,
    /// The (line, column) at which the token begins.
    pub start: (usize, usize),
    /// The (line, column) behind the token.
    pub end: (usize, usize),
    /// The physical line on which the token begins.
    pub line: String,
    /// The display name of the token's kind.
    pub token_text: String,
    /// The kind of the token.
    pub kind: TokenKind,
}

/// What a token holds, as mathematical values.
pub struct TokenModel {
    pub kind: TokenKind,
    pub token_type: int,
    pub token_text: Seq<char>,
    pub string: Seq<char>,
    pub start: (nat, nat),
    pub end: (nat, nat),
    pub line: Seq<char>,
}

impl View for TokenInfo {
    type V = TokenModel;

    open spec fn view(&self) -> TokenModel {
        TokenModel {
            kind: self.kind,
            token_type: self.token_type as int,
            token_text: self.token_text@,
            string: self.string@,
            start: (self.start.0 as nat, self.start.1 as nat),
            end: (self.end.0 as nat, self.end.1 as nat),
            line: self.line@,
        }
    }
}

impl Clone for TokenInfo {
    fn clone(&self) -> (r: Self)
        ensures
            r@ == self@,
    {
        TokenInfo {
            token_type: self.token_type,
            string: self.string.clone(),
            start: self.start,
            end: self.end,
            line: self.line.clone(),
            token_text: self.token_text.clone(),
            kind: self.kind,
        }
    }
}

/// The models of the tokens of `tokens`, in order.
pub open spec fn models(tokens: Seq<TokenInfo>) -> Seq<TokenModel> {
    Seq::new(tokens.len(), |i: int| tokens[i]@)
}

/// A token as a stretch of the source text: its kind and the offsets at
/// which it begins and ends. The encoding token, which stands for no
/// text, has both offsets 0.
pub struct Lexeme {
    pub kind: TokenKind,
    pub start: int,
    pub end: int,
}

/// The token that the lexeme `x` of the text `s` is, under `profile` and
/// with `encoding` as the name of the text's encoding.
///
/// The encoding token has the encoding's name as its text, the position
/// (0, 0) and an empty line. Every other token has the stretch of `s`
/// between its offsets as its text, the positions of its offsets, and the
/// physical line on which it begins.
pub open spec fn token_of(
    s: Seq<char>,
    profile: VersionProfile,
    encoding: Seq<char>,
    x: Lexeme,
) -> TokenModel {
    if x.kind == TokenKind::Encoding {
        TokenModel {
            kind: x.kind,
            token_type: code_of(x.kind, profile) as int,
            token_text: x.kind.display_name(),
            string: encoding,
            start: (0, 0),
            end: (0, 0),
            line: Seq::empty(),
        }
    } else {
        TokenModel {
            kind: x.kind,
            token_type: code_of(x.kind, profile) as int,
            token_text: x.kind.display_name(),
            string: s.subrange(x.start, x.end),
            start: position_of(s, x.start),
            end: position_of(s, x.end),
            line: line_text(s, x.start),
        }
    }
}

/// The tokens that the lexemes `xs` are.
pub open spec fn tokens_of(
    s: Seq<char>,
    profile: VersionProfile,
    encoding: Seq<char>,
    xs: Seq<Lexeme>,
) -> Seq<TokenModel> {
    Seq::new(xs.len(), |i: int| token_of(s, profile, encoding, xs[i]))
}

/// The conditions that end a tokenizing pass.
#[derive(Clone, Copy, Debug, PartialEq, Eq, Structural)]
pub enum ErrorKind {
    /// The text declares an encoding that contradicts its byte order
    /// mark.
    EncodingError,
    /// A line is narrower than the innermost indentation level and as
    /// wide as no outer one.
    IndentationError,
    /// A closing bracket closes no open bracket or one of another shape,
    /// or the text ends within brackets.
    BracketError,
}

/// A failed pass: the condition and the position at which it was found.
#[derive(Clone, Copy, Debug, PartialEq, Eq, Structural)]
pub struct TokenizeError {
    pub kind: ErrorKind,
    pub line: usize,
    pub column: usize,
}

/// A failed pass, with the offset at which the condition was found.
pub struct Failure {
    pub kind: ErrorKind,
    pub at: int,
}

/// Whether the error `e` reports the failure `f` of the text `s`: the
/// same condition, at the position of the failure's offset.
pub open spec fn reports(e: TokenizeError, s: Seq<char>, f: Failure) -> bool {
    &&& e.kind == f.kind
    &&& e.line == line_of(s, f.at)
    &&& e.column == column_of(s, f.at)
}

/// The tokens of a source text together with the table that names their
/// numeric codes.
#[derive(Debug)]
pub struct TokenSet {
    /// The tokens, in the order of the text.
    pub tokens: Vec<TokenInfo>,
    /// The display name of each numeric code.
    pub token_types: HashMap<usize, String>,
}

impl TokenSet {
    /// The display name of the code `token_type`, if the table has it.
    pub fn get_token_type(&self, token_type: usize) -> (r: Option<&String>)
        ensures
            match r {
                Some(name) => self.token_types@.contains_key(token_type) && *name
                    == self.token_types@[token_type],
                None => !self.token_types@.contains_key(token_type),
            },
    {
        self.token_types.get(&token_type)
    }
}

} // verus!
