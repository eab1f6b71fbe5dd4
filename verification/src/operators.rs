//! The operator table: the operators and delimiters of each profile, and
//! the longest one that begins at a given offset.

use crate::kinds::{TokenKind, VersionProfile};
use vstd::prelude::*;

verus! {

/// The kind of the operator that is the one character `a`, if it is one.
pub open spec fn operator_of_one(a: char) -> Option<TokenKind> {
    if a == '(' {
        Some(TokenKind::OpLPar)
    } else if a == ')' {
        Some(TokenKind::OpRPar)
    } else if a == '[' {
        Some(TokenKind::OpLSqb)
    } else if a == ']' {
        Some(TokenKind::OpRSqb)
    } else if a == ':' {
        Some(TokenKind::OpColon)
    } else if a == ',' {
        Some(TokenKind::OpComma)
    } else if a == ';' {
        Some(TokenKind::OpSemi)
    } else if a == '+' {
        Some(TokenKind::OpPlus)
    } else if a == '-' {
        Some(TokenKind::OpMinus)
    } else if a == '*' {
        Some(TokenKind::OpStar)
    } else if a == '/' {
        Some(TokenKind::OpSlash)
    } else if a == '|' {
        Some(TokenKind::OpVBar)
    } else if a == '&' {
        Some(TokenKind::OpAmper)
    } else if a == '<' {
        Some(TokenKind::OpLess)
    } else if a == '>' {
        Some(TokenKind::OpGreater)
    } else if a == '=' {
        Some(TokenKind::OpEqual)
    } else if a == '.' {
        Some(TokenKind::OpDot)
    } else if a == '%' {
        Some(TokenKind::OpPercent)
    } else if a == '{' {
        Some(TokenKind::OpLBrace)
    } else if a == '}' {
        Some(TokenKind::OpRBrace)
    } else if a == '~' {
        Some(TokenKind::OpTilde)
    } else if a == '^' {
        Some(TokenKind::OpCircumflex)
    } else if a == '@' {
        Some(TokenKind::OpAt)
    } else {
        None
    }
}

/// The kind of the operator that is `a` followed by `b`, if the profile
/// has such an operator. `:=` is one under every profile but the first.
pub open spec fn operator_of_two(a: char, b: char, profile: VersionProfile) -> Option<TokenKind> {
    if a == '=' && b == '=' {
        Some(TokenKind::OpEqEqual)
    } else if a == '!' && b == '=' {
        Some(TokenKind::OpNotEqual)
    } else if a == '<' && b == '=' {
        Some(TokenKind::OpLessEqual)
    } else if a == '>' && b == '=' {
        Some(TokenKind::OpGreaterEqual)
    } else if a == '<' && b == '<' {
        Some(TokenKind::OpLeftShift)
    } else if a == '>' && b == '>' {
        Some(TokenKind::OpRightShift)
    } else if a == '*' && b == '*' {
        Some(TokenKind::OpDoubleStar)
    } else if a == '+' && b == '=' {
        Some(TokenKind::OpPlusEqual)
    } else if a == '-' && b == '=' {
        Some(TokenKind::OpMinEqual)
    } else if a == '*' && b == '=' {
        Some(TokenKind::OpStarEqual)
    } else if a == '/' && b == '=' {
        Some(TokenKind::OpSlashEqual)
    } else if a == '%' && b == '=' {
        Some(TokenKind::OpPercentEqual)
    } else if a == '&' && b == '=' {
        Some(TokenKind::OpAmperEqual)
    } else if a == '|' && b == '=' {
        Some(TokenKind::OpVBarEqual)
    } else if a == '^' && b == '=' {
        Some(TokenKind::OpCircumflexEqual)
    } else if a == '/' && b == '/' {
        Some(TokenKind::OpDoubleSlash)
    } else if a == '@' && b == '=' {
        Some(TokenKind::OpAtEqual)
    } else if a == '-' && b == '>' {
        Some(TokenKind::OpRArrow)
    } else if a == ':' && b == '=' && profile != VersionProfile::V37 {
        Some(TokenKind::OpColonEqual)
    } else {
        None
    }
}

/// The kind of the operator that is `a`, `b` and `c` in this order, if it
/// is one.
pub open spec fn operator_of_three(a: char, b: char, c: char) -> Option<TokenKind> {
    if a == '<' && b == '<' && c == '=' {
        Some(TokenKind::OpLeftShiftEqual)
    } else if a == '>' && b == '>' && c == '=' {
        Some(TokenKind::OpRightShiftEqual)
    } else if a == '*' && b == '*' && c == '=' {
        Some(TokenKind::OpDoubleStarEqual)
    } else if a == '/' && b == '/' && c == '=' {
        Some(TokenKind::OpDoubleSlashEqual)
    } else if a == '.' && b == '.' && c == '.' {
        Some(TokenKind::OpEllipsis)
    } else {
        None
    }
}

/// The longest operator of the profile that begins at `i`: its kind and
/// its length, which is 1, 2 or 3.
pub open spec fn operator_at(s: Seq<char>, i: int, profile: VersionProfile) -> Option<
    (TokenKind, int),
> {
    if 0 <= i && i + 2 < s.len() && operator_of_three(s[i], s[i + 1], s[i + 2]) is Some {
        Some((operator_of_three(s[i], s[i + 1], s[i + 2])->0, 3))
    } else if 0 <= i && i + 1 < s.len() && operator_of_two(s[i], s[i + 1], profile) is Some {
        Some((operator_of_two(s[i], s[i + 1], profile)->0, 2))
    } else if 0 <= i < s.len() && operator_of_one(s[i]) is Some {
        Some((operator_of_one(s[i])->0, 1))
    } else {
        None
    }
}

/// Whether `kind` is an opening bracket.
pub open spec fn is_opener(kind: TokenKind) -> bool {
    kind == TokenKind::OpLPar || kind == TokenKind::OpLSqb || kind == TokenKind::OpLBrace
}

/// Whether `kind` is a closing bracket.
pub open spec fn is_closer(kind: TokenKind) -> bool {
    kind == TokenKind::OpRPar || kind == TokenKind::OpRSqb || kind == TokenKind::OpRBrace
}

/// Whether the closing bracket `close` closes the opening bracket `open`.
pub open spec fn closes(open: TokenKind, close: TokenKind) -> bool {
    (open == TokenKind::OpLPar && close == TokenKind::OpRPar) || (open == TokenKind::OpLSqb
        && close == TokenKind::OpRSqb) || (open == TokenKind::OpLBrace && close
        == TokenKind::OpRBrace)
}

/// Every operator has an operator's kind, and an operator of one character
/// is not a line feed, nor a character that begins a name, a number or a
/// string.
pub proof fn lemma_operator_at(s: Seq<char>, i: int, profile: VersionProfile)
    ensures
        operator_at(s, i, profile) matches Some((kind, len)) ==> kind.is_operator() && 1 <= len
            <= 3 && 0 <= i && i + len <= s.len() && (forall|k: int|
            i <= k < i + len ==> #[trigger] s[k] != '\n' && s[k] != '\r'),
{
}

/// Computes `operator_of_one`.
pub fn one_char_operator(a: char) -> (r: Option<TokenKind>)
    ensures
        r == operator_of_one(a),
{
    if a == '(' {
        Some(TokenKind::OpLPar)
    } else if a == ')' {
        Some(TokenKind::OpRPar)
    } else if a == '[' {
        Some(TokenKind::OpLSqb)
    } else if a == ']' {
        Some(TokenKind::OpRSqb)
    } else if a == ':' {
        Some(TokenKind::OpColon)
    } else if a == ',' {
        Some(TokenKind::OpComma)
    } else if a == ';' {
        Some(TokenKind::OpSemi)
    } else if a == '+' {
        Some(TokenKind::OpPlus)
    } else if a == '-' {
        Some(TokenKind::OpMinus)
    } else if a == '*' {
        Some(TokenKind::OpStar)
    } else if a == '/' {
        Some(TokenKind::OpSlash)
    } else if a == '|' {
        Some(TokenKind::OpVBar)
    } else if a == '&' {
        Some(TokenKind::OpAmper)
    } else if a == '<' {
        Some(TokenKind::OpLess)
    } else if a == '>' {
        Some(TokenKind::OpGreater)
    } else if a == '=' {
        Some(TokenKind::OpEqual)
    } else if a == '.' {
        Some(TokenKind::OpDot)
    } else if a == '%' {
        Some(TokenKind::OpPercent)
    } else if a == '{' {
        Some(TokenKind::OpLBrace)
    } else if a == '}' {
        Some(TokenKind::OpRBrace)
    } else if a == '~' {
        Some(TokenKind::OpTilde)
    } else if a == '^' {
        Some(TokenKind::OpCircumflex)
    } else if a == '@' {
        Some(TokenKind::OpAt)
    } else {
        None
    }
}

/// Computes `operator_of_two`.
pub fn two_char_operator(a: char, b: char, profile: VersionProfile) -> (r: Option<TokenKind>)
    ensures
        r == operator_of_two(a, b, profile),
{
    if a == '=' && b == '=' {
        Some(TokenKind::OpEqEqual)
    } else if a == '!' && b == '=' {
        Some(TokenKind::OpNotEqual)
    } else if a == '<' && b == '=' {
        Some(TokenKind::OpLessEqual)
    } else if a == '>' && b == '=' {
        Some(TokenKind::OpGreaterEqual)
    } else if a == '<' && b == '<' {
        Some(TokenKind::OpLeftShift)
    } else if a == '>' && b == '>' {
        Some(TokenKind::OpRightShift)
    } else if a == '*' && b == '*' {
        Some(TokenKind::OpDoubleStar)
    } else if a == '+' && b == '=' {
        Some(TokenKind::OpPlusEqual)
    } else if a == '-' && b == '=' {
        Some(TokenKind::OpMinEqual)
    } else if a == '*' && b == '=' {
        Some(TokenKind::OpStarEqual)
    } else if a == '/' && b == '=' {
        Some(TokenKind::OpSlashEqual)
    } else if a == '%' && b == '=' {
        Some(TokenKind::OpPercentEqual)
    } else if a == '&' && b == '=' {
        Some(TokenKind::OpAmperEqual)
    } else if a == '|' && b == '=' {
        Some(TokenKind::OpVBarEqual)
    } else if a == '^' && b == '=' {
        Some(TokenKind::OpCircumflexEqual)
    } else if a == '/' && b == '/' {
        Some(TokenKind::OpDoubleSlash)
    } else if a == '@' && b == '=' {
        Some(TokenKind::OpAtEqual)
    } else if a == '-' && b == '>' {
        Some(TokenKind::OpRArrow)
    } else if a == ':' && b == '=' && profile != VersionProfile::V37 {
        Some(TokenKind::OpColonEqual)
    } else {
        None
    }
}

/// Computes `operator_of_three`.
pub fn three_char_operator(a: char, b: char, c: char) -> (r: Option<TokenKind>)
    ensures
        r == operator_of_three(a, b, c),
{
    if a == '<' && b == '<' && c == '=' {
        Some(TokenKind::OpLeftShiftEqual)
    } else if a == '>' && b == '>' && c == '=' {
        Some(TokenKind::OpRightShiftEqual)
    } else if a == '*' && b == '*' && c == '=' {
        Some(TokenKind::OpDoubleStarEqual)
    } else if a == '/' && b == '/' && c == '=' {
        Some(TokenKind::OpDoubleSlashEqual)
    } else if a == '.' && b == '.' && c == '.' {
        Some(TokenKind::OpEllipsis)
    } else {
        None
    }
}

/// Computes `operator_at`: maximal munch over the operator table.
pub fn scan_operator(src: &[char], i: usize, profile: VersionProfile) -> (r: Option<
    (TokenKind, usize),
>)
    requires
        i <= src@.len(),
    ensures
        match r {
            Some((kind, len)) => operator_at(src@, i as int, profile) == Some((kind, len as int)),
            None => operator_at(src@, i as int, profile) is None,
        },
{
    let n: usize = src.len();
    if n - i > 2 {
        match three_char_operator(src[i], src[i + 1], src[i + 2]) {
            Some(kind) => {
                return Some((kind, 3));
            },
            None => {},
        }
    }
    if n - i > 1 {
        match two_char_operator(src[i], src[i + 1], profile) {
            Some(kind) => {
                return Some((kind, 2));
            },
            None => {},
        }
    }
    if n - i > 0 {
        match one_char_operator(src[i]) {
            Some(kind) => {
                return Some((kind, 1));
            },
            None => {},
        }
    }
    None
}

/// Computes `closes`.
pub fn bracket_closes(open: TokenKind, close: TokenKind) -> (r: bool)
    ensures
        r == closes(open, close),
{
    match (open, close) {
        (TokenKind::OpLPar, TokenKind::OpRPar) => true,
        (TokenKind::OpLSqb, TokenKind::OpRSqb) => true,
        (TokenKind::OpLBrace, TokenKind::OpRBrace) => true,
        _ => false,
    }
}

/// Computes `is_opener`.
pub fn opener(kind: TokenKind) -> (r: bool)
    ensures
        r == is_opener(kind),
{
    match kind {
        TokenKind::OpLPar | TokenKind::OpLSqb | TokenKind::OpLBrace => true,
        _ => false,
    }
}

/// Computes `is_closer`.
pub fn closer(kind: TokenKind) -> (r: bool)
    ensures
        r == is_closer(kind),
{
    match kind {
        TokenKind::OpRPar | TokenKind::OpRSqb | TokenKind::OpRBrace => true,
        _ => false,
    }
}

} // verus!
