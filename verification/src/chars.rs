//! Character classes of the lexical grammar.

use vstd::prelude::*;

verus! {

/// Blank characters within a line: space, tab and form feed.
pub open spec fn is_blank(c: char) -> bool {
    c == ' ' || c == '\t' || c == '\u{c}'
}

/// The classes of digits that a numeric literal is built from.
#[derive(Clone, Copy, Debug, PartialEq, Eq, Structural)]
pub enum DigitClass {
    /// `0` to `9`.
    Decimal,
    /// `0` to `9`, `a` to `f`, `A` to `F`.
    Hex,
    /// `0` to `7`.
    Octal,
    /// `0` and `1`.
    Binary,
    /// `0` alone.
    Zero,
}

/// Whether `c` is a digit of `class`.
pub open spec fn in_class(c: char, class: DigitClass) -> bool {
    match class {
        DigitClass::Decimal => '0' <= c <= '9',
        DigitClass::Hex => '0' <= c <= '9' || 'a' <= c <= 'f' || 'A' <= c <= 'F',
        DigitClass::Octal => '0' <= c <= '7',
        DigitClass::Binary => c == '0' || c == '1',
        DigitClass::Zero => c == '0',
    }
}

/// Whether `c` is a decimal digit.
pub open spec fn is_digit(c: char) -> bool {
    in_class(c, DigitClass::Decimal)
}

/// Whether a name may begin with `c`: an ASCII letter, the underscore, or
/// any character outside ASCII.
pub open spec fn is_name_start(c: char) -> bool {
    'a' <= c <= 'z' || 'A' <= c <= 'Z' || c == '_' || c >= '\u{80}'
}

/// Whether a name may go on with `c`.
pub open spec fn is_name_char(c: char) -> bool {
    is_name_start(c) || is_digit(c)
}

/// Whether `c` is a quotation mark.
pub open spec fn is_quote(c: char) -> bool {
    c == '\'' || c == '"'
}

/// Whether `c` alone is a string prefix.
pub open spec fn is_prefix_letter(c: char) -> bool {
    c == 'r' || c == 'R' || c == 'u' || c == 'U' || c == 'b' || c == 'B' || c == 'f' || c == 'F'
}

/// Whether `a` followed by `b` is a string prefix: `r` with `b` or `f`, in
/// either order and any case.
pub open spec fn is_prefix_pair(a: char, b: char) -> bool {
    let raw_a = a == 'r' || a == 'R';
    let raw_b = b == 'r' || b == 'R';
    let other_a = a == 'b' || a == 'B' || a == 'f' || a == 'F';
    let other_b = b == 'b' || b == 'B' || b == 'f' || b == 'F';
    (raw_a && other_b) || (other_a && raw_b)
}

/// Computes `is_blank`.
pub fn blank(c: char) -> (r: bool)
    ensures
        r == is_blank(c),
{
    c == ' ' || c == '\t' || c == '\u{c}'
}

/// Computes `in_class`.
pub fn class_has(c: char, class: DigitClass) -> (r: bool)
    ensures
        r == in_class(c, class),
{
    match class {
        DigitClass::Decimal => '0' <= c && c <= '9',
        DigitClass::Hex => ('0' <= c && c <= '9') || ('a' <= c && c <= 'f') || ('A' <= c && c
            <= 'F'),
        DigitClass::Octal => '0' <= c && c <= '7',
        DigitClass::Binary => c == '0' || c == '1',
        DigitClass::Zero => c == '0',
    }
}

/// Computes `is_digit`.
pub fn digit(c: char) -> (r: bool)
    ensures
        r == is_digit(c),
{
    '0' <= c && c <= '9'
}

/// Computes `is_name_start`.
pub fn name_start(c: char) -> (r: bool)
    ensures
        r == is_name_start(c),
{
    ('a' <= c && c <= 'z') || ('A' <= c && c <= 'Z') || c == '_' || c >= '\u{80}'
}

/// Computes `is_name_char`.
pub fn name_char(c: char) -> (r: bool)
    ensures
        r == is_name_char(c),
{
    name_start(c) || digit(c)
}

/// Computes `is_quote`.
pub fn quote(c: char) -> (r: bool)
    ensures
        r == is_quote(c),
{
    c == '\'' || c == '"'
}

/// Computes `is_prefix_letter`.
pub fn prefix_letter(c: char) -> (r: bool)
    ensures
        r == is_prefix_letter(c),
{
    c == 'r' || c == 'R' || c == 'u' || c == 'U' || c == 'b' || c == 'B' || c == 'f' || c == 'F'
}

/// Computes `is_prefix_pair`.
pub fn prefix_pair(a: char, b: char) -> (r: bool)
    ensures
        r == is_prefix_pair(a, b),
{
    let raw_a = a == 'r' || a == 'R';
    let raw_b = b == 'r' || b == 'R';
    let other_a = a == 'b' || a == 'B' || a == 'f' || a == 'F';
    let other_b = b == 'b' || b == 'B' || b == 'f' || b == 'F';
    (raw_a && other_b) || (other_a && raw_b)
}

} // verus!
