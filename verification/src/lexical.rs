//! The lexical classifier: the shape and the extent of the token that
//! begins at a given offset of the source text.

use crate::chars::{
    blank, class_has, digit, in_class, is_blank, is_digit, is_name_char, is_name_start,
    name_char, name_start, DigitClass,
};
use crate::kinds::{TokenKind, VersionProfile};
use crate::operators::{lemma_operator_at, operator_at, scan_operator};
use crate::strings::{lemma_string_end, scan_string, string_end};
use vstd::prelude::*;

verus! {

/// The offset of the first character at or after `i` that is not blank.
pub open spec fn skip_blank(s: Seq<char>, i: int) -> int
    decreases s.len() - i,
{
    if 0 <= i < s.len() && is_blank(s[i]) {
        skip_blank(s, i + 1)
    } else {
        i
    }
}

/// The length of the line break at `i`: 1 for a line feed, 2 for a
/// carriage return with a line feed behind it, 0 where there is none.
pub open spec fn newline_len(s: Seq<char>, i: int) -> int {
    if 0 <= i < s.len() && s[i] == '\n' {
        1
    } else if 0 <= i && i + 1 < s.len() && s[i] == '\r' && s[i + 1] == '\n' {
        2
    } else {
        0
    }
}

/// The offset at which a comment that holds offset `i` ends: the next line
/// break at or after `i`, or the end of the text.
pub open spec fn comment_end(s: Seq<char>, i: int) -> int
    decreases s.len() - i,
{
    if 0 <= i < s.len() && newline_len(s, i) == 0 {
        comment_end(s, i + 1)
    } else {
        i
    }
}

/// The offset at which a run of name characters that holds offset `i`
/// ends.
pub open spec fn name_end(s: Seq<char>, i: int) -> int
    decreases s.len() - i,
{
    if 0 <= i < s.len() && is_name_char(s[i]) {
        name_end(s, i + 1)
    } else {
        i
    }
}

/// The offset at which a run of digits of `class` ends that goes on at
/// `i`, where single underscores may stand between two digits: the
/// longest run of steps from `i`, each a digit or an underscore with a
/// digit behind it.
pub open spec fn digits_end(s: Seq<char>, i: int, class: DigitClass) -> int
    decreases s.len() - i,
{
    if 0 <= i < s.len() && in_class(s[i], class) {
        digits_end(s, i + 1, class)
    } else if 0 <= i && i + 1 < s.len() && s[i] == '_' && in_class(s[i + 1], class) {
        digits_end(s, i + 2, class)
    } else {
        i
    }
}

/// The offset behind the exponent at `i`, or `i` where there is none: `e`
/// or `E`, an optional sign, and decimal digits.
pub open spec fn exponent_end(s: Seq<char>, i: int) -> int {
    if 0 <= i < s.len() && (s[i] == 'e' || s[i] == 'E') {
        let j = if i + 1 < s.len() && (s[i + 1] == '+' || s[i + 1] == '-') {
            i + 2
        } else {
            i + 1
        };
        if j < s.len() && is_digit(s[j]) {
            digits_end(s, j + 1, DigitClass::Decimal)
        } else {
            i
        }
    } else {
        i
    }
}

/// The offset behind the imaginary suffix at `i`, or `i` where there is
/// none.
pub open spec fn imaginary_end(s: Seq<char>, i: int) -> int {
    if 0 <= i < s.len() && (s[i] == 'j' || s[i] == 'J') {
        i + 1
    } else {
        i
    }
}

/// The offset behind the integer with a radix prefix at `i`, or `i` where
/// there is none: `0`, the letter of the radix, and digits of that radix.
pub open spec fn radix_end(s: Seq<char>, i: int) -> int {
    if 0 <= i && i + 1 < s.len() && s[i] == '0' {
        let c = s[i + 1];
        let e = if c == 'x' || c == 'X' {
            digits_end(s, i + 2, DigitClass::Hex)
        } else if c == 'o' || c == 'O' {
            digits_end(s, i + 2, DigitClass::Octal)
        } else if c == 'b' || c == 'B' {
            digits_end(s, i + 2, DigitClass::Binary)
        } else {
            i
        };
        if e > i + 2 {
            e
        } else {
            i
        }
    } else {
        i
    }
}

/// The offset behind the numeric literal that begins at `i`, or `i` where
/// none begins there.
///
/// A literal that begins with a digit is, in this order of preference: a
/// decimal run with a point, an optional fraction, an optional exponent
/// and an optional imaginary suffix; a decimal run with an exponent and an
/// optional suffix; a decimal run with a suffix; an integer with a radix
/// prefix; a run of zeros; a decimal run that does not begin with zero. A
/// literal that begins with a point has a digit behind it.
pub open spec fn number_end(s: Seq<char>, i: int) -> int {
    if !(0 <= i < s.len()) {
        i
    } else if is_digit(s[i]) {
        let d = digits_end(s, i + 1, DigitClass::Decimal);
        if d < s.len() && s[d] == '.' {
            let f = if d + 1 < s.len() && is_digit(s[d + 1]) {
                digits_end(s, d + 2, DigitClass::Decimal)
            } else {
                d + 1
            };
            imaginary_end(s, exponent_end(s, f))
        } else if exponent_end(s, d) > d {
            imaginary_end(s, exponent_end(s, d))
        } else if imaginary_end(s, d) > d {
            d + 1
        } else if s[i] == '0' {
            if radix_end(s, i) > i {
                radix_end(s, i)
            } else {
                digits_end(s, i + 1, DigitClass::Zero)
            }
        } else {
            d
        }
    } else if s[i] == '.' && i + 1 < s.len() && is_digit(s[i + 1]) {
        imaginary_end(s, exponent_end(s, digits_end(s, i + 2, DigitClass::Decimal)))
    } else {
        i
    }
}

/// Skipping blanks moves forward over blanks alone, stays within the
/// text, and stops at a character that is not blank.
pub proof fn lemma_skip_blank(s: Seq<char>, i: int)
    requires
        0 <= i <= s.len(),
    ensures
        i <= skip_blank(s, i) <= s.len(),
        forall|k: int| i <= k < skip_blank(s, i) ==> is_blank(#[trigger] s[k]),
        skip_blank(s, i) < s.len() ==> !is_blank(s[skip_blank(s, i)]),
    decreases s.len() - i,
{
    if i < s.len() && is_blank(s[i]) {
        lemma_skip_blank(s, i + 1);
    }
}

/// A comment holds no line feed and ends at a line break or at the end
/// of the text.
pub proof fn lemma_comment_end(s: Seq<char>, i: int)
    requires
        0 <= i <= s.len(),
    ensures
        i <= comment_end(s, i) <= s.len(),
        forall|k: int| i <= k < comment_end(s, i) ==> #[trigger] s[k] != '\n',
        comment_end(s, i) < s.len() ==> newline_len(s, comment_end(s, i)) > 0,
    decreases s.len() - i,
{
    if i < s.len() && newline_len(s, i) == 0 {
        lemma_comment_end(s, i + 1);
    }
}

/// A name ends within the text and holds name characters alone.
pub proof fn lemma_name_end(s: Seq<char>, i: int)
    requires
        0 <= i <= s.len(),
    ensures
        i <= name_end(s, i) <= s.len(),
        forall|k: int| i <= k < name_end(s, i) ==> is_name_char(#[trigger] s[k]),
    decreases s.len() - i,
{
    if i < s.len() && is_name_char(s[i]) {
        lemma_name_end(s, i + 1);
    }
}

/// A run of digits moves forward, stays within the text where it began
/// within it, and holds no line feed.
pub proof fn lemma_digits_end(s: Seq<char>, i: int, class: DigitClass)
    requires
        0 <= i,
    ensures
        i <= digits_end(s, i, class),
        digits_end(s, i, class) <= s.len() || digits_end(s, i, class) == i,
        forall|k: int| i <= k < digits_end(s, i, class) ==> #[trigger] s[k] != '\n',
    decreases s.len() - i,
{
    if i < s.len() && in_class(s[i], class) {
        lemma_digits_end(s, i + 1, class);
    } else if i + 1 < s.len() && s[i] == '_' && in_class(s[i + 1], class) {
        lemma_digits_end(s, i + 2, class);
    }
}

/// A numeric literal lies within the text and holds no line feed.
pub proof fn lemma_number_end(s: Seq<char>, i: int)
    requires
        0 <= i <= s.len(),
    ensures
        i <= number_end(s, i) <= s.len(),
        forall|k: int| i <= k < number_end(s, i) ==> #[trigger] s[k] != '\n',
{
    if i < s.len() {
        lemma_digits_end(s, i + 1, DigitClass::Decimal);
        lemma_digits_end(s, i + 1, DigitClass::Zero);
        lemma_digits_end(s, i + 2, DigitClass::Decimal);
        lemma_digits_end(s, i + 2, DigitClass::Hex);
        lemma_digits_end(s, i + 2, DigitClass::Octal);
        lemma_digits_end(s, i + 2, DigitClass::Binary);
        if is_digit(s[i]) {
            let d = digits_end(s, i + 1, DigitClass::Decimal);
            lemma_exponent_end(s, d);
            if d < s.len() && s[d] == '.' {
                if d + 1 < s.len() && is_digit(s[d + 1]) {
                    lemma_digits_end(s, d + 2, DigitClass::Decimal);
                    lemma_exponent_end(s, digits_end(s, d + 2, DigitClass::Decimal));
                } else {
                    lemma_exponent_end(s, d + 1);
                }
            }
        } else if s[i] == '.' && i + 1 < s.len() && is_digit(s[i + 1]) {
            lemma_exponent_end(s, digits_end(s, i + 2, DigitClass::Decimal));
        }
    }
}

/// An exponent lies within the text and holds no line feed.
pub proof fn lemma_exponent_end(s: Seq<char>, i: int)
    requires
        0 <= i <= s.len(),
    ensures
        i <= exponent_end(s, i) <= s.len(),
        forall|k: int| i <= k < exponent_end(s, i) ==> #[trigger] s[k] != '\n',
{
    if i < s.len() && (s[i] == 'e' || s[i] == 'E') {
        let j = if i + 1 < s.len() && (s[i + 1] == '+' || s[i + 1] == '-') {
            i + 2
        } else {
            i + 1
        };
        if j < s.len() && is_digit(s[j]) {
            lemma_digits_end(s, j + 1, DigitClass::Decimal);
        }
    }
}

/// Computes `skip_blank`.
pub fn scan_blank(src: &[char], i: usize) -> (r: usize)
    requires
        i <= src@.len(),
    ensures
        r == skip_blank(src@, i as int),
        i <= r <= src@.len(),
{
    let mut j: usize = i;
    while j < src.len() && blank(src[j])
        invariant
            i <= j <= src@.len(),
            skip_blank(src@, i as int) == skip_blank(src@, j as int),
        decreases src@.len() - j,
    {
        j += 1;
    }
    j
}

/// Computes `newline_len`.
pub fn scan_newline(src: &[char], i: usize) -> (r: usize)
    requires
        i <= src@.len(),
    ensures
        r == newline_len(src@, i as int),
        i + r <= src@.len(),
{
    if i < src.len() && src[i] == '\n' {
        1
    } else if i < src.len() && src.len() - i > 1 && src[i] == '\r' && src[i + 1] == '\n' {
        2
    } else {
        0
    }
}

/// Computes `comment_end`.
pub fn scan_comment(src: &[char], i: usize) -> (r: usize)
    requires
        i <= src@.len(),
    ensures
        r == comment_end(src@, i as int),
        i <= r <= src@.len(),
{
    let mut j: usize = i;
    while j < src.len() && scan_newline(src, j) == 0
        invariant
            i <= j <= src@.len(),
            comment_end(src@, i as int) == comment_end(src@, j as int),
        decreases src@.len() - j,
    {
        j += 1;
    }
    j
}

/// Computes `name_end`.
pub fn scan_name(src: &[char], i: usize) -> (r: usize)
    requires
        i <= src@.len(),
    ensures
        r == name_end(src@, i as int),
        i <= r <= src@.len(),
{
    let mut j: usize = i;
    while j < src.len() && name_char(src[j])
        invariant
            i <= j <= src@.len(),
            name_end(src@, i as int) == name_end(src@, j as int),
        decreases src@.len() - j,
    {
        j += 1;
    }
    j
}

/// Computes `digits_end`.
pub fn scan_digits(src: &[char], i: usize, class: DigitClass) -> (r: usize)
    requires
        i <= src@.len(),
    ensures
        r == digits_end(src@, i as int, class),
        i <= r <= src@.len(),
{
    let n: usize = src.len();
    let mut j: usize = i;
    loop
        invariant
            n == src@.len(),
            i <= j <= n,
            digits_end(src@, i as int, class) == digits_end(src@, j as int, class),
        ensures
            i <= j <= n,
            j == digits_end(src@, i as int, class),
        decreases n - j,
    {
        if j < n && class_has(src[j], class) {
            j += 1;
        } else if j < n && n - j > 1 && src[j] == '_' && class_has(src[j + 1], class) {
            j += 2;
        } else {
            break;
        }
    }
    j
}

/// Computes `exponent_end`.
pub fn scan_exponent(src: &[char], i: usize) -> (r: usize)
    requires
        i <= src@.len(),
    ensures
        r == exponent_end(src@, i as int),
        i <= r <= src@.len(),
{
    let n: usize = src.len();
    if i < n && (src[i] == 'e' || src[i] == 'E') {
        let j: usize = if n - i > 1 && (src[i + 1] == '+' || src[i + 1] == '-') {
            i + 2
        } else {
            i + 1
        };
        if j < n && digit(src[j]) {
            scan_digits(src, j + 1, DigitClass::Decimal)
        } else {
            i
        }
    } else {
        i
    }
}

/// Computes `imaginary_end`.
pub fn scan_imaginary(src: &[char], i: usize) -> (r: usize)
    requires
        i <= src@.len(),
    ensures
        r == imaginary_end(src@, i as int),
        i <= r <= src@.len(),
{
    if i < src.len() && (src[i] == 'j' || src[i] == 'J') {
        i + 1
    } else {
        i
    }
}

/// Computes `radix_end`.
pub fn scan_radix(src: &[char], i: usize) -> (r: usize)
    requires
        i <= src@.len(),
    ensures
        r == radix_end(src@, i as int),
        i <= r <= src@.len(),
{
    let n: usize = src.len();
    if i < n && n - i > 1 && src[i] == '0' {
        let c = src[i + 1];
        let e: usize = if c == 'x' || c == 'X' {
            scan_digits(src, i + 2, DigitClass::Hex)
        } else if c == 'o' || c == 'O' {
            scan_digits(src, i + 2, DigitClass::Octal)
        } else if c == 'b' || c == 'B' {
            scan_digits(src, i + 2, DigitClass::Binary)
        } else {
            i
        };
        if e > i + 2 {
            e
        } else {
            i
        }
    } else {
        i
    }
}

/// Computes `number_end`.
pub fn scan_number(src: &[char], i: usize) -> (r: usize)
    requires
        i <= src@.len(),
    ensures
        r == number_end(src@, i as int),
        i <= r <= src@.len(),
{
    let n: usize = src.len();
    if i >= n {
        i
    } else if digit(src[i]) {
        let d: usize = scan_digits(src, i + 1, DigitClass::Decimal);
        if d < n && src[d] == '.' {
            let f: usize = if n - d > 1 && digit(src[d + 1]) {
                scan_digits(src, d + 2, DigitClass::Decimal)
            } else {
                d + 1
            };
            let e: usize = scan_exponent(src, f);
            scan_imaginary(src, e)
        } else {
            let e: usize = scan_exponent(src, d);
            if e > d {
                scan_imaginary(src, e)
            } else if scan_imaginary(src, d) > d {
                d + 1
            } else if src[i] == '0' {
                let x: usize = scan_radix(src, i);
                if x > i {
                    x
                } else {
                    scan_digits(src, i + 1, DigitClass::Zero)
                }
            } else {
                d
            }
        }
    } else if src[i] == '.' && n - i > 1 && digit(src[i + 1]) {
        let d: usize = scan_digits(src, i + 2, DigitClass::Decimal);
        let e: usize = scan_exponent(src, d);
        scan_imaginary(src, e)
    } else {
        i
    }
}

/// What begins at an offset of the source text.
#[derive(Clone, Copy, Debug, PartialEq, Eq, Structural)]
pub enum Shape {
    /// The end of the text.
    End,
    /// A line break.
    LineBreak,
    /// A comment, up to the end of its physical line.
    Comment,
    /// A backslash with a line break behind it, which joins two physical
    /// lines.
    Continuation,
    /// A complete string literal.
    Str,
    /// A numeric literal.
    Number,
    /// An identifier or keyword.
    Name,
    /// An operator or delimiter, with its exact kind.
    Operator(TokenKind),
    /// A single character that begins none of the others.
    Unrecognized,
}

/// The shape of what begins at `i`, and the offset behind it.
///
/// The shapes are tried in this order: line break, comment, line
/// continuation, string literal, numeric literal, name, operator. Each
/// takes the longest text that it can. A character that begins none of
/// them is unrecognized and stands alone.
pub open spec fn classify_at(s: Seq<char>, i: int, profile: VersionProfile) -> (Shape, int) {
    if !(0 <= i < s.len()) {
        (Shape::End, i)
    } else if newline_len(s, i) > 0 {
        (Shape::LineBreak, i + newline_len(s, i))
    } else if s[i] == '#' {
        (Shape::Comment, comment_end(s, i))
    } else if s[i] == '\\' && newline_len(s, i + 1) > 0 {
        (Shape::Continuation, i + 1 + newline_len(s, i + 1))
    } else if string_end(s, i) is Some {
        (Shape::Str, string_end(s, i)->0)
    } else if number_end(s, i) > i {
        (Shape::Number, number_end(s, i))
    } else if is_name_start(s[i]) {
        (Shape::Name, name_end(s, i))
    } else {
        match operator_at(s, i, profile) {
            Some((kind, len)) => (Shape::Operator(kind), i + len),
            None => (Shape::Unrecognized, i + 1),
        }
    }
}

/// Whatever begins before the end of the text is not empty and lies
/// within the text.
pub proof fn lemma_classify_at(s: Seq<char>, i: int, profile: VersionProfile)
    requires
        0 <= i <= s.len(),
    ensures
        classify_at(s, i, profile).0 == Shape::End <==> i == s.len(),
        i < s.len() ==> i < classify_at(s, i, profile).1 <= s.len(),
        classify_at(s, i, profile).0 matches Shape::Operator(kind) ==> kind.is_operator(),
{
    if i < s.len() {
        lemma_comment_end(s, i + 1);
        lemma_string_end(s, i);
        lemma_number_end(s, i);
        lemma_name_end(s, i + 1);
        lemma_operator_at(s, i, profile);
    }
}

/// Computes `classify_at`.
pub fn classify(src: &[char], i: usize, profile: VersionProfile) -> (r: (Shape, usize))
    requires
        i <= src@.len(),
    ensures
        (r.0, r.1 as int) == classify_at(src@, i as int, profile),
        r.0 == Shape::End <==> i == src@.len(),
        i < src@.len() ==> i < r.1 <= src@.len(),
{
    proof {
        lemma_classify_at(src@, i as int, profile);
    }
    let n: usize = src.len();
    if i >= n {
        return (Shape::End, i);
    }
    let nl: usize = scan_newline(src, i);
    if nl > 0 {
        return (Shape::LineBreak, i + nl);
    }
    let c = src[i];
    if c == '#' {
        return (Shape::Comment, scan_comment(src, i));
    }
    if c == '\\' {
        let nl: usize = scan_newline(src, i + 1);
        if nl > 0 {
            return (Shape::Continuation, i + 1 + nl);
        }
    }
    match scan_string(src, i) {
        Some(e) => {
            return (Shape::Str, e);
        },
        None => {},
    }
    let e: usize = scan_number(src, i);
    if e > i {
        return (Shape::Number, e);
    }
    if name_start(c) {
        return (Shape::Name, scan_name(src, i));
    }
    match scan_operator(src, i, profile) {
        Some((kind, len)) => (Shape::Operator(kind), i + len),
        None => (Shape::Unrecognized, i + 1),
    }
}

} // verus!
