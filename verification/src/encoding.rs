//! The encoding of a source text: its byte order mark and the
//! declaration in a comment on one of its first two lines.

use crate::lexical::{
    comment_end, lemma_comment_end, lemma_skip_blank, newline_len, scan_blank, scan_comment,
    scan_newline, skip_blank,
};
use crate::text::{begins_with, is_word, lemma_line_end_bounds, line_end, slice_to_string};
use crate::token::{ErrorKind, Failure};
use vstd::prelude::*;

verus! {

/// Whether the text begins with a byte order mark.
pub open spec fn has_bom(s: Seq<char>) -> bool {
    s.len() > 0 && s[0] == '\u{feff}'
}

/// The offset at which the text proper begins: behind the byte order
/// mark, if there is one.
pub open spec fn body_start(s: Seq<char>) -> int {
    if has_bom(s) {
        1
    } else {
        0
    }
}

/// Whether `c` may stand in the name of an encoding: an ASCII letter or
/// digit, `-`, `_` or `.`.
pub open spec fn is_encoding_char(c: char) -> bool {
    'a' <= c <= 'z' || 'A' <= c <= 'Z' || '0' <= c <= '9' || c == '-' || c == '_' || c == '.'
}

/// The offset at which a run of encoding-name characters that holds offset
/// `i` ends.
pub open spec fn encoding_name_end(s: Seq<char>, i: int) -> int
    decreases s.len() - i,
{
    if 0 <= i < s.len() && is_encoding_char(s[i]) {
        encoding_name_end(s, i + 1)
    } else {
        i
    }
}

/// The offset of the first character at or after `i` that is neither a
/// space nor a tab.
pub open spec fn skip_spaces(s: Seq<char>, i: int) -> int
    decreases s.len() - i,
{
    if 0 <= i < s.len() && (s[i] == ' ' || s[i] == '\t') {
        skip_spaces(s, i + 1)
    } else {
        i
    }
}

/// The stretch of the encoding's name in the declaration that begins at
/// `k`: the word `coding`, a colon or an equals sign, spaces or tabs, and
/// a name that is not empty.
pub open spec fn cookie_at(s: Seq<char>, k: int) -> Option<(int, int)> {
    if 0 <= k && k + 6 < s.len() && s[k] == 'c' && s[k + 1] == 'o' && s[k + 2] == 'd' && s[k + 3]
        == 'i' && s[k + 4] == 'n' && s[k + 5] == 'g' && (s[k + 6] == ':' || s[k + 6] == '=') {
        let a = skip_spaces(s, k + 7);
        let b = encoding_name_end(s, a);
        if b > a {
            Some((a, b))
        } else {
            None
        }
    } else {
        None
    }
}

/// The name in the first declaration that begins at or after `k` and
/// before `stop`.
pub open spec fn find_cookie(s: Seq<char>, k: int, stop: int) -> Option<(int, int)>
    decreases stop - k,
{
    if k >= stop {
        None
    } else if cookie_at(s, k) is Some {
        cookie_at(s, k)
    } else {
        find_cookie(s, k + 1, stop)
    }
}

/// The name that the line beginning at `start` declares: the line is a
/// comment behind its leading blanks, and the comment holds a
/// declaration.
pub open spec fn line_cookie(s: Seq<char>, start: int) -> Option<(int, int)> {
    let b = skip_blank(s, start);
    if 0 <= b < s.len() && s[b] == '#' {
        find_cookie(s, b + 1, comment_end(s, b))
    } else {
        None
    }
}

/// Whether the line beginning at `start` holds nothing but blanks and
/// perhaps a comment.
pub open spec fn is_empty_line(s: Seq<char>, start: int) -> bool {
    let b = skip_blank(s, start);
    b >= s.len() || s[b] == '#' || newline_len(s, b) > 0
}

/// The stretch of the name of the encoding that the text declares: on its
/// first line, or on its second where the first holds nothing but blanks
/// and perhaps a comment.
pub open spec fn declared_encoding(s: Seq<char>) -> Option<(int, int)> {
    let first = body_start(s);
    if line_cookie(s, first) is Some {
        line_cookie(s, first)
    } else if is_empty_line(s, first) {
        line_cookie(s, line_end(s, first))
    } else {
        None
    }
}

/// A character of an encoding's name as it is compared: letters in lower
/// case, the underscore as a hyphen.
pub open spec fn fold_char(c: char) -> char {
    if 'A' <= c <= 'Z' {
        ((c as u8) + 32) as char
    } else if c == '_' {
        '-'
    } else {
        c
    }
}

/// The first twelve characters of `name`, as they are compared.
pub open spec fn folded(name: Seq<char>) -> Seq<char> {
    Seq::new(
        if name.len() < 12 {
            name.len()
        } else {
            12
        },
        |i: int| fold_char(name[i]),
    )
}

/// Whether `name` names UTF-8.
pub open spec fn is_utf8_name(name: Seq<char>) -> bool {
    folded(name) == "utf-8"@ || "utf-8-"@.is_prefix_of(folded(name))
}

/// Whether `name` names Latin-1.
pub open spec fn is_latin1_name(name: Seq<char>) -> bool {
    let f = folded(name);
    f == "latin-1"@ || f == "iso-8859-1"@ || f == "iso-latin-1"@ || "latin-1-"@.is_prefix_of(f)
        || "iso-8859-1-"@.is_prefix_of(f) || "iso-latin-1-"@.is_prefix_of(f)
}

/// The name under which the encoding `name` is reported: `utf-8` and
/// `iso-8859-1` for the names of those two, any other name as it is
/// written.
pub open spec fn normal_name(name: Seq<char>) -> Seq<char> {
    if is_utf8_name(name) {
        "utf-8"@
    } else if is_latin1_name(name) {
        "iso-8859-1"@
    } else {
        name
    }
}

/// The name of the text's encoding, or the failure at the declared name
/// where the text has a byte order mark and declares another encoding
/// than UTF-8.
///
/// Without a declaration the encoding is `utf-8`; with a byte order mark
/// it is `utf-8-sig`.
pub open spec fn encoding_of(s: Seq<char>) -> Result<Seq<char>, Failure> {
    match declared_encoding(s) {
        Some((a, b)) => if has_bom(s) {
            if is_utf8_name(s.subrange(a, b)) {
                Ok("utf-8-sig"@)
            } else {
                Err(Failure { kind: ErrorKind::EncodingError, at: a })
            }
        } else {
            Ok(normal_name(s.subrange(a, b)))
        },
        None => Ok(
            if has_bom(s) {
                "utf-8-sig"@
            } else {
                "utf-8"@
            },
        ),
    }
}

/// A declared name that is found lies behind the place where the search
/// began, within the text, and is not empty.
pub proof fn lemma_find_cookie(s: Seq<char>, k: int, stop: int)
    requires
        0 <= k,
        stop <= s.len(),
    ensures
        find_cookie(s, k, stop) matches Some((a, b)) ==> k <= a < b <= s.len(),
    decreases stop - k,
{
    if k < stop {
        if cookie_at(s, k) is Some {
            lemma_skip_spaces(s, k + 7);
            lemma_encoding_name_end(s, skip_spaces(s, k + 7));
        } else {
            lemma_find_cookie(s, k + 1, stop);
        }
    }
}

/// Skipping spaces and tabs moves forward and stays within the text.
pub proof fn lemma_skip_spaces(s: Seq<char>, i: int)
    requires
        0 <= i <= s.len(),
    ensures
        i <= skip_spaces(s, i) <= s.len(),
    decreases s.len() - i,
{
    if i < s.len() && (s[i] == ' ' || s[i] == '\t') {
        lemma_skip_spaces(s, i + 1);
    }
}

/// An encoding's name ends behind its beginning and within the text.
pub proof fn lemma_encoding_name_end(s: Seq<char>, i: int)
    requires
        0 <= i <= s.len(),
    ensures
        i <= encoding_name_end(s, i) <= s.len(),
    decreases s.len() - i,
{
    if i < s.len() && is_encoding_char(s[i]) {
        lemma_encoding_name_end(s, i + 1);
    }
}

/// A declared name lies within the text and is not empty.
pub proof fn lemma_declared_encoding(s: Seq<char>)
    ensures
        declared_encoding(s) matches Some((a, b)) ==> 0 <= a < b <= s.len(),
{
    let first = body_start(s);
    lemma_skip_blank(s, first);
    if skip_blank(s, first) < s.len() {
        lemma_comment_end(s, skip_blank(s, first));
        lemma_find_cookie(s, skip_blank(s, first) + 1, comment_end(s, skip_blank(s, first)));
    }
    lemma_line_end_bounds(s, first);
    let second = line_end(s, first);
    lemma_skip_blank(s, second);
    if skip_blank(s, second) < s.len() {
        lemma_comment_end(s, skip_blank(s, second));
        lemma_find_cookie(s, skip_blank(s, second) + 1, comment_end(s, skip_blank(s, second)));
    }
}

/// Computes `is_encoding_char`.
pub fn encoding_char(c: char) -> (r: bool)
    ensures
        r == is_encoding_char(c),
{
    ('a' <= c && c <= 'z') || ('A' <= c && c <= 'Z') || ('0' <= c && c <= '9') || c == '-' || c
        == '_' || c == '.'
}

/// Computes `cookie_at`.
pub fn match_cookie(src: &[char], k: usize) -> (r: Option<(usize, usize)>)
    requires
        k <= src@.len(),
    ensures
        match r {
            Some((a, b)) => cookie_at(src@, k as int) == Some((a as int, b as int)) && k <= a < b
                <= src@.len(),
            None => cookie_at(src@, k as int) is None,
        },
{
    let n: usize = src.len();
    if n - k > 6 && src[k] == 'c' && src[k + 1] == 'o' && src[k + 2] == 'd' && src[k + 3] == 'i'
        && src[k + 4] == 'n' && src[k + 5] == 'g' && (src[k + 6] == ':' || src[k + 6] == '=') {
        let mut a: usize = k + 7;
        while a < n && (src[a] == ' ' || src[a] == '\t')
            invariant
                n == src@.len(),
                k + 7 <= a <= n,
                skip_spaces(src@, k + 7) == skip_spaces(src@, a as int),
            decreases n - a,
        {
            a += 1;
        }
        let mut b: usize = a;
        while b < n && encoding_char(src[b])
            invariant
                n == src@.len(),
                a <= b <= n,
                encoding_name_end(src@, a as int) == encoding_name_end(src@, b as int),
            decreases n - b,
        {
            b += 1;
        }
        if b > a {
            Some((a, b))
        } else {
            None
        }
    } else {
        None
    }
}

/// Computes `line_cookie`.
pub fn scan_line_cookie(src: &[char], start: usize) -> (r: Option<(usize, usize)>)
    requires
        start <= src@.len(),
    ensures
        match r {
            Some((a, b)) => line_cookie(src@, start as int) == Some((a as int, b as int)) && a < b
                <= src@.len(),
            None => line_cookie(src@, start as int) is None,
        },
{
    let n: usize = src.len();
    let b: usize = scan_blank(src, start);
    if b < n && src[b] == '#' {
        let stop: usize = scan_comment(src, b);
        let mut k: usize = b + 1;
        proof {
            lemma_comment_end(src@, b + 1);
        }
        while k < stop
            invariant
                n == src@.len(),
                b < k,
                k <= stop || stop < b + 1,
                stop <= n,
                line_cookie(src@, start as int) == find_cookie(src@, b + 1, stop as int),
                find_cookie(src@, b + 1, stop as int) == find_cookie(src@, k as int, stop as int),
            decreases stop - k,
        {
            match match_cookie(src, k) {
                Some(found) => {
                    assert(find_cookie(src@, k as int, stop as int) == cookie_at(src@, k as int));
                    return Some(found);
                },
                None => {},
            }
            k += 1;
        }
        None
    } else {
        None
    }
}

/// Computes `declared_encoding` for a text whose proper part begins at
/// `first`.
pub fn find_declaration(src: &[char], first: usize) -> (r: Option<(usize, usize)>)
    requires
        first == body_start(src@),
    ensures
        match r {
            Some((a, b)) => declared_encoding(src@) == Some((a as int, b as int)) && a < b
                <= src@.len(),
            None => declared_encoding(src@) is None,
        },
{
    let n: usize = src.len();
    match scan_line_cookie(src, first) {
        Some(found) => Some(found),
        None => {
            let b: usize = scan_blank(src, first);
            if b >= n || src[b] == '#' || scan_newline(src, b) > 0 {
                let mut e: usize = first;
                loop
                    invariant_except_break
                        line_end(src@, first as int) == line_end(src@, e as int),
                    invariant
                        n == src@.len(),
                        first <= e <= n,
                    ensures
                        first <= e <= n,
                        e == line_end(src@, first as int),
                    decreases n - e,
                {
                    if e >= n {
                        break;
                    }
                    e += 1;
                    if src[e - 1] == '\n' {
                        break;
                    }
                }
                scan_line_cookie(src, e)
            } else {
                None
            }
        },
    }
}

/// Computes `fold_char`.
pub fn fold(c: char) -> (r: char)
    ensures
        r == fold_char(c),
{
    if 'A' <= c && c <= 'Z' {
        ((c as u8) + 32) as char
    } else if c == '_' {
        '-'
    } else {
        c
    }
}

/// The first twelve characters of the name from `a` up to `b`, as they
/// are compared.
pub fn fold_name(src: &[char], a: usize, b: usize) -> (r: Vec<char>)
    requires
        a <= b <= src@.len(),
    ensures
        r@ == folded(src@.subrange(a as int, b as int)),
{
    let count: usize = if b - a < 12 {
        b - a
    } else {
        12
    };
    let mut r: Vec<char> = Vec::new();
    let mut i: usize = 0;
    while i < count
        invariant
            a <= b <= src@.len(),
            i <= count <= b - a,
            count == folded(src@.subrange(a as int, b as int)).len(),
            r@ == folded(src@.subrange(a as int, b as int)).take(i as int),
        decreases count - i,
    {
        r.push(fold(src[a + i]));
        assert(r@ =~= folded(src@.subrange(a as int, b as int)).take(i + 1));
        i += 1;
    }
    assert(r@ =~= folded(src@.subrange(a as int, b as int)));
    r
}

/// Computes `is_utf8_name` for a folded name.
pub fn names_utf8(f: &Vec<char>) -> (r: bool)
    ensures
        r == (f@ == "utf-8"@ || "utf-8-"@.is_prefix_of(f@)),
{
    is_word(f, "utf-8") || begins_with(f, "utf-8-")
}

/// Computes `is_latin1_name` for a folded name.
pub fn names_latin1(f: &Vec<char>) -> (r: bool)
    ensures
        r == (f@ == "latin-1"@ || f@ == "iso-8859-1"@ || f@ == "iso-latin-1"@
            || "latin-1-"@.is_prefix_of(f@) || "iso-8859-1-"@.is_prefix_of(f@)
            || "iso-latin-1-"@.is_prefix_of(f@)),
{
    is_word(f, "latin-1") || is_word(f, "iso-8859-1") || is_word(f, "iso-latin-1") || begins_with(
        f,
        "latin-1-",
    ) || begins_with(f, "iso-8859-1-") || begins_with(f, "iso-latin-1-")
}

/// Whether `src` begins with a byte order mark.
pub fn starts_with_bom(src: &[char]) -> (r: bool)
    ensures
        r == has_bom(src@),
{
    src.len() > 0 && src[0] == '\u{feff}'
}

/// Computes `encoding_of`: the name of the encoding, or the offset of the
/// declared name that contradicts the byte order mark.
pub fn detect_encoding(src: &[char]) -> (r: Result<String, usize>)
    ensures
        match encoding_of(src@) {
            Ok(name) => r matches Ok(found) && found@ == name,
            Err(f) => r matches Err(at) && at == f.at && f.kind == ErrorKind::EncodingError && at
                <= src@.len(),
        },
{
    let bom = starts_with_bom(src);
    let first: usize = if bom {
        1
    } else {
        0
    };
    match find_declaration(src, first) {
        Some((a, b)) => {
            let f = fold_name(src, a, b);
            if bom {
                if names_utf8(&f) {
                    Ok("utf-8-sig".to_owned())
                } else {
                    Err(a)
                }
            } else if names_utf8(&f) {
                Ok("utf-8".to_owned())
            } else if names_latin1(&f) {
                Ok("iso-8859-1".to_owned())
            } else {
                Ok(slice_to_string(src, a, b))
            }
        },
        None => if bom {
            Ok("utf-8-sig".to_owned())
        } else {
            Ok("utf-8".to_owned())
        },
    }
}

} // verus!
