//! String literals: an optional prefix, an opening quotation mark, the
//! body, and the closing mark.

use crate::chars::{
    is_prefix_letter, is_prefix_pair, is_quote, prefix_letter, prefix_pair, quote,
};
use vstd::prelude::*;

verus! {

/// The offset of the quotation mark that opens the string literal at `i`:
/// `i` itself, or the offset behind a prefix of one or two letters that
/// begins at `i`. `None` where no string literal can begin.
pub open spec fn opening_quote(s: Seq<char>, i: int) -> Option<int> {
    if 0 <= i < s.len() && is_quote(s[i]) {
        Some(i)
    } else if 0 <= i && i + 1 < s.len() && is_prefix_letter(s[i]) && is_quote(s[i + 1]) {
        Some(i + 1)
    } else if 0 <= i && i + 2 < s.len() && is_prefix_pair(s[i], s[i + 1]) && is_quote(s[i + 2]) {
        Some(i + 2)
    } else {
        None
    }
}

/// The offset behind the mark `q` that closes a string on one logical
/// line, whose body goes on at `j`. A backslash takes the next character
/// into the body, and with it the line feed behind a carriage return. A
/// bare line feed, or the end of the text, leaves the string unclosed:
/// `None`.
pub open spec fn single_quoted_end(s: Seq<char>, j: int, q: char) -> Option<int>
    decreases s.len() - j,
{
    if !(0 <= j < s.len()) {
        None
    } else if s[j] == q {
        Some(j + 1)
    } else if s[j] == '\n' {
        None
    } else if s[j] == '\\' {
        if j + 1 >= s.len() {
            None
        } else if s[j + 1] == '\r' && j + 2 < s.len() && s[j + 2] == '\n' {
            single_quoted_end(s, j + 3, q)
        } else {
            single_quoted_end(s, j + 2, q)
        }
    } else {
        single_quoted_end(s, j + 1, q)
    }
}

/// The offset behind the three marks `q` that close a triple-quoted
/// string whose body goes on at `j`. A backslash takes the next character
/// into the body. `None` where the text ends first.
pub open spec fn triple_quoted_end(s: Seq<char>, j: int, q: char) -> Option<int>
    decreases s.len() - j,
{
    if !(0 <= j && j + 2 < s.len()) {
        None
    } else if s[j] == q && s[j + 1] == q && s[j + 2] == q {
        Some(j + 3)
    } else if s[j] == '\\' {
        triple_quoted_end(s, j + 2, q)
    } else {
        triple_quoted_end(s, j + 1, q)
    }
}

/// The offset behind the complete string literal that begins at `i`, or
/// `None` where none begins there or the literal is not closed.
pub open spec fn string_end(s: Seq<char>, i: int) -> Option<int> {
    match opening_quote(s, i) {
        None => None,
        Some(o) => {
            let q = s[o];
            if o + 2 < s.len() && s[o + 1] == q && s[o + 2] == q {
                triple_quoted_end(s, o + 3, q)
            } else {
                single_quoted_end(s, o + 1, q)
            }
        },
    }
}

/// A string on one logical line that is closed ends behind the offset at
/// which its body goes on, within the text.
pub proof fn lemma_single_quoted_end(s: Seq<char>, j: int, q: char)
    requires
        0 <= j,
    ensures
        single_quoted_end(s, j, q) matches Some(e) ==> j < e <= s.len(),
    decreases s.len() - j,
{
    if j < s.len() && s[j] != q && s[j] != '\n' {
        if s[j] == '\\' {
            if j + 1 < s.len() {
                if s[j + 1] == '\r' && j + 2 < s.len() && s[j + 2] == '\n' {
                    lemma_single_quoted_end(s, j + 3, q);
                } else {
                    lemma_single_quoted_end(s, j + 2, q);
                }
            }
        } else {
            lemma_single_quoted_end(s, j + 1, q);
        }
    }
}

/// A triple-quoted string that is closed ends behind the offset at which
/// its body goes on, within the text.
pub proof fn lemma_triple_quoted_end(s: Seq<char>, j: int, q: char)
    requires
        0 <= j,
    ensures
        triple_quoted_end(s, j, q) matches Some(e) ==> j < e <= s.len(),
    decreases s.len() - j,
{
    if j + 2 < s.len() && !(s[j] == q && s[j + 1] == q && s[j + 2] == q) {
        if s[j] == '\\' {
            lemma_triple_quoted_end(s, j + 2, q);
        } else {
            lemma_triple_quoted_end(s, j + 1, q);
        }
    }
}

/// A complete string literal is not empty and lies within the text.
pub proof fn lemma_string_end(s: Seq<char>, i: int)
    ensures
        string_end(s, i) matches Some(e) ==> 0 <= i < e <= s.len(),
{
    match opening_quote(s, i) {
        None => {},
        Some(o) => {
            lemma_triple_quoted_end(s, o + 3, s[o]);
            lemma_single_quoted_end(s, o + 1, s[o]);
        },
    }
}

/// Computes `opening_quote`.
pub fn find_opening_quote(src: &[char], i: usize) -> (r: Option<usize>)
    requires
        i <= src@.len(),
    ensures
        match r {
            Some(o) => opening_quote(src@, i as int) == Some(o as int) && i <= o < src@.len(),
            None => opening_quote(src@, i as int) is None,
        },
{
    let n: usize = src.len();
    if i < n && quote(src[i]) {
        Some(i)
    } else if i < n && n - i > 1 && prefix_letter(src[i]) && quote(src[i + 1]) {
        Some(i + 1)
    } else if i < n && n - i > 2 && prefix_pair(src[i], src[i + 1]) && quote(src[i + 2]) {
        Some(i + 2)
    } else {
        None
    }
}

/// Computes `single_quoted_end`.
pub fn scan_single_quoted(src: &[char], j: usize, q: char) -> (r: Option<usize>)
    requires
        j <= src@.len(),
    ensures
        match r {
            Some(e) => single_quoted_end(src@, j as int, q) == Some(e as int) && j < e
                <= src@.len(),
            None => single_quoted_end(src@, j as int, q) is None,
        },
{
    let n: usize = src.len();
    let mut k: usize = j;
    loop
        invariant
            n == src@.len(),
            j <= k <= n,
            single_quoted_end(src@, j as int, q) == single_quoted_end(src@, k as int, q),
        decreases n - k,
    {
        if k >= n {
            return None;
        }
        let c = src[k];
        if c == q {
            return Some(k + 1);
        } else if c == '\n' {
            return None;
        } else if c == '\\' {
            if n - k <= 1 {
                return None;
            } else if src[k + 1] == '\r' && n - k > 2 && src[k + 2] == '\n' {
                k += 3;
            } else {
                k += 2;
            }
        } else {
            k += 1;
        }
    }
}

/// Computes `triple_quoted_end`.
pub fn scan_triple_quoted(src: &[char], j: usize, q: char) -> (r: Option<usize>)
    requires
        j <= src@.len(),
    ensures
        match r {
            Some(e) => triple_quoted_end(src@, j as int, q) == Some(e as int) && j < e
                <= src@.len(),
            None => triple_quoted_end(src@, j as int, q) is None,
        },
{
    let n: usize = src.len();
    let mut k: usize = j;
    loop
        invariant
            n == src@.len(),
            j <= k <= n,
            triple_quoted_end(src@, j as int, q) == triple_quoted_end(src@, k as int, q),
        decreases n - k,
    {
        if n - k <= 2 {
            return None;
        }
        if src[k] == q && src[k + 1] == q && src[k + 2] == q {
            return Some(k + 3);
        } else if src[k] == '\\' {
            k += 2;
        } else {
            k += 1;
        }
    }
}

/// Computes `string_end`.
pub fn scan_string(src: &[char], i: usize) -> (r: Option<usize>)
    requires
        i <= src@.len(),
    ensures
        match r {
            Some(e) => string_end(src@, i as int) == Some(e as int) && i < e <= src@.len(),
            None => string_end(src@, i as int) is None,
        },
{
    let n: usize = src.len();
    match find_opening_quote(src, i) {
        None => None,
        Some(o) => {
            let q = src[o];
            if n - o > 2 && src[o + 1] == q && src[o + 2] == q {
                scan_triple_quoted(src, o + 3, q)
            } else {
                scan_single_quoted(src, o + 1, q)
            }
        },
    }
}

} // verus!
