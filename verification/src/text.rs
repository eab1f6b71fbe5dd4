//! Source text as a sequence of characters: offsets, physical lines and
//! (line, column) positions.

use vstd::prelude::*;
use vstd::string::StrSliceExecFns;

verus! {

/// `String::push` appends one character to the end of the string.
pub assume_specification[ String::push ](s: &mut String, c: char)
    ensures
        final(s)@ == old(s)@.push(c),
;

/// The longest source text, in characters, that can be tokenized: with it
/// every line number and every indentation width fits the machine word.
pub const MAX_SOURCE_LEN: usize = usize::MAX / 8;

/// The 1-indexed number of the physical line that holds offset `off`:
/// one more than the number of line feeds before it.
pub open spec fn line_of(s: Seq<char>, off: int) -> nat
    decreases off,
{
    if off <= 0 {
        1
    } else if s[off - 1] == '\n' {
        line_of(s, off - 1) + 1
    } else {
        line_of(s, off - 1)
    }
}

/// The offset at which the physical line that holds offset `off` begins:
/// just behind the last line feed before `off`, or 0.
pub open spec fn line_start(s: Seq<char>, off: int) -> int
    decreases off,
{
    if off <= 0 {
        0
    } else if s[off - 1] == '\n' {
        off
    } else {
        line_start(s, off - 1)
    }
}

/// The offset just behind the physical line that holds offset `off`: behind
/// the first line feed at or after `off`, or the end of the text.
pub open spec fn line_end(s: Seq<char>, off: int) -> int
    decreases s.len() - off,
{
    if off >= s.len() {
        s.len() as int
    } else if s[off] == '\n' {
        off + 1
    } else {
        line_end(s, off + 1)
    }
}

/// The 0-indexed column of offset `off` within its physical line.
pub open spec fn column_of(s: Seq<char>, off: int) -> nat {
    (off - line_start(s, off)) as nat
}

/// The (line, column) position of offset `off`.
pub open spec fn position_of(s: Seq<char>, off: int) -> (nat, nat) {
    (line_of(s, off), column_of(s, off))
}

/// The whole physical line that holds offset `off`, with its line feed if
/// it has one.
pub open spec fn line_text(s: Seq<char>, off: int) -> Seq<char> {
    s.subrange(line_start(s, off), line_end(s, off))
}

/// Lexicographic order on positions.
pub open spec fn position_le(a: (nat, nat), b: (nat, nat)) -> bool {
    a.0 < b.0 || (a.0 == b.0 && a.1 <= b.1)
}

/// A line begins at or before each of its offsets, and the line number
/// of an offset is at least 1 and at most one more than the offset.
pub proof fn lemma_line_start_bounds(s: Seq<char>, off: int)
    requires
        0 <= off,
    ensures
        0 <= line_start(s, off) <= off,
        line_of(s, off) <= off + 1,
        line_of(s, off) >= 1,
    decreases off,
{
    if off > 0 {
        lemma_line_start_bounds(s, off - 1);
    }
}

/// A line ends at or behind each of its offsets, within the text, and
/// behind an offset that lies before the end of the text.
pub proof fn lemma_line_end_bounds(s: Seq<char>, off: int)
    requires
        0 <= off <= s.len(),
    ensures
        off <= line_end(s, off) <= s.len(),
        off < s.len() ==> off < line_end(s, off),
    decreases s.len() - off,
{
    if off < s.len() && s[off] != '\n' {
        lemma_line_end_bounds(s, off + 1);
    }
}

/// Positions grow with offsets: a later offset never has an earlier
/// (line, column) position.
pub proof fn lemma_position_monotonic(s: Seq<char>, a: int, b: int)
    requires
        0 <= a <= b,
    ensures
        position_le(position_of(s, a), position_of(s, b)),
        line_of(s, a) == line_of(s, b) ==> line_start(s, a) == line_start(s, b),
    decreases b - a,
{
    if a < b {
        lemma_position_monotonic(s, a, b - 1);
        lemma_line_start_bounds(s, a);
        lemma_line_start_bounds(s, b - 1);
    }
}

/// The characters of `s`, one vector element for each.
pub fn to_chars(s: &str) -> (v: Vec<char>)
    ensures
        v@ == s@,
{
    let mut v: Vec<char> = Vec::new();
    for c in it: s.chars()
        invariant
            v@ == it.seq().take(it.index()),
            it.seq() == s@,
    {
        v.push(c);
    }
    v
}

/// The characters of `src` from `from` up to `to`, as a string.
pub fn slice_to_string(src: &[char], from: usize, to: usize) -> (r: String)
    requires
        from <= to <= src@.len(),
    ensures
        r@ == src@.subrange(from as int, to as int),
{
    let mut r = String::new();
    let mut i: usize = from;
    while i < to
        invariant
            from <= i <= to <= src@.len(),
            r@ == src@.subrange(from as int, i as int),
        decreases to - i,
    {
        r.push(src[i]);
        i += 1;
    }
    r
}

/// Whether `word` is the beginning of `name`.
pub fn begins_with(name: &Vec<char>, word: &str) -> (r: bool)
    ensures
        r == word@.is_prefix_of(name@),
{
    let n: usize = word.unicode_len();
    if n > name.len() {
        return false;
    }
    let mut i: usize = 0;
    while i < n
        invariant
            i <= n == word@.len() <= name@.len(),
            forall|j: int| 0 <= j < i ==> name@[j] == word@[j],
        decreases n - i,
    {
        if name[i] != word.get_char(i) {
            return false;
        }
        i += 1;
    }
    assert(word@ =~= name@.subrange(0, n as int));
    true
}

/// Whether `name` is `word`.
pub fn is_word(name: &Vec<char>, word: &str) -> (r: bool)
    ensures
        r == (name@ == word@),
{
    let n: usize = word.unicode_len();
    if n != name.len() {
        return false;
    }
    let r = begins_with(name, word);
    assert(r ==> name@ =~= word@);
    r
}

} // verus!
