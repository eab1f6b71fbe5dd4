//! The scanner: a cursor over the source text that keeps count of lines
//! and columns.

use crate::text::{
    column_of, lemma_line_end_bounds, lemma_line_start_bounds, line_end, line_of, line_text,
    slice_to_string, to_chars, MAX_SOURCE_LEN,
};
use vstd::prelude::*;

verus! {

/// A cursor over a source text.
pub struct Scanner {
    chars: Vec<char>,
    pos: usize,
    line: usize,
    col: usize,
}

impl Scanner {
    /// The text that the scanner reads.
    pub closed spec fn source(&self) -> Seq<char> {
        self.chars@
    }

    /// The offset of the next character.
    pub closed spec fn offset(&self) -> int {
        self.pos as int
    }

    /// The cursor lies within the text, and the line and column that the
    /// scanner holds are those of the cursor.
    pub closed spec fn wf(&self) -> bool {
        &&& self.pos <= self.chars@.len() <= MAX_SOURCE_LEN
        &&& self.line == line_of(self.chars@, self.pos as int)
        &&& self.col == column_of(self.chars@, self.pos as int)
    }

    /// What `wf` says of the cursor.
    pub proof fn lemma_wf(&self)
        requires
            self.wf(),
        ensures
            0 <= self.offset() <= self.source().len() <= MAX_SOURCE_LEN,
    {
    }

    /// A scanner at the beginning of `source`.
    pub fn new(source: &str) -> (r: Scanner)
        requires
            source@.len() <= MAX_SOURCE_LEN,
        ensures
            r.wf(),
            r.source() == source@,
            r.offset() == 0,
    {
        Scanner { chars: to_chars(source), pos: 0, line: 1, col: 0 }
    }

    /// The character `offset` places behind the cursor, or `None` behind
    /// the end of the text. The cursor stays.
    pub fn peek(&self, offset: usize) -> (r: Option<char>)
        requires
            self.wf(),
        ensures
            r == if self.offset() + offset < self.source().len() {
                Some(self.source()[self.offset() + offset])
            } else {
                None
            },
    {
        if offset < self.chars.len() - self.pos {
            Some(self.chars[self.pos + offset])
        } else {
            None
        }
    }

    /// Moves the cursor over one character and returns it, or returns
    /// `None` at the end of the text. Behind a line feed the line number
    /// is one more and the column 0; behind any other character the column
    /// is one more.
    pub fn advance(&mut self) -> (r: Option<char>)
        requires
            old(self).wf(),
        ensures
            final(self).wf(),
            final(self).source() == old(self).source(),
            match r {
                Some(c) => old(self).offset() < old(self).source().len() && c == old(
                    self,
                ).source()[old(self).offset()] && final(self).offset() == old(self).offset() + 1,
                None => old(self).offset() == old(self).source().len() && final(self).offset()
                    == old(self).offset(),
            },
    {
        if self.pos >= self.chars.len() {
            return None;
        }
        proof {
            lemma_line_start_bounds(self.chars@, self.pos as int);
        }
        let c = self.chars[self.pos];
        self.pos += 1;
        if c == '\n' {
            self.line += 1;
            self.col = 0;
        } else {
            self.col += 1;
        }
        Some(c)
    }

    /// Moves the cursor forward to the offset `target`.
    pub fn advance_to(&mut self, target: usize)
        requires
            old(self).wf(),
            old(self).offset() <= target <= old(self).source().len(),
        ensures
            final(self).wf(),
            final(self).source() == old(self).source(),
            final(self).offset() == target,
    {
        while self.pos < target
            invariant
                self.wf(),
                self.chars@ == old(self).chars@,
                self.pos <= target <= self.chars@.len(),
            decreases target - self.pos,
        {
            let _ = self.advance();
        }
    }

    /// The (line, column) position of the cursor: lines from 1, columns
    /// from 0.
    pub fn position(&self) -> (r: (usize, usize))
        requires
            self.wf(),
        ensures
            r.0 == line_of(self.source(), self.offset()),
            r.1 == column_of(self.source(), self.offset()),
    {
        (self.line, self.col)
    }

    /// The offset of the cursor.
    pub fn index(&self) -> (r: usize)
        requires
            self.wf(),
        ensures
            r == self.offset(),
            r <= self.source().len(),
    {
        self.pos
    }

    /// Whether the cursor is at the end of the text.
    pub fn at_end(&self) -> (r: bool)
        requires
            self.wf(),
        ensures
            r == (self.offset() == self.source().len()),
    {
        self.pos >= self.chars.len()
    }

    /// The whole text.
    pub fn chars(&self) -> (r: &[char])
        ensures
            r@ == self.source(),
    {
        self.chars.as_slice()
    }

    /// The text from `from` up to `to`.
    pub fn text(&self, from: usize, to: usize) -> (r: String)
        requires
            from <= to <= self.source().len(),
        ensures
            r@ == self.source().subrange(from as int, to as int),
    {
        slice_to_string(self.chars.as_slice(), from, to)
    }

    /// The physical line that holds the cursor, with its line feed if it
    /// has one.
    pub fn line_text(&self) -> (r: String)
        requires
            self.wf(),
        ensures
            r@ == line_text(self.source(), self.offset()),
    {
        proof {
            lemma_line_start_bounds(self.chars@, self.pos as int);
            lemma_line_end_bounds(self.chars@, self.pos as int);
        }
        let n: usize = self.chars.len();
        let mut e: usize = self.pos;
        loop
            invariant_except_break
                line_end(self.chars@, self.pos as int) == line_end(self.chars@, e as int),
            invariant
                n == self.chars@.len(),
                self.pos <= e <= n,
            ensures
                self.pos <= e <= n,
                e == line_end(self.chars@, self.pos as int),
            decreases n - e,
        {
            if e >= n {
                break;
            }
            e += 1;
            if self.chars[e - 1] == '\n' {
                break;
            }
        }
        slice_to_string(self.chars.as_slice(), self.pos - self.col, e)
    }
}

} // verus!
