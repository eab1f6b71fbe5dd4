//! The indentation tracker: the widths of the open indentation levels,
//! and what a new line's leading blanks do to them.

use crate::text::MAX_SOURCE_LEN;
use vstd::prelude::*;

verus! {

/// The width of the blanks of `s` from `from` up to `to`, with tab stops
/// at every eighth column: a tab moves to the next stop, a form feed
/// starts the count again, any other character counts one.
pub open spec fn indent_width(s: Seq<char>, from: int, to: int) -> int
    decreases to - from,
{
    if to <= from {
        0
    } else {
        let w = indent_width(s, from, to - 1);
        if s[to - 1] == '\t' {
            (w / 8 + 1) * 8
        } else if s[to - 1] == '\u{c}' {
            0
        } else {
            w + 1
        }
    }
}

/// The width of the same blanks where a tab counts one column, like any
/// other character. Two lines whose widths compare one way under
/// `indent_width` and another way under `alt_width` mix tabs and spaces
/// inconsistently.
pub open spec fn alt_width(s: Seq<char>, from: int, to: int) -> int
    decreases to - from,
{
    if to <= from {
        0
    } else if s[to - 1] == '\u{c}' {
        0
    } else {
        alt_width(s, from, to - 1) + 1
    }
}

/// Widths are not negative, the width of no blanks is 0, and a blank
/// adds at most eight columns, or one where tabs count one.
pub proof fn lemma_width_bounds(s: Seq<char>, from: int, to: int)
    ensures
        0 <= indent_width(s, from, to),
        0 <= alt_width(s, from, to),
        to >= from ==> indent_width(s, from, to) <= 8 * (to - from),
        to >= from ==> alt_width(s, from, to) <= to - from,
        to <= from ==> indent_width(s, from, to) == 0 && alt_width(s, from, to) == 0,
    decreases to - from,
{
    if to > from {
        lemma_width_bounds(s, from, to - 1);
    }
}

/// The open indentation levels from the outermost to the innermost, each
/// with its width and its width where tabs count one column.
pub type Levels = Seq<(int, int)>;

/// The levels begin with the level of width 0, and each level is wider
/// than the one before it.
pub open spec fn levels_wf(levels: Levels) -> bool {
    &&& levels.len() >= 1
    &&& levels[0] == (0int, 0int)
    &&& forall|i: int, j: int| 0 <= i < j < levels.len() ==> levels[i].0 < levels[j].0
}

/// The number of levels that are wider than `width`.
pub open spec fn levels_above(levels: Levels, width: int) -> nat
    decreases levels.len(),
{
    if levels.len() > 0 && levels.last().0 > width {
        1 + levels_above(levels.drop_last(), width)
    } else {
        0
    }
}

/// What a new logical line does to the levels.
pub struct Outcome {
    /// Whether the line's width is that of an open level, or wider than
    /// all of them. Where it is not, the line cannot be placed.
    pub consistent: bool,
    /// The levels behind the line.
    pub levels: Levels,
    /// Whether the line opens a level.
    pub indent: bool,
    /// The number of levels that the line closes.
    pub dedents: nat,
    /// Whether the line's two widths order it differently against the
    /// level that it joins or leaves.
    pub tab_error: bool,
}

/// What a line whose leading blanks have the widths `width` and `alt` does
/// to `levels`: wider than the innermost level, it opens a level;
/// narrower, it closes every level that is wider, and must then be exactly
/// as wide as the innermost level that is left; as wide, it changes
/// nothing.
pub open spec fn observe_line(levels: Levels, width: int, alt: int) -> Outcome {
    let top = levels.last();
    if width == top.0 {
        Outcome { consistent: true, levels, indent: false, dedents: 0, tab_error: alt != top.1 }
    } else if width > top.0 {
        Outcome {
            consistent: true,
            levels: levels.push((width, alt)),
            indent: true,
            dedents: 0,
            tab_error: alt <= top.1,
        }
    } else {
        let k = levels_above(levels, width);
        let rest = levels.take(levels.len() - k);
        if rest.len() > 0 && rest.last().0 == width {
            Outcome {
                consistent: true,
                levels: rest,
                indent: false,
                dedents: k,
                tab_error: alt != rest.last().1,
            }
        } else {
            Outcome { consistent: false, levels, indent: false, dedents: 0, tab_error: false }
        }
    }
}

/// The outermost level is never above a line: at least one level is left,
/// and the innermost level that is left is at most as wide as the line.
pub proof fn lemma_levels_above(levels: Levels, width: int)
    requires
        levels_wf(levels),
        0 <= width,
    ensures
        levels_above(levels, width) < levels.len(),
        levels[levels.len() - levels_above(levels, width) - 1].0 <= width,
        levels_above(levels, width) > 0 <==> levels.last().0 > width,
    decreases levels.len(),
{
    if levels.last().0 > width {
        assert(levels.len() > 1);
        lemma_levels_above(levels.drop_last(), width);
    }
}

/// A line leaves the levels well formed. A line that opens a level
/// closes none, and one more level is open behind it; a line that closes
/// levels leaves that many fewer.
pub proof fn lemma_observe_line(levels: Levels, width: int, alt: int)
    requires
        levels_wf(levels),
        0 <= width,
    ensures
        levels_wf(observe_line(levels, width, alt).levels),
        observe_line(levels, width, alt).levels.len() == levels.len() + (if observe_line(
            levels,
            width,
            alt,
        ).indent {
            1int
        } else {
            0int
        }) - observe_line(levels, width, alt).dedents,
        observe_line(levels, width, alt).consistent ==> observe_line(
            levels,
            width,
            alt,
        ).levels.last().0 == width,
{
    lemma_levels_above(levels, width);
}

/// What a line did to the open levels.
#[derive(Clone, Copy, Debug, PartialEq, Eq, Structural)]
pub enum IndentChange {
    /// The line is as wide as the innermost level.
    Same,
    /// The line opened a level.
    Indent,
    /// The line closed this many levels.
    Dedent(usize),
}

/// The tracker's answer for one line.
#[derive(Clone, Copy, Debug, PartialEq, Eq, Structural)]
pub struct Observation {
    /// The change of level.
    pub change: IndentChange,
    /// Whether the line mixes tabs and spaces inconsistently.
    pub tab_error: bool,
}

/// The stack of open indentation levels.
pub struct IndentationTracker {
    levels: Vec<(usize, usize)>,
}

impl View for IndentationTracker {
    type V = Levels;

    closed spec fn view(&self) -> Levels {
        Seq::new(
            self.levels@.len(),
            |i: int| (self.levels@[i].0 as int, self.levels@[i].1 as int),
        )
    }
}

impl IndentationTracker {
    /// The levels are well formed.
    pub open spec fn wf(&self) -> bool {
        levels_wf(self@)
    }

    /// A tracker with the outermost level alone.
    pub fn new() -> (r: IndentationTracker)
        ensures
            r.wf(),
            r@ == seq![(0int, 0int)],
    {
        let mut levels: Vec<(usize, usize)> = Vec::new();
        levels.push((0, 0));
        let r = IndentationTracker { levels };
        assert(r@ =~= seq![(0int, 0int)]);
        r
    }

    /// The number of levels that are open beyond the outermost.
    pub fn depth(&self) -> (r: usize)
        requires
            self.wf(),
        ensures
            r == self@.len() - 1,
    {
        self.levels.len() - 1
    }

    /// Places a line whose leading blanks have the widths `width` and
    /// `alt`. Returns what the line did, with the levels changed
    /// accordingly, or `None`, with the levels unchanged, where the line is
    /// narrower than the innermost level and as wide as none.
    pub fn observe(&mut self, width: usize, alt: usize) -> (r: Option<Observation>)
        requires
            old(self).wf(),
        ensures
            final(self).wf(),
            final(self)@ == observe_line(old(self)@, width as int, alt as int).levels,
            match r {
                Some(o) => {
                    let outcome = observe_line(old(self)@, width as int, alt as int);
                    &&& outcome.consistent
                    &&& o.tab_error == outcome.tab_error
                    &&& match o.change {
                        IndentChange::Same => !outcome.indent && outcome.dedents == 0,
                        IndentChange::Indent => outcome.indent && outcome.dedents == 0,
                        IndentChange::Dedent(k) => !outcome.indent && outcome.dedents == k && k > 0,
                    }
                },
                None => !observe_line(old(self)@, width as int, alt as int).consistent,
            },
    {
        proof {
            lemma_observe_line(self@, width as int, alt as int);
            lemma_levels_above(self@, width as int);
        }
        let ghost before = self@;
        let n: usize = self.levels.len();
        let top = self.levels[n - 1];
        assert(before.last() == (top.0 as int, top.1 as int));
        if width == top.0 {
            Some(Observation { change: IndentChange::Same, tab_error: alt != top.1 })
        } else if width > top.0 {
            self.levels.push((width, alt));
            assert(self@ =~= before.push((width as int, alt as int)));
            Some(Observation { change: IndentChange::Indent, tab_error: alt <= top.1 })
        } else {
            let mut k: usize = 0;
            assert(before.take(n as int) =~= before);
            while k < n && self.levels[n - 1 - k].0 > width
                invariant
                    n == self.levels@.len(),
                    self@ == before,
                    k <= n,
                    levels_above(before, width as int) == k + levels_above(
                        before.take(n - k),
                        width as int,
                    ),
                decreases n - k,
            {
                assert(before.take(n - k).drop_last() =~= before.take(n - k - 1));
                k += 1;
            }
            assert(k < n);
            assert(levels_above(before, width as int) == k);
            let rest_top = self.levels[n - 1 - k];
            assert(before.take(n - k).last() == (rest_top.0 as int, rest_top.1 as int));
            if rest_top.0 == width {
                self.levels.truncate(n - k);
                assert(self@ =~= before.take(n - k));
                Some(Observation { change: IndentChange::Dedent(k), tab_error: alt != rest_top.1 })
            } else {
                None
            }
        }
    }

    /// Closes every level but the outermost and returns how many it
    /// closed.
    pub fn close_all(&mut self) -> (r: usize)
        requires
            old(self).wf(),
        ensures
            final(self).wf(),
            final(self)@ == seq![(0int, 0int)],
            r == old(self)@.len() - 1,
    {
        let r: usize = self.levels.len() - 1;
        let ghost before = self@;
        self.levels.truncate(1);
        assert(self@ =~= before.take(1));
        assert(before.take(1) =~= seq![(0int, 0int)]);
        r
    }
}

/// Computes `indent_width` and `alt_width` for the blanks from `from` up
/// to `to`.
pub fn measure_indent(src: &[char], from: usize, to: usize) -> (r: (usize, usize))
    requires
        from <= to <= src@.len() <= MAX_SOURCE_LEN,
    ensures
        r.0 == indent_width(src@, from as int, to as int),
        r.1 == alt_width(src@, from as int, to as int),
{
    let mut width: usize = 0;
    let mut alt: usize = 0;
    let mut i: usize = from;
    while i < to
        invariant
            from <= i <= to <= src@.len() <= MAX_SOURCE_LEN,
            width == indent_width(src@, from as int, i as int),
            alt == alt_width(src@, from as int, i as int),
        decreases to - i,
    {
        proof {
            lemma_width_bounds(src@, from as int, i as int);
            lemma_width_bounds(src@, from as int, i + 1);
        }
        let c = src[i];
        if c == '\t' {
            width = (width / 8 + 1) * 8;
            alt += 1;
        } else if c == '\u{c}' {
            width = 0;
            alt = 0;
        } else {
            width += 1;
            alt += 1;
        }
        i += 1;
    }
    (width, alt)
}

} // verus!
