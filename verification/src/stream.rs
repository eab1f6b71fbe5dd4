//! The token stream of a source text, defined as a state machine that
//! walks the text from line to line and from token to token.

use crate::indent::{alt_width, indent_width, observe_line, Levels};
use crate::kinds::{TokenKind, VersionProfile};
use crate::lexical::{
    classify_at, comment_end, lemma_classify_at, lemma_comment_end, lemma_skip_blank, newline_len,
    skip_blank, Shape,
};
use crate::operators::{closes, is_closer, is_opener};
use crate::token::{ErrorKind, Failure, Lexeme};
use vstd::prelude::*;

verus! {

/// The state of a pass.
///
/// A pass is at the start of a line, where `at_line_start` holds, or
/// within a logical line; within a logical line it is inside brackets
/// where `brackets` is not empty, and then as deep as `brackets` is long.
/// It is over once a step has reached the end of the text.
pub struct LexState {
    /// The offset up to which the text has been read.
    pub pos: int,
    /// Whether the next character begins a logical line.
    pub at_line_start: bool,
    /// The open indentation levels.
    pub levels: Levels,
    /// The opening brackets that are not closed yet, innermost last.
    pub brackets: Seq<TokenKind>,
    /// The lexemes emitted so far.
    pub out: Seq<Lexeme>,
}

/// What one step of a pass leads to.
pub enum Step {
    /// The pass goes on in this state.
    Next(LexState),
    /// The pass is complete, with these lexemes.
    Done(Seq<Lexeme>),
    /// The pass has failed.
    Fail(Failure),
}

/// `n` lexemes of kind `kind` that stand for no text, all at `at`.
pub open spec fn marks(kind: TokenKind, at: int, n: nat) -> Seq<Lexeme> {
    Seq::new(n, |i: int| Lexeme { kind, start: at, end: at })
}

/// The end of the text. Within brackets the pass fails there. Otherwise
/// it ends the logical line that is open, if there is one, with a line
/// end that stands for no text, closes every open indentation level, and
/// ends the stream.
pub open spec fn finish(s: Seq<char>, st: LexState) -> Step {
    let n = s.len() as int;
    if st.brackets.len() > 0 {
        Step::Fail(Failure { kind: ErrorKind::BracketError, at: n })
    } else {
        let line_end = if st.at_line_start {
            Seq::<Lexeme>::empty()
        } else {
            seq![Lexeme { kind: TokenKind::Newline, start: n, end: n }]
        };
        Step::Done(
            st.out + line_end + marks(TokenKind::Dedent, n, (st.levels.len() - 1) as nat).push(
                Lexeme { kind: TokenKind::EndMarker, start: n, end: n },
            ),
        )
    }
}

/// The step at the start of a physical line, outside brackets.
///
/// Behind the leading blanks: at the end of the text the pass finishes. A
/// line break makes the line a blank one, which is one `Nl`. A comment
/// makes it a comment line, which is the comment and one `Nl` for the
/// line break behind it (for no text, where the text ends there).
/// Anything else begins a logical line: the blanks are measured and
/// placed among the indentation levels, which gives one `Indent`, one
/// `Dedent` for each level closed, or nothing, preceded by an error token
/// that holds the blanks where they mix tabs and spaces inconsistently.
/// The pass fails where the line cannot be placed.
pub open spec fn line_start_step(s: Seq<char>, st: LexState) -> Step {
    let b = skip_blank(s, st.pos);
    if b >= s.len() {
        finish(s, st)
    } else if newline_len(s, b) > 0 {
        let e = b + newline_len(s, b);
        Step::Next(
            LexState {
                pos: e,
                out: st.out.push(Lexeme { kind: TokenKind::Nl, start: b, end: e }),
                ..st
            },
        )
    } else if s[b] == '#' {
        let c = comment_end(s, b);
        let e = c + newline_len(s, c);
        Step::Next(
            LexState {
                pos: e,
                out: st.out.push(Lexeme { kind: TokenKind::Comment, start: b, end: c }).push(
                    Lexeme { kind: TokenKind::Nl, start: c, end: e },
                ),
                ..st
            },
        )
    } else {
        let o = observe_line(st.levels, indent_width(s, st.pos, b), alt_width(s, st.pos, b));
        if !o.consistent {
            Step::Fail(Failure { kind: ErrorKind::IndentationError, at: b })
        } else {
            let blanks = if o.tab_error {
                seq![Lexeme { kind: TokenKind::ErrorToken, start: st.pos, end: b }]
            } else {
                Seq::<Lexeme>::empty()
            };
            let change = if o.indent {
                seq![Lexeme { kind: TokenKind::Indent, start: b, end: b }]
            } else {
                marks(TokenKind::Dedent, b, o.dedents)
            };
            Step::Next(
                LexState {
                    pos: b,
                    at_line_start: false,
                    levels: o.levels,
                    brackets: st.brackets,
                    out: st.out + blanks + change,
                },
            )
        }
    }
}

/// The state behind a token of kind `kind` from `b` up to `e`.
pub open spec fn with_token(st: LexState, kind: TokenKind, b: int, e: int) -> LexState {
    LexState { pos: e, out: st.out.push(Lexeme { kind, start: b, end: e }), ..st }
}

/// The step within a logical line.
///
/// Behind the blanks: at the end of the text the pass finishes. A line
/// break within brackets is an `Nl`, and the logical line goes on;
/// outside brackets it is a `Newline`, and the next physical line begins
/// a logical line. A line continuation gives no token. An opening bracket
/// is remembered; a closing bracket must close the innermost open one, or
/// the pass fails at it. Every operator is reported as `Op`, every
/// unrecognized character as an error token.
pub open spec fn token_step(s: Seq<char>, profile: VersionProfile, st: LexState) -> Step {
    let b = skip_blank(s, st.pos);
    let (shape, e) = classify_at(s, b, profile);
    match shape {
        Shape::End => finish(s, st),
        Shape::LineBreak => if st.brackets.len() > 0 {
            Step::Next(with_token(st, TokenKind::Nl, b, e))
        } else {
            Step::Next(
                LexState { at_line_start: true, ..with_token(st, TokenKind::Newline, b, e) },
            )
        },
        Shape::Comment => Step::Next(with_token(st, TokenKind::Comment, b, e)),
        Shape::Continuation => Step::Next(LexState { pos: e, ..st }),
        Shape::Str => Step::Next(with_token(st, TokenKind::Str, b, e)),
        Shape::Number => Step::Next(with_token(st, TokenKind::Number, b, e)),
        Shape::Name => Step::Next(with_token(st, TokenKind::Name, b, e)),
        Shape::Operator(kind) => if is_opener(kind) {
            Step::Next(
                LexState {
                    brackets: st.brackets.push(kind),
                    ..with_token(st, TokenKind::Op, b, e)
                },
            )
        } else if is_closer(kind) {
            if st.brackets.len() > 0 && closes(st.brackets.last(), kind) {
                Step::Next(
                    LexState {
                        brackets: st.brackets.drop_last(),
                        ..with_token(st, TokenKind::Op, b, e)
                    },
                )
            } else {
                Step::Fail(Failure { kind: ErrorKind::BracketError, at: b })
            }
        } else {
            Step::Next(with_token(st, TokenKind::Op, b, e))
        },
        Shape::Unrecognized => Step::Next(with_token(st, TokenKind::ErrorToken, b, e)),
    }
}

/// One step of a pass.
pub open spec fn step(s: Seq<char>, profile: VersionProfile, st: LexState) -> Step {
    if st.at_line_start {
        line_start_step(s, st)
    } else {
        token_step(s, profile, st)
    }
}

/// What is left of a pass: it grows smaller with every step.
pub open spec fn remaining(s: Seq<char>, st: LexState) -> int {
    2 * (s.len() - st.pos) + if st.at_line_start {
        1int
    } else {
        0int
    }
}

/// Every step that goes on leaves less of the pass, and stays within the
/// text.
pub proof fn lemma_step_progress(s: Seq<char>, profile: VersionProfile, st: LexState)
    requires
        0 <= st.pos <= s.len(),
    ensures
        step(s, profile, st) matches Step::Next(next) ==> st.pos <= next.pos <= s.len()
            && remaining(s, next) < remaining(s, st),
{
    lemma_skip_blank(s, st.pos);
    let b = skip_blank(s, st.pos);
    lemma_classify_at(s, b, profile);
    if b < s.len() {
        lemma_comment_end(s, b + 1);
    }
}

/// The lexemes of the pass that goes on from the state `st`, or its
/// failure.
pub open spec fn run(s: Seq<char>, profile: VersionProfile, st: LexState) -> Result<
    Seq<Lexeme>,
    Failure,
>
    decreases remaining(s, st),
    when 0 <= st.pos <= s.len()
    via run_decreases
{
    match step(s, profile, st) {
        Step::Next(next) => run(s, profile, next),
        Step::Done(out) => Ok(out),
        Step::Fail(f) => Err(f),
    }
}

#[via_fn]
proof fn run_decreases(s: Seq<char>, profile: VersionProfile, st: LexState) {
    lemma_step_progress(s, profile, st);
}

/// The state in which a pass begins at the offset `start`: at the start
/// of a line, with the outermost indentation level alone, outside
/// brackets, and with the encoding token emitted.
pub open spec fn initial_state(start: int) -> LexState {
    LexState {
        pos: start,
        at_line_start: true,
        levels: seq![(0int, 0int)],
        brackets: Seq::empty(),
        out: seq![Lexeme { kind: TokenKind::Encoding, start: 0, end: 0 }],
    }
}

} // verus!
