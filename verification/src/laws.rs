//! What holds of every token stream: it begins with the encoding token
//! and ends with the one end marker, its tokens follow each other in the
//! order of the text with nothing but blanks and line continuations
//! between them, and its indents and dedents balance.

use crate::chars::is_blank;
use crate::encoding::{body_start, has_bom};
use crate::indent::{
    alt_width, indent_width, lemma_observe_line, lemma_width_bounds, levels_wf, observe_line,
};
use crate::kinds::{TokenKind, VersionProfile};
use crate::lexical::{
    classify_at, comment_end, lemma_classify_at, lemma_comment_end, lemma_skip_blank, newline_len,
    skip_blank, Shape,
};
use crate::stream::{
    finish, initial_state, lemma_step_progress, line_start_step, marks, remaining, run, step,
    token_step, LexState, Step,
};
use crate::token::Lexeme;
use vstd::prelude::*;

verus! {

/// Whether the character at `k` is part of a line continuation: the
/// backslash, or the line break behind it.
pub open spec fn in_continuation(s: Seq<char>, k: int) -> bool {
    ||| s[k] == '\\' && newline_len(s, k + 1) > 0
    ||| k >= 1 && s[k - 1] == '\\' && newline_len(s, k) > 0
    ||| k >= 2 && s[k - 2] == '\\' && s[k - 1] == '\r' && s[k] == '\n'
}

/// Whether the character at `k` may stand between two tokens: a blank,
/// a part of a line continuation, or the byte order mark at the
/// beginning of the text.
pub open spec fn is_elided(s: Seq<char>, k: int) -> bool {
    is_blank(s[k]) || in_continuation(s, k) || (k == 0 && has_bom(s))
}

/// Whether the text from `a` up to `b` holds nothing that a token stands
/// for.
pub open spec fn gap(s: Seq<char>, a: int, b: int) -> bool {
    a <= b && forall|k: int| a <= k < b ==> is_elided(s, k)
}

/// What a lexeme of kind `kind` adds to the number of open indentation
/// levels.
pub open spec fn level_change(kind: TokenKind) -> int {
    if kind == TokenKind::Indent {
        1
    } else if kind == TokenKind::Dedent {
        -1
    } else {
        0
    }
}

/// The number of indents among `xs` less the number of dedents.
pub open spec fn balance(xs: Seq<Lexeme>) -> int
    decreases xs.len(),
{
    if xs.len() == 0 {
        0
    } else {
        balance(xs.drop_last()) + level_change(xs.last().kind)
    }
}

/// Whether `kind` is a kind of the tokens between the encoding token and
/// the end marker.
pub open spec fn is_body_kind(kind: TokenKind) -> bool {
    kind != TokenKind::Encoding && kind != TokenKind::EndMarker
}

/// Whether the lexeme at place `i` of `xs` lies within the text, behind
/// the lexeme before it, with only a gap between the two.
pub open spec fn placed(s: Seq<char>, xs: Seq<Lexeme>, i: int) -> bool {
    0 <= xs[i].start <= xs[i].end <= s.len() && gap(s, xs[i - 1].end, xs[i].start)
}

/// Whether `out` is the beginning of a stream over the text up to `pos`:
/// the encoding token, and then lexemes that lie in the text before
/// `pos`, each behind the one before it with only a gap between them, and
/// only a gap between the last one and `pos`.
pub open spec fn covers(s: Seq<char>, out: Seq<Lexeme>, pos: int) -> bool {
    &&& out.len() >= 1
    &&& out[0] == Lexeme { kind: TokenKind::Encoding, start: 0, end: 0 }
    &&& forall|i: int| 1 <= i < out.len() ==> #[trigger] placed(s, out, i)
    &&& forall|i: int|
        1 <= i < out.len() ==> is_body_kind((#[trigger] out[i]).kind) && out[i].end <= pos
    &&& gap(s, out.last().end, pos)
    &&& pos <= s.len()
}

/// What holds of the state of a pass before every step.
pub open spec fn stream_inv(s: Seq<char>, st: LexState) -> bool {
    &&& levels_wf(st.levels)
    &&& st.at_line_start ==> st.brackets.len() == 0
    &&& covers(s, st.out, st.pos)
    &&& balance(st.out) == st.levels.len() - 1
}

/// Whether `xs` is a well-formed stream over the whole text `s`: it
/// begins with the encoding token and ends with the end marker at the
/// end of the text, no lexeme between them is of either kind, every
/// lexeme is placed behind the one before it, and the indents and dedents
/// balance.
pub open spec fn well_formed(s: Seq<char>, xs: Seq<Lexeme>) -> bool {
    &&& xs.len() >= 2
    &&& xs[0] == Lexeme { kind: TokenKind::Encoding, start: 0, end: 0 }
    &&& xs.last() == Lexeme { kind: TokenKind::EndMarker, start: s.len() as int, end: s.len() as int }
    &&& forall|i: int| 1 <= i < xs.len() ==> #[trigger] placed(s, xs, i)
    &&& forall|i: int| 1 <= i < xs.len() - 1 ==> is_body_kind((#[trigger] xs[i]).kind)
    &&& balance(xs) == 0
}

proof fn lemma_balance_push(xs: Seq<Lexeme>, x: Lexeme)
    ensures
        balance(xs.push(x)) == balance(xs) + level_change(x.kind),
{
    assert(xs.push(x).drop_last() =~= xs);
}

proof fn lemma_balance_marks(xs: Seq<Lexeme>, kind: TokenKind, at: int, n: nat)
    ensures
        balance(xs + marks(kind, at, n)) == balance(xs) + n * level_change(kind),
    decreases n,
{
    if n == 0 {
        assert(xs + marks(kind, at, 0) =~= xs);
    } else {
        lemma_balance_marks(xs, kind, at, (n - 1) as nat);
        let x = Lexeme { kind, start: at, end: at };
        assert(xs + marks(kind, at, n) =~= (xs + marks(kind, at, (n - 1) as nat)).push(x));
        lemma_balance_push(xs + marks(kind, at, (n - 1) as nat), x);
        assert(n * level_change(kind) == (n - 1) * level_change(kind) + level_change(kind))
            by (nonlinear_arith);
    }
}

proof fn lemma_covers_advance(s: Seq<char>, out: Seq<Lexeme>, pos: int, to: int)
    requires
        covers(s, out, pos),
        gap(s, pos, to),
        to <= s.len(),
    ensures
        covers(s, out, to),
{
}

proof fn lemma_covers_push(s: Seq<char>, out: Seq<Lexeme>, pos: int, x: Lexeme)
    requires
        covers(s, out, pos),
        gap(s, pos, x.start),
        x.start <= x.end <= s.len(),
        is_body_kind(x.kind),
    ensures
        covers(s, out.push(x), x.end),
{
    let next = out.push(x);
    assert forall|i: int| 1 <= i < next.len() implies #[trigger] placed(s, next, i) by {
        if i < out.len() {
            assert(placed(s, out, i));
        } else {
            assert(next[i - 1] == out.last());
            if out.len() > 1 {
                assert(placed(s, out, out.len() - 1));
            }
        }
    }
}

proof fn lemma_covers_marks(s: Seq<char>, out: Seq<Lexeme>, pos: int, kind: TokenKind, n: nat)
    requires
        covers(s, out, pos),
        0 <= pos,
        is_body_kind(kind),
    ensures
        covers(s, out + marks(kind, pos, n), pos),
    decreases n,
{
    if n == 0 {
        assert(out + marks(kind, pos, 0) =~= out);
    } else {
        lemma_covers_marks(s, out, pos, kind, (n - 1) as nat);
        let x = Lexeme { kind, start: pos, end: pos };
        assert(out + marks(kind, pos, n) =~= (out + marks(kind, pos, (n - 1) as nat)).push(x));
        lemma_covers_push(s, out + marks(kind, pos, (n - 1) as nat), pos, x);
    }
}

proof fn lemma_finish(s: Seq<char>, st: LexState)
    requires
        stream_inv(s, st),
        gap(s, st.pos, s.len() as int),
    ensures
        finish(s, st) matches Step::Done(out) ==> well_formed(s, out),
        !(finish(s, st) is Next),
{
    if st.brackets.len() == 0 {
        let n = s.len() as int;
        lemma_covers_advance(s, st.out, st.pos, n);
        let line_end = if st.at_line_start {
            Seq::<Lexeme>::empty()
        } else {
            seq![Lexeme { kind: TokenKind::Newline, start: n, end: n }]
        };
        let a = st.out + line_end;
        if st.at_line_start {
            assert(a =~= st.out);
        } else {
            let x = Lexeme { kind: TokenKind::Newline, start: n, end: n };
            assert(a =~= st.out.push(x));
            lemma_covers_push(s, st.out, n, x);
            lemma_balance_push(st.out, x);
        }
        let k = (st.levels.len() - 1) as nat;
        let b = a + marks(TokenKind::Dedent, n, k);
        lemma_covers_marks(s, a, n, TokenKind::Dedent, k);
        lemma_balance_marks(a, TokenKind::Dedent, n, k);
        let last = Lexeme { kind: TokenKind::EndMarker, start: n, end: n };
        let out = b.push(last);
        assert(out =~= st.out + line_end + marks(TokenKind::Dedent, n, k).push(last));
        lemma_balance_push(b, last);
        assert(k * level_change(TokenKind::Dedent) == -k) by (nonlinear_arith)
            requires
                level_change(TokenKind::Dedent) == -1,
        ;
        assert forall|i: int| 1 <= i < out.len() implies #[trigger] placed(s, out, i) by {
            if i < b.len() {
                assert(placed(s, b, i));
            } else {
                assert(out[i - 1] == b.last());
            }
        }
        assert forall|i: int| 1 <= i < out.len() - 1 implies is_body_kind(
            (#[trigger] out[i]).kind,
        ) by {
            assert(placed(s, b, i));
        }
    }
}

proof fn lemma_line_start_step(s: Seq<char>, st: LexState)
    requires
        stream_inv(s, st),
        0 <= st.pos,
        st.at_line_start,
    ensures
        match line_start_step(s, st) {
            Step::Next(next) => stream_inv(s, next),
            Step::Done(out) => well_formed(s, out),
            Step::Fail(_) => true,
        },
{
    lemma_skip_blank(s, st.pos);
    let b = skip_blank(s, st.pos);
    assert(gap(s, st.pos, b));
    if b >= s.len() {
        lemma_finish(s, st);
    } else if newline_len(s, b) > 0 {
        let x = Lexeme { kind: TokenKind::Nl, start: b, end: b + newline_len(s, b) };
        lemma_covers_push(s, st.out, st.pos, x);
        lemma_balance_push(st.out, x);
    } else if s[b] == '#' {
        lemma_comment_end(s, b);
        let c = comment_end(s, b);
        let x = Lexeme { kind: TokenKind::Comment, start: b, end: c };
        let y = Lexeme { kind: TokenKind::Nl, start: c, end: c + newline_len(s, c) };
        lemma_covers_push(s, st.out, st.pos, x);
        lemma_covers_push(s, st.out.push(x), c, y);
        lemma_balance_push(st.out, x);
        lemma_balance_push(st.out.push(x), y);
    } else {
        let width = indent_width(s, st.pos, b);
        let alt = alt_width(s, st.pos, b);
        lemma_width_bounds(s, st.pos, b);
        lemma_observe_line(st.levels, width, alt);
        let o = observe_line(st.levels, width, alt);
        if o.consistent {
            let blanks = if o.tab_error {
                seq![Lexeme { kind: TokenKind::ErrorToken, start: st.pos, end: b }]
            } else {
                Seq::<Lexeme>::empty()
            };
            let a = st.out + blanks;
            if o.tab_error {
                let x = Lexeme { kind: TokenKind::ErrorToken, start: st.pos, end: b };
                assert(a =~= st.out.push(x));
                lemma_covers_push(s, st.out, st.pos, x);
                lemma_balance_push(st.out, x);
            } else {
                assert(a =~= st.out);
                lemma_covers_advance(s, st.out, st.pos, b);
            }
            if o.indent {
                let x = Lexeme { kind: TokenKind::Indent, start: b, end: b };
                assert(a + seq![x] =~= a.push(x));
                lemma_covers_push(s, a, b, x);
                lemma_balance_push(a, x);
            } else {
                lemma_covers_marks(s, a, b, TokenKind::Dedent, o.dedents);
                lemma_balance_marks(a, TokenKind::Dedent, b, o.dedents);
                assert(o.dedents * level_change(TokenKind::Dedent) == -o.dedents)
                    by (nonlinear_arith)
                    requires
                        level_change(TokenKind::Dedent) == -1,
                ;
            }
        }
    }
}

proof fn lemma_token_step(s: Seq<char>, profile: VersionProfile, st: LexState)
    requires
        stream_inv(s, st),
        0 <= st.pos,
        !st.at_line_start,
    ensures
        match token_step(s, profile, st) {
            Step::Next(next) => stream_inv(s, next),
            Step::Done(out) => well_formed(s, out),
            Step::Fail(_) => true,
        },
{
    lemma_skip_blank(s, st.pos);
    let b = skip_blank(s, st.pos);
    assert(gap(s, st.pos, b));
    lemma_classify_at(s, b, profile);
    let (shape, e) = classify_at(s, b, profile);
    match shape {
        Shape::End => {
            lemma_finish(s, st);
        },
        Shape::Continuation => {
            assert(gap(s, st.pos, e)) by {
                assert forall|k: int| st.pos <= k < e implies is_elided(s, k) by {
                    if k >= b {
                        assert(in_continuation(s, k));
                    }
                }
            }
            lemma_covers_advance(s, st.out, st.pos, e);
        },
        _ => {
            let kind = match shape {
                Shape::LineBreak => if st.brackets.len() > 0 {
                    TokenKind::Nl
                } else {
                    TokenKind::Newline
                },
                Shape::Comment => TokenKind::Comment,
                Shape::Str => TokenKind::Str,
                Shape::Number => TokenKind::Number,
                Shape::Name => TokenKind::Name,
                Shape::Operator(_) => TokenKind::Op,
                _ => TokenKind::ErrorToken,
            };
            let x = Lexeme { kind, start: b, end: e };
            lemma_covers_push(s, st.out, st.pos, x);
            lemma_balance_push(st.out, x);
        },
    }
}

/// Every step keeps what holds of the state of a pass, and a pass that
/// completes has made a well-formed stream.
pub proof fn lemma_step_keeps_invariant(s: Seq<char>, profile: VersionProfile, st: LexState)
    requires
        stream_inv(s, st),
        0 <= st.pos,
    ensures
        match step(s, profile, st) {
            Step::Next(next) => stream_inv(s, next) && 0 <= next.pos,
            Step::Done(out) => well_formed(s, out),
            Step::Fail(_) => true,
        },
{
    lemma_step_progress(s, profile, st);
    if st.at_line_start {
        lemma_line_start_step(s, st);
    } else {
        lemma_token_step(s, profile, st);
    }
}

/// A pass that goes on from a state of which the invariant holds makes a
/// well-formed stream, if it completes.
pub proof fn lemma_run_well_formed(s: Seq<char>, profile: VersionProfile, st: LexState)
    requires
        stream_inv(s, st),
        0 <= st.pos,
    ensures
        run(s, profile, st) matches Ok(out) ==> well_formed(s, out),
    decreases remaining(s, st),
{
    lemma_step_keeps_invariant(s, profile, st);
    lemma_step_progress(s, profile, st);
    match step(s, profile, st) {
        Step::Next(next) => {
            lemma_run_well_formed(s, profile, next);
        },
        _ => {},
    }
}

/// The invariant holds of the state in which a pass begins.
pub proof fn lemma_initial_state(s: Seq<char>)
    ensures
        stream_inv(s, initial_state(body_start(s))),
{
    let st = initial_state(body_start(s));
    assert(st.out.drop_last() =~= Seq::<Lexeme>::empty());
    assert(balance(st.out.drop_last()) == 0);
}

} // verus!
