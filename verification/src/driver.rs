//! The tokenizer driver: one pass over the source text that carries out
//! the steps of the stream's state machine.

use crate::indent::{measure_indent, IndentChange, IndentationTracker};
use crate::kinds::{TokenKind, VersionProfile};
use crate::lexical::{
    classify, lemma_comment_end, lemma_skip_blank, scan_blank, scan_comment, scan_newline, Shape,
};
use crate::operators::{bracket_closes, closer, opener};
use crate::registry::kind_code;
use crate::scanner::Scanner;
use crate::stream::{
    finish, initial_state, lemma_step_progress, line_start_step, marks, remaining, run, step,
    token_step, LexState, Step,
};
use crate::token::{
    models, reports, token_of, tokens_of, ErrorKind, Failure, Lexeme, TokenInfo, TokenizeError,
};
use vstd::prelude::*;

verus! {

/// How a step of the pass ended.
pub enum Progress {
    /// The pass goes on.
    More,
    /// The pass is complete.
    Complete,
    /// The pass has failed.
    Failed(TokenizeError),
}

/// A pass over one source text.
pub struct Pass {
    scanner: Scanner,
    profile: VersionProfile,
    tracker: IndentationTracker,
    brackets: Vec<TokenKind>,
    at_line_start: bool,
    tokens: Vec<TokenInfo>,
    encoding: Ghost<Seq<char>>,
    lexemes: Ghost<Seq<Lexeme>>,
}

impl Pass {
    /// The text that the pass reads.
    pub closed spec fn source(&self) -> Seq<char> {
        self.scanner.source()
    }

    /// The profile of the pass.
    pub closed spec fn profile(&self) -> VersionProfile {
        self.profile
    }

    /// The name of the text's encoding.
    pub closed spec fn encoding(&self) -> Seq<char> {
        self.encoding@
    }

    /// The state of the pass.
    pub closed spec fn state(&self) -> LexState {
        LexState {
            pos: self.scanner.offset(),
            at_line_start: self.at_line_start,
            levels: self.tracker@,
            brackets: self.brackets@,
            out: self.lexemes@,
        }
    }

    /// The lexemes emitted so far.
    pub closed spec fn lexemes(&self) -> Seq<Lexeme> {
        self.lexemes@
    }

    /// The scanner and the tracker are well formed, and the tokens made so
    /// far are those of the lexemes emitted so far.
    pub closed spec fn wf(&self) -> bool {
        &&& self.scanner.wf()
        &&& self.tracker.wf()
        &&& models(self.tokens@) == tokens_of(
            self.scanner.source(),
            self.profile,
            self.encoding@,
            self.lexemes@,
        )
    }

    /// Whether `next` is a pass over the same text, under the same profile
    /// and with the same encoding name.
    pub open spec fn same_pass(&self, next: &Pass) -> bool {
        &&& next.source() == self.source()
        &&& next.profile() == self.profile()
        &&& next.encoding() == self.encoding()
    }

    /// A pass over the text of `scanner` that begins at the scanner's
    /// offset, with the encoding token made.
    pub fn new(scanner: Scanner, profile: VersionProfile, encoding: String) -> (r: Pass)
        requires
            scanner.wf(),
        ensures
            r.wf(),
            r.source() == scanner.source(),
            r.profile() == profile,
            r.encoding() == encoding@,
            r.state() == initial_state(scanner.offset()),
    {
        let ghost name = encoding@;
        let ghost emitted = seq![Lexeme { kind: TokenKind::Encoding, start: 0, end: 0 }];
        let first = TokenInfo {
            token_type: kind_code(TokenKind::Encoding, profile),
            string: encoding,
            start: (0, 0),
            end: (0, 0),
            line: String::new(),
            token_text: TokenKind::Encoding.name(),
            kind: TokenKind::Encoding,
        };
        let mut tokens: Vec<TokenInfo> = Vec::new();
        tokens.push(first);
        let r = Pass {
            scanner,
            profile,
            tracker: IndentationTracker::new(),
            brackets: Vec::new(),
            at_line_start: true,
            tokens,
            encoding: Ghost(name),
            lexemes: Ghost(emitted),
        };
        assert(models(r.tokens@) =~= tokens_of(
            r.scanner.source(),
            r.profile,
            r.encoding@,
            r.lexemes@,
        ));
        assert(r.state().brackets =~= Seq::<TokenKind>::empty());
        r
    }

    /// Moves the scanner to `start`, makes the token of kind `kind` from
    /// `start` up to `end`, and leaves the scanner at `end`.
    fn emit(&mut self, kind: TokenKind, start: usize, end: usize)
        requires
            old(self).wf(),
            old(self).scanner.offset() <= start <= end <= old(self).scanner.source().len(),
            kind != TokenKind::Encoding,
            kind.ordinal() < 53 || kind.ordinal() == 54 || kind.ordinal() >= 60,
        ensures
            final(self).wf(),
            old(self).same_pass(final(self)),
            final(self).state() == (LexState {
                pos: end as int,
                out: old(self).state().out.push(
                    Lexeme { kind, start: start as int, end: end as int },
                ),
                ..old(self).state()
            }),
    {
        let ghost s = self.scanner.source();
        let ghost before = self.lexemes@;
        let ghost before_tokens = self.tokens@;
        self.scanner.advance_to(start);
        let start_position = self.scanner.position();
        let line = self.scanner.line_text();
        self.scanner.advance_to(end);
        let end_position = self.scanner.position();
        let token = TokenInfo {
            token_type: kind_code(kind, self.profile),
            string: self.scanner.text(start, end),
            start: start_position,
            end: end_position,
            line,
            token_text: kind.name(),
            kind,
        };
        let ghost x = Lexeme { kind, start: start as int, end: end as int };
        assert(token@ == token_of(s, self.profile, self.encoding@, x));
        self.tokens.push(token);
        self.lexemes = Ghost(before.push(x));
        assert(models(self.tokens@) =~= models(before_tokens).push(token@));
        assert(tokens_of(s, self.profile, self.encoding@, before.push(x)) =~= tokens_of(
            s,
            self.profile,
            self.encoding@,
            before,
        ).push(token_of(s, self.profile, self.encoding@, x)));
    }

    /// Makes `n` tokens of kind `kind` that stand for no text, all at
    /// `at`.
    fn emit_marks(&mut self, kind: TokenKind, at: usize, n: usize)
        requires
            old(self).wf(),
            old(self).scanner.offset() <= at <= old(self).scanner.source().len(),
            kind != TokenKind::Encoding,
            kind.ordinal() < 53 || kind.ordinal() == 54 || kind.ordinal() >= 60,
        ensures
            final(self).wf(),
            old(self).same_pass(final(self)),
            final(self).state() == (LexState {
                pos: at as int,
                out: old(self).state().out + marks(kind, at as int, n as nat),
                ..old(self).state()
            }),
    {
        self.scanner.advance_to(at);
        let mut i: usize = 0;
        assert(old(self).state().out + marks(kind, at as int, 0) =~= old(self).state().out);
        while i < n
            invariant
                i <= n,
                self.wf(),
                old(self).same_pass(self),
                at <= self.scanner.source().len(),
                kind != TokenKind::Encoding,
                kind.ordinal() < 53 || kind.ordinal() == 54 || kind.ordinal() >= 60,
                self.state() == (LexState {
                    pos: at as int,
                    out: old(self).state().out + marks(kind, at as int, i as nat),
                    ..old(self).state()
                }),
            decreases n - i,
        {
            self.emit(kind, at, at);
            assert((old(self).state().out + marks(kind, at as int, i as nat)).push(
                Lexeme { kind, start: at as int, end: at as int },
            ) =~= old(self).state().out + marks(kind, at as int, (i + 1) as nat));
            i += 1;
        }
    }

    /// The error of kind `kind` at the offset `at`.
    fn fail(&mut self, kind: ErrorKind, at: usize) -> (e: TokenizeError)
        requires
            old(self).wf(),
            old(self).scanner.offset() <= at <= old(self).scanner.source().len(),
        ensures
            old(self).same_pass(final(self)),
            reports(e, old(self).source(), Failure { kind, at: at as int }),
    {
        self.scanner.advance_to(at);
        let position = self.scanner.position();
        TokenizeError { kind, line: position.0, column: position.1 }
    }

    /// Carries out `finish`.
    fn finish(&mut self) -> (r: Progress)
        requires
            old(self).wf(),
        ensures
            old(self).same_pass(final(self)),
            match finish(old(self).source(), old(self).state()) {
                Step::Next(_) => false,
                Step::Done(out) => r is Complete && final(self).wf() && final(self).lexemes()
                    == out,
                Step::Fail(f) => r matches Progress::Failed(e) && reports(e, old(self).source(), f),
            },
    {
        proof {
            self.scanner.lemma_wf();
        }
        let n: usize = self.scanner.chars().len();
        if self.brackets.len() > 0 {
            return Progress::Failed(self.fail(ErrorKind::BracketError, n));
        }
        let ghost line_end = if self.at_line_start {
            Seq::<Lexeme>::empty()
        } else {
            seq![Lexeme { kind: TokenKind::Newline, start: n as int, end: n as int }]
        };
        if !self.at_line_start {
            self.emit(TokenKind::Newline, n, n);
        } else {
            self.scanner.advance_to(n);
        }
        assert(self.lexemes@ =~= old(self).lexemes@ + line_end);
        let open: usize = self.tracker.depth();
        self.emit_marks(TokenKind::Dedent, n, open);
        self.emit(TokenKind::EndMarker, n, n);
        assert(self.lexemes@ =~= old(self).lexemes@ + line_end + marks(
            TokenKind::Dedent,
            n as int,
            open as nat,
        ).push(Lexeme { kind: TokenKind::EndMarker, start: n as int, end: n as int }));
        Progress::Complete
    }

    /// Carries out `line_start_step`.
    fn line_start_step(&mut self) -> (r: Progress)
        requires
            old(self).wf(),
            old(self).state().at_line_start,
        ensures
            old(self).same_pass(final(self)),
            match line_start_step(old(self).source(), old(self).state()) {
                Step::Next(next) => r is More && final(self).wf() && final(self).state() == next,
                Step::Done(out) => r is Complete && final(self).wf() && final(self).lexemes()
                    == out,
                Step::Fail(f) => r matches Progress::Failed(e) && reports(e, old(self).source(), f),
            },
    {
        proof {
            self.scanner.lemma_wf();
            lemma_skip_blank(self.scanner.source(), self.scanner.offset());
        }
        let begin: usize = self.scanner.index();
        let src = self.scanner.chars();
        let n: usize = src.len();
        let b: usize = scan_blank(src, begin);
        if b >= n {
            return self.finish();
        }
        let nl: usize = scan_newline(src, b);
        if nl > 0 {
            self.emit(TokenKind::Nl, b, b + nl);
            return Progress::More;
        }
        if src[b] == '#' {
            proof {
                lemma_comment_end(self.scanner.source(), b as int);
            }
            let c: usize = scan_comment(src, b);
            let nl: usize = scan_newline(src, c);
            self.emit(TokenKind::Comment, b, c);
            self.emit(TokenKind::Nl, c, c + nl);
            return Progress::More;
        }
        let (width, alt) = measure_indent(src, begin, b);
        match self.tracker.observe(width, alt) {
            None => Progress::Failed(self.fail(ErrorKind::IndentationError, b)),
            Some(o) => {
                let ghost blanks = if o.tab_error {
                    seq![
                        Lexeme { kind: TokenKind::ErrorToken, start: begin as int, end: b as int },
                    ]
                } else {
                    Seq::<Lexeme>::empty()
                };
                if o.tab_error {
                    self.emit(TokenKind::ErrorToken, begin, b);
                }
                assert(self.lexemes@ =~= old(self).lexemes@ + blanks);
                match o.change {
                    IndentChange::Same => {
                        self.emit_marks(TokenKind::Dedent, b, 0);
                    },
                    IndentChange::Indent => {
                        self.emit(TokenKind::Indent, b, b);
                        assert(self.lexemes@ =~= old(self).lexemes@ + blanks + seq![
                            Lexeme { kind: TokenKind::Indent, start: b as int, end: b as int },
                        ]);
                    },
                    IndentChange::Dedent(k) => {
                        self.emit_marks(TokenKind::Dedent, b, k);
                    },
                }
                self.at_line_start = false;
                proof {
                    let next = line_start_step(old(self).source(), old(self).state());
                    assert(next is Next);
                    assert(self.state().out =~= next->Next_0.out);
                }
                Progress::More
            },
        }
    }

    /// Carries out `token_step`.
    fn token_step(&mut self) -> (r: Progress)
        requires
            old(self).wf(),
            !old(self).state().at_line_start,
        ensures
            old(self).same_pass(final(self)),
            match token_step(old(self).source(), old(self).profile(), old(self).state()) {
                Step::Next(next) => r is More && final(self).wf() && final(self).state() == next,
                Step::Done(out) => r is Complete && final(self).wf() && final(self).lexemes()
                    == out,
                Step::Fail(f) => r matches Progress::Failed(e) && reports(e, old(self).source(), f),
            },
    {
        proof {
            self.scanner.lemma_wf();
            lemma_skip_blank(self.scanner.source(), self.scanner.offset());
        }
        let begin: usize = self.scanner.index();
        let src = self.scanner.chars();
        let b: usize = scan_blank(src, begin);
        let (shape, e) = classify(src, b, self.profile);
        match shape {
            Shape::End => {
                return self.finish();
            },
            Shape::LineBreak => {
                if self.brackets.len() > 0 {
                    self.emit(TokenKind::Nl, b, e);
                } else {
                    self.emit(TokenKind::Newline, b, e);
                    self.at_line_start = true;
                }
            },
            Shape::Comment => {
                self.emit(TokenKind::Comment, b, e);
            },
            Shape::Continuation => {
                self.scanner.advance_to(e);
            },
            Shape::Str => {
                self.emit(TokenKind::Str, b, e);
            },
            Shape::Number => {
                self.emit(TokenKind::Number, b, e);
            },
            Shape::Name => {
                self.emit(TokenKind::Name, b, e);
            },
            Shape::Operator(kind) => {
                if opener(kind) {
                    self.emit(TokenKind::Op, b, e);
                    self.brackets.push(kind);
                } else if closer(kind) {
                    let depth: usize = self.brackets.len();
                    if depth > 0 && bracket_closes(self.brackets[depth - 1], kind) {
                        self.emit(TokenKind::Op, b, e);
                        let _ = self.brackets.pop();
                    } else {
                        return Progress::Failed(self.fail(ErrorKind::BracketError, b));
                    }
                } else {
                    self.emit(TokenKind::Op, b, e);
                }
            },
            Shape::Unrecognized => {
                self.emit(TokenKind::ErrorToken, b, e);
            },
        }
        Progress::More
    }

    /// Carries out one step of the pass.
    pub fn step(&mut self) -> (r: Progress)
        requires
            old(self).wf(),
        ensures
            old(self).same_pass(final(self)),
            match step(old(self).source(), old(self).profile(), old(self).state()) {
                Step::Next(next) => r is More && final(self).wf() && final(self).state() == next,
                Step::Done(out) => r is Complete && final(self).wf() && final(self).lexemes()
                    == out,
                Step::Fail(f) => r matches Progress::Failed(e) && reports(e, old(self).source(), f),
            },
    {
        if self.at_line_start {
            self.line_start_step()
        } else {
            self.token_step()
        }
    }

    /// The tokens made so far.
    pub fn into_tokens(self) -> (r: Vec<TokenInfo>)
        requires
            self.wf(),
        ensures
            models(r@) == tokens_of(self.source(), self.profile(), self.encoding(), self.lexemes()),
    {
        self.tokens
    }

    /// Carries the pass through to its end and returns its tokens, or the
    /// error that ended it.
    pub fn run(self) -> (r: Result<Vec<TokenInfo>, TokenizeError>)
        requires
            self.wf(),
        ensures
            match run(self.source(), self.profile(), self.state()) {
                Ok(out) => r matches Ok(tokens) && models(tokens@) == tokens_of(
                    self.source(),
                    self.profile(),
                    self.encoding(),
                    out,
                ),
                Err(f) => r matches Err(e) && reports(e, self.source(), f),
            },
    {
        proof {
            self.scanner.lemma_wf();
        }
        let ghost goal = run(self.source(), self.profile(), self.state());
        let mut pass = self;
        loop
            invariant
                pass.wf(),
                self.same_pass(&pass),
                goal == run(self.source(), self.profile(), self.state()),
                run(pass.source(), pass.profile(), pass.state()) == goal,
                0 <= pass.state().pos <= pass.source().len(),
            decreases remaining(pass.source(), pass.state()),
        {
            proof {
                lemma_step_progress(pass.source(), pass.profile(), pass.state());
            }
            let ghost before = pass.state();
            let ghost taken = step(pass.source(), pass.profile(), before);
            assert(run(pass.source(), pass.profile(), before) == match taken {
                Step::Next(next) => run(pass.source(), pass.profile(), next),
                Step::Done(out) => Ok(out),
                Step::Fail(f) => Err(f),
            });
            match pass.step() {
                Progress::More => {
                    proof {
                        pass.scanner.lemma_wf();
                    }
                },
                Progress::Complete => {
                    assert(taken is Done);
                    return Ok(pass.into_tokens());
                },
                Progress::Failed(e) => {
                    assert(taken is Fail);
                    return Err(e);
                },
            }
        }
    }
}

} // verus!
