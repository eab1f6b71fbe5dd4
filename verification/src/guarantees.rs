//! The laws of token streams, stated of the tokens that `tokenize`
//! returns.

use crate::encoding::{body_start, encoding_of};
use crate::kinds::{TokenKind, VersionProfile};
use crate::laws::{
    balance, in_continuation, is_body_kind, is_elided, lemma_initial_state,
    lemma_run_well_formed, placed, well_formed,
};
use crate::stream::initial_state;
use crate::text::{lemma_position_monotonic, line_of, position_le};
use crate::token::{models, tokens_of, Lexeme, TokenModel, TokenizeError};
use crate::tokenizer::{is_tokenization, lex, tokenization, TokenStream};
use vstd::prelude::*;

verus! {

/// The number of tokens of kind `kind` among `tokens`.
pub open spec fn count_kind(tokens: Seq<TokenModel>, kind: TokenKind) -> nat
    decreases tokens.len(),
{
    if tokens.len() == 0 {
        0
    } else {
        count_kind(tokens.drop_last(), kind) + if tokens.last().kind == kind {
            1nat
        } else {
            0nat
        }
    }
}

/// The text that the first `n` tokens stand for, with the gaps of the
/// source text between them: for each token behind the encoding token,
/// the stretch of `s` between the token before it and itself, and then
/// the token's own text.
pub open spec fn rejoined(s: Seq<char>, xs: Seq<Lexeme>, tokens: Seq<TokenModel>, n: int) -> Seq<
    char,
>
    decreases n,
{
    if n <= 1 {
        Seq::empty()
    } else {
        rejoined(s, xs, tokens, n - 1) + s.subrange(xs[n - 2].end, xs[n - 1].start) + tokens[n
            - 1].string
    }
}

/// The stream begins with the one encoding token and ends with the one
/// end marker.
pub open spec fn has_sentinels(tokens: Seq<TokenModel>) -> bool {
    &&& tokens.len() >= 2
    &&& tokens[0].kind == TokenKind::Encoding
    &&& tokens.last().kind == TokenKind::EndMarker
    &&& forall|i: int|
        0 <= i < tokens.len() - 1 ==> (#[trigger] tokens[i]).kind != TokenKind::EndMarker
    &&& forall|i: int| 1 <= i < tokens.len() ==> (#[trigger] tokens[i]).kind != TokenKind::Encoding
}

/// The tokens are in the order of the text: no token ends before it
/// begins, and a later token begins where an earlier one ends or behind
/// it.
pub open spec fn is_ordered(tokens: Seq<TokenModel>) -> bool {
    &&& forall|i: int|
        0 <= i < tokens.len() ==> position_le((#[trigger] tokens[i]).start, tokens[i].end)
    &&& forall|i: int, j: int|
        0 <= i < j < tokens.len() ==> position_le(
            (#[trigger] tokens[i]).end,
            (#[trigger] tokens[j]).start,
        )
}

/// The tokens are stretches of the text with only gaps between them:
/// each token behind the encoding token holds the text of its lexeme,
/// what lies between two lexemes is blanks and line continuations, and
/// the tokens' texts joined with those gaps are the text again.
pub open spec fn covers_text(s: Seq<char>, xs: Seq<Lexeme>, tokens: Seq<TokenModel>) -> bool {
    &&& xs.len() == tokens.len()
    &&& forall|i: int|
        1 <= i < xs.len() ==> (#[trigger] tokens[i]).string == s.subrange(xs[i].start, xs[i].end)
    &&& forall|i: int| 1 <= i < xs.len() ==> #[trigger] placed(s, xs, i)
    &&& rejoined(s, xs, tokens, xs.len() as int) == s
}

/// The laws of the token stream `tokens` of the text `s`.
pub open spec fn obeys_stream_laws(
    s: Seq<char>,
    profile: VersionProfile,
    tokens: Seq<TokenModel>,
) -> bool {
    &&& has_sentinels(tokens)
    &&& is_ordered(tokens)
    &&& count_kind(tokens, TokenKind::Indent) == count_kind(tokens, TokenKind::Dedent)
    &&& lex(s, profile) matches Ok(xs) && covers_text(s, xs, tokens)
}

/// The lexemes of a text are a well-formed stream.
pub proof fn lemma_lex_well_formed(s: Seq<char>, profile: VersionProfile)
    ensures
        lex(s, profile) matches Ok(xs) ==> well_formed(s, xs),
{
    lemma_initial_state(s);
    lemma_run_well_formed(s, profile, initial_state(body_start(s)));
}

/// In a well-formed stream a lexeme ends where a later one begins, or
/// before it.
pub proof fn lemma_lexemes_ordered(s: Seq<char>, xs: Seq<Lexeme>, i: int, j: int)
    requires
        well_formed(s, xs),
        0 <= i <= j < xs.len(),
    ensures
        0 <= xs[i].start <= xs[i].end <= xs[j].end <= s.len(),
        i < j ==> xs[i].end <= xs[j].start,
    decreases j - i,
{
    if j >= 1 {
        assert(placed(s, xs, j));
    }
    if i >= 1 {
        assert(placed(s, xs, i));
    }
    if i < j {
        lemma_lexemes_ordered(s, xs, i, j - 1);
    }
}

proof fn lemma_balance_counts(
    s: Seq<char>,
    profile: VersionProfile,
    encoding: Seq<char>,
    xs: Seq<Lexeme>,
)
    ensures
        balance(xs) == count_kind(tokens_of(s, profile, encoding, xs), TokenKind::Indent)
            - count_kind(tokens_of(s, profile, encoding, xs), TokenKind::Dedent),
    decreases xs.len(),
{
    if xs.len() > 0 {
        lemma_balance_counts(s, profile, encoding, xs.drop_last());
        assert(tokens_of(s, profile, encoding, xs).drop_last() =~= tokens_of(
            s,
            profile,
            encoding,
            xs.drop_last(),
        ));
    }
}

proof fn lemma_rejoined(s: Seq<char>, xs: Seq<Lexeme>, tokens: Seq<TokenModel>, n: int)
    requires
        well_formed(s, xs),
        xs.len() == tokens.len(),
        forall|i: int|
            1 <= i < xs.len() ==> (#[trigger] tokens[i]).string == s.subrange(
                xs[i].start,
                xs[i].end,
            ),
        1 <= n <= xs.len(),
    ensures
        rejoined(s, xs, tokens, n) == s.subrange(0, xs[n - 1].end),
    decreases n,
{
    if n == 1 {
        assert(s.subrange(0, 0) =~= Seq::<char>::empty());
    } else {
        lemma_rejoined(s, xs, tokens, n - 1);
        lemma_lexemes_ordered(s, xs, n - 2, n - 1);
        lemma_lexemes_ordered(s, xs, n - 1, n - 1);
        assert(s.subrange(0, xs[n - 2].end) + s.subrange(xs[n - 2].end, xs[n - 1].start)
            + s.subrange(xs[n - 1].start, xs[n - 1].end) =~= s.subrange(0, xs[n - 1].end));
    }
}

/// Every token stream obeys the stream laws: whatever the text and the
/// profile, the tokens that tokenizing gives begin with the encoding
/// token and end with the one end marker, stand in the order of the
/// text, hold as many indents as dedents, and give the text back when
/// they are joined with the gaps between them.
pub proof fn lemma_stream_laws(s: Seq<char>, profile: VersionProfile)
    ensures
        tokenization(s, profile) matches Ok(tokens) ==> obeys_stream_laws(s, profile, tokens),
{
    if tokenization(s, profile) is Ok {
        let encoding = encoding_of(s)->Ok_0;
        let xs = lex(s, profile)->Ok_0;
        let tokens = tokens_of(s, profile, encoding, xs);
        lemma_lex_well_formed(s, profile);
        lemma_balance_counts(s, profile, encoding, xs);
        assert(has_sentinels(tokens)) by {
            assert forall|i: int| 0 <= i < tokens.len() - 1 implies (#[trigger] tokens[i]).kind
                != TokenKind::EndMarker by {
                if i >= 1 {
                    assert(is_body_kind(xs[i].kind));
                }
            }
            assert forall|i: int| 1 <= i < tokens.len() implies (#[trigger] tokens[i]).kind
                != TokenKind::Encoding by {
                if i < tokens.len() - 1 {
                    assert(is_body_kind(xs[i].kind));
                }
            }
        }
        assert(is_ordered(tokens)) by {
            assert forall|i: int| 0 <= i < tokens.len() implies position_le(
                (#[trigger] tokens[i]).start,
                tokens[i].end,
            ) by {
                if i >= 1 {
                    lemma_lexemes_ordered(s, xs, i, i);
                    lemma_position_monotonic(s, xs[i].start, xs[i].end);
                    assert(xs[i].kind != TokenKind::Encoding);
                }
            }
            assert forall|i: int, j: int| 0 <= i < j < tokens.len() implies position_le(
                (#[trigger] tokens[i]).end,
                (#[trigger] tokens[j]).start,
            ) by {
                assert(tokens[j].kind != TokenKind::Encoding);
                lemma_lexemes_ordered(s, xs, i, j);
                if i >= 1 {
                    assert(tokens[i].kind != TokenKind::Encoding);
                    lemma_position_monotonic(s, xs[i].end, xs[j].start);
                }
            }
        }
        assert(covers_text(s, xs, tokens)) by {
            assert forall|i: int| 1 <= i < xs.len() implies (#[trigger] tokens[i]).string
                == s.subrange(xs[i].start, xs[i].end) by {
                assert(tokens[i].kind != TokenKind::Encoding);
            }
            lemma_rejoined(s, xs, tokens, xs.len() as int);
            assert(s.subrange(0, s.len() as int) =~= s);
        }
    }
}

/// Every character of the text is accounted for: it lies within a token,
/// or it is a blank, a part of a line continuation or the byte order
/// mark.
pub proof fn lemma_every_character_accounted(s: Seq<char>, profile: VersionProfile, k: int)
    requires
        lex(s, profile) is Ok,
        0 <= k < s.len(),
    ensures
        is_elided(s, k) || exists|i: int|
            1 <= i < lex(s, profile)->Ok_0.len() && within(lex(s, profile)->Ok_0, i, k),
{
    let xs = lex(s, profile)->Ok_0;
    lemma_lex_well_formed(s, profile);
    lemma_accounted(s, xs, xs.len() as int, k);
}

/// Whether the offset `k` lies within the lexeme at place `i` of `xs`.
pub open spec fn within(xs: Seq<Lexeme>, i: int, k: int) -> bool {
    xs[i].start <= k < xs[i].end
}

proof fn lemma_accounted(s: Seq<char>, xs: Seq<Lexeme>, n: int, k: int)
    requires
        well_formed(s, xs),
        1 <= n <= xs.len(),
        0 <= k < xs[n - 1].end,
    ensures
        is_elided(s, k) || exists|i: int| 1 <= i < xs.len() && within(xs, i, k),
    decreases n,
{
    if n > 1 {
        assert(placed(s, xs, n - 1));
        if k < xs[n - 2].end {
            lemma_accounted(s, xs, n - 1, k);
        } else if k >= xs[n - 1].start {
            assert(within(xs, n - 1, k));
        }
    }
}

/// Whether a line continuation stands in the text from `a` up to `b`.
pub open spec fn has_continuation(s: Seq<char>, a: int, b: int) -> bool {
    exists|k: int| a <= k < b && in_continuation(s, k)
}

proof fn lemma_same_line(s: Seq<char>, a: int, b: int)
    requires
        0 <= a <= b,
        forall|k: int| a <= k < b ==> #[trigger] s[k] != '\n',
    ensures
        line_of(s, a) == line_of(s, b),
    decreases b - a,
{
    if a < b {
        lemma_same_line(s, a, b - 1);
    }
}

/// No physical line is passed over: each token begins on the line on
/// which the token before it ends, unless a line continuation stands
/// between the two. For the first token behind the encoding token that
/// line is the first.
pub proof fn lemma_lines_follow(s: Seq<char>, profile: VersionProfile, i: int)
    requires
        lex(s, profile) is Ok,
        1 <= i < lex(s, profile)->Ok_0.len(),
    ensures
        ({
            let xs = lex(s, profile)->Ok_0;
            line_of(s, xs[i].start) == line_of(s, xs[i - 1].end) || has_continuation(
                s,
                xs[i - 1].end,
                xs[i].start,
            )
        }),
{
    let xs = lex(s, profile)->Ok_0;
    lemma_lex_well_formed(s, profile);
    lemma_lexemes_ordered(s, xs, i - 1, i);
    assert(placed(s, xs, i));
    let a = xs[i - 1].end;
    let b = xs[i].start;
    if !has_continuation(s, a, b) {
        assert forall|k: int| a <= k < b implies #[trigger] s[k] != '\n' by {
            assert(is_elided(s, k));
            assert(!in_continuation(s, k));
        }
        lemma_same_line(s, a, b);
    }
}

/// Tokenizing is a function of the text and the profile: two results for
/// the same text under the same profile are both streams of the same
/// tokens, or both the same error.
pub proof fn lemma_tokenize_deterministic(
    s: Seq<char>,
    profile: VersionProfile,
    a: Result<TokenStream, TokenizeError>,
    b: Result<TokenStream, TokenizeError>,
)
    requires
        is_tokenization(s, profile, a),
        is_tokenization(s, profile, b),
    ensures
        match (a, b) {
            (Ok(x), Ok(y)) => models(x@) == models(y@),
            (Err(e), Err(f)) => e == f,
            _ => false,
        },
{
}

} // verus!
