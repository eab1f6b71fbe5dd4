//! The entry point: the token stream of a source text under a version
//! profile.

use crate::driver::Pass;
use crate::encoding::{body_start, detect_encoding, encoding_of, starts_with_bom};
use crate::guarantees::{lemma_stream_laws, obeys_stream_laws};
use crate::kinds::VersionProfile;
use crate::registry::{table_of, TokenTypeRegistry};
use crate::scanner::Scanner;
use crate::stream::{initial_state, run};
use crate::text::MAX_SOURCE_LEN;
use crate::token::{
    models, reports, tokens_of, ErrorKind, Failure, Lexeme, TokenInfo, TokenModel, TokenSet,
    TokenizeError,
};
use vstd::prelude::*;

verus! {

/// The tokens of one source text, in the order of the text.
pub type TokenStream = Vec<TokenInfo>;

/// The lexemes of the text `s` under `profile`, or the failure of the
/// pass: the failure of the encoding where the text's declaration
/// contradicts its byte order mark, else what the pass gives that begins
/// behind the byte order mark.
pub open spec fn lex(s: Seq<char>, profile: VersionProfile) -> Result<Seq<Lexeme>, Failure> {
    match encoding_of(s) {
        Err(f) => Err(f),
        Ok(_) => run(s, profile, initial_state(body_start(s))),
    }
}

/// The tokens of the text `s` under `profile`, or the failure of the
/// pass.
pub open spec fn tokenization(s: Seq<char>, profile: VersionProfile) -> Result<
    Seq<TokenModel>,
    Failure,
> {
    match lex(s, profile) {
        Err(f) => Err(f),
        Ok(xs) => Ok(tokens_of(s, profile, encoding_of(s)->Ok_0, xs)),
    }
}

/// Whether `r` is what tokenizing `s` under `profile` gives: the tokens
/// of `s`, or the error that reports the failure of the pass.
pub open spec fn is_tokenization(
    s: Seq<char>,
    profile: VersionProfile,
    r: Result<TokenStream, TokenizeError>,
) -> bool {
    match tokenization(s, profile) {
        Ok(tokens) => r matches Ok(stream) && models(stream@) == tokens,
        Err(f) => r matches Err(e) && reports(e, s, f),
    }
}

/// Tokenizes `input` under `profile`.
///
/// The result is the token stream that `tokenization` defines, which
/// obeys the stream laws, or the error of the first condition that ends
/// the pass, with the position at which it was found.
///
/// Three conditions end a pass: an encoding declaration that contradicts
/// the byte order mark, a line that fits no open indentation level, and a
/// bracket that is not matched. Everything else yields tokens: a line of
/// blanks or of a comment alone is one `Nl`, blanks that mix tabs and
/// spaces inconsistently are an error token, and so is any character that
/// begins no token, the quotation mark of an unclosed string among them.
pub fn tokenize(input: &str, profile: VersionProfile) -> (r: Result<TokenStream, TokenizeError>)
    requires
        input@.len() <= MAX_SOURCE_LEN,
    ensures
        is_tokenization(input@, profile, r),
        r matches Ok(stream) ==> obeys_stream_laws(input@, profile, models(stream@)),
{
    proof {
        lemma_stream_laws(input@, profile);
    }
    let mut scanner = Scanner::new(input);
    match detect_encoding(scanner.chars()) {
        Err(at) => {
            scanner.advance_to(at);
            let position = scanner.position();
            Err(TokenizeError { kind: ErrorKind::EncodingError, line: position.0, column: position.1 })
        },
        Ok(name) => {
            if starts_with_bom(scanner.chars()) {
                let _ = scanner.advance();
            }
            Pass::new(scanner, profile, name).run()
        },
    }
}

impl TokenSet {
    /// Whether the set holds the tokens of `s` under `profile` and the
    /// table of that profile.
    pub open spec fn is_set_of(&self, s: Seq<char>, profile: VersionProfile) -> bool {
        &&& tokenization(s, profile) == Ok::<Seq<TokenModel>, Failure>(models(self.tokens@))
        &&& table_of(self.token_types@, profile)
    }

    /// The tokens of `input` under `profile`, together with the table of
    /// the profile's codes.
    pub fn build(input: &str, profile: VersionProfile) -> (r: Result<TokenSet, TokenizeError>)
        requires
            input@.len() <= MAX_SOURCE_LEN,
        ensures
            match tokenization(input@, profile) {
                Ok(_) => r matches Ok(set) && set.is_set_of(input@, profile),
                Err(f) => r matches Err(e) && reports(e, input@, f),
            },
    {
        match tokenize(input, profile) {
            Ok(tokens) => Ok(
                TokenSet { tokens, token_types: TokenTypeRegistry::for_profile(profile).token_types() },
            ),
            Err(e) => Err(e),
        }
    }
}

} // verus!
