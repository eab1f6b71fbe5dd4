//! The keyword sets of the version profiles.

use crate::kinds::VersionProfile;
use crate::text::{is_word, to_chars};
use vstd::prelude::*;

verus! {

/// Whether `word` is reserved under every profile.
pub open spec fn is_hard_keyword(word: Seq<char>) -> bool {
    ||| word == "False"@
    ||| word == "None"@
    ||| word == "True"@
    ||| word == "and"@
    ||| word == "as"@
    ||| word == "assert"@
    ||| word == "async"@
    ||| word == "await"@
    ||| word == "break"@
    ||| word == "class"@
    ||| word == "continue"@
    ||| word == "def"@
    ||| word == "del"@
    ||| word == "elif"@
    ||| word == "else"@
    ||| word == "except"@
    ||| word == "finally"@
    ||| word == "for"@
    ||| word == "from"@
    ||| word == "global"@
    ||| word == "if"@
    ||| word == "import"@
    ||| word == "in"@
    ||| word == "is"@
    ||| word == "lambda"@
    ||| word == "nonlocal"@
    ||| word == "not"@
    ||| word == "or"@
    ||| word == "pass"@
    ||| word == "raise"@
    ||| word == "return"@
    ||| word == "try"@
    ||| word == "while"@
    ||| word == "with"@
    ||| word == "yield"@
}

/// Whether `word` is a keyword only where the grammar expects one. Only
/// the last profile has such words.
pub open spec fn is_soft_keyword(word: Seq<char>) -> bool {
    ||| word == "match"@
    ||| word == "case"@
    ||| word == "_"@
}

/// Whether `word` belongs to the keyword set of `profile`.
pub open spec fn is_keyword_of(word: Seq<char>, profile: VersionProfile) -> bool {
    is_hard_keyword(word) || (profile == VersionProfile::V310 && is_soft_keyword(word))
}

/// Computes `is_hard_keyword`.
pub fn hard_keyword(word: &Vec<char>) -> (r: bool)
    ensures
        r == is_hard_keyword(word@),
{
    is_word(word, "False")
    || is_word(word, "None")
    || is_word(word, "True")
    || is_word(word, "and")
    || is_word(word, "as")
    || is_word(word, "assert")
    || is_word(word, "async")
    || is_word(word, "await")
    || is_word(word, "break")
    || is_word(word, "class")
    || is_word(word, "continue")
    || is_word(word, "def")
    || is_word(word, "del")
    || is_word(word, "elif")
    || is_word(word, "else")
    || is_word(word, "except")
    || is_word(word, "finally")
    || is_word(word, "for")
    || is_word(word, "from")
    || is_word(word, "global")
    || is_word(word, "if")
    || is_word(word, "import")
    || is_word(word, "in")
    || is_word(word, "is")
    || is_word(word, "lambda")
    || is_word(word, "nonlocal")
    || is_word(word, "not")
    || is_word(word, "or")
    || is_word(word, "pass")
    || is_word(word, "raise")
    || is_word(word, "return")
    || is_word(word, "try")
    || is_word(word, "while")
    || is_word(word, "with")
    || is_word(word, "yield")
}

/// Computes `is_soft_keyword`.
pub fn soft_keyword(word: &Vec<char>) -> (r: bool)
    ensures
        r == is_soft_keyword(word@),
{
    is_word(word, "match")
    || is_word(word, "case")
    || is_word(word, "_")
}

/// Whether `word` belongs to the keyword set of `profile`. The tokenizer
/// reports keywords as names; this tells them apart.
pub fn is_keyword(word: &str, profile: VersionProfile) -> (r: bool)
    ensures
        r == is_keyword_of(word@, profile),
{
    let chars = to_chars(word);
    hard_keyword(&chars) || (profile == VersionProfile::V310 && soft_keyword(&chars))
}

} // verus!
