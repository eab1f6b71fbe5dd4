//! A tokenizer for Python source text.
//!
//! `tokenize` turns a source text into its token stream under a version
//! profile; `TokenTypeRegistry` names the numeric codes of the profile's
//! token kinds. Every function is verified against the definitions in
//! `stream` and `tokenizer`, and `guarantees` proves what holds of every
//! stream.

pub mod chars;
pub mod driver;
pub mod encoding;
pub mod guarantees;
pub mod indent;
pub mod keywords;
pub mod kinds;
pub mod laws;
pub mod lexical;
pub mod operators;
pub mod registry;
pub mod scanner;
pub mod stream;
pub mod strings;
pub mod text;
pub mod token;
pub mod tokenizer;

pub use crate::indent::{IndentChange, IndentationTracker, Observation};
pub use crate::keywords::is_keyword;
pub use crate::kinds::{TokenKind, VersionProfile};
pub use crate::lexical::{classify, Shape};
pub use crate::registry::{TokenTypeRegistry, UnknownKindError};
pub use crate::scanner::Scanner;
pub use crate::token::{ErrorKind, TokenInfo, TokenSet, TokenizeError};
pub use crate::tokenizer::{tokenize, TokenStream};
