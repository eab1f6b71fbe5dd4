//! Token kinds, version profiles and the registry that gives each kind its
//! numeric code and display name under a profile.

use vstd::prelude::*;

verus! {

/// A language version that fixes the operator table, the keyword set and
/// the numeric codes of the token kinds.
#[derive(Clone, Copy, Debug, PartialEq, Eq, Structural, Hash)]
pub enum VersionProfile {
    /// Neither `:=` nor soft keywords.
    V37,
    /// With `:=`.
    V38,
    /// With `:=` and soft keywords.
    V310,
}

/// The symbolic kind of a token. A kind's identity is the same under every
/// profile; its numeric code is not.
#[derive(Clone, Copy, Debug, PartialEq, Eq, Structural, Hash)]
pub enum TokenKind {
    /// The end of the stream.
    EndMarker,
    /// An identifier or keyword.
    Name,
    /// A numeric literal.
    Number,
    /// A string literal.
    Str,
    /// The end of a logical line.
    Newline,
    /// An increase of indentation.
    Indent,
    /// A decrease of indentation.
    Dedent,
    /// The operator `(`.
    OpLPar,
    /// The operator `)`.
    OpRPar,
    /// The operator `[`.
    OpLSqb,
    /// The operator `]`.
    OpRSqb,
    /// The operator `:`.
    OpColon,
    /// The operator `,`.
    OpComma,
    /// The operator `;`.
    OpSemi,
    /// The operator `+`.
    OpPlus,
    /// The operator `-`.
    OpMinus,
    /// The operator `*`.
    OpStar,
    /// The operator `/`.
    OpSlash,
    /// The operator `|`.
    OpVBar,
    /// The operator `&`.
    OpAmper,
    /// The operator `<`.
    OpLess,
    /// The operator `>`.
    OpGreater,
    /// The operator `=`.
    OpEqual,
    /// The operator `.`.
    OpDot,
    /// The operator `%`.
    OpPercent,
    /// The operator `{`.
    OpLBrace,
    /// The operator `}`.
    OpRBrace,
    /// The operator `==`.
    OpEqEqual,
    /// The operator `!=`.
    OpNotEqual,
    /// The operator `<=`.
    OpLessEqual,
    /// The operator `>=`.
    OpGreaterEqual,
    /// The operator `~`.
    OpTilde,
    /// The operator `^`.
    OpCircumflex,
    /// The operator `<<`.
    OpLeftShift,
    /// The operator `>>`.
    OpRightShift,
    /// The operator `**`.
    OpDoubleStar,
    /// The operator `+=`.
    OpPlusEqual,
    /// The operator `-=`.
    OpMinEqual,
    /// The operator `*=`.
    OpStarEqual,
    /// The operator `/=`.
    OpSlashEqual,
    /// The operator `%=`.
    OpPercentEqual,
    /// The operator `&=`.
    OpAmperEqual,
    /// The operator `|=`.
    OpVBarEqual,
    /// The operator `^=`.
    OpCircumflexEqual,
    /// The operator `<<=`.
    OpLeftShiftEqual,
    /// The operator `>>=`.
    OpRightShiftEqual,
    /// The operator `**=`.
    OpDoubleStarEqual,
    /// The operator `//`.
    OpDoubleSlash,
    /// The operator `//=`.
    OpDoubleSlashEqual,
    /// The operator `@`.
    OpAt,
    /// The operator `@=`.
    OpAtEqual,
    /// The operator `->`.
    OpRArrow,
    /// The operator `...`.
    OpEllipsis,
    /// The operator `:=`.
    OpColonEqual,
    /// Any operator or delimiter, as the tokenizer reports it.
    Op,
    /// Reserved for `await`.
    Await,
    /// Reserved for `async`.
    Async,
    /// A type-ignore comment.
    TypeIgnore,
    /// A type comment.
    TypeComment,
    /// A keyword that is one only in context.
    SoftKeyword,
    /// A character that begins no token.
    ErrorToken,
    /// A comment.
    Comment,
    /// A line break that ends no logical line.
    Nl,
    /// The name of the source encoding.
    Encoding,
}

/// The number of token kinds.
pub const KIND_COUNT: usize = 64;

impl TokenKind {
    /// The place of the kind in the full enumeration, from 0.
    pub open spec fn ordinal(self) -> nat {
        match self {
            TokenKind::EndMarker => 0,
            TokenKind::Name => 1,
            TokenKind::Number => 2,
            TokenKind::Str => 3,
            TokenKind::Newline => 4,
            TokenKind::Indent => 5,
            TokenKind::Dedent => 6,
            TokenKind::OpLPar => 7,
            TokenKind::OpRPar => 8,
            TokenKind::OpLSqb => 9,
            TokenKind::OpRSqb => 10,
            TokenKind::OpColon => 11,
            TokenKind::OpComma => 12,
            TokenKind::OpSemi => 13,
            TokenKind::OpPlus => 14,
            TokenKind::OpMinus => 15,
            TokenKind::OpStar => 16,
            TokenKind::OpSlash => 17,
            TokenKind::OpVBar => 18,
            TokenKind::OpAmper => 19,
            TokenKind::OpLess => 20,
            TokenKind::OpGreater => 21,
            TokenKind::OpEqual => 22,
            TokenKind::OpDot => 23,
            TokenKind::OpPercent => 24,
            TokenKind::OpLBrace => 25,
            TokenKind::OpRBrace => 26,
            TokenKind::OpEqEqual => 27,
            TokenKind::OpNotEqual => 28,
            TokenKind::OpLessEqual => 29,
            TokenKind::OpGreaterEqual => 30,
            TokenKind::OpTilde => 31,
            TokenKind::OpCircumflex => 32,
            TokenKind::OpLeftShift => 33,
            TokenKind::OpRightShift => 34,
            TokenKind::OpDoubleStar => 35,
            TokenKind::OpPlusEqual => 36,
            TokenKind::OpMinEqual => 37,
            TokenKind::OpStarEqual => 38,
            TokenKind::OpSlashEqual => 39,
            TokenKind::OpPercentEqual => 40,
            TokenKind::OpAmperEqual => 41,
            TokenKind::OpVBarEqual => 42,
            TokenKind::OpCircumflexEqual => 43,
            TokenKind::OpLeftShiftEqual => 44,
            TokenKind::OpRightShiftEqual => 45,
            TokenKind::OpDoubleStarEqual => 46,
            TokenKind::OpDoubleSlash => 47,
            TokenKind::OpDoubleSlashEqual => 48,
            TokenKind::OpAt => 49,
            TokenKind::OpAtEqual => 50,
            TokenKind::OpRArrow => 51,
            TokenKind::OpEllipsis => 52,
            TokenKind::OpColonEqual => 53,
            TokenKind::Op => 54,
            TokenKind::Await => 55,
            TokenKind::Async => 56,
            TokenKind::TypeIgnore => 57,
            TokenKind::TypeComment => 58,
            TokenKind::SoftKeyword => 59,
            TokenKind::ErrorToken => 60,
            TokenKind::Comment => 61,
            TokenKind::Nl => 62,
            TokenKind::Encoding => 63,
        }
    }

    /// The kind at place `i` of the full enumeration.
    pub open spec fn at(i: nat) -> TokenKind {
        if i == 0 {
            TokenKind::EndMarker
        } else if i == 1 {
            TokenKind::Name
        } else if i == 2 {
            TokenKind::Number
        } else if i == 3 {
            TokenKind::Str
        } else if i == 4 {
            TokenKind::Newline
        } else if i == 5 {
            TokenKind::Indent
        } else if i == 6 {
            TokenKind::Dedent
        } else if i == 7 {
            TokenKind::OpLPar
        } else if i == 8 {
            TokenKind::OpRPar
        } else if i == 9 {
            TokenKind::OpLSqb
        } else if i == 10 {
            TokenKind::OpRSqb
        } else if i == 11 {
            TokenKind::OpColon
        } else if i == 12 {
            TokenKind::OpComma
        } else if i == 13 {
            TokenKind::OpSemi
        } else if i == 14 {
            TokenKind::OpPlus
        } else if i == 15 {
            TokenKind::OpMinus
        } else if i == 16 {
            TokenKind::OpStar
        } else if i == 17 {
            TokenKind::OpSlash
        } else if i == 18 {
            TokenKind::OpVBar
        } else if i == 19 {
            TokenKind::OpAmper
        } else if i == 20 {
            TokenKind::OpLess
        } else if i == 21 {
            TokenKind::OpGreater
        } else if i == 22 {
            TokenKind::OpEqual
        } else if i == 23 {
            TokenKind::OpDot
        } else if i == 24 {
            TokenKind::OpPercent
        } else if i == 25 {
            TokenKind::OpLBrace
        } else if i == 26 {
            TokenKind::OpRBrace
        } else if i == 27 {
            TokenKind::OpEqEqual
        } else if i == 28 {
            TokenKind::OpNotEqual
        } else if i == 29 {
            TokenKind::OpLessEqual
        } else if i == 30 {
            TokenKind::OpGreaterEqual
        } else if i == 31 {
            TokenKind::OpTilde
        } else if i == 32 {
            TokenKind::OpCircumflex
        } else if i == 33 {
            TokenKind::OpLeftShift
        } else if i == 34 {
            TokenKind::OpRightShift
        } else if i == 35 {
            TokenKind::OpDoubleStar
        } else if i == 36 {
            TokenKind::OpPlusEqual
        } else if i == 37 {
            TokenKind::OpMinEqual
        } else if i == 38 {
            TokenKind::OpStarEqual
        } else if i == 39 {
            TokenKind::OpSlashEqual
        } else if i == 40 {
            TokenKind::OpPercentEqual
        } else if i == 41 {
            TokenKind::OpAmperEqual
        } else if i == 42 {
            TokenKind::OpVBarEqual
        } else if i == 43 {
            TokenKind::OpCircumflexEqual
        } else if i == 44 {
            TokenKind::OpLeftShiftEqual
        } else if i == 45 {
            TokenKind::OpRightShiftEqual
        } else if i == 46 {
            TokenKind::OpDoubleStarEqual
        } else if i == 47 {
            TokenKind::OpDoubleSlash
        } else if i == 48 {
            TokenKind::OpDoubleSlashEqual
        } else if i == 49 {
            TokenKind::OpAt
        } else if i == 50 {
            TokenKind::OpAtEqual
        } else if i == 51 {
            TokenKind::OpRArrow
        } else if i == 52 {
            TokenKind::OpEllipsis
        } else if i == 53 {
            TokenKind::OpColonEqual
        } else if i == 54 {
            TokenKind::Op
        } else if i == 55 {
            TokenKind::Await
        } else if i == 56 {
            TokenKind::Async
        } else if i == 57 {
            TokenKind::TypeIgnore
        } else if i == 58 {
            TokenKind::TypeComment
        } else if i == 59 {
            TokenKind::SoftKeyword
        } else if i == 60 {
            TokenKind::ErrorToken
        } else if i == 61 {
            TokenKind::Comment
        } else if i == 62 {
            TokenKind::Nl
        } else {
            TokenKind::Encoding
        }
    }

    /// The display name of the kind, in upper case.
    pub open spec fn display_name(self) -> Seq<char> {
        match self {
            TokenKind::EndMarker => "ENDMARKER"@,
            TokenKind::Name => "NAME"@,
            TokenKind::Number => "NUMBER"@,
            TokenKind::Str => "STRING"@,
            TokenKind::Newline => "NEWLINE"@,
            TokenKind::Indent => "INDENT"@,
            TokenKind::Dedent => "DEDENT"@,
            TokenKind::OpLPar => "LPAR"@,
            TokenKind::OpRPar => "RPAR"@,
            TokenKind::OpLSqb => "LSQB"@,
            TokenKind::OpRSqb => "RSQB"@,
            TokenKind::OpColon => "COLON"@,
            TokenKind::OpComma => "COMMA"@,
            TokenKind::OpSemi => "SEMI"@,
            TokenKind::OpPlus => "PLUS"@,
            TokenKind::OpMinus => "MINUS"@,
            TokenKind::OpStar => "STAR"@,
            TokenKind::OpSlash => "SLASH"@,
            TokenKind::OpVBar => "VBAR"@,
            TokenKind::OpAmper => "AMPER"@,
            TokenKind::OpLess => "LESS"@,
            TokenKind::OpGreater => "GREATER"@,
            TokenKind::OpEqual => "EQUAL"@,
            TokenKind::OpDot => "DOT"@,
            TokenKind::OpPercent => "PERCENT"@,
            TokenKind::OpLBrace => "LBRACE"@,
            TokenKind::OpRBrace => "RBRACE"@,
            TokenKind::OpEqEqual => "EQEQUAL"@,
            TokenKind::OpNotEqual => "NOTEQUAL"@,
            TokenKind::OpLessEqual => "LESSEQUAL"@,
            TokenKind::OpGreaterEqual => "GREATEREQUAL"@,
            TokenKind::OpTilde => "TILDE"@,
            TokenKind::OpCircumflex => "CIRCUMFLEX"@,
            TokenKind::OpLeftShift => "LEFTSHIFT"@,
            TokenKind::OpRightShift => "RIGHTSHIFT"@,
            TokenKind::OpDoubleStar => "DOUBLESTAR"@,
            TokenKind::OpPlusEqual => "PLUSEQUAL"@,
            TokenKind::OpMinEqual => "MINEQUAL"@,
            TokenKind::OpStarEqual => "STAREQUAL"@,
            TokenKind::OpSlashEqual => "SLASHEQUAL"@,
            TokenKind::OpPercentEqual => "PERCENTEQUAL"@,
            TokenKind::OpAmperEqual => "AMPEREQUAL"@,
            TokenKind::OpVBarEqual => "VBAREQUAL"@,
            TokenKind::OpCircumflexEqual => "CIRCUMFLEXEQUAL"@,
            TokenKind::OpLeftShiftEqual => "LEFTSHIFTEQUAL"@,
            TokenKind::OpRightShiftEqual => "RIGHTSHIFTEQUAL"@,
            TokenKind::OpDoubleStarEqual => "DOUBLESTAREQUAL"@,
            TokenKind::OpDoubleSlash => "DOUBLESLASH"@,
            TokenKind::OpDoubleSlashEqual => "DOUBLESLASHEQUAL"@,
            TokenKind::OpAt => "AT"@,
            TokenKind::OpAtEqual => "ATEQUAL"@,
            TokenKind::OpRArrow => "RARROW"@,
            TokenKind::OpEllipsis => "ELLIPSIS"@,
            TokenKind::OpColonEqual => "COLONEQUAL"@,
            TokenKind::Op => "OP"@,
            TokenKind::Await => "AWAIT"@,
            TokenKind::Async => "ASYNC"@,
            TokenKind::TypeIgnore => "TYPE_IGNORE"@,
            TokenKind::TypeComment => "TYPE_COMMENT"@,
            TokenKind::SoftKeyword => "SOFT_KEYWORD"@,
            TokenKind::ErrorToken => "ERRORTOKEN"@,
            TokenKind::Comment => "COMMENT"@,
            TokenKind::Nl => "NL"@,
            TokenKind::Encoding => "ENCODING"@,
        }
    }

    /// Whether the kind is the exact kind of an operator or delimiter.
    pub open spec fn is_operator(self) -> bool {
        7 <= self.ordinal() <= 53
    }

    /// Computes `ordinal`.
    pub fn index(self) -> (r: usize)
        ensures
            r == self.ordinal(),
            r < KIND_COUNT,
    {
        match self {
            TokenKind::EndMarker => 0,
            TokenKind::Name => 1,
            TokenKind::Number => 2,
            TokenKind::Str => 3,
            TokenKind::Newline => 4,
            TokenKind::Indent => 5,
            TokenKind::Dedent => 6,
            TokenKind::OpLPar => 7,
            TokenKind::OpRPar => 8,
            TokenKind::OpLSqb => 9,
            TokenKind::OpRSqb => 10,
            TokenKind::OpColon => 11,
            TokenKind::OpComma => 12,
            TokenKind::OpSemi => 13,
            TokenKind::OpPlus => 14,
            TokenKind::OpMinus => 15,
            TokenKind::OpStar => 16,
            TokenKind::OpSlash => 17,
            TokenKind::OpVBar => 18,
            TokenKind::OpAmper => 19,
            TokenKind::OpLess => 20,
            TokenKind::OpGreater => 21,
            TokenKind::OpEqual => 22,
            TokenKind::OpDot => 23,
            TokenKind::OpPercent => 24,
            TokenKind::OpLBrace => 25,
            TokenKind::OpRBrace => 26,
            TokenKind::OpEqEqual => 27,
            TokenKind::OpNotEqual => 28,
            TokenKind::OpLessEqual => 29,
            TokenKind::OpGreaterEqual => 30,
            TokenKind::OpTilde => 31,
            TokenKind::OpCircumflex => 32,
            TokenKind::OpLeftShift => 33,
            TokenKind::OpRightShift => 34,
            TokenKind::OpDoubleStar => 35,
            TokenKind::OpPlusEqual => 36,
            TokenKind::OpMinEqual => 37,
            TokenKind::OpStarEqual => 38,
            TokenKind::OpSlashEqual => 39,
            TokenKind::OpPercentEqual => 40,
            TokenKind::OpAmperEqual => 41,
            TokenKind::OpVBarEqual => 42,
            TokenKind::OpCircumflexEqual => 43,
            TokenKind::OpLeftShiftEqual => 44,
            TokenKind::OpRightShiftEqual => 45,
            TokenKind::OpDoubleStarEqual => 46,
            TokenKind::OpDoubleSlash => 47,
            TokenKind::OpDoubleSlashEqual => 48,
            TokenKind::OpAt => 49,
            TokenKind::OpAtEqual => 50,
            TokenKind::OpRArrow => 51,
            TokenKind::OpEllipsis => 52,
            TokenKind::OpColonEqual => 53,
            TokenKind::Op => 54,
            TokenKind::Await => 55,
            TokenKind::Async => 56,
            TokenKind::TypeIgnore => 57,
            TokenKind::TypeComment => 58,
            TokenKind::SoftKeyword => 59,
            TokenKind::ErrorToken => 60,
            TokenKind::Comment => 61,
            TokenKind::Nl => 62,
            TokenKind::Encoding => 63,
        }
    }

    /// Computes `at` for a place below `KIND_COUNT`.
    pub fn from_index(i: usize) -> (r: TokenKind)
        requires
            i < KIND_COUNT,
        ensures
            r == TokenKind::at(i as nat),
            r.ordinal() == i,
    {
        match i {
            0 => TokenKind::EndMarker,
            1 => TokenKind::Name,
            2 => TokenKind::Number,
            3 => TokenKind::Str,
            4 => TokenKind::Newline,
            5 => TokenKind::Indent,
            6 => TokenKind::Dedent,
            7 => TokenKind::OpLPar,
            8 => TokenKind::OpRPar,
            9 => TokenKind::OpLSqb,
            10 => TokenKind::OpRSqb,
            11 => TokenKind::OpColon,
            12 => TokenKind::OpComma,
            13 => TokenKind::OpSemi,
            14 => TokenKind::OpPlus,
            15 => TokenKind::OpMinus,
            16 => TokenKind::OpStar,
            17 => TokenKind::OpSlash,
            18 => TokenKind::OpVBar,
            19 => TokenKind::OpAmper,
            20 => TokenKind::OpLess,
            21 => TokenKind::OpGreater,
            22 => TokenKind::OpEqual,
            23 => TokenKind::OpDot,
            24 => TokenKind::OpPercent,
            25 => TokenKind::OpLBrace,
            26 => TokenKind::OpRBrace,
            27 => TokenKind::OpEqEqual,
            28 => TokenKind::OpNotEqual,
            29 => TokenKind::OpLessEqual,
            30 => TokenKind::OpGreaterEqual,
            31 => TokenKind::OpTilde,
            32 => TokenKind::OpCircumflex,
            33 => TokenKind::OpLeftShift,
            34 => TokenKind::OpRightShift,
            35 => TokenKind::OpDoubleStar,
            36 => TokenKind::OpPlusEqual,
            37 => TokenKind::OpMinEqual,
            38 => TokenKind::OpStarEqual,
            39 => TokenKind::OpSlashEqual,
            40 => TokenKind::OpPercentEqual,
            41 => TokenKind::OpAmperEqual,
            42 => TokenKind::OpVBarEqual,
            43 => TokenKind::OpCircumflexEqual,
            44 => TokenKind::OpLeftShiftEqual,
            45 => TokenKind::OpRightShiftEqual,
            46 => TokenKind::OpDoubleStarEqual,
            47 => TokenKind::OpDoubleSlash,
            48 => TokenKind::OpDoubleSlashEqual,
            49 => TokenKind::OpAt,
            50 => TokenKind::OpAtEqual,
            51 => TokenKind::OpRArrow,
            52 => TokenKind::OpEllipsis,
            53 => TokenKind::OpColonEqual,
            54 => TokenKind::Op,
            55 => TokenKind::Await,
            56 => TokenKind::Async,
            57 => TokenKind::TypeIgnore,
            58 => TokenKind::TypeComment,
            59 => TokenKind::SoftKeyword,
            60 => TokenKind::ErrorToken,
            61 => TokenKind::Comment,
            62 => TokenKind::Nl,
            _ => TokenKind::Encoding,
        }
    }

    /// The display name as an owned string.
    pub fn name(self) -> (r: String)
        ensures
            r@ == self.display_name(),
    {
        match self {
            TokenKind::EndMarker => "ENDMARKER".to_owned(),
            TokenKind::Name => "NAME".to_owned(),
            TokenKind::Number => "NUMBER".to_owned(),
            TokenKind::Str => "STRING".to_owned(),
            TokenKind::Newline => "NEWLINE".to_owned(),
            TokenKind::Indent => "INDENT".to_owned(),
            TokenKind::Dedent => "DEDENT".to_owned(),
            TokenKind::OpLPar => "LPAR".to_owned(),
            TokenKind::OpRPar => "RPAR".to_owned(),
            TokenKind::OpLSqb => "LSQB".to_owned(),
            TokenKind::OpRSqb => "RSQB".to_owned(),
            TokenKind::OpColon => "COLON".to_owned(),
            TokenKind::OpComma => "COMMA".to_owned(),
            TokenKind::OpSemi => "SEMI".to_owned(),
            TokenKind::OpPlus => "PLUS".to_owned(),
            TokenKind::OpMinus => "MINUS".to_owned(),
            TokenKind::OpStar => "STAR".to_owned(),
            TokenKind::OpSlash => "SLASH".to_owned(),
            TokenKind::OpVBar => "VBAR".to_owned(),
            TokenKind::OpAmper => "AMPER".to_owned(),
            TokenKind::OpLess => "LESS".to_owned(),
            TokenKind::OpGreater => "GREATER".to_owned(),
            TokenKind::OpEqual => "EQUAL".to_owned(),
            TokenKind::OpDot => "DOT".to_owned(),
            TokenKind::OpPercent => "PERCENT".to_owned(),
            TokenKind::OpLBrace => "LBRACE".to_owned(),
            TokenKind::OpRBrace => "RBRACE".to_owned(),
            TokenKind::OpEqEqual => "EQEQUAL".to_owned(),
            TokenKind::OpNotEqual => "NOTEQUAL".to_owned(),
            TokenKind::OpLessEqual => "LESSEQUAL".to_owned(),
            TokenKind::OpGreaterEqual => "GREATEREQUAL".to_owned(),
            TokenKind::OpTilde => "TILDE".to_owned(),
            TokenKind::OpCircumflex => "CIRCUMFLEX".to_owned(),
            TokenKind::OpLeftShift => "LEFTSHIFT".to_owned(),
            TokenKind::OpRightShift => "RIGHTSHIFT".to_owned(),
            TokenKind::OpDoubleStar => "DOUBLESTAR".to_owned(),
            TokenKind::OpPlusEqual => "PLUSEQUAL".to_owned(),
            TokenKind::OpMinEqual => "MINEQUAL".to_owned(),
            TokenKind::OpStarEqual => "STAREQUAL".to_owned(),
            TokenKind::OpSlashEqual => "SLASHEQUAL".to_owned(),
            TokenKind::OpPercentEqual => "PERCENTEQUAL".to_owned(),
            TokenKind::OpAmperEqual => "AMPEREQUAL".to_owned(),
            TokenKind::OpVBarEqual => "VBAREQUAL".to_owned(),
            TokenKind::OpCircumflexEqual => "CIRCUMFLEXEQUAL".to_owned(),
            TokenKind::OpLeftShiftEqual => "LEFTSHIFTEQUAL".to_owned(),
            TokenKind::OpRightShiftEqual => "RIGHTSHIFTEQUAL".to_owned(),
            TokenKind::OpDoubleStarEqual => "DOUBLESTAREQUAL".to_owned(),
            TokenKind::OpDoubleSlash => "DOUBLESLASH".to_owned(),
            TokenKind::OpDoubleSlashEqual => "DOUBLESLASHEQUAL".to_owned(),
            TokenKind::OpAt => "AT".to_owned(),
            TokenKind::OpAtEqual => "ATEQUAL".to_owned(),
            TokenKind::OpRArrow => "RARROW".to_owned(),
            TokenKind::OpEllipsis => "ELLIPSIS".to_owned(),
            TokenKind::OpColonEqual => "COLONEQUAL".to_owned(),
            TokenKind::Op => "OP".to_owned(),
            TokenKind::Await => "AWAIT".to_owned(),
            TokenKind::Async => "ASYNC".to_owned(),
            TokenKind::TypeIgnore => "TYPE_IGNORE".to_owned(),
            TokenKind::TypeComment => "TYPE_COMMENT".to_owned(),
            TokenKind::SoftKeyword => "SOFT_KEYWORD".to_owned(),
            TokenKind::ErrorToken => "ERRORTOKEN".to_owned(),
            TokenKind::Comment => "COMMENT".to_owned(),
            TokenKind::Nl => "NL".to_owned(),
            TokenKind::Encoding => "ENCODING".to_owned(),
        }
    }
}

} // verus!
