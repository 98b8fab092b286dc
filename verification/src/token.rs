//! The token model: the closed set of lexical categories and the
//! `(kind, byte position)` pair that every lexical unit carries.
//!
//! Identifier, string-literal, numeric-literal and comment tokens do not copy
//! text out of the request buffer; they carry a [`Span`], a `(start, len)`
//! window into it, so a token can always be traced back to the exact bytes it
//! was read from.

use vstd::prelude::*;

verus! {

/// A half-open byte range `[start, start + len)` into the request buffer.
#[derive(Clone, Copy, Debug, PartialEq, Eq, Structural)]
pub struct Span {
    pub start: usize,
    pub len: usize,
}

/// One lexical unit: its category and the byte offset of its first byte.
#[derive(Clone, Copy, Debug, PartialEq, Eq, Structural)]
pub struct Token {
    pub kind: TokenKind,
    pub pos: usize,
}

impl Token {
    pub fn new(kind: TokenKind, pos: usize) -> (t: Token)
        ensures
            t == (Token { kind, pos }),
    {
        Token { kind, pos }
    }
}

/// The closed set of lexical categories.
#[derive(Clone, Copy, Debug, PartialEq, Eq, Structural)]
pub enum TokenKind {
    Identifier(Span),
    Data(DataKind),
    Keyword(KeywordKind),
    Literal(LiteralKind),
    Punc(PuncKind),
    Comment(CommentKind),
    LineTerminator(LineTerminatorKind),
    Whitespace(WhitespaceKind),
    Eof,
}

/// Column data types, reserved for the CREATE TABLE grammar extension; no
/// word currently lexes to one of these.
#[derive(Clone, Copy, Debug, PartialEq, Eq, Structural)]
pub enum DataKind {
    Char(Option<u8>),
    VarChar(Option<u16>),
    Binary(Option<u16>),
    VarBinary(Option<u16>),
    TinyBlob,
    TinyText,
    Text(Option<u16>),
    Blob(Option<u16>),
    MediumText(Option<u32>),
    MediumBlob(Option<u32>),
    LongText(Option<u64>),
    LongBlob(Option<u64>),
    Bit(Option<u8>),
    TinyInt(Option<u8>),
    Bool,
    SmallInt(Option<u8>),
    MediumInt(Option<u8>),
    Integer(Option<u8>),
    BigInt(Option<u8>),
    Float(Option<u8>, Option<u8>),
    Double(Option<u8>, Option<u8>),
    Decimal(Option<u8>, Option<u8>),
}

/// Literal payloads. Both carry the span of their text: a string literal's
/// span covers the raw bytes between its quotes (escape sequences are kept,
/// not decoded), and a numeric literal's span covers its digits and optional
/// fraction.
#[derive(Clone, Copy, Debug, PartialEq, Eq, Structural)]
pub enum LiteralKind {
    String(Span),
    Numeric(Span),
}

/// The closed, case-insensitive table of reserved words.
#[derive(Clone, Copy, Debug, PartialEq, Eq, Structural)]
pub enum KeywordKind {
    Add,
    All,
    Alter,
    And,
    Any,
    As,
    Asc,
    Backup,
    Begin,
    By,
    Case,
    Check,
    Column,
    Commit,
    Constraint,
    Create,
    Database,
    Default,
    Delete,
    Desc,
    Distinct,
    Drop,
    Else,
    Exec,
    Exists,
    Foreign,
    From,
    Full,
    Grant,
    Group,
    Having,
    If,
    In,
    Into,
    Index,
    Inner,
    Insert,
    Is,
    Join,
    Key,
    Left,
    Like,
    Limit,
    Not,
    Null,
    Or,
    Order,
    Outer,
    Primary,
    Procedure,
    Revoke,
    Right,
    Rollback,
    Rownum,
    Select,
    SetKw,
    SomeKw,
    Table,
    Then,
    Top,
    Transaction,
    Truncate,
    Union,
    Unique,
    Update,
    Values,
    View,
    When,
    Where,
    Work,
}

/// Punctuation. The lexer's table is one byte to one kind; the compound
/// operator spellings (`*=`, `<=`, `<>`, ...) are carried for forward
/// compatibility and are not yet produced — their bytes lex one at a time.
#[derive(Clone, Copy, Debug, PartialEq, Eq, Structural)]
pub enum PuncKind {
    /// (
    LParen,
    /// )
    RParen,
    /// [
    LBracket,
    /// ]
    RBracket,
    /// ,
    Comma,
    /// ;
    SemiColon,
    /// :
    Colon,
    /// *
    Star,
    /// *=
    MultiplyAssign,
    /// .
    Period,
    /// +
    Add,
    /// +=
    AddAssign,
    /// -
    Subtract,
    /// -=
    SubtractAssign,
    /// /
    Divide,
    /// /=
    DivideAssign,
    /// <
    LessThan,
    /// <=
    LessThanEq,
    /// >
    GreaterThan,
    /// >=
    GreaterThanEq,
    /// =
    Equal,
    /// <>
    NotEqual,
    /// %
    Modulo,
    /// %=
    ModuloAssign,
    /// &
    BitwiseAnd,
    /// &=
    BitwiseAndAssign,
    /// |
    BitwiseOr,
    /// |=
    BitwiseOrAssign,
    /// ^
    BitwiseXor,
    /// ^=
    BitwiseXorAssign,
}

/// Comments; the span covers the comment text after the opening marker and
/// before the closing marker (or line end).
#[derive(Clone, Copy, Debug, PartialEq, Eq, Structural)]
pub enum CommentKind {
    /// --
    Single(Span),
    /// /* ... */
    Multi(Span),
}

#[derive(Clone, Copy, Debug, PartialEq, Eq, Structural)]
pub enum LineTerminatorKind {
    /// \n
    LineFeed,
    /// \r
    CarridgeReturn,
}

#[derive(Clone, Copy, Debug, PartialEq, Eq, Structural)]
pub enum WhitespaceKind {
    /// a space
    Space,
    /// \t
    HorizontalTab,
}

/// Tokens the parser's filtered view of the token stream skips: they are real
/// tokens at the lexical level, but carry no grammar.
pub open spec fn is_trivia(k: TokenKind) -> bool {
    ||| k matches TokenKind::Whitespace(_)
    ||| k matches TokenKind::LineTerminator(_)
    ||| k matches TokenKind::Comment(_)
}

pub fn kind_is_trivia(k: &TokenKind) -> (r: bool)
    ensures
        r == is_trivia(*k),
{
    match k {
        TokenKind::Whitespace(_) => true,
        TokenKind::LineTerminator(_) => true,
        TokenKind::Comment(_) => true,
        _ => false,
    }
}

} // verus!
