//! The lexer: an on-demand token stream over one immutable byte buffer.
//!
//! The lexical rules are stated once, mathematically, by [`token_at`]: given
//! the buffer and a byte offset it yields the token starting there and the
//! offset just past it, or a fault with a message and the byte position it
//! refers to. The executable [`Lexer`] is proved to follow `token_at` step by
//! step, so every property of the token stream can be read off the spec.

use vstd::prelude::*;

use crate::ascii::{
    is_alpha, is_digit, byte_is_alpha, byte_is_digit, AMP, BSLASH, CARET, COLON, COMMA, CR, DOT,
    EQ, GT, HT, LBRACK, LF, LPAREN, LT, MINUS, PERCENT, PIPE, PLUS, RBRACK, RPAREN, SEMI, SLASH,
    SP, SQUOTE, STAR,
};
use crate::keywords::{match_kw, spec_match_kw};
use crate::token::{
    is_trivia, kind_is_trivia, CommentKind, LineTerminatorKind, LiteralKind, PuncKind, Span,
    Token, TokenKind, WhitespaceKind,
};

verus! {

// ---------------------------------------------------------------------------
// Faults and their messages
// ---------------------------------------------------------------------------

/// The spec-level shape of a lexical or syntactic failure: what it says and
/// the byte offset it points at.
pub ghost struct Fault {
    pub msg: Seq<char>,
    pub pos: int,
}

pub open spec fn msg_unknown_artifact() -> Seq<char> {
    "unknown artifact"@
}

pub open spec fn msg_unterminated_string() -> Seq<char> {
    "unterminated string literal"@
}

pub open spec fn msg_malformed_numeric() -> Seq<char> {
    "malformed numeric literal"@
}

pub open spec fn msg_unterminated_block_comment() -> Seq<char> {
    "unterminated block comment"@
}

/// A short name for each lexical category, used in error messages.
pub open spec fn kind_label(k: TokenKind) -> Seq<char> {
    match k {
        TokenKind::Identifier(_) => "identifier"@,
        TokenKind::Data(_) => "data type"@,
        TokenKind::Keyword(_) => "keyword"@,
        TokenKind::Literal(LiteralKind::String(_)) => "string literal"@,
        TokenKind::Literal(LiteralKind::Numeric(_)) => "numeric literal"@,
        TokenKind::Punc(_) => "punctuation"@,
        TokenKind::Comment(_) => "comment"@,
        TokenKind::LineTerminator(_) => "line terminator"@,
        TokenKind::Whitespace(_) => "whitespace"@,
        TokenKind::Eof => "end of input"@,
    }
}

pub open spec fn msg_unexpected_token(k: TokenKind) -> Seq<char> {
    "Unexpected token: "@ + kind_label(k)
}

// ---------------------------------------------------------------------------
// Spec-level scanning
// ---------------------------------------------------------------------------

/// The first offset at or after `i` that does not hold an ASCII letter.
pub open spec fn alpha_end(data: Seq<u8>, i: int) -> int
    decreases data.len() - i,
{
    if 0 <= i < data.len() && is_alpha(data[i]) {
        alpha_end(data, i + 1)
    } else {
        i
    }
}

pub proof fn lemma_alpha_end(data: Seq<u8>, i: int)
    requires
        0 <= i <= data.len(),
    ensures
        i <= alpha_end(data, i) <= data.len(),
        forall|j: int| i <= j < alpha_end(data, i) ==> is_alpha(data[j]),
        alpha_end(data, i) < data.len() ==> !is_alpha(data[alpha_end(data, i)]),
    decreases data.len() - i,
{
    if i < data.len() && is_alpha(data[i]) {
        lemma_alpha_end(data, i + 1);
    }
}

/// The first offset at or after `i` that does not hold an ASCII digit.
pub open spec fn digit_end(data: Seq<u8>, i: int) -> int
    decreases data.len() - i,
{
    if 0 <= i < data.len() && is_digit(data[i]) {
        digit_end(data, i + 1)
    } else {
        i
    }
}

pub proof fn lemma_digit_end(data: Seq<u8>, i: int)
    requires
        0 <= i <= data.len(),
    ensures
        i <= digit_end(data, i) <= data.len(),
        forall|j: int| i <= j < digit_end(data, i) ==> is_digit(data[j]),
        digit_end(data, i) < data.len() ==> !is_digit(data[digit_end(data, i)]),
    decreases data.len() - i,
{
    if i < data.len() && is_digit(data[i]) {
        lemma_digit_end(data, i + 1);
    }
}

/// The offset of the quote that terminates a string literal whose content
/// starts at `i`, if there is one. A quote preceded by a backslash does not
/// terminate the literal.
pub open spec fn str_end(data: Seq<u8>, i: int) -> Option<int>
    recommends
        1 <= i,
    decreases data.len() - i,
{
    if i >= data.len() {
        None
    } else if data[i] == SQUOTE && data[i - 1] != BSLASH {
        Some(i)
    } else {
        str_end(data, i + 1)
    }
}

pub proof fn lemma_str_end(data: Seq<u8>, i: int)
    requires
        0 <= i,
    ensures
        str_end(data, i) matches Some(j) ==> i <= j < data.len(),
    decreases data.len() - i,
{
    if i < data.len() && !(data[i] == SQUOTE && data[i - 1] != BSLASH) {
        lemma_str_end(data, i + 1);
    }
}

/// The offset of the line terminator that ends a single-line comment
/// scanned from `i`, or the end of the buffer if there is none.
pub open spec fn line_end(data: Seq<u8>, i: int) -> int
    decreases data.len() - i,
{
    if 0 <= i < data.len() {
        if data[i] == LF || data[i] == CR {
            i
        } else {
            line_end(data, i + 1)
        }
    } else {
        data.len() as int
    }
}

pub proof fn lemma_line_end(data: Seq<u8>, i: int)
    requires
        0 <= i <= data.len(),
    ensures
        i <= line_end(data, i) <= data.len(),
    decreases data.len() - i,
{
    if i < data.len() && !(data[i] == LF || data[i] == CR) {
        lemma_line_end(data, i + 1);
    }
}

/// The offset of the `*` of the first `*/` at or after `i`, if any.
pub open spec fn block_end(data: Seq<u8>, i: int) -> Option<int>
    decreases data.len() - i,
{
    if i + 1 >= data.len() {
        None
    } else if data[i] == STAR && data[i + 1] == SLASH {
        Some(i)
    } else {
        block_end(data, i + 1)
    }
}

pub proof fn lemma_block_end(data: Seq<u8>, i: int)
    requires
        0 <= i,
    ensures
        block_end(data, i) matches Some(j) ==> i <= j && j + 1 < data.len(),
    decreases data.len() - i,
{
    if i + 1 < data.len() && !(data[i] == STAR && data[i + 1] == SLASH) {
        lemma_block_end(data, i + 1);
    }
}

// ---------------------------------------------------------------------------
// The lexical rules
// ---------------------------------------------------------------------------

/// Builds one punctuation outcome: the token and the offset just past it.
pub open spec fn punc_tok(p: PuncKind, pos: int, next: int) -> Result<(Token, int), Fault> {
    Ok((Token { kind: TokenKind::Punc(p), pos: pos as usize }, next))
}

/// The lexical rule for every byte that is not a quote, letter or digit:
/// whitespace, line terminators, comments, the one-byte punctuation table,
/// and the unknown-artifact fault for everything else. Every punctuation
/// token consumes exactly one byte; only the two comment openers `--` and
/// `/*` look one byte ahead.
pub open spec fn punct_at(data: Seq<u8>, pos: int) -> Result<(Token, int), Fault>
    recommends
        0 <= pos < data.len(),
{
    let b = data[pos];
    let two = pos + 1 < data.len();
    if b == SP {
        Ok((Token { kind: TokenKind::Whitespace(WhitespaceKind::Space), pos: pos as usize }, pos + 1))
    } else if b == HT {
        Ok((Token { kind: TokenKind::Whitespace(WhitespaceKind::HorizontalTab), pos: pos as usize }, pos + 1))
    } else if b == LF {
        Ok((Token { kind: TokenKind::LineTerminator(LineTerminatorKind::LineFeed), pos: pos as usize }, pos + 1))
    } else if b == CR {
        Ok((Token { kind: TokenKind::LineTerminator(LineTerminatorKind::CarridgeReturn), pos: pos as usize }, pos + 1))
    } else if b == LPAREN {
        punc_tok(PuncKind::LParen, pos, pos + 1)
    } else if b == RPAREN {
        punc_tok(PuncKind::RParen, pos, pos + 1)
    } else if b == LBRACK {
        punc_tok(PuncKind::LBracket, pos, pos + 1)
    } else if b == RBRACK {
        punc_tok(PuncKind::RBracket, pos, pos + 1)
    } else if b == COMMA {
        punc_tok(PuncKind::Comma, pos, pos + 1)
    } else if b == SEMI {
        punc_tok(PuncKind::SemiColon, pos, pos + 1)
    } else if b == COLON {
        punc_tok(PuncKind::Colon, pos, pos + 1)
    } else if b == EQ {
        punc_tok(PuncKind::Equal, pos, pos + 1)
    } else if b == DOT {
        punc_tok(PuncKind::Period, pos, pos + 1)
    } else if b == MINUS {
        if two && data[pos + 1] == MINUS {
            let e = line_end(data, pos + 2);
            Ok((Token {
                kind: TokenKind::Comment(CommentKind::Single(Span {
                    start: (pos + 2) as usize,
                    len: (e - pos - 2) as usize,
                })),
                pos: pos as usize,
            }, e))
        } else {
            punc_tok(PuncKind::Subtract, pos, pos + 1)
        }
    } else if b == SLASH {
        if two && data[pos + 1] == STAR {
            match block_end(data, pos + 2) {
                Some(j) => Ok((Token {
                    kind: TokenKind::Comment(CommentKind::Multi(Span {
                        start: (pos + 2) as usize,
                        len: (j - pos - 2) as usize,
                    })),
                    pos: pos as usize,
                }, j + 2)),
                None => Err(Fault { msg: msg_unterminated_block_comment(), pos }),
            }
        } else {
            punc_tok(PuncKind::Divide, pos, pos + 1)
        }
    } else if b == STAR {
        punc_tok(PuncKind::Star, pos, pos + 1)
    } else if b == PLUS {
        punc_tok(PuncKind::Add, pos, pos + 1)
    } else if b == PERCENT {
        punc_tok(PuncKind::Modulo, pos, pos + 1)
    } else if b == AMP {
        punc_tok(PuncKind::BitwiseAnd, pos, pos + 1)
    } else if b == PIPE {
        punc_tok(PuncKind::BitwiseOr, pos, pos + 1)
    } else if b == CARET {
        punc_tok(PuncKind::BitwiseXor, pos, pos + 1)
    } else if b == LT {
        punc_tok(PuncKind::LessThan, pos, pos + 1)
    } else if b == GT {
        punc_tok(PuncKind::GreaterThan, pos, pos + 1)
    } else {
        Err(Fault { msg: msg_unknown_artifact(), pos })
    }
}

/// The complete lexical rule: the token starting at byte offset `pos` of
/// `data` and the offset just past it, or a fault. At or past the end of the
/// buffer the token is `Eof` at that offset, and the offset does not move.
pub open spec fn token_at(data: Seq<u8>, pos: int) -> Result<(Token, int), Fault>
    recommends
        0 <= pos <= data.len(),
{
    if pos >= data.len() {
        Ok((Token { kind: TokenKind::Eof, pos: pos as usize }, pos))
    } else {
        let b = data[pos];
        if b == SQUOTE {
            match str_end(data, pos + 1) {
                Some(j) => Ok((Token {
                    kind: TokenKind::Literal(LiteralKind::String(Span {
                        start: (pos + 1) as usize,
                        len: (j - pos - 1) as usize,
                    })),
                    pos: pos as usize,
                }, j + 1)),
                None => Err(Fault { msg: msg_unterminated_string(), pos }),
            }
        } else if is_alpha(b) {
            let e = alpha_end(data, pos);
            match spec_match_kw(data.subrange(pos, e)) {
                Some(kw) => Ok((Token { kind: TokenKind::Keyword(kw), pos: pos as usize }, e)),
                None => Ok((Token {
                    kind: TokenKind::Identifier(Span {
                        start: pos as usize,
                        len: (e - pos) as usize,
                    }),
                    pos: pos as usize,
                }, e)),
            }
        } else if is_digit(b) {
            let e = digit_end(data, pos);
            if e < data.len() && data[e] == DOT {
                let e2 = digit_end(data, e + 1);
                if e2 == e + 1 {
                    Err(Fault { msg: msg_malformed_numeric(), pos })
                } else {
                    Ok((Token {
                        kind: TokenKind::Literal(LiteralKind::Numeric(Span {
                            start: pos as usize,
                            len: (e2 - pos) as usize,
                        })),
                        pos: pos as usize,
                    }, e2))
                }
            } else {
                Ok((Token {
                    kind: TokenKind::Literal(LiteralKind::Numeric(Span {
                        start: pos as usize,
                        len: (e - pos) as usize,
                    })),
                    pos: pos as usize,
                }, e))
            }
        } else {
            punct_at(data, pos)
        }
    }
}

/// Every successfully lexed token starts where the scan stood, and the scan
/// only moves forward; it stands still exactly on `Eof`.
pub proof fn lemma_token_at_bounds(data: Seq<u8>, pos: int)
    requires
        0 <= pos <= data.len(),
        data.len() <= usize::MAX,
    ensures
        token_at(data, pos) matches Ok(op) ==> {
            &&& op.0.pos == pos
            &&& pos <= op.1 <= data.len()
            &&& (op.0.kind is Eof <==> op.1 == pos)
            &&& (op.0.kind is Eof ==> pos == data.len())
        },
{
    if pos < data.len() {
        let b = data[pos];
        if b == SQUOTE {
            lemma_str_end(data, pos + 1);
        } else if is_alpha(b) {
            lemma_alpha_end(data, pos);
            lemma_alpha_end(data, pos + 1);
            assert(alpha_end(data, pos) == alpha_end(data, pos + 1));
        } else if is_digit(b) {
            lemma_digit_end(data, pos);
            lemma_digit_end(data, pos + 1);
            assert(digit_end(data, pos) == digit_end(data, pos + 1));
            let e = digit_end(data, pos);
            if e < data.len() && data[e] == DOT {
                lemma_digit_end(data, e + 1);
            }
        } else {
            if b == MINUS && pos + 1 < data.len() && data[pos + 1] == MINUS {
                lemma_line_end(data, pos + 2);
            }
            if b == SLASH && pos + 1 < data.len() && data[pos + 1] == STAR {
                lemma_block_end(data, pos + 2);
            }
        }
    }
}

/// The parser's filtered view of the token stream: the first token at or
/// after `pos` that is not whitespace, a line terminator or a comment, and
/// the offset just past it.
pub open spec fn real_token_at(data: Seq<u8>, pos: int) -> Result<(Token, int), Fault>
    decreases data.len() - pos,
        when 0 <= pos <= data.len() <= usize::MAX
{
    match token_at(data, pos) {
        Ok((t, p2)) => if is_trivia(t.kind) {
            proof {
                lemma_token_at_bounds(data, pos);
            }
            real_token_at(data, p2)
        } else {
            Ok((t, p2))
        },
        Err(e) => Err(e),
    }
}

/// The filtered scan also only moves forward, never yields trivia, and
/// reaches `Eof` exactly at the end of the buffer.
pub proof fn lemma_real_token_at_bounds(data: Seq<u8>, pos: int)
    requires
        0 <= pos <= data.len(),
        data.len() <= usize::MAX,
    ensures
        real_token_at(data, pos) matches Ok(op) ==> {
            &&& pos <= op.0.pos as int
            &&& op.0.pos as int <= op.1
            &&& pos <= op.1 <= data.len()
            &&& !is_trivia(op.0.kind)
            &&& (op.0.kind is Eof <==> op.1 == data.len() && op.0.pos == data.len())
            &&& (!(op.0.kind is Eof) ==> pos < op.1)
        },
    decreases data.len() - pos,
{
    lemma_token_at_bounds(data, pos);
    match token_at(data, pos) {
        Ok((t, p2)) => {
            if is_trivia(t.kind) {
                lemma_real_token_at_bounds(data, p2);
            }
        },
        Err(_) => {},
    }
}


/// The eat outcome at `pos`: whether the next non-trivia token has the
/// given kind, and the cursor after the attempt — past the token on a
/// match, unchanged otherwise (also on a fault: `eat` never errors).
pub open spec fn eat_at(data: Seq<u8>, pos: int, kind: TokenKind) -> (bool, int) {
    match real_token_at(data, pos) {
        Ok(op) => if op.0.kind == kind {
            (true, op.1)
        } else {
            (false, pos)
        },
        Err(_) => (false, pos),
    }
}

// ---------------------------------------------------------------------------
// The executable lexer
// ---------------------------------------------------------------------------

/// A lexical error: what went wrong and the byte offset it points at.
#[derive(Debug)]
pub struct LexerError {
    pub message: String,
    pub pos: usize,
}

impl LexerError {
    pub fn new(message: String, pos: usize) -> (e: LexerError)
        ensures
            e.message == message,
            e.pos == pos,
    {
        LexerError { message, pos }
    }
}

/// The executable error carries exactly the message and position of the
/// spec-level fault.
pub open spec fn reports(e: LexerError, f: Fault) -> bool {
    e.message@ == f.msg && e.pos as int == f.pos
}

/// A slice's view always fits the machine's address space.
pub proof fn lemma_slice_len_bound<T>(s: &[T])
    ensures
        s@.len() <= usize::MAX,
{
    broadcast use vstd::slice::axiom_spec_len;

    assert(vstd::slice::spec_slice_len(s) == s@.len());
}

fn unknown_artifact_message() -> (s: String)
    ensures
        s@ == msg_unknown_artifact(),
{
    "unknown artifact".to_owned()
}

fn unterminated_string_message() -> (s: String)
    ensures
        s@ == msg_unterminated_string(),
{
    "unterminated string literal".to_owned()
}

fn malformed_numeric_message() -> (s: String)
    ensures
        s@ == msg_malformed_numeric(),
{
    "malformed numeric literal".to_owned()
}

fn unterminated_block_comment_message() -> (s: String)
    ensures
        s@ == msg_unterminated_block_comment(),
{
    "unterminated block comment".to_owned()
}

fn kind_label_str(k: &TokenKind) -> (r: &'static str)
    ensures
        r@ == kind_label(*k),
{
    match k {
        TokenKind::Identifier(_) => "identifier",
        TokenKind::Data(_) => "data type",
        TokenKind::Keyword(_) => "keyword",
        TokenKind::Literal(LiteralKind::String(_)) => "string literal",
        TokenKind::Literal(LiteralKind::Numeric(_)) => "numeric literal",
        TokenKind::Punc(_) => "punctuation",
        TokenKind::Comment(_) => "comment",
        TokenKind::LineTerminator(_) => "line terminator",
        TokenKind::Whitespace(_) => "whitespace",
        TokenKind::Eof => "end of input",
    }
}

pub fn unexpected_token_message(k: &TokenKind) -> (s: String)
    ensures
        s@ == msg_unexpected_token(*k),
{
    let mut s = "Unexpected token: ".to_owned();
    s.append(kind_label_str(k));
    s
}

fn scan_alpha(data: &[u8], i: usize) -> (e: usize)
    requires
        i as int <= data@.len(),
    ensures
        e as int == alpha_end(data@, i as int),
    decreases data@.len() - i as int,
{
    if i < data.len() && byte_is_alpha(*vstd::slice::slice_index_get(data, i)) {
        scan_alpha(data, i + 1)
    } else {
        i
    }
}

fn scan_digit(data: &[u8], i: usize) -> (e: usize)
    requires
        i as int <= data@.len(),
    ensures
        e as int == digit_end(data@, i as int),
    decreases data@.len() - i as int,
{
    if i < data.len() && byte_is_digit(*vstd::slice::slice_index_get(data, i)) {
        scan_digit(data, i + 1)
    } else {
        i
    }
}

fn scan_str(data: &[u8], i: usize) -> (r: Option<usize>)
    requires
        1 <= i,
        i as int <= data@.len(),
    ensures
        match str_end(data@, i as int) {
            Some(j) => r == Some(j as usize),
            None => r is None,
        },
    decreases data@.len() - i as int,
{
    if i >= data.len() {
        None
    } else if *vstd::slice::slice_index_get(data, i) == SQUOTE && *vstd::slice::slice_index_get(
        data,
        i - 1,
    ) != BSLASH {
        Some(i)
    } else {
        scan_str(data, i + 1)
    }
}

fn scan_line(data: &[u8], i: usize) -> (e: usize)
    requires
        i as int <= data@.len(),
    ensures
        e as int == line_end(data@, i as int),
    decreases data@.len() - i as int,
{
    if i < data.len() {
        let b = *vstd::slice::slice_index_get(data, i);
        if b == LF || b == CR {
            i
        } else {
            scan_line(data, i + 1)
        }
    } else {
        data.len()
    }
}

fn scan_block(data: &[u8], i: usize) -> (r: Option<usize>)
    requires
        i as int <= data@.len(),
    ensures
        match block_end(data@, i as int) {
            Some(j) => r == Some(j as usize),
            None => r is None,
        },
    decreases data@.len() - i as int,
{
    if data.len() == 0 || i >= data.len() - 1 {
        None
    } else {
        let b0 = *vstd::slice::slice_index_get(data, i);
        let b1 = *vstd::slice::slice_index_get(data, i + 1);
        if b0 == STAR && b1 == SLASH {
            Some(i)
        } else {
            scan_block(data, i + 1)
        }
    }
}

/// One executable lexing step matches the spec-level outcome at `pos`.
pub open spec fn step_reported(
    data: Seq<u8>,
    pos: int,
    r: Result<(Token, usize), LexerError>,
) -> bool {
    match token_at(data, pos) {
        Ok(op) => r matches Ok(ep) && ep.0 == op.0 && ep.1 as int == op.1,
        Err(f) => r matches Err(e) && reports(e, f),
    }
}

fn scan_punct(data: &[u8], pos: usize) -> (r: Result<(Token, usize), LexerError>)
    requires
        (pos as int) < data@.len(),
        data@[pos as int] != SQUOTE,
        !is_alpha(data@[pos as int]),
        !is_digit(data@[pos as int]),
    ensures
        step_reported(data@, pos as int, r),
{
    proof {
        lemma_slice_len_bound(data);
    }
    let b = *vstd::slice::slice_index_get(data, pos);
    let two = pos + 1 < data.len();
    if b == SP {
        Ok((Token::new(TokenKind::Whitespace(WhitespaceKind::Space), pos), pos + 1))
    } else if b == HT {
        Ok((Token::new(TokenKind::Whitespace(WhitespaceKind::HorizontalTab), pos), pos + 1))
    } else if b == LF {
        Ok((Token::new(TokenKind::LineTerminator(LineTerminatorKind::LineFeed), pos), pos + 1))
    } else if b == CR {
        Ok((Token::new(TokenKind::LineTerminator(LineTerminatorKind::CarridgeReturn), pos), pos + 1))
    } else if b == LPAREN {
        Ok((Token::new(TokenKind::Punc(PuncKind::LParen), pos), pos + 1))
    } else if b == RPAREN {
        Ok((Token::new(TokenKind::Punc(PuncKind::RParen), pos), pos + 1))
    } else if b == LBRACK {
        Ok((Token::new(TokenKind::Punc(PuncKind::LBracket), pos), pos + 1))
    } else if b == RBRACK {
        Ok((Token::new(TokenKind::Punc(PuncKind::RBracket), pos), pos + 1))
    } else if b == COMMA {
        Ok((Token::new(TokenKind::Punc(PuncKind::Comma), pos), pos + 1))
    } else if b == SEMI {
        Ok((Token::new(TokenKind::Punc(PuncKind::SemiColon), pos), pos + 1))
    } else if b == COLON {
        Ok((Token::new(TokenKind::Punc(PuncKind::Colon), pos), pos + 1))
    } else if b == EQ {
        Ok((Token::new(TokenKind::Punc(PuncKind::Equal), pos), pos + 1))
    } else if b == DOT {
        Ok((Token::new(TokenKind::Punc(PuncKind::Period), pos), pos + 1))
    } else if b == MINUS {
        if two && *vstd::slice::slice_index_get(data, pos + 1) == MINUS {
            proof {
                lemma_line_end(data@, pos as int + 2);
            }
            let e = scan_line(data, pos + 2);
            Ok((Token::new(
                TokenKind::Comment(CommentKind::Single(Span { start: pos + 2, len: e - (pos + 2) })),
                pos,
            ), e))
        } else {
            Ok((Token::new(TokenKind::Punc(PuncKind::Subtract), pos), pos + 1))
        }
    } else if b == SLASH {
        if two && *vstd::slice::slice_index_get(data, pos + 1) == STAR {
            proof {
                lemma_block_end(data@, pos as int + 2);
            }
            match scan_block(data, pos + 2) {
                Some(j) => Ok((Token::new(
                    TokenKind::Comment(CommentKind::Multi(Span {
                        start: pos + 2,
                        len: j - (pos + 2),
                    })),
                    pos,
                ), j + 2)),
                None => Err(LexerError::new(unterminated_block_comment_message(), pos)),
            }
        } else {
            Ok((Token::new(TokenKind::Punc(PuncKind::Divide), pos), pos + 1))
        }
    } else if b == STAR {
        Ok((Token::new(TokenKind::Punc(PuncKind::Star), pos), pos + 1))
    } else if b == PLUS {
        Ok((Token::new(TokenKind::Punc(PuncKind::Add), pos), pos + 1))
    } else if b == PERCENT {
        Ok((Token::new(TokenKind::Punc(PuncKind::Modulo), pos), pos + 1))
    } else if b == AMP {
        Ok((Token::new(TokenKind::Punc(PuncKind::BitwiseAnd), pos), pos + 1))
    } else if b == PIPE {
        Ok((Token::new(TokenKind::Punc(PuncKind::BitwiseOr), pos), pos + 1))
    } else if b == CARET {
        Ok((Token::new(TokenKind::Punc(PuncKind::BitwiseXor), pos), pos + 1))
    } else if b == LT {
        Ok((Token::new(TokenKind::Punc(PuncKind::LessThan), pos), pos + 1))
    } else if b == GT {
        Ok((Token::new(TokenKind::Punc(PuncKind::GreaterThan), pos), pos + 1))
    } else {
        Err(LexerError::new(unknown_artifact_message(), pos))
    }
}

/// Reads the token starting at `pos` without touching any state.
fn scan_token(data: &[u8], pos: usize) -> (r: Result<(Token, usize), LexerError>)
    requires
        pos as int <= data@.len(),
    ensures
        step_reported(data@, pos as int, r),
{
    if pos >= data.len() {
        return Ok((Token::new(TokenKind::Eof, pos), pos));
    }
    let b = *vstd::slice::slice_index_get(data, pos);
    if b == SQUOTE {
        proof {
            lemma_str_end(data@, pos as int + 1);
        }
        match scan_str(data, pos + 1) {
            Some(j) => Ok((Token::new(
                TokenKind::Literal(LiteralKind::String(Span {
                    start: pos + 1,
                    len: j - (pos + 1),
                })),
                pos,
            ), j + 1)),
            None => Err(LexerError::new(unterminated_string_message(), pos)),
        }
    } else if byte_is_alpha(b) {
        proof {
            lemma_alpha_end(data@, pos as int);
        }
        let e = scan_alpha(data, pos);
        let word = vstd::slice::slice_subrange(data, pos, e);
        match match_kw(word) {
            Some(kw) => Ok((Token::new(TokenKind::Keyword(kw), pos), e)),
            None => Ok((Token::new(
                TokenKind::Identifier(Span { start: pos, len: e - pos }),
                pos,
            ), e)),
        }
    } else if byte_is_digit(b) {
        proof {
            lemma_digit_end(data@, pos as int);
        }
        let e = scan_digit(data, pos);
        if e < data.len() && *vstd::slice::slice_index_get(data, e) == DOT {
            proof {
                lemma_digit_end(data@, e as int + 1);
            }
            let e2 = scan_digit(data, e + 1);
            if e2 == e + 1 {
                Err(LexerError::new(malformed_numeric_message(), pos))
            } else {
                Ok((Token::new(
                    TokenKind::Literal(LiteralKind::Numeric(Span { start: pos, len: e2 - pos })),
                    pos,
                ), e2))
            }
        } else {
            Ok((Token::new(
                TokenKind::Literal(LiteralKind::Numeric(Span { start: pos, len: e - pos })),
                pos,
            ), e))
        }
    } else {
        scan_punct(data, pos)
    }
}

/// Reads the first non-trivia token at or after `pos`, and the offset just
/// past it, without touching any state.
fn scan_real(data: &[u8], pos: usize) -> (r: Result<(Token, usize), LexerError>)
    requires
        pos as int <= data@.len(),
    ensures
        match real_token_at(data@, pos as int) {
            Ok(op) => r matches Ok(ep) && ep.0 == op.0 && ep.1 as int == op.1,
            Err(f) => r matches Err(e) && reports(e, f),
        },
    decreases data@.len() - pos as int,
{
    proof {
        lemma_slice_len_bound(data);
        lemma_token_at_bounds(data@, pos as int);
    }
    match scan_token(data, pos) {
        Ok((t, p2)) => {
            if kind_is_trivia(&t.kind) {
                scan_real(data, p2)
            } else {
                Ok((t, p2))
            }
        },
        Err(e) => Err(e),
    }
}

// ---------------------------------------------------------------------------
// The Lexer
// ---------------------------------------------------------------------------

/// The lexer: one immutable buffer and a cursor that only moves forward.
/// `next` follows [`token_at`]; the `*_real` operations follow
/// [`real_token_at`], the filtered stream the parser consumes.
pub struct Lexer<'a> {
    data: &'a [u8],
    cursor: usize,
}

impl<'a> Lexer<'a> {
    /// The buffer this lexer reads.
    pub closed spec fn buf(&self) -> Seq<u8> {
        self.data@
    }

    /// The cursor: the byte offset the next token will be read from.
    pub closed spec fn pos(&self) -> int {
        self.cursor as int
    }

    /// The cursor never leaves the buffer.
    pub open spec fn wf(&self) -> bool {
        0 <= self.pos() <= self.buf().len() && self.buf().len() <= usize::MAX
    }

    pub fn new(data: &'a [u8]) -> (l: Lexer<'a>)
        ensures
            l.buf() == data@,
            l.pos() == 0,
            l.wf(),
    {
        proof {
            lemma_slice_len_bound(data);
        }
        Lexer { data, cursor: 0 }
    }

    /// The current byte offset of the cursor.
    pub fn position(&self) -> (p: usize)
        ensures
            p as int == self.pos(),
    {
        self.cursor
    }

    /// Returns the token at the cursor and advances past it; at the end of
    /// the buffer it returns `Eof` forever without advancing. On a fault the
    /// cursor does not move.
    pub fn next(&mut self) -> (r: Result<Token, LexerError>)
        requires
            old(self).wf(),
        ensures
            final(self).wf(),
            final(self).buf() == old(self).buf(),
            match token_at(old(self).buf(), old(self).pos()) {
                Ok(op) => r == Ok::<Token, LexerError>(op.0) && final(self).pos() == op.1,
                Err(f) => r matches Err(e) && reports(e, f) && final(self).pos() == old(self).pos(),
            },
    {
        proof {
            lemma_token_at_bounds(self.buf(), self.pos());
        }
        match scan_token(self.data, self.cursor) {
            Ok((t, p2)) => {
                self.cursor = p2;
                Ok(t)
            },
            Err(e) => Err(e),
        }
    }

    /// Returns the token at the cursor without moving it: the cursor before
    /// and after a `peek` is the same, so any number of consecutive `peek`
    /// calls return the same token.
    pub fn peek(&self) -> (r: Result<Token, LexerError>)
        requires
            self.wf(),
        ensures
            match token_at(self.buf(), self.pos()) {
                Ok(op) => r == Ok::<Token, LexerError>(op.0),
                Err(f) => r matches Err(e) && reports(e, f),
            },
    {
        match scan_token(self.data, self.cursor) {
            Ok((t, _)) => Ok(t),
            Err(e) => Err(e),
        }
    }

    /// Returns the next non-trivia token and advances past it.
    pub fn next_real(&mut self) -> (r: Result<Token, LexerError>)
        requires
            old(self).wf(),
        ensures
            final(self).wf(),
            final(self).buf() == old(self).buf(),
            match real_token_at(old(self).buf(), old(self).pos()) {
                Ok(op) => r == Ok::<Token, LexerError>(op.0) && final(self).pos() == op.1,
                Err(f) => r matches Err(e) && reports(e, f) && final(self).pos() == old(
                    self,
                ).pos(),
            },
    {
        proof {
            lemma_real_token_at_bounds(self.buf(), self.pos());
        }
        match scan_real(self.data, self.cursor) {
            Ok((t, p2)) => {
                self.cursor = p2;
                Ok(t)
            },
            Err(e) => Err(e),
        }
    }

    /// Returns the next non-trivia token without moving the cursor.
    pub fn peek_real(&self) -> (r: Result<Token, LexerError>)
        requires
            self.wf(),
        ensures
            match real_token_at(self.buf(), self.pos()) {
                Ok(op) => r == Ok::<Token, LexerError>(op.0),
                Err(f) => r matches Err(e) && reports(e, f),
            },
    {
        match scan_real(self.data, self.cursor) {
            Ok((t, _)) => Ok(t),
            Err(e) => Err(e),
        }
    }

    /// Consumes the next non-trivia token; if its kind is not `expected`,
    /// fails reporting the found token's kind and starting position. The
    /// token is consumed either way.
    pub fn expect(&mut self, expected: TokenKind) -> (r: Result<(), LexerError>)
        requires
            old(self).wf(),
        ensures
            final(self).wf(),
            final(self).buf() == old(self).buf(),
            match real_token_at(old(self).buf(), old(self).pos()) {
                Ok(op) => final(self).pos() == op.1 && (if op.0.kind == expected {
                    r is Ok
                } else {
                    r matches Err(e) && e.pos == op.0.pos && e.message@ == msg_unexpected_token(
                        op.0.kind,
                    )
                }),
                Err(f) => r matches Err(e) && reports(e, f) && final(self).pos() == old(
                    self,
                ).pos(),
            },
    {
        match self.next_real() {
            Ok(t) => {
                if t.kind == expected {
                    Ok(())
                } else {
                    Err(LexerError::new(unexpected_token_message(&t.kind), t.pos))
                }
            },
            Err(e) => Err(e),
        }
    }

    /// Tries to match the next non-trivia token without erroring: on a match
    /// it is consumed and `eat` returns true; otherwise the cursor is left
    /// exactly where it was and `eat` returns false.
    pub fn eat(&mut self, kind: TokenKind) -> (r: bool)
        requires
            old(self).wf(),
        ensures
            final(self).wf(),
            final(self).buf() == old(self).buf(),
            r == eat_at(old(self).buf(), old(self).pos(), kind).0,
            final(self).pos() == eat_at(old(self).buf(), old(self).pos(), kind).1,
    {
        match self.peek_real() {
            Ok(t) => {
                if t.kind == kind {
                    let _consumed = self.next_real();
                    true
                } else {
                    false
                }
            },
            Err(_) => false,
        }
    }
}

} // verus!
