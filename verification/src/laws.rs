//! Laws of the token stream, stated and proved once over the spec-level
//! scan so they hold of every buffer, not just of the tested ones.

use vstd::prelude::*;

use crate::ascii::{is_alpha, lemma_lower_idempotent, lower_all, CR, HT, LF, SP};
use crate::keywords::spec_match_kw;
use crate::ast::StmtView;
use crate::parser::{lemma_stmt_at_bounds, select_clause_at, select_list_at, stmt_at, stmts_at};
use crate::lexer::{
    alpha_end, lemma_alpha_end, real_token_at, reports, token_at, Fault, LexerError,
};
use crate::token::{KeywordKind, PuncKind, Token, TokenKind};

verus! {

/// A buffer that holds nothing but whitespace and line terminators.
pub open spec fn only_blank(data: Seq<u8>) -> bool {
    forall|i: int|
        0 <= i < data.len() ==> (data[i] == SP || data[i] == HT || data[i] == LF || data[i] == CR)
}

/// On a buffer of only whitespace and line-terminator bytes, the filtered
/// scan reaches `Eof` at the end of the buffer, from any starting offset,
/// without a fault.
pub proof fn lemma_blank_buffer_lexes_to_eof(data: Seq<u8>, pos: int)
    requires
        only_blank(data),
        0 <= pos <= data.len() <= usize::MAX,
    ensures
        real_token_at(data, pos) == Ok::<(Token, int), Fault>((
            Token { kind: TokenKind::Eof, pos: data.len() as usize },
            data.len() as int,
        )),
    decreases data.len() - pos,
{
    if pos < data.len() {
        assert(data[pos] == SP || data[pos] == HT || data[pos] == LF || data[pos] == CR);
        lemma_blank_buffer_lexes_to_eof(data, pos + 1);
    }
}

/// Keyword matching is case-insensitive: a word and its lower-cased form
/// look up the same table entry, whatever mix of cases the word uses.
pub proof fn lemma_keyword_case_insensitive(w: Seq<u8>)
    ensures
        spec_match_kw(w) == spec_match_kw(lower_all(w)),
{
    lemma_lower_idempotent(w);
}

/// The outcome `Lexer::peek` promises at a given buffer and cursor.
pub open spec fn peek_outcome(data: Seq<u8>, pos: int, r: Result<Token, LexerError>) -> bool {
    match token_at(data, pos) {
        Ok(op) => r == Ok::<Token, LexerError>(op.0),
        Err(f) => r matches Err(e) && reports(e, f),
    }
}

/// `peek` takes the lexer by shared reference, so it cannot move the cursor;
/// and its outcome is a function of the buffer and cursor alone, so any two
/// peeks from the same state agree: the same token, or a fault with the same
/// message and position.
pub proof fn lemma_peek_idempotent(
    data: Seq<u8>,
    pos: int,
    r1: Result<Token, LexerError>,
    r2: Result<Token, LexerError>,
)
    requires
        peek_outcome(data, pos, r1),
        peek_outcome(data, pos, r2),
    ensures
        r1 is Ok <==> r2 is Ok,
        r1 matches Ok(t1) ==> r2 matches Ok(t2) && t1 == t2,
        r1 matches Err(e1) ==> r2 matches Err(e2) && e1.message@ == e2.message@ && e1.pos
            == e2.pos,
{
}

/// What `expect` consumes and reports: when the next real token has the
/// expected kind it succeeds and stands past that token; otherwise it fails
/// naming the found token's kind, at the found token's position.
pub proof fn lemma_expect_reports_found(data: Seq<u8>, pos: int, expected: TokenKind)
    requires
        0 <= pos <= data.len() <= usize::MAX,
    ensures
        real_token_at(data, pos) matches Ok(op) ==> {
            &&& op.0.kind == expected ==> crate::parser::expect_kind_at(data, pos, expected)
                == Ok::<int, Fault>(op.1)
            &&& op.0.kind != expected ==> crate::parser::expect_kind_at(data, pos, expected)
                == Err::<int, Fault>(Fault {
                msg: crate::lexer::msg_unexpected_token(op.0.kind),
                pos: op.0.pos as int,
            })
        },
{
}

/// No word that matches a reserved keyword spelling is ever classified as an
/// identifier: when the scan yields an identifier token, its text — the
/// buffer bytes under its span — misses the keyword table.
pub proof fn lemma_keyword_never_identifier(data: Seq<u8>, pos: int)
    requires
        0 <= pos <= data.len() <= usize::MAX,
    ensures
        token_at(data, pos) matches Ok(op) ==> (op.0.kind matches TokenKind::Identifier(sp)
            ==> spec_match_kw(data.subrange(sp.start as int, sp.start + sp.len)) is None),
{
    lemma_identifier_span_faithful(data, pos);
}

/// Position accuracy of identifier tokens: the span starts exactly at the
/// token's position, lies inside the buffer, and re-slicing the buffer at
/// `[pos, pos + len)` reproduces exactly the scanned word — a non-empty,
/// maximal run of letters that misses the keyword table.
pub proof fn lemma_identifier_span_faithful(data: Seq<u8>, pos: int)
    requires
        0 <= pos <= data.len() <= usize::MAX,
    ensures
        token_at(data, pos) matches Ok(op) ==> (op.0.kind matches TokenKind::Identifier(sp) ==> {
            &&& sp.start == op.0.pos
            &&& sp.start == pos
            &&& sp.len > 0
            &&& sp.start + sp.len <= data.len()
            &&& forall|j: int| sp.start <= j < sp.start + sp.len ==> is_alpha(data[j])
            &&& (sp.start + sp.len < data.len() ==> !is_alpha(data[sp.start + sp.len]))
            &&& data.subrange(sp.start as int, sp.start + sp.len) == data.subrange(
                pos,
                alpha_end(data, pos),
            )
            &&& spec_match_kw(data.subrange(sp.start as int, sp.start + sp.len)) is None
        }),
{
    if pos < data.len() && is_alpha(data[pos]) {
        lemma_alpha_end(data, pos);
        lemma_alpha_end(data, pos + 1);
        assert(alpha_end(data, pos) == alpha_end(data, pos + 1));
    }
}


/// The statement invariant of a SELECT: both of its mandatory clauses are
/// non-empty.
pub open spec fn select_invariant(s: StmtView) -> bool {
    s matches StmtView::Select(sv) ==> sv.selected.len() > 0 && sv.from.len() > 0
}

pub proof fn lemma_select_list_nonempty(data: Seq<u8>, pos: int)
    requires
        0 <= pos <= data.len() <= usize::MAX,
    ensures
        select_list_at(data, pos) matches Ok(op) ==> op.0.len() >= 1,
{
}

/// A parsed select clause never selects nothing: it is `All`, or at least
/// one listed object reference.
pub proof fn lemma_select_clause_nonempty(data: Seq<u8>, pos: int)
    requires
        0 <= pos <= data.len() <= usize::MAX,
    ensures
        select_clause_at(data, pos) matches Ok(op) ==> op.0.len() >= 1,
{
    crate::lexer::lemma_real_token_at_bounds(data, pos);
    match crate::lexer::real_token_at(data, pos) {
        Ok(op) => {
            if op.0.kind matches TokenKind::Punc(PuncKind::LParen) {
                lemma_select_list_nonempty(data, op.1);
            }
        },
        Err(_) => {},
    }
}

/// One parsed statement upholds the SELECT invariant: the grammar only
/// builds a SELECT from a non-empty select clause and a non-empty from
/// clause.
pub proof fn lemma_stmt_upholds_select_invariant(data: Seq<u8>, pos: int)
    requires
        0 <= pos <= data.len() <= usize::MAX,
    ensures
        stmt_at(data, pos) matches Ok(op) ==> (op.0 matches Some(s) ==> select_invariant(s)),
{
    crate::lexer::lemma_real_token_at_bounds(data, pos);
    match crate::lexer::real_token_at(data, pos) {
        Ok(op) => {
            match op.0.kind {
                TokenKind::Keyword(KeywordKind::Select) => {
                    lemma_select_clause_nonempty(data, op.1);
                },
                _ => {},
            }
        },
        Err(_) => {},
    }
}

/// The SELECT invariant holds of every statement a successful parse yields:
/// `selected` and `from` are non-empty on each SELECT in the sequence —
/// enforced by the parser, not merely assumed.
pub proof fn lemma_parse_upholds_select_invariant(data: Seq<u8>, pos: int)
    requires
        0 <= pos <= data.len() <= usize::MAX,
    ensures
        stmts_at(data, pos) matches Ok(sts) ==> forall|i: int|
            0 <= i < sts.len() ==> select_invariant(#[trigger] sts[i]),
    decreases data.len() - pos,
{
    lemma_stmt_at_bounds(data, pos);
    lemma_stmt_upholds_select_invariant(data, pos);
    match stmt_at(data, pos) {
        Ok((opt, p2)) => match opt {
            Some(s) => {
                lemma_parse_upholds_select_invariant(data, p2);
                match stmts_at(data, p2) {
                    Ok(rest) => {
                        let sts = seq![s] + rest;
                        assert forall|i: int| 0 <= i < sts.len() implies select_invariant(
                            #[trigger] sts[i],
                        ) by {
                            if i == 0 {
                                assert(sts[i] == s);
                            } else {
                                assert(sts[i] == rest[i - 1]);
                            }
                        }
                    },
                    Err(_) => {},
                }
            },
            None => {},
        },
        Err(_) => {},
    }
}

} // verus!
