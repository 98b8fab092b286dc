//! The parser: a recursive-descent consumer of the lexer's filtered token
//! stream that builds the statement tree.
//!
//! The grammar is stated once, mathematically, by the `*_at` functions:
//! given the buffer and a byte offset each yields what the corresponding
//! grammar rule produces there and the offset just past it, or a fault. The
//! executable [`Parser`] is proved to follow them rule by rule, so
//! [`Parser::parse`] returns exactly the statement sequence of [`stmts_at`],
//! or an error carrying exactly the fault's message and position.

use vstd::prelude::*;

use crate::ast::{
    DatasetReference, FromClause, FromItemKind, ObjectReference, SelectClause, SelectItemKind,
    SelectStmt, SelectView, StatementKind, StmtView, UpdateStmt, InsertStmt, DeleteStmt,
    CreateTableStmt, AST,
};
use crate::lexer::{
    eat_at, real_token_at, lemma_real_token_at_bounds, msg_unexpected_token,
    unexpected_token_message, Fault, Lexer, LexerError,
};
use crate::token::{KeywordKind, PuncKind, Span, TokenKind};

verus! {

// ---------------------------------------------------------------------------
// Syntactic fault messages
// ---------------------------------------------------------------------------

pub open spec fn msg_unexpected_keyword() -> Seq<char> {
    "Unexpected keyword token"@
}

pub open spec fn msg_select_clause_unexpected() -> Seq<char> {
    "Unexpected token"@
}

pub open spec fn msg_missing_from() -> Seq<char> {
    "Missing from clause"@
}

pub open spec fn msg_missing_semicolon() -> Seq<char> {
    "missing ';'"@
}

pub open spec fn msg_missing_table_name() -> Seq<char> {
    "missing table name"@
}

pub open spec fn msg_unsupported_join() -> Seq<char> {
    "unsupported grammar: join"@
}

pub open spec fn msg_unsupported_where() -> Seq<char> {
    "unsupported grammar: where"@
}

pub open spec fn msg_unsupported_group_by() -> Seq<char> {
    "unsupported grammar: group by"@
}

pub open spec fn msg_unsupported_having() -> Seq<char> {
    "unsupported grammar: having"@
}

pub open spec fn msg_unsupported_order_by() -> Seq<char> {
    "unsupported grammar: order by"@
}

pub open spec fn msg_unsupported_limit() -> Seq<char> {
    "unsupported grammar: limit"@
}

pub open spec fn msg_unsupported_grant() -> Seq<char> {
    "unsupported grammar: grant"@
}

pub open spec fn msg_unsupported_revoke() -> Seq<char> {
    "unsupported grammar: revoke"@
}

// ---------------------------------------------------------------------------
// The grammar, stated over the buffer
// ---------------------------------------------------------------------------

/// The statement terminator rule: either a `;` is consumed, or the next real
/// token must be `Eof` and is left unconsumed; anything else is a fault at
/// that token's position.
pub open spec fn eol_at(data: Seq<u8>, pos: int) -> Result<int, Fault> {
    let e = eat_at(data, pos, TokenKind::Punc(PuncKind::SemiColon));
    if e.0 {
        Ok(e.1)
    } else {
        match real_token_at(data, pos) {
            Ok(op) => if op.0.kind is Eof {
                Ok(pos)
            } else {
                Err(Fault { msg: msg_missing_semicolon(), pos: op.0.pos as int })
            },
            Err(f) => Err(f),
        }
    }
}

/// `COMMIT [WORK] <terminator>` and `ROLLBACK [WORK] <terminator>`, after
/// their leading keyword.
pub open spec fn txn_at(data: Seq<u8>, pos: int, stmt: StmtView) -> Result<
    (Option<StmtView>, int),
    Fault,
> {
    let e = eat_at(data, pos, TokenKind::Keyword(KeywordKind::Work));
    match eol_at(data, e.1) {
        Ok(p2) => Ok((Some(stmt), p2)),
        Err(f) => Err(f),
    }
}

/// Consuming one real token of exactly the given kind; any other consumed
/// token is a fault naming the found token's kind, at its position.
pub open spec fn expect_kind_at(data: Seq<u8>, pos: int, expected: TokenKind) -> Result<
    int,
    Fault,
> {
    match real_token_at(data, pos) {
        Ok(op) => if op.0.kind == expected {
            Ok(op.1)
        } else {
            Err(Fault { msg: msg_unexpected_token(op.0.kind), pos: op.0.pos as int })
        },
        Err(f) => Err(f),
    }
}

/// One object reference: `name`, `dataset.name` or `schema.dataset.name`.
pub open spec fn object_ref_at(data: Seq<u8>, pos: int) -> Result<(ObjectReference, int), Fault> {
    match real_token_at(data, pos) {
        Ok(op1) => match op1.0.kind {
            TokenKind::Identifier(sp1) => {
                let e1 = eat_at(data, op1.1, TokenKind::Punc(PuncKind::Period));
                if !e1.0 {
                    Ok((ObjectReference { dataset: None, obj: Some(sp1) }, op1.1))
                } else {
                    match real_token_at(data, e1.1) {
                        Ok(op2) => match op2.0.kind {
                            TokenKind::Identifier(sp2) => {
                                let e2 = eat_at(data, op2.1, TokenKind::Punc(PuncKind::Period));
                                if !e2.0 {
                                    Ok((ObjectReference {
                                        dataset: Some(DatasetReference {
                                            schema: None,
                                            dataset: Some(sp1),
                                        }),
                                        obj: Some(sp2),
                                    }, op2.1))
                                } else {
                                    match real_token_at(data, e2.1) {
                                        Ok(op3) => match op3.0.kind {
                                            TokenKind::Identifier(sp3) => Ok((ObjectReference {
                                                dataset: Some(DatasetReference {
                                                    schema: Some(sp1),
                                                    dataset: Some(sp2),
                                                }),
                                                obj: Some(sp3),
                                            }, op3.1)),
                                            _ => Err(Fault {
                                                msg: msg_unexpected_token(op3.0.kind),
                                                pos: op3.0.pos as int,
                                            }),
                                        },
                                        Err(f) => Err(f),
                                    }
                                }
                            },
                            _ => Err(Fault {
                                msg: msg_unexpected_token(op2.0.kind),
                                pos: op2.0.pos as int,
                            }),
                        },
                        Err(f) => Err(f),
                    }
                }
            },
            _ => Err(Fault { msg: msg_unexpected_token(op1.0.kind), pos: op1.0.pos as int }),
        },
        Err(f) => Err(f),
    }
}

pub proof fn lemma_eat_bounds(data: Seq<u8>, pos: int, kind: TokenKind)
    requires
        0 <= pos <= data.len() <= usize::MAX,
    ensures
        pos <= eat_at(data, pos, kind).1 <= data.len(),
        eat_at(data, pos, kind).0 && !(kind is Eof) ==> pos < eat_at(data, pos, kind).1,
{
    lemma_real_token_at_bounds(data, pos);
}

pub proof fn lemma_eol_bounds(data: Seq<u8>, pos: int)
    requires
        0 <= pos <= data.len() <= usize::MAX,
    ensures
        eol_at(data, pos) matches Ok(p2) ==> pos <= p2 <= data.len(),
{
    lemma_eat_bounds(data, pos, TokenKind::Punc(PuncKind::SemiColon));
}

pub proof fn lemma_txn_bounds(data: Seq<u8>, pos: int, stmt: StmtView)
    requires
        0 <= pos <= data.len() <= usize::MAX,
    ensures
        txn_at(data, pos, stmt) matches Ok(op) ==> pos <= op.1 <= data.len(),
{
    let e = eat_at(data, pos, TokenKind::Keyword(KeywordKind::Work));
    lemma_eat_bounds(data, pos, TokenKind::Keyword(KeywordKind::Work));
    lemma_eol_bounds(data, e.1);
}

pub proof fn lemma_expect_kind_bounds(data: Seq<u8>, pos: int, expected: TokenKind)
    requires
        0 <= pos <= data.len() <= usize::MAX,
    ensures
        expect_kind_at(data, pos, expected) matches Ok(p2) ==> pos <= p2 <= data.len(),
{
    lemma_real_token_at_bounds(data, pos);
}

pub proof fn lemma_object_ref_bounds(data: Seq<u8>, pos: int)
    requires
        0 <= pos <= data.len() <= usize::MAX,
    ensures
        object_ref_at(data, pos) matches Ok(op) ==> pos < op.1 <= data.len(),
{
    lemma_real_token_at_bounds(data, pos);
    match real_token_at(data, pos) {
        Ok(op1) => {
            lemma_eat_bounds(data, op1.1, TokenKind::Punc(PuncKind::Period));
            let e1 = eat_at(data, op1.1, TokenKind::Punc(PuncKind::Period));
            lemma_real_token_at_bounds(data, e1.1);
            match real_token_at(data, e1.1) {
                Ok(op2) => {
                    lemma_eat_bounds(data, op2.1, TokenKind::Punc(PuncKind::Period));
                    let e2 = eat_at(data, op2.1, TokenKind::Punc(PuncKind::Period));
                    lemma_real_token_at_bounds(data, e2.1);
                },
                Err(_) => {},
            }
        },
        Err(_) => {},
    }
}

/// The parenthesised select list after `(`: a comma-separated list of object
/// references, closed by `)`.
pub open spec fn select_list_at(data: Seq<u8>, pos: int) -> Result<
    (Seq<SelectItemKind>, int),
    Fault,
>
    decreases data.len() - pos,
        when 0 <= pos <= data.len() <= usize::MAX
{
    match object_ref_at(data, pos) {
        Ok((o, p2)) => match real_token_at(data, p2) {
            Ok(op) => match op.0.kind {
                TokenKind::Punc(PuncKind::Comma) => {
                    proof {
                        lemma_object_ref_bounds(data, pos);
                        lemma_real_token_at_bounds(data, p2);
                    }
                    match select_list_at(data, op.1) {
                        Ok((rest, p4)) => Ok((seq![SelectItemKind::Identifier(o)] + rest, p4)),
                        Err(f) => Err(f),
                    }
                },
                TokenKind::Punc(PuncKind::RParen) => Ok((seq![SelectItemKind::Identifier(o)], op.1)),
                _ => Err(Fault { msg: msg_unexpected_token(op.0.kind), pos: op.0.pos as int }),
            },
            Err(f) => Err(f),
        },
        Err(f) => Err(f),
    }
}

pub proof fn lemma_select_list_bounds(data: Seq<u8>, pos: int)
    requires
        0 <= pos <= data.len() <= usize::MAX,
    ensures
        select_list_at(data, pos) matches Ok(op) ==> pos < op.1 <= data.len(),
    decreases data.len() - pos,
{
    lemma_object_ref_bounds(data, pos);
    match object_ref_at(data, pos) {
        Ok((o, p2)) => {
            lemma_real_token_at_bounds(data, p2);
            match real_token_at(data, p2) {
                Ok(op) => {
                    if op.0.kind matches TokenKind::Punc(PuncKind::Comma) {
                        lemma_select_list_bounds(data, op.1);
                    }
                },
                Err(_) => {},
            }
        },
        Err(_) => {},
    }
}

/// The select clause: `*` selects everything; `(` opens a column list; any
/// other leading token is a fault.
pub open spec fn select_clause_at(data: Seq<u8>, pos: int) -> Result<
    (Seq<SelectItemKind>, int),
    Fault,
> {
    match real_token_at(data, pos) {
        Ok(op) => match op.0.kind {
            TokenKind::Punc(PuncKind::Star) => Ok((seq![SelectItemKind::All], op.1)),
            TokenKind::Punc(PuncKind::LParen) => select_list_at(data, op.1),
            _ => Err(Fault { msg: msg_select_clause_unexpected(), pos: op.0.pos as int }),
        },
        Err(f) => Err(f),
    }
}

pub proof fn lemma_select_clause_bounds(data: Seq<u8>, pos: int)
    requires
        0 <= pos <= data.len() <= usize::MAX,
    ensures
        select_clause_at(data, pos) matches Ok(op) ==> pos <= op.1 <= data.len(),
{
    lemma_real_token_at_bounds(data, pos);
    match real_token_at(data, pos) {
        Ok(op) => {
            if op.0.kind matches TokenKind::Punc(PuncKind::LParen) {
                lemma_select_list_bounds(data, op.1);
            }
        },
        Err(_) => {},
    }
}

/// The from clause items: identifiers are consumed as dataset references
/// until some other token is reached, which is left unconsumed; a JOIN
/// keyword is a declared but still unsupported extension point.
pub open spec fn from_items_at(data: Seq<u8>, pos: int) -> Result<(Seq<FromItemKind>, int), Fault>
    decreases data.len() - pos,
        when 0 <= pos <= data.len() <= usize::MAX
{
    match real_token_at(data, pos) {
        Ok(op) => match op.0.kind {
            TokenKind::Identifier(sp) => {
                proof {
                    lemma_real_token_at_bounds(data, pos);
                }
                match from_items_at(data, op.1) {
                    Ok((rest, p3)) => Ok((
                        seq![
                            FromItemKind::Dataset(DatasetReference {
                                schema: None,
                                dataset: Some(sp),
                            }),
                        ] + rest,
                        p3,
                    )),
                    Err(f) => Err(f),
                }
            },
            TokenKind::Keyword(KeywordKind::Join) => Err(Fault {
                msg: msg_unsupported_join(),
                pos: op.0.pos as int,
            }),
            _ => Ok((Seq::empty(), pos)),
        },
        Err(f) => Err(f),
    }
}

pub proof fn lemma_from_items_bounds(data: Seq<u8>, pos: int)
    requires
        0 <= pos <= data.len() <= usize::MAX,
    ensures
        from_items_at(data, pos) matches Ok(op) ==> pos <= op.1 <= data.len(),
    decreases data.len() - pos,
{
    lemma_real_token_at_bounds(data, pos);
    match real_token_at(data, pos) {
        Ok(op) => {
            if op.0.kind matches TokenKind::Identifier(_) {
                lemma_from_items_bounds(data, op.1);
            }
        },
        Err(_) => {},
    }
}

/// The whole from clause: at least one item must have been collected;
/// otherwise the fault points at the token the item scan stopped on.
pub open spec fn from_clause_at(data: Seq<u8>, pos: int) -> Result<
    (Seq<FromItemKind>, int),
    Fault,
> {
    match from_items_at(data, pos) {
        Ok((items, p2)) => if items.len() > 0 {
            Ok((items, p2))
        } else {
            match real_token_at(data, p2) {
                Ok(op) => Err(Fault { msg: msg_missing_from(), pos: op.0.pos as int }),
                Err(f) => Err(f),
            }
        },
        Err(f) => Err(f),
    }
}

/// The clauses whose grammars are not fixed yet: meeting their leading
/// keyword after the from clause is reported, not silently ignored.
pub open spec fn ext_clause_fault(data: Seq<u8>, pos: int) -> Option<Fault> {
    match real_token_at(data, pos) {
        Ok(op) => match op.0.kind {
            TokenKind::Keyword(KeywordKind::Where) => Some(Fault {
                msg: msg_unsupported_where(),
                pos: op.0.pos as int,
            }),
            TokenKind::Keyword(KeywordKind::Group) => Some(Fault {
                msg: msg_unsupported_group_by(),
                pos: op.0.pos as int,
            }),
            TokenKind::Keyword(KeywordKind::Having) => Some(Fault {
                msg: msg_unsupported_having(),
                pos: op.0.pos as int,
            }),
            TokenKind::Keyword(KeywordKind::Order) => Some(Fault {
                msg: msg_unsupported_order_by(),
                pos: op.0.pos as int,
            }),
            TokenKind::Keyword(KeywordKind::Limit) => Some(Fault {
                msg: msg_unsupported_limit(),
                pos: op.0.pos as int,
            }),
            _ => None,
        },
        Err(f) => Some(f),
    }
}

/// `SELECT <select clause> FROM <from clause> <terminator>`, after the
/// SELECT keyword. The clauses past FROM are absent until their grammars
/// are fixed.
pub open spec fn select_at(data: Seq<u8>, pos: int) -> Result<(Option<StmtView>, int), Fault> {
    match select_clause_at(data, pos) {
        Ok((sel, p1)) => match expect_kind_at(data, p1, TokenKind::Keyword(KeywordKind::From)) {
            Ok(p2) => match from_clause_at(data, p2) {
                Ok((items, p3)) => match ext_clause_fault(data, p3) {
                    Some(f) => Err(f),
                    None => match eol_at(data, p3) {
                        Ok(p4) => Ok((
                            Some(StmtView::Select(SelectView {
                                selected: sel,
                                from: items,
                                where_clause: None,
                                group_by_clause: None,
                                having_clause: None,
                                order_by_clause: None,
                                limit_clause: None,
                            })),
                            p4,
                        )),
                        Err(f) => Err(f),
                    },
                },
                Err(f) => Err(f),
            },
            Err(f) => Err(f),
        },
        Err(f) => Err(f),
    }
}

pub proof fn lemma_select_bounds(data: Seq<u8>, pos: int)
    requires
        0 <= pos <= data.len() <= usize::MAX,
    ensures
        select_at(data, pos) matches Ok(op) ==> pos <= op.1 <= data.len(),
{
    lemma_select_clause_bounds(data, pos);
    match select_clause_at(data, pos) {
        Ok((sel, p1)) => {
            lemma_expect_kind_bounds(data, p1, TokenKind::Keyword(KeywordKind::From));
            match expect_kind_at(data, p1, TokenKind::Keyword(KeywordKind::From)) {
                Ok(p2) => {
                    lemma_from_items_bounds(data, p2);
                    match from_clause_at(data, p2) {
                        Ok((items, p3)) => {
                            lemma_eol_bounds(data, p3);
                        },
                        Err(_) => {},
                    }
                },
                Err(_) => {},
            }
        },
        Err(_) => {},
    }
}

/// The minimal reserved grammar shared by UPDATE, DELETE, INSERT and the
/// tail of CREATE TABLE: the target table's name, then the terminator.
pub open spec fn table_target_at(data: Seq<u8>, pos: int) -> Result<(Span, int), Fault> {
    match real_token_at(data, pos) {
        Ok(op) => match op.0.kind {
            TokenKind::Identifier(sp) => match eol_at(data, op.1) {
                Ok(p2) => Ok((sp, p2)),
                Err(f) => Err(f),
            },
            _ => Err(Fault { msg: msg_missing_table_name(), pos: op.0.pos as int }),
        },
        Err(f) => Err(f),
    }
}

pub proof fn lemma_table_target_bounds(data: Seq<u8>, pos: int)
    requires
        0 <= pos <= data.len() <= usize::MAX,
    ensures
        table_target_at(data, pos) matches Ok(op) ==> pos <= op.1 <= data.len(),
{
    lemma_real_token_at_bounds(data, pos);
    match real_token_at(data, pos) {
        Ok(op) => {
            lemma_eol_bounds(data, op.1);
        },
        Err(_) => {},
    }
}

pub open spec fn update_at(data: Seq<u8>, pos: int) -> Result<(Option<StmtView>, int), Fault> {
    match table_target_at(data, pos) {
        Ok((sp, p2)) => Ok((Some(StmtView::Update(UpdateStmt { table: sp })), p2)),
        Err(f) => Err(f),
    }
}

pub open spec fn delete_at(data: Seq<u8>, pos: int) -> Result<(Option<StmtView>, int), Fault> {
    match table_target_at(data, pos) {
        Ok((sp, p2)) => Ok((Some(StmtView::Delete(DeleteStmt { table: sp })), p2)),
        Err(f) => Err(f),
    }
}

pub open spec fn insert_at(data: Seq<u8>, pos: int) -> Result<(Option<StmtView>, int), Fault> {
    match table_target_at(data, pos) {
        Ok((sp, p2)) => Ok((Some(StmtView::Insert(InsertStmt { table: sp })), p2)),
        Err(f) => Err(f),
    }
}

/// `CREATE TABLE <name> <terminator>`, after the CREATE keyword.
pub open spec fn create_at(data: Seq<u8>, pos: int) -> Result<(Option<StmtView>, int), Fault> {
    match expect_kind_at(data, pos, TokenKind::Keyword(KeywordKind::Table)) {
        Ok(p1) => match table_target_at(data, p1) {
            Ok((sp, p2)) => Ok((Some(StmtView::CreateTable(CreateTableStmt { table: sp })), p2)),
            Err(f) => Err(f),
        },
        Err(f) => Err(f),
    }
}

/// One statement: `Eof` ends the parse; a leading keyword dispatches to its
/// statement rule; a keyword without a rule, or any other token, is a fault
/// at that token's position.
pub open spec fn stmt_at(data: Seq<u8>, pos: int) -> Result<(Option<StmtView>, int), Fault> {
    match real_token_at(data, pos) {
        Ok(op) => match op.0.kind {
            TokenKind::Eof => Ok((None, op.1)),
            TokenKind::Keyword(kw) => match kw {
                KeywordKind::Commit => txn_at(data, op.1, StmtView::Commit),
                KeywordKind::Rollback => txn_at(data, op.1, StmtView::Rollback),
                KeywordKind::Select => select_at(data, op.1),
                KeywordKind::Update => update_at(data, op.1),
                KeywordKind::Delete => delete_at(data, op.1),
                KeywordKind::Insert => insert_at(data, op.1),
                KeywordKind::Create => create_at(data, op.1),
                KeywordKind::Grant => Err(Fault {
                    msg: msg_unsupported_grant(),
                    pos: op.0.pos as int,
                }),
                KeywordKind::Revoke => Err(Fault {
                    msg: msg_unsupported_revoke(),
                    pos: op.0.pos as int,
                }),
                _ => Err(Fault { msg: msg_unexpected_keyword(), pos: op.0.pos as int }),
            },
            _ => Err(Fault { msg: msg_unexpected_token(op.0.kind), pos: op.0.pos as int }),
        },
        Err(f) => Err(f),
    }
}

/// A statement is only produced by consuming at least its leading keyword,
/// so a successful step always moves forward; the `None` outcome stands
/// still on `Eof`.
pub proof fn lemma_stmt_at_bounds(data: Seq<u8>, pos: int)
    requires
        0 <= pos <= data.len() <= usize::MAX,
    ensures
        stmt_at(data, pos) matches Ok(op) ==> {
            &&& pos <= op.1 <= data.len()
            &&& (op.0 is Some ==> pos < op.1)
        },
{
    lemma_real_token_at_bounds(data, pos);
    match real_token_at(data, pos) {
        Ok(op) => {
            match op.0.kind {
                TokenKind::Keyword(kw) => {
                    lemma_txn_bounds(data, op.1, StmtView::Commit);
                    lemma_txn_bounds(data, op.1, StmtView::Rollback);
                    lemma_select_bounds(data, op.1);
                    lemma_table_target_bounds(data, op.1);
                    lemma_expect_kind_bounds(data, op.1, TokenKind::Keyword(KeywordKind::Table));
                    match expect_kind_at(data, op.1, TokenKind::Keyword(KeywordKind::Table)) {
                        Ok(p1) => {
                            lemma_table_target_bounds(data, p1);
                        },
                        Err(_) => {},
                    }
                },
                _ => {},
            }
        },
        Err(_) => {},
    }
}

/// The whole parse: statements in order until `Eof`; the first fault aborts
/// everything.
pub open spec fn stmts_at(data: Seq<u8>, pos: int) -> Result<Seq<StmtView>, Fault>
    decreases data.len() - pos,
        when 0 <= pos <= data.len() <= usize::MAX
{
    match stmt_at(data, pos) {
        Ok((opt, p2)) => match opt {
            Some(s) => {
                proof {
                    lemma_stmt_at_bounds(data, pos);
                }
                match stmts_at(data, p2) {
                    Ok(rest) => Ok(seq![s] + rest),
                    Err(f) => Err(f),
                }
            },
            None => Ok(Seq::empty()),
        },
        Err(f) => Err(f),
    }
}


// ---------------------------------------------------------------------------
// The executable parser
// ---------------------------------------------------------------------------

/// A syntactic error: what went wrong and the byte offset it points at. A
/// lexical error converts into one losslessly, message and position kept
/// verbatim.
#[derive(Clone, Debug)]
pub struct ParseError {
    pub pos: usize,
    pub message: String,
}

impl ParseError {
    pub fn new(message: String, pos: usize) -> (e: ParseError)
        ensures
            e.message == message,
            e.pos == pos,
    {
        ParseError { message, pos }
    }
}

impl From<LexerError> for ParseError {
    fn from(err: LexerError) -> (e: ParseError) {
        ParseError { message: err.message, pos: err.pos }
    }
}

impl vstd::std_specs::convert::FromSpecImpl<LexerError> for ParseError {
    open spec fn obeys_from_spec() -> bool {
        true
    }

    open spec fn from_spec(err: LexerError) -> ParseError {
        ParseError { message: err.message, pos: err.pos }
    }
}

/// The executable error carries exactly the message and position of the
/// spec-level fault.
pub open spec fn reports_parse(e: ParseError, f: Fault) -> bool {
    e.message@ == f.msg && e.pos as int == f.pos
}

pub open spec fn opt_stmt_view(o: Option<StatementKind>) -> Option<StmtView> {
    match o {
        Some(s) => Some(s@),
        None => None,
    }
}

fn unexpected_keyword_message() -> (s: String)
    ensures
        s@ == msg_unexpected_keyword(),
{
    "Unexpected keyword token".to_owned()
}

fn select_clause_unexpected_message() -> (s: String)
    ensures
        s@ == msg_select_clause_unexpected(),
{
    "Unexpected token".to_owned()
}

fn missing_from_message() -> (s: String)
    ensures
        s@ == msg_missing_from(),
{
    "Missing from clause".to_owned()
}

fn missing_semicolon_message() -> (s: String)
    ensures
        s@ == msg_missing_semicolon(),
{
    "missing ';'".to_owned()
}

fn missing_table_name_message() -> (s: String)
    ensures
        s@ == msg_missing_table_name(),
{
    "missing table name".to_owned()
}

fn unsupported_join_message() -> (s: String)
    ensures
        s@ == msg_unsupported_join(),
{
    "unsupported grammar: join".to_owned()
}

fn unsupported_where_message() -> (s: String)
    ensures
        s@ == msg_unsupported_where(),
{
    "unsupported grammar: where".to_owned()
}

fn unsupported_group_by_message() -> (s: String)
    ensures
        s@ == msg_unsupported_group_by(),
{
    "unsupported grammar: group by".to_owned()
}

fn unsupported_having_message() -> (s: String)
    ensures
        s@ == msg_unsupported_having(),
{
    "unsupported grammar: having".to_owned()
}

fn unsupported_order_by_message() -> (s: String)
    ensures
        s@ == msg_unsupported_order_by(),
{
    "unsupported grammar: order by".to_owned()
}

fn unsupported_limit_message() -> (s: String)
    ensures
        s@ == msg_unsupported_limit(),
{
    "unsupported grammar: limit".to_owned()
}

fn unsupported_grant_message() -> (s: String)
    ensures
        s@ == msg_unsupported_grant(),
{
    "unsupported grammar: grant".to_owned()
}

fn unsupported_revoke_message() -> (s: String)
    ensures
        s@ == msg_unsupported_revoke(),
{
    "unsupported grammar: revoke".to_owned()
}

/// Loop bookkeeping for the select list: what has been collected so far at
/// `cur` completes to the outcome the whole rule has at `p0`.
pub open spec fn select_list_pending(
    d: Seq<u8>,
    p0: int,
    done: Seq<SelectItemKind>,
    cur: int,
) -> bool {
    &&& 0 <= cur <= d.len()
    &&& match select_list_at(d, cur) {
        Ok(op) => select_list_at(d, p0) == Ok::<(Seq<SelectItemKind>, int), Fault>((
            done + op.0,
            op.1,
        )),
        Err(f) => select_list_at(d, p0) == Err::<(Seq<SelectItemKind>, int), Fault>(f),
    }
}

/// Loop bookkeeping for the from clause, in the same shape.
pub open spec fn from_items_pending(
    d: Seq<u8>,
    p0: int,
    done: Seq<FromItemKind>,
    cur: int,
) -> bool {
    &&& 0 <= cur <= d.len()
    &&& match from_items_at(d, cur) {
        Ok(op) => from_items_at(d, p0) == Ok::<(Seq<FromItemKind>, int), Fault>((
            done + op.0,
            op.1,
        )),
        Err(f) => from_items_at(d, p0) == Err::<(Seq<FromItemKind>, int), Fault>(f),
    }
}

/// Loop bookkeeping for the statement list, in the same shape.
pub open spec fn stmts_pending(d: Seq<u8>, p0: int, done: Seq<StmtView>, cur: int) -> bool {
    &&& 0 <= cur <= d.len()
    &&& match stmts_at(d, cur) {
        Ok(rest) => stmts_at(d, p0) == Ok::<Seq<StmtView>, Fault>(done + rest),
        Err(f) => stmts_at(d, p0) == Err::<Seq<StmtView>, Fault>(f),
    }
}

/// The parser: it exclusively owns one lexer for its whole lifetime and
/// consumes the filtered token stream.
pub struct Parser<'a> {
    lexer: Lexer<'a>,
}

impl<'a> Parser<'a> {
    /// The buffer being parsed.
    pub closed spec fn buf(&self) -> Seq<u8> {
        self.lexer.buf()
    }

    /// The byte offset the parse stands at.
    pub closed spec fn pos(&self) -> int {
        self.lexer.pos()
    }

    pub closed spec fn wf(&self) -> bool {
        self.lexer.wf()
    }

    pub fn new(data: &'a [u8]) -> (p: Parser<'a>)
        ensures
            p.wf(),
            p.buf() == data@,
            p.pos() == 0,
    {
        Parser { lexer: Lexer::new(data) }
    }

    /// Parses the whole buffer: the statement sequence of [`stmts_at`], or
    /// the first fault, which discards everything parsed before it.
    #[verifier::rlimit(100)]
    pub fn parse(&mut self) -> (r: Result<AST, ParseError>)
        requires
            old(self).wf(),
        ensures
            final(self).wf(),
            final(self).buf() == old(self).buf(),
            match stmts_at(old(self).buf(), old(self).pos()) {
                Ok(sts) => r matches Ok(ast) && ast@ == sts,
                Err(f) => r matches Err(e) && reports_parse(e, f),
            },
    {
        let ghost d = self.buf();
        let ghost p0 = self.pos();
        let mut ast = AST::new();
        proof {
            if let Ok(rest) = stmts_at(d, p0) {
                assert(Seq::<StmtView>::empty() + rest =~= rest);
            }
        }
        loop
            invariant
                self.wf(),
                self.buf() == d,
                d == old(self).buf(),
                p0 == old(self).pos(),
                0 <= p0 <= d.len() <= usize::MAX,
                stmts_pending(d, p0, ast@, self.pos()),
            decreases d.len() - self.pos(),
        {
            let ghost cur = self.pos();
            let ghost done = ast@;
            match self.parse_stmt() {
                Ok(Some(stmt)) => {
                    proof {
                        lemma_stmt_at_bounds(d, cur);
                    }
                    let ghost sv = stmt@;
                    ast.append_stmt(stmt);
                    proof {
                        if let Ok(rest) = stmts_at(d, self.pos()) {
                            assert(done + (seq![sv] + rest) =~= done.push(sv) + rest);
                        }
                    }
                },
                Ok(None) => {
                    proof {
                        assert(done + Seq::<StmtView>::empty() =~= done);
                    }
                    return Ok(ast);
                },
                Err(err) => {
                    return Err(err);
                },
            }
        }
    }

    /// One statement: `Eof` yields `None`; a leading keyword dispatches to
    /// its statement routine; a keyword without a routine, or any other
    /// token, is an error at that token's position.
    fn parse_stmt(&mut self) -> (r: Result<Option<StatementKind>, ParseError>)
        requires
            old(self).wf(),
        ensures
            final(self).wf(),
            final(self).buf() == old(self).buf(),
            match stmt_at(old(self).buf(), old(self).pos()) {
                Ok(op) => r matches Ok(o) && opt_stmt_view(o) == op.0 && final(self).pos()
                    == op.1,
                Err(f) => r matches Err(e) && reports_parse(e, f),
            },
    {
        match self.lexer.next_real() {
            Ok(token) => match token.kind {
                TokenKind::Keyword(kw) => match kw {
                    KeywordKind::Commit => self.parse_commit_stmt(),
                    KeywordKind::Create => self.parse_create_stmt(),
                    KeywordKind::Delete => self.parse_delete_stmt(),
                    KeywordKind::Insert => self.parse_insert_stmt(),
                    KeywordKind::Rollback => self.parse_rollback_stmt(),
                    KeywordKind::Select => self.parse_select_stmt(),
                    KeywordKind::Update => self.parse_update_stmt(),
                    KeywordKind::Grant => Err(ParseError::new(
                        unsupported_grant_message(),
                        token.pos,
                    )),
                    KeywordKind::Revoke => Err(ParseError::new(
                        unsupported_revoke_message(),
                        token.pos,
                    )),
                    _ => Err(ParseError::new(unexpected_keyword_message(), token.pos)),
                },
                TokenKind::Eof => Ok(None),
                _ => Err(ParseError::new(unexpected_token_message(&token.kind), token.pos)),
            },
            Err(err) => Err(ParseError::from(err)),
        }
    }

    /// `SELECT <select clause> FROM <from clause> <terminator>`, after the
    /// SELECT keyword.
    fn parse_select_stmt(&mut self) -> (r: Result<Option<StatementKind>, ParseError>)
        requires
            old(self).wf(),
        ensures
            final(self).wf(),
            final(self).buf() == old(self).buf(),
            match select_at(old(self).buf(), old(self).pos()) {
                Ok(op) => r matches Ok(o) && opt_stmt_view(o) == op.0 && final(self).pos()
                    == op.1,
                Err(f) => r matches Err(e) && reports_parse(e, f),
            },
    {
        let select_clause = match self.parse_select_clause() {
            Ok(c) => c,
            Err(e) => {
                return Err(e);
            },
        };
        match self.lexer.expect(TokenKind::Keyword(KeywordKind::From)) {
            Ok(_) => {},
            Err(e) => {
                return Err(ParseError::from(e));
            },
        }
        let from_clause = match self.parse_from_clause() {
            Ok(c) => c,
            Err(e) => {
                return Err(e);
            },
        };
        // The clause extension points are recognised and reported, never
        // silently skipped.
        match self.lexer.peek_real() {
            Ok(t) => match t.kind {
                TokenKind::Keyword(KeywordKind::Where) => {
                    return Err(ParseError::new(unsupported_where_message(), t.pos));
                },
                TokenKind::Keyword(KeywordKind::Group) => {
                    return Err(ParseError::new(unsupported_group_by_message(), t.pos));
                },
                TokenKind::Keyword(KeywordKind::Having) => {
                    return Err(ParseError::new(unsupported_having_message(), t.pos));
                },
                TokenKind::Keyword(KeywordKind::Order) => {
                    return Err(ParseError::new(unsupported_order_by_message(), t.pos));
                },
                TokenKind::Keyword(KeywordKind::Limit) => {
                    return Err(ParseError::new(unsupported_limit_message(), t.pos));
                },
                _ => {},
            },
            Err(e) => {
                return Err(ParseError::from(e));
            },
        }
        match self.parse_eol() {
            Ok(_) => {},
            Err(e) => {
                return Err(e);
            },
        }
        Ok(Some(StatementKind::Select(SelectStmt::new(select_clause, from_clause))))
    }

    /// The select clause: `*`, or a parenthesised column list.
    fn parse_select_clause(&mut self) -> (r: Result<SelectClause, ParseError>)
        requires
            old(self).wf(),
        ensures
            final(self).wf(),
            final(self).buf() == old(self).buf(),
            match select_clause_at(old(self).buf(), old(self).pos()) {
                Ok(op) => r matches Ok(c) && c@ == op.0 && final(self).pos() == op.1,
                Err(f) => r matches Err(e) && reports_parse(e, f),
            },
    {
        match self.lexer.next_real() {
            Ok(t) => match t.kind {
                TokenKind::Punc(PuncKind::Star) => Ok(SelectClause::all()),
                TokenKind::Punc(PuncKind::LParen) => match self.parse_select_list() {
                    Ok(items) => Ok(SelectClause { selected: items }),
                    Err(e) => Err(e),
                },
                _ => Err(ParseError::new(select_clause_unexpected_message(), t.pos)),
            },
            Err(e) => Err(ParseError::from(e)),
        }
    }

    /// The comma-separated object references of a parenthesised select list,
    /// up to the closing `)`.
    #[verifier::rlimit(100)]
    fn parse_select_list(&mut self) -> (r: Result<Vec<SelectItemKind>, ParseError>)
        requires
            old(self).wf(),
        ensures
            final(self).wf(),
            final(self).buf() == old(self).buf(),
            match select_list_at(old(self).buf(), old(self).pos()) {
                Ok(op) => r matches Ok(v) && v@ == op.0 && final(self).pos() == op.1,
                Err(f) => r matches Err(e) && reports_parse(e, f),
            },
    {
        let ghost d = self.buf();
        let ghost p0 = self.pos();
        let mut items: Vec<SelectItemKind> = Vec::new();
        proof {
            if let Ok(op) = select_list_at(d, p0) {
                assert(Seq::<SelectItemKind>::empty() + op.0 =~= op.0);
            }
            assert(items@ =~= Seq::<SelectItemKind>::empty());
        }
        loop
            invariant
                self.wf(),
                self.buf() == d,
                d == old(self).buf(),
                p0 == old(self).pos(),
                0 <= p0 <= d.len() <= usize::MAX,
                select_list_pending(d, p0, items@, self.pos()),
            decreases d.len() - self.pos(),
        {
            let ghost cur = self.pos();
            let ghost done = items@;
            let o = match self.parse_object_ref() {
                Ok(o) => o,
                Err(e) => {
                    return Err(e);
                },
            };
            proof {
                lemma_object_ref_bounds(d, cur);
                lemma_real_token_at_bounds(d, self.pos());
            }
            match self.lexer.next_real() {
                Ok(t) => match t.kind {
                    TokenKind::Punc(PuncKind::Comma) => {
                        items.push(SelectItemKind::Identifier(o));
                        proof {
                            if let Ok(op2) = select_list_at(d, self.pos()) {
                                assert(done + (seq![SelectItemKind::Identifier(o)] + op2.0)
                                    =~= done.push(SelectItemKind::Identifier(o)) + op2.0);
                            }
                        }
                    },
                    TokenKind::Punc(PuncKind::RParen) => {
                        items.push(SelectItemKind::Identifier(o));
                        proof {
                            assert(done + seq![SelectItemKind::Identifier(o)] =~= done.push(
                                SelectItemKind::Identifier(o),
                            ));
                        }
                        return Ok(items);
                    },
                    _ => {
                        return Err(ParseError::new(unexpected_token_message(&t.kind), t.pos));
                    },
                },
                Err(e) => {
                    return Err(ParseError::from(e));
                },
            }
        }
    }

    /// One object reference: `name`, `dataset.name` or `schema.dataset.name`.
    fn parse_object_ref(&mut self) -> (r: Result<ObjectReference, ParseError>)
        requires
            old(self).wf(),
        ensures
            final(self).wf(),
            final(self).buf() == old(self).buf(),
            match object_ref_at(old(self).buf(), old(self).pos()) {
                Ok(op) => r matches Ok(o) && o == op.0 && final(self).pos() == op.1,
                Err(f) => r matches Err(e) && reports_parse(e, f),
            },
    {
        match self.lexer.next_real() {
            Ok(t1) => match t1.kind {
                TokenKind::Identifier(sp1) => {
                    if !self.lexer.eat(TokenKind::Punc(PuncKind::Period)) {
                        return Ok(ObjectReference { dataset: None, obj: Some(sp1) });
                    }
                    match self.lexer.next_real() {
                        Ok(t2) => match t2.kind {
                            TokenKind::Identifier(sp2) => {
                                if !self.lexer.eat(TokenKind::Punc(PuncKind::Period)) {
                                    return Ok(ObjectReference {
                                        dataset: Some(DatasetReference {
                                            schema: None,
                                            dataset: Some(sp1),
                                        }),
                                        obj: Some(sp2),
                                    });
                                }
                                match self.lexer.next_real() {
                                    Ok(t3) => match t3.kind {
                                        TokenKind::Identifier(sp3) => Ok(ObjectReference {
                                            dataset: Some(DatasetReference {
                                                schema: Some(sp1),
                                                dataset: Some(sp2),
                                            }),
                                            obj: Some(sp3),
                                        }),
                                        _ => Err(ParseError::new(
                                            unexpected_token_message(&t3.kind),
                                            t3.pos,
                                        )),
                                    },
                                    Err(e) => Err(ParseError::from(e)),
                                }
                            },
                            _ => Err(ParseError::new(unexpected_token_message(&t2.kind), t2.pos)),
                        },
                        Err(e) => Err(ParseError::from(e)),
                    }
                },
                _ => Err(ParseError::new(unexpected_token_message(&t1.kind), t1.pos)),
            },
            Err(e) => Err(ParseError::from(e)),
        }
    }

    /// The from clause: identifiers become dataset references until some
    /// other token is reached, which is left unconsumed; at least one must
    /// have been collected.
    #[verifier::rlimit(100)]
    fn parse_from_clause(&mut self) -> (r: Result<FromClause, ParseError>)
        requires
            old(self).wf(),
        ensures
            final(self).wf(),
            final(self).buf() == old(self).buf(),
            match from_clause_at(old(self).buf(), old(self).pos()) {
                Ok(op) => r matches Ok(c) && c@ == op.0 && final(self).pos() == op.1,
                Err(f) => r matches Err(e) && reports_parse(e, f),
            },
    {
        let ghost d = self.buf();
        let ghost p0 = self.pos();
        let mut from_clause = FromClause::new();
        proof {
            if let Ok(op) = from_items_at(d, p0) {
                assert(Seq::<FromItemKind>::empty() + op.0 =~= op.0);
            }
        }
        loop
            invariant
                self.wf(),
                self.buf() == d,
                d == old(self).buf(),
                p0 == old(self).pos(),
                0 <= p0 <= d.len() <= usize::MAX,
                from_items_pending(d, p0, from_clause@, self.pos()),
            decreases d.len() - self.pos(),
        {
            let ghost cur = self.pos();
            let ghost done = from_clause@;
            match self.lexer.peek_real() {
                Ok(t) => match t.kind {
                    TokenKind::Identifier(sp) => {
                        proof {
                            lemma_real_token_at_bounds(d, cur);
                        }
                        let _consumed = self.lexer.next_real();
                        from_clause.from.push(FromItemKind::Dataset(DatasetReference::new(sp)));
                        proof {
                            if let Ok(op2) = from_items_at(d, self.pos()) {
                                assert(done + (seq![
                                    FromItemKind::Dataset(DatasetReference {
                                        schema: None,
                                        dataset: Some(sp),
                                    }),
                                ] + op2.0) =~= done.push(FromItemKind::Dataset(DatasetReference {
                                    schema: None,
                                    dataset: Some(sp),
                                })) + op2.0);
                            }
                        }
                    },
                    TokenKind::Keyword(KeywordKind::Join) => {
                        return Err(ParseError::new(unsupported_join_message(), t.pos));
                    },
                    _ => {
                        proof {
                            assert(done + Seq::<FromItemKind>::empty() =~= done);
                        }
                        if from_clause.is_empty() {
                            return Err(ParseError::new(missing_from_message(), t.pos));
                        }
                        return Ok(from_clause);
                    },
                },
                Err(e) => {
                    return Err(ParseError::from(e));
                },
            }
        }
    }

    /// `COMMIT [WORK] <terminator>`.
    fn parse_commit_stmt(&mut self) -> (r: Result<Option<StatementKind>, ParseError>)
        requires
            old(self).wf(),
        ensures
            final(self).wf(),
            final(self).buf() == old(self).buf(),
            match txn_at(old(self).buf(), old(self).pos(), StmtView::Commit) {
                Ok(op) => r matches Ok(o) && opt_stmt_view(o) == op.0 && final(self).pos()
                    == op.1,
                Err(f) => r matches Err(e) && reports_parse(e, f),
            },
    {
        let _work = self.lexer.eat(TokenKind::Keyword(KeywordKind::Work));
        match self.parse_eol() {
            Ok(_) => Ok(Some(StatementKind::Commit)),
            Err(e) => Err(e),
        }
    }

    /// `ROLLBACK [WORK] <terminator>`.
    fn parse_rollback_stmt(&mut self) -> (r: Result<Option<StatementKind>, ParseError>)
        requires
            old(self).wf(),
        ensures
            final(self).wf(),
            final(self).buf() == old(self).buf(),
            match txn_at(old(self).buf(), old(self).pos(), StmtView::Rollback) {
                Ok(op) => r matches Ok(o) && opt_stmt_view(o) == op.0 && final(self).pos()
                    == op.1,
                Err(f) => r matches Err(e) && reports_parse(e, f),
            },
    {
        let _work = self.lexer.eat(TokenKind::Keyword(KeywordKind::Work));
        match self.parse_eol() {
            Ok(_) => Ok(Some(StatementKind::Rollback)),
            Err(e) => Err(e),
        }
    }

    /// The target table name and the terminator, shared by the reserved
    /// statement grammars.
    fn parse_table_target(&mut self) -> (r: Result<Span, ParseError>)
        requires
            old(self).wf(),
        ensures
            final(self).wf(),
            final(self).buf() == old(self).buf(),
            match table_target_at(old(self).buf(), old(self).pos()) {
                Ok(op) => r matches Ok(sp) && sp == op.0 && final(self).pos() == op.1,
                Err(f) => r matches Err(e) && reports_parse(e, f),
            },
    {
        match self.lexer.next_real() {
            Ok(t) => match t.kind {
                TokenKind::Identifier(sp) => match self.parse_eol() {
                    Ok(_) => Ok(sp),
                    Err(e) => Err(e),
                },
                _ => Err(ParseError::new(missing_table_name_message(), t.pos)),
            },
            Err(e) => Err(ParseError::from(e)),
        }
    }

    /// `UPDATE <table> <terminator>` — the reserved minimal grammar.
    fn parse_update_stmt(&mut self) -> (r: Result<Option<StatementKind>, ParseError>)
        requires
            old(self).wf(),
        ensures
            final(self).wf(),
            final(self).buf() == old(self).buf(),
            match update_at(old(self).buf(), old(self).pos()) {
                Ok(op) => r matches Ok(o) && opt_stmt_view(o) == op.0 && final(self).pos()
                    == op.1,
                Err(f) => r matches Err(e) && reports_parse(e, f),
            },
    {
        match self.parse_table_target() {
            Ok(sp) => Ok(Some(StatementKind::Update(UpdateStmt { table: sp }))),
            Err(e) => Err(e),
        }
    }

    /// `DELETE <table> <terminator>` — the reserved minimal grammar.
    fn parse_delete_stmt(&mut self) -> (r: Result<Option<StatementKind>, ParseError>)
        requires
            old(self).wf(),
        ensures
            final(self).wf(),
            final(self).buf() == old(self).buf(),
            match delete_at(old(self).buf(), old(self).pos()) {
                Ok(op) => r matches Ok(o) && opt_stmt_view(o) == op.0 && final(self).pos()
                    == op.1,
                Err(f) => r matches Err(e) && reports_parse(e, f),
            },
    {
        match self.parse_table_target() {
            Ok(sp) => Ok(Some(StatementKind::Delete(DeleteStmt { table: sp }))),
            Err(e) => Err(e),
        }
    }

    /// `INSERT <table> <terminator>` — the reserved minimal grammar.
    fn parse_insert_stmt(&mut self) -> (r: Result<Option<StatementKind>, ParseError>)
        requires
            old(self).wf(),
        ensures
            final(self).wf(),
            final(self).buf() == old(self).buf(),
            match insert_at(old(self).buf(), old(self).pos()) {
                Ok(op) => r matches Ok(o) && opt_stmt_view(o) == op.0 && final(self).pos()
                    == op.1,
                Err(f) => r matches Err(e) && reports_parse(e, f),
            },
    {
        match self.parse_table_target() {
            Ok(sp) => Ok(Some(StatementKind::Insert(InsertStmt { table: sp }))),
            Err(e) => Err(e),
        }
    }

    /// `CREATE TABLE <table> <terminator>` — the reserved minimal grammar.
    fn parse_create_stmt(&mut self) -> (r: Result<Option<StatementKind>, ParseError>)
        requires
            old(self).wf(),
        ensures
            final(self).wf(),
            final(self).buf() == old(self).buf(),
            match create_at(old(self).buf(), old(self).pos()) {
                Ok(op) => r matches Ok(o) && opt_stmt_view(o) == op.0 && final(self).pos()
                    == op.1,
                Err(f) => r matches Err(e) && reports_parse(e, f),
            },
    {
        match self.lexer.expect(TokenKind::Keyword(KeywordKind::Table)) {
            Ok(_) => {},
            Err(e) => {
                return Err(ParseError::from(e));
            },
        }
        match self.parse_table_target() {
            Ok(sp) => Ok(Some(StatementKind::CreateTable(CreateTableStmt { table: sp }))),
            Err(e) => Err(e),
        }
    }

    /// The statement terminator: either `;` is consumed, or the next real
    /// token must be `Eof`, left unconsumed.
    fn parse_eol(&mut self) -> (r: Result<(), ParseError>)
        requires
            old(self).wf(),
        ensures
            final(self).wf(),
            final(self).buf() == old(self).buf(),
            match eol_at(old(self).buf(), old(self).pos()) {
                Ok(p2) => r is Ok && final(self).pos() == p2,
                Err(f) => r matches Err(e) && reports_parse(e, f) && final(self).pos() == old(
                    self,
                ).pos(),
            },
    {
        if self.lexer.eat(TokenKind::Punc(PuncKind::SemiColon)) {
            return Ok(());
        }
        match self.lexer.peek_real() {
            Ok(t) => {
                if t.kind == TokenKind::Eof {
                    Ok(())
                } else {
                    Err(ParseError::new(missing_semicolon_message(), t.pos))
                }
            },
            Err(e) => Err(ParseError::from(e)),
        }
    }
}

} // verus!
