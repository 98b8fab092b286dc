//! The statement tree: the tagged-union statement kinds and their clause
//! substructures. Name-like pieces carry [`Span`]s into the request buffer
//! rather than copies of its text.
//!
//! Types that hold a growable list have a ghost view (`@`): the same shape
//! with every `Vec` read as a `Seq`. The parser's specification is stated
//! over these views.

use vstd::prelude::*;

use crate::token::Span;

verus! {

/// The ordered sequence of statements produced by one parse call.
#[derive(Debug, PartialEq)]
pub struct AST {
    pub stmts: Vec<StatementKind>,
}

impl View for AST {
    type V = Seq<StmtView>;

    open spec fn view(&self) -> Seq<StmtView> {
        self.stmts.deep_view()
    }
}

impl AST {
    pub fn new() -> (a: AST)
        ensures
            a@ == Seq::<StmtView>::empty(),
    {
        let a = AST { stmts: Vec::new() };
        proof {
            assert(a@ =~= Seq::<StmtView>::empty());
        }
        a
    }

    pub fn append_stmt(&mut self, stmt: StatementKind)
        ensures
            final(self)@ == old(self)@.push(stmt@),
    {
        self.stmts.push(stmt);
        proof {
            assert(self@ =~= old(self)@.push(stmt@));
        }
    }
}

/// One statement. The set of kinds is closed; adding one is an explicit
/// extension of the grammar.
#[derive(Debug, PartialEq)]
pub enum StatementKind {
    Block(BlockStmt),
    Select(SelectStmt),
    Update(UpdateStmt),
    Insert(InsertStmt),
    Delete(DeleteStmt),
    CreateTable(CreateTableStmt),
    Commit,
    Rollback,
    Grant,
    Revoke,
}

/// The ghost shape of a statement, with sequences in place of vectors.
pub ghost enum StmtView {
    Block(BlockStmt),
    Select(SelectView),
    Update(UpdateStmt),
    Insert(InsertStmt),
    Delete(DeleteStmt),
    CreateTable(CreateTableStmt),
    Commit,
    Rollback,
    Grant,
    Revoke,
}

impl View for StatementKind {
    type V = StmtView;

    open spec fn view(&self) -> StmtView {
        match self {
            StatementKind::Block(b) => StmtView::Block(*b),
            StatementKind::Select(s) => StmtView::Select(s@),
            StatementKind::Update(s) => StmtView::Update(*s),
            StatementKind::Insert(s) => StmtView::Insert(*s),
            StatementKind::Delete(s) => StmtView::Delete(*s),
            StatementKind::CreateTable(s) => StmtView::CreateTable(*s),
            StatementKind::Commit => StmtView::Commit,
            StatementKind::Rollback => StmtView::Rollback,
            StatementKind::Grant => StmtView::Grant,
            StatementKind::Revoke => StmtView::Revoke,
        }
    }
}

impl DeepView for StatementKind {
    type V = StmtView;

    open spec fn deep_view(&self) -> StmtView {
        self@
    }
}

/// Expression kinds, reserved for clause grammars still to come.
pub enum ExprKind {
    Identifier,
    Literal,
}

/// A braced group of statements, reserved; no grammar produces one yet.
#[derive(Debug, PartialEq)]
pub struct BlockStmt {
    stmts: Vec<StatementKind>,
}

/// An optionally schema-qualified name of a table-like object.
#[derive(Clone, Copy, Debug, PartialEq, Eq, Structural)]
pub struct DatasetReference {
    pub schema: Option<Span>,
    pub dataset: Option<Span>,
}

impl DatasetReference {
    pub fn new(dataset: Span) -> (d: DatasetReference)
        ensures
            d == (DatasetReference { schema: None, dataset: Some(dataset) }),
    {
        DatasetReference { schema: None, dataset: Some(dataset) }
    }
}

/// An optionally dataset-qualified name of a column-like object.
#[derive(Clone, Copy, Debug, PartialEq, Eq, Structural)]
pub struct ObjectReference {
    pub dataset: Option<DatasetReference>,
    pub obj: Option<Span>,
}

/// A SELECT statement; the clauses past FROM are extension points, each an
/// explicit option so that an absent clause stays distinguishable from a
/// present but featureless one.
#[derive(Clone, Debug, PartialEq)]
pub struct SelectStmt {
    pub select_clause: SelectClause,
    pub from_clause: FromClause,
    pub where_clause: Option<WhereClause>,
    pub group_by_clause: Option<GroupByClause>,
    pub having_clause: Option<HavingClause>,
    pub order_by_clause: Option<OrderByClause>,
    pub limit_clause: Option<LimitClause>,
}

/// The ghost shape of a SELECT statement.
pub ghost struct SelectView {
    pub selected: Seq<SelectItemKind>,
    pub from: Seq<FromItemKind>,
    pub where_clause: Option<WhereClause>,
    pub group_by_clause: Option<GroupByClause>,
    pub having_clause: Option<HavingClause>,
    pub order_by_clause: Option<OrderByClause>,
    pub limit_clause: Option<LimitClause>,
}

impl View for SelectStmt {
    type V = SelectView;

    open spec fn view(&self) -> SelectView {
        SelectView {
            selected: self.select_clause@,
            from: self.from_clause@,
            where_clause: self.where_clause,
            group_by_clause: self.group_by_clause,
            having_clause: self.having_clause,
            order_by_clause: self.order_by_clause,
            limit_clause: self.limit_clause,
        }
    }
}

impl SelectStmt {
    pub fn new(select: SelectClause, from: FromClause) -> (s: SelectStmt)
        ensures
            s@ == (SelectView {
                selected: select@,
                from: from@,
                where_clause: None,
                group_by_clause: None,
                having_clause: None,
                order_by_clause: None,
                limit_clause: None,
            }),
    {
        SelectStmt {
            select_clause: select,
            from_clause: from,
            where_clause: None,
            group_by_clause: None,
            having_clause: None,
            order_by_clause: None,
            limit_clause: None,
        }
    }
}

/// The reserved shapes of the remaining statements: for now each carries
/// only its target table name.
#[derive(Clone, Copy, Debug, PartialEq, Eq, Structural)]
pub struct UpdateStmt {
    pub table: Span,
}

#[derive(Clone, Copy, Debug, PartialEq, Eq, Structural)]
pub struct InsertStmt {
    pub table: Span,
}

#[derive(Clone, Copy, Debug, PartialEq, Eq, Structural)]
pub struct DeleteStmt {
    pub table: Span,
}

#[derive(Clone, Copy, Debug, PartialEq, Eq, Structural)]
pub struct CreateTableStmt {
    pub table: Span,
}

/// What a SELECT selects.
#[derive(Clone, Debug, PartialEq)]
pub struct SelectClause {
    pub selected: Vec<SelectItemKind>,
}

impl View for SelectClause {
    type V = Seq<SelectItemKind>;

    open spec fn view(&self) -> Seq<SelectItemKind> {
        self.selected@
    }
}

impl SelectClause {
    pub fn all() -> (c: SelectClause)
        ensures
            c@ == seq![SelectItemKind::All],
    {
        let c = SelectClause { selected: vec![SelectItemKind::All] };
        proof {
            assert(c@ =~= seq![SelectItemKind::All]);
        }
        c
    }
}

#[derive(Clone, Copy, Debug, PartialEq, Eq, Structural)]
pub enum SelectItemKind {
    All,
    Identifier(ObjectReference),
}

/// What a SELECT selects from.
#[derive(Clone, Debug, PartialEq)]
pub struct FromClause {
    pub from: Vec<FromItemKind>,
}

impl View for FromClause {
    type V = Seq<FromItemKind>;

    open spec fn view(&self) -> Seq<FromItemKind> {
        self.from@
    }
}

impl FromClause {
    pub fn new() -> (c: FromClause)
        ensures
            c@ == Seq::<FromItemKind>::empty(),
    {
        let c = FromClause { from: Vec::new() };
        proof {
            assert(c@ =~= Seq::<FromItemKind>::empty());
        }
        c
    }

    pub fn table(table: Span) -> (c: FromClause)
        ensures
            c@ == seq![FromItemKind::Dataset(DatasetReference { schema: None, dataset: Some(table) })],
    {
        let c = FromClause { from: vec![FromItemKind::Dataset(DatasetReference::new(table))] };
        proof {
            assert(c@ =~= seq![
                FromItemKind::Dataset(DatasetReference { schema: None, dataset: Some(table) }),
            ]);
        }
        c
    }

    pub fn is_empty(&self) -> (r: bool)
        ensures
            r == (self@.len() == 0),
    {
        self.from.len() == 0
    }
}

#[derive(Clone, Copy, Debug, PartialEq, Eq, Structural)]
pub enum FromItemKind {
    Dataset(DatasetReference),
    Join(JoinClause),
}

/// The clause extension points: modeled, present or absent on a statement,
/// but carrying no fields until their grammars are fixed.
#[derive(Clone, Copy, Debug, PartialEq, Eq, Structural)]
pub struct JoinClause {}

#[derive(Clone, Copy, Debug, PartialEq, Eq, Structural)]
pub struct WhereClause {}

#[derive(Clone, Copy, Debug, PartialEq, Eq, Structural)]
pub struct GroupByClause {}

#[derive(Clone, Copy, Debug, PartialEq, Eq, Structural)]
pub struct HavingClause {}

#[derive(Clone, Copy, Debug, PartialEq, Eq, Structural)]
pub struct OrderByClause {}

#[derive(Clone, Copy, Debug, PartialEq, Eq, Structural)]
pub struct LimitClause {}

} // verus!
