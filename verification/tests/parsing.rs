use sqlfront::ast::{
    FromClause, FromItemKind, SelectClause, SelectItemKind, SelectStmt, StatementKind,
};
use sqlfront::parser::Parser;
use sqlfront::token::Span;

#[test]
fn test_commit() {
    let mut p = Parser::new(b"commit");
    let ast = p.parse();

    let ast = ast.unwrap();
    assert!(ast.stmts.len() == 1);
    assert_eq!(ast.stmts[0], StatementKind::Commit);
}

#[test]
fn test_rollback() {
    let mut p = Parser::new(b"rollback");
    let ast = p.parse();

    let ast = ast.unwrap();
    assert!(ast.stmts.len() == 1);
    assert_eq!(ast.stmts[0], StatementKind::Rollback);
}

#[test]
fn test_select() {
    let mut p = Parser::new(b"SELECT * from cats");
    let ast = p.parse();

    let ast = ast.unwrap();
    assert!(ast.stmts.len() == 1);

    let select = SelectStmt::new(SelectClause::all(), FromClause::table(Span { start: 14, len: 4 }));

    assert_eq!(ast.stmts[0], StatementKind::Select(select));
}

#[test]
fn test_commit_work() {
    let plain = Parser::new(b"commit").parse().unwrap();
    let with_work = Parser::new(b"commit work;").parse().unwrap();
    assert_eq!(plain, with_work);
    assert_eq!(with_work.stmts.len(), 1);
    assert_eq!(with_work.stmts[0], StatementKind::Commit);
}

#[test]
fn test_rollback_work() {
    let plain = Parser::new(b"rollback").parse().unwrap();
    let with_work = Parser::new(b"rollback work").parse().unwrap();
    assert_eq!(plain, with_work);
}

#[test]
fn test_select_missing_from() {
    let mut p = Parser::new(b"select * from");
    let err = p.parse().unwrap_err();
    assert_eq!(err.message, "Missing from clause");
    // Positioned at end of input.
    assert_eq!(err.pos, 13);
}

#[test]
fn test_select_multi_tables() {
    let input = b"select * from cats dogs;";
    let mut p = Parser::new(input);
    let ast = p.parse().unwrap();
    assert_eq!(ast.stmts.len(), 1);
    match &ast.stmts[0] {
        StatementKind::Select(s) => {
            assert_eq!(s.select_clause.selected, vec![SelectItemKind::All]);
            assert_eq!(s.from_clause.from.len(), 2);
            match &s.from_clause.from[0] {
                FromItemKind::Dataset(d) => {
                    let sp = d.dataset.unwrap();
                    assert_eq!(&input[sp.start..sp.start + sp.len], b"cats");
                    assert_eq!(d.schema, None);
                }
                other => panic!("expected a dataset reference, got {:?}", other),
            }
            match &s.from_clause.from[1] {
                FromItemKind::Dataset(d) => {
                    let sp = d.dataset.unwrap();
                    assert_eq!(&input[sp.start..sp.start + sp.len], b"dogs");
                }
                other => panic!("expected a dataset reference, got {:?}", other),
            }
            assert!(s.where_clause.is_none());
            assert!(s.group_by_clause.is_none());
            assert!(s.having_clause.is_none());
            assert!(s.order_by_clause.is_none());
            assert!(s.limit_clause.is_none());
        }
        other => panic!("expected a select statement, got {:?}", other),
    }
}

#[test]
fn test_select_column_list() {
    let input = b"select (a, b.c, s.d.e) from t";
    let mut p = Parser::new(input);
    let ast = p.parse().unwrap();
    assert_eq!(ast.stmts.len(), 1);
    let text = |sp: Span| &input[sp.start..sp.start + sp.len];
    match &ast.stmts[0] {
        StatementKind::Select(s) => {
            assert_eq!(s.select_clause.selected.len(), 3);
            match &s.select_clause.selected[0] {
                SelectItemKind::Identifier(o) => {
                    assert!(o.dataset.is_none());
                    assert_eq!(text(o.obj.unwrap()), b"a");
                }
                other => panic!("expected an object reference, got {:?}", other),
            }
            match &s.select_clause.selected[1] {
                SelectItemKind::Identifier(o) => {
                    let d = o.dataset.unwrap();
                    assert!(d.schema.is_none());
                    assert_eq!(text(d.dataset.unwrap()), b"b");
                    assert_eq!(text(o.obj.unwrap()), b"c");
                }
                other => panic!("expected an object reference, got {:?}", other),
            }
            match &s.select_clause.selected[2] {
                SelectItemKind::Identifier(o) => {
                    let d = o.dataset.unwrap();
                    assert_eq!(text(d.schema.unwrap()), b"s");
                    assert_eq!(text(d.dataset.unwrap()), b"d");
                    assert_eq!(text(o.obj.unwrap()), b"e");
                }
                other => panic!("expected an object reference, got {:?}", other),
            }
        }
        other => panic!("expected a select statement, got {:?}", other),
    }
}

#[test]
fn test_update_stmt() {
    let input = b"update cats;";
    let ast = Parser::new(input).parse().unwrap();
    assert_eq!(ast.stmts.len(), 1);
    match &ast.stmts[0] {
        StatementKind::Update(u) => {
            assert_eq!(&input[u.table.start..u.table.start + u.table.len], b"cats");
        }
        other => panic!("expected an update statement, got {:?}", other),
    }
}

#[test]
fn test_delete_stmt() {
    let input = b"delete cats";
    let ast = Parser::new(input).parse().unwrap();
    match &ast.stmts[0] {
        StatementKind::Delete(d) => {
            assert_eq!(&input[d.table.start..d.table.start + d.table.len], b"cats");
        }
        other => panic!("expected a delete statement, got {:?}", other),
    }
}

#[test]
fn test_insert_stmt() {
    let input = b"insert cats;";
    let ast = Parser::new(input).parse().unwrap();
    match &ast.stmts[0] {
        StatementKind::Insert(i) => {
            assert_eq!(&input[i.table.start..i.table.start + i.table.len], b"cats");
        }
        other => panic!("expected an insert statement, got {:?}", other),
    }
}

#[test]
fn test_create_table_stmt() {
    let input = b"create table cats";
    let ast = Parser::new(input).parse().unwrap();
    match &ast.stmts[0] {
        StatementKind::CreateTable(c) => {
            assert_eq!(&input[c.table.start..c.table.start + c.table.len], b"cats");
        }
        other => panic!("expected a create-table statement, got {:?}", other),
    }
}

#[test]
fn test_create_without_table_keyword() {
    let mut p = Parser::new(b"create cats");
    let err = p.parse().unwrap_err();
    assert_eq!(err.message, "Unexpected token: identifier");
    assert_eq!(err.pos, 7);
}

#[test]
fn test_unexpected_keyword() {
    let mut p = Parser::new(b"table;");
    let err = p.parse().unwrap_err();
    assert_eq!(err.message, "Unexpected keyword token");
    assert_eq!(err.pos, 0);
}

#[test]
fn test_unexpected_token_stmt() {
    let mut p = Parser::new(b"123");
    let err = p.parse().unwrap_err();
    assert_eq!(err.message, "Unexpected token: numeric literal");
    assert_eq!(err.pos, 0);
}

#[test]
fn test_missing_terminator() {
    let mut p = Parser::new(b"commit commit");
    let err = p.parse().unwrap_err();
    assert_eq!(err.message, "missing ';'");
    assert_eq!(err.pos, 7);
}

#[test]
fn test_select_clause_unexpected() {
    let mut p = Parser::new(b"select from t");
    let err = p.parse().unwrap_err();
    assert_eq!(err.message, "Unexpected token");
    assert_eq!(err.pos, 7);
}

#[test]
fn test_unsupported_where() {
    let mut p = Parser::new(b"select * from t where x");
    let err = p.parse().unwrap_err();
    assert_eq!(err.message, "unsupported grammar: where");
    assert_eq!(err.pos, 16);
}

#[test]
fn test_unsupported_join() {
    let mut p = Parser::new(b"select * from a join b");
    let err = p.parse().unwrap_err();
    assert_eq!(err.message, "unsupported grammar: join");
    assert_eq!(err.pos, 16);
}

#[test]
fn test_unsupported_order_and_limit() {
    let err = Parser::new(b"select * from t order").parse().unwrap_err();
    assert_eq!(err.message, "unsupported grammar: order by");
    assert_eq!(err.pos, 16);
    let err = Parser::new(b"select * from t limit").parse().unwrap_err();
    assert_eq!(err.message, "unsupported grammar: limit");
    let err = Parser::new(b"select * from t group").parse().unwrap_err();
    assert_eq!(err.message, "unsupported grammar: group by");
    let err = Parser::new(b"select * from t having").parse().unwrap_err();
    assert_eq!(err.message, "unsupported grammar: having");
}

#[test]
fn test_grant_revoke_unsupported() {
    let err = Parser::new(b"grant").parse().unwrap_err();
    assert_eq!(err.message, "unsupported grammar: grant");
    assert_eq!(err.pos, 0);
    let err = Parser::new(b"revoke").parse().unwrap_err();
    assert_eq!(err.message, "unsupported grammar: revoke");
    assert_eq!(err.pos, 0);
}

#[test]
fn test_missing_table_name() {
    let mut p = Parser::new(b"update ;");
    let err = p.parse().unwrap_err();
    assert_eq!(err.message, "missing table name");
    assert_eq!(err.pos, 7);
}

#[test]
fn test_multiple_statements() {
    let ast = Parser::new(b"commit; rollback work; commit").parse().unwrap();
    assert_eq!(ast.stmts.len(), 3);
    assert_eq!(ast.stmts[0], StatementKind::Commit);
    assert_eq!(ast.stmts[1], StatementKind::Rollback);
    assert_eq!(ast.stmts[2], StatementKind::Commit);
}

#[test]
fn test_empty_buffer_parses_empty() {
    let ast = Parser::new(b"").parse().unwrap();
    assert_eq!(ast.stmts.len(), 0);
    let ast = Parser::new(b"  \t\n").parse().unwrap();
    assert_eq!(ast.stmts.len(), 0);
}

#[test]
fn test_lexical_error_propagates() {
    // A lexical fault converts losslessly: message and position verbatim.
    let mut p = Parser::new(b"commit ?");
    let err = p.parse().unwrap_err();
    assert_eq!(err.message, "unknown artifact");
    assert_eq!(err.pos, 7);
}

#[test]
fn test_comments_are_skipped() {
    let ast = Parser::new(b"commit /* tx done */ ; -- trailing\nrollback").parse().unwrap();
    assert_eq!(ast.stmts.len(), 2);
    assert_eq!(ast.stmts[0], StatementKind::Commit);
    assert_eq!(ast.stmts[1], StatementKind::Rollback);
}
