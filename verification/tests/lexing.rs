use sqlfront::keywords::{match_data, match_kw};
use sqlfront::lexer::Lexer;
use sqlfront::token::{
    CommentKind, KeywordKind, LineTerminatorKind, LiteralKind, PuncKind, TokenKind, WhitespaceKind,
};

#[test]
fn test_punc() {
    let mut l = Lexer::new(b",:;(][)");

    assert_eq!(TokenKind::Punc(PuncKind::Comma), l.next().unwrap().kind);
    assert_eq!(TokenKind::Punc(PuncKind::Colon), l.next().unwrap().kind);
    assert_eq!(TokenKind::Punc(PuncKind::SemiColon), l.next().unwrap().kind);
    assert_eq!(TokenKind::Punc(PuncKind::LParen), l.next().unwrap().kind);
    assert_eq!(TokenKind::Punc(PuncKind::RBracket), l.next().unwrap().kind);
    assert_eq!(TokenKind::Punc(PuncKind::LBracket), l.next().unwrap().kind);
    assert_eq!(TokenKind::Punc(PuncKind::RParen), l.next().unwrap().kind);
    assert_eq!(TokenKind::Eof, l.next().unwrap().kind);
}

#[test]
fn test_kw() {
    let input = b"select weight from dog;";
    let mut l = Lexer::new(input);

    assert_eq!(TokenKind::Keyword(KeywordKind::Select), l.next().unwrap().kind);
    assert_eq!(TokenKind::Whitespace(WhitespaceKind::Space), l.next().unwrap().kind);
    let t = l.next().unwrap();
    match t.kind {
        TokenKind::Identifier(sp) => {
            assert_eq!(&input[sp.start..sp.start + sp.len], b"weight");
            assert_eq!(sp.start, t.pos);
        }
        other => panic!("expected an identifier, got {:?}", other),
    }
    assert_eq!(TokenKind::Whitespace(WhitespaceKind::Space), l.next().unwrap().kind);
    assert_eq!(TokenKind::Keyword(KeywordKind::From), l.next().unwrap().kind);
    assert_eq!(TokenKind::Whitespace(WhitespaceKind::Space), l.next().unwrap().kind);
    let t = l.next().unwrap();
    match t.kind {
        TokenKind::Identifier(sp) => {
            assert_eq!(&input[sp.start..sp.start + sp.len], b"dog");
            assert_eq!(sp.start, t.pos);
        }
        other => panic!("expected an identifier, got {:?}", other),
    }
    assert_eq!(TokenKind::Punc(PuncKind::SemiColon), l.next().unwrap().kind);
    assert_eq!(TokenKind::Eof, l.next().unwrap().kind);
}

#[test]
fn test_string_literal() {
    let input = b"UPDATE dog SET color = 'golden' WHERE breed = 'golden retriever';";
    let mut l = Lexer::new(input);

    assert_eq!(TokenKind::Keyword(KeywordKind::Update), l.next().unwrap().kind);
    assert_eq!(TokenKind::Whitespace(WhitespaceKind::Space), l.next().unwrap().kind);
    match l.next().unwrap().kind {
        TokenKind::Identifier(sp) => assert_eq!(&input[sp.start..sp.start + sp.len], b"dog"),
        other => panic!("expected an identifier, got {:?}", other),
    }
    assert_eq!(TokenKind::Whitespace(WhitespaceKind::Space), l.next().unwrap().kind);
    assert_eq!(TokenKind::Keyword(KeywordKind::SetKw), l.next().unwrap().kind);
    assert_eq!(TokenKind::Whitespace(WhitespaceKind::Space), l.next().unwrap().kind);
    match l.next().unwrap().kind {
        TokenKind::Identifier(sp) => assert_eq!(&input[sp.start..sp.start + sp.len], b"color"),
        other => panic!("expected an identifier, got {:?}", other),
    }
    assert_eq!(TokenKind::Whitespace(WhitespaceKind::Space), l.next().unwrap().kind);
    assert_eq!(TokenKind::Punc(PuncKind::Equal), l.next().unwrap().kind);
    assert_eq!(TokenKind::Whitespace(WhitespaceKind::Space), l.next().unwrap().kind);
    match l.next().unwrap().kind {
        TokenKind::Literal(LiteralKind::String(sp)) => {
            assert_eq!(&input[sp.start..sp.start + sp.len], b"golden");
        }
        other => panic!("expected a string literal, got {:?}", other),
    }
    assert_eq!(TokenKind::Whitespace(WhitespaceKind::Space), l.next().unwrap().kind);
    assert_eq!(TokenKind::Keyword(KeywordKind::Where), l.next().unwrap().kind);
    assert_eq!(TokenKind::Whitespace(WhitespaceKind::Space), l.next().unwrap().kind);
    match l.next().unwrap().kind {
        TokenKind::Identifier(sp) => assert_eq!(&input[sp.start..sp.start + sp.len], b"breed"),
        other => panic!("expected an identifier, got {:?}", other),
    }
    assert_eq!(TokenKind::Whitespace(WhitespaceKind::Space), l.next().unwrap().kind);
    assert_eq!(TokenKind::Punc(PuncKind::Equal), l.next().unwrap().kind);
    assert_eq!(TokenKind::Whitespace(WhitespaceKind::Space), l.next().unwrap().kind);
    match l.next().unwrap().kind {
        TokenKind::Literal(LiteralKind::String(sp)) => {
            assert_eq!(&input[sp.start..sp.start + sp.len], b"golden retriever");
        }
        other => panic!("expected a string literal, got {:?}", other),
    }
    assert_eq!(TokenKind::Punc(PuncKind::SemiColon), l.next().unwrap().kind);
    assert_eq!(TokenKind::Eof, l.next().unwrap().kind);
}

#[test]
fn test_blank_buffer_lexes_to_eof() {
    let input = b" \t\r\n \t";
    let mut l = Lexer::new(input);
    let t = l.next_real().unwrap();
    assert_eq!(t.kind, TokenKind::Eof);
    assert_eq!(t.pos, input.len());

    let mut raw = Lexer::new(input);
    assert_eq!(TokenKind::Whitespace(WhitespaceKind::Space), raw.next().unwrap().kind);
    assert_eq!(TokenKind::Whitespace(WhitespaceKind::HorizontalTab), raw.next().unwrap().kind);
    assert_eq!(TokenKind::LineTerminator(LineTerminatorKind::CarridgeReturn), raw.next().unwrap().kind);
    assert_eq!(TokenKind::LineTerminator(LineTerminatorKind::LineFeed), raw.next().unwrap().kind);
    assert_eq!(TokenKind::Whitespace(WhitespaceKind::Space), raw.next().unwrap().kind);
    assert_eq!(TokenKind::Whitespace(WhitespaceKind::HorizontalTab), raw.next().unwrap().kind);
    assert_eq!(TokenKind::Eof, raw.next().unwrap().kind);
    // Idempotent at end of input: Eof again, at the same offset.
    let t = raw.next().unwrap();
    assert_eq!(t.kind, TokenKind::Eof);
    assert_eq!(t.pos, input.len());
}

#[test]
fn test_keyword_case_insensitive() {
    for input in [&b"SELECT"[..], &b"select"[..], &b"SeLeCt"[..]] {
        let mut l = Lexer::new(input);
        assert_eq!(TokenKind::Keyword(KeywordKind::Select), l.next().unwrap().kind);
    }
    assert_eq!(match_kw(b"SELECT"), Some(KeywordKind::Select));
    assert_eq!(match_kw(b"select"), Some(KeywordKind::Select));
    assert_eq!(match_kw(b"SeLeCt"), Some(KeywordKind::Select));
    assert_eq!(match_kw(b"selects"), None);
    assert_eq!(match_kw(b"sel"), None);
}

#[test]
fn test_keyword_never_identifier() {
    // A sample across the table: each reserved spelling lexes to a keyword,
    // never to an identifier.
    let cases: [(&[u8], KeywordKind); 6] = [
        (b"from", KeywordKind::From),
        (b"WHERE", KeywordKind::Where),
        (b"Join", KeywordKind::Join),
        (b"work", KeywordKind::Work),
        (b"grant", KeywordKind::Grant),
        (b"rollback", KeywordKind::Rollback),
    ];
    for (input, kw) in cases {
        let mut l = Lexer::new(input);
        assert_eq!(TokenKind::Keyword(kw), l.next().unwrap().kind);
    }
}

#[test]
fn test_match_data_is_empty() {
    assert_eq!(match_data(b"integer"), None);
    assert_eq!(match_data(b"varchar"), None);
}

#[test]
fn test_doubled_quote_string() {
    // Doubled-quote escaping is not supported: the literal ends at the
    // second quote and the rest lexes as further tokens.
    let input = b"'it''s'";
    let mut l = Lexer::new(input);
    let t = l.next().unwrap();
    match t.kind {
        TokenKind::Literal(LiteralKind::String(sp)) => {
            assert_eq!(&input[sp.start..sp.start + sp.len], b"it");
        }
        other => panic!("expected a string literal, got {:?}", other),
    }
    assert_eq!(t.pos, 0);
    let t = l.next().unwrap();
    match t.kind {
        TokenKind::Literal(LiteralKind::String(sp)) => {
            assert_eq!(&input[sp.start..sp.start + sp.len], b"s");
        }
        other => panic!("expected a string literal, got {:?}", other),
    }
    assert_eq!(t.pos, 4);
    assert_eq!(TokenKind::Eof, l.next().unwrap().kind);
}

#[test]
fn test_escaped_quote_string() {
    // A quote preceded by a backslash does not terminate the literal, and
    // the stored bytes keep the escape sequence as written.
    let input = b"'a\\'b'";
    let mut l = Lexer::new(input);
    match l.next().unwrap().kind {
        TokenKind::Literal(LiteralKind::String(sp)) => {
            assert_eq!(&input[sp.start..sp.start + sp.len], b"a\\'b");
        }
        other => panic!("expected a string literal, got {:?}", other),
    }
    assert_eq!(TokenKind::Eof, l.next().unwrap().kind);
}

#[test]
fn test_identifier_span_round_trip() {
    let input = b"alpha  beta;";
    let mut l = Lexer::new(input);
    let t = l.next_real().unwrap();
    match t.kind {
        TokenKind::Identifier(sp) => {
            assert_eq!(sp.start, t.pos);
            assert_eq!(&input[sp.start..sp.start + sp.len], b"alpha");
        }
        other => panic!("expected an identifier, got {:?}", other),
    }
    let t = l.next_real().unwrap();
    match t.kind {
        TokenKind::Identifier(sp) => {
            assert_eq!(sp.start, t.pos);
            assert_eq!(&input[sp.start..sp.start + sp.len], b"beta");
        }
        other => panic!("expected an identifier, got {:?}", other),
    }
}

#[test]
fn test_numeric_literal() {
    let input = b"12.5 7";
    let mut l = Lexer::new(input);
    let t = l.next().unwrap();
    match t.kind {
        TokenKind::Literal(LiteralKind::Numeric(sp)) => {
            assert_eq!(&input[sp.start..sp.start + sp.len], b"12.5");
        }
        other => panic!("expected a numeric literal, got {:?}", other),
    }
    assert_eq!(t.pos, 0);
    assert_eq!(TokenKind::Whitespace(WhitespaceKind::Space), l.next().unwrap().kind);
    match l.next().unwrap().kind {
        TokenKind::Literal(LiteralKind::Numeric(sp)) => {
            assert_eq!(&input[sp.start..sp.start + sp.len], b"7");
        }
        other => panic!("expected a numeric literal, got {:?}", other),
    }
    assert_eq!(TokenKind::Eof, l.next().unwrap().kind);
}

#[test]
fn test_malformed_numeric() {
    let mut l = Lexer::new(b"12.");
    let err = l.next().unwrap_err();
    assert_eq!(err.message, "malformed numeric literal");
    assert_eq!(err.pos, 0);
}

#[test]
fn test_unterminated_string() {
    let mut l = Lexer::new(b"'abc");
    let err = l.next().unwrap_err();
    assert_eq!(err.message, "unterminated string literal");
    assert_eq!(err.pos, 0);
}

#[test]
fn test_unknown_artifact() {
    let mut l = Lexer::new(b"select ?");
    assert_eq!(TokenKind::Keyword(KeywordKind::Select), l.next().unwrap().kind);
    assert_eq!(TokenKind::Whitespace(WhitespaceKind::Space), l.next().unwrap().kind);
    let err = l.next().unwrap_err();
    assert_eq!(err.message, "unknown artifact");
    assert_eq!(err.pos, 7);
}

#[test]
fn test_comments() {
    let input = b"-- hi\nfrom /* x */ where";
    let mut l = Lexer::new(input);
    let t = l.next().unwrap();
    match t.kind {
        TokenKind::Comment(CommentKind::Single(sp)) => {
            assert_eq!(&input[sp.start..sp.start + sp.len], b" hi");
        }
        other => panic!("expected a comment, got {:?}", other),
    }
    assert_eq!(t.pos, 0);
    assert_eq!(TokenKind::LineTerminator(LineTerminatorKind::LineFeed), l.next().unwrap().kind);
    assert_eq!(TokenKind::Keyword(KeywordKind::From), l.next().unwrap().kind);
    assert_eq!(TokenKind::Whitespace(WhitespaceKind::Space), l.next().unwrap().kind);
    match l.next().unwrap().kind {
        TokenKind::Comment(CommentKind::Multi(sp)) => {
            assert_eq!(&input[sp.start..sp.start + sp.len], b" x ");
        }
        other => panic!("expected a comment, got {:?}", other),
    }
    assert_eq!(TokenKind::Whitespace(WhitespaceKind::Space), l.next().unwrap().kind);
    assert_eq!(TokenKind::Keyword(KeywordKind::Where), l.next().unwrap().kind);
    assert_eq!(TokenKind::Eof, l.next().unwrap().kind);
}

#[test]
fn test_unterminated_block_comment() {
    let mut l = Lexer::new(b"/* x");
    let err = l.next().unwrap_err();
    assert_eq!(err.message, "unterminated block comment");
    assert_eq!(err.pos, 0);
}

#[test]
fn test_punctuation_is_one_byte() {
    // The punctuation table is one byte to one kind: an operator byte never
    // combines with the byte after it into a compound token.
    let mut l = Lexer::new(b"*=<><=>=");
    assert_eq!(TokenKind::Punc(PuncKind::Star), l.next().unwrap().kind);
    assert_eq!(TokenKind::Punc(PuncKind::Equal), l.next().unwrap().kind);
    assert_eq!(TokenKind::Punc(PuncKind::LessThan), l.next().unwrap().kind);
    assert_eq!(TokenKind::Punc(PuncKind::GreaterThan), l.next().unwrap().kind);
    assert_eq!(TokenKind::Punc(PuncKind::LessThan), l.next().unwrap().kind);
    assert_eq!(TokenKind::Punc(PuncKind::Equal), l.next().unwrap().kind);
    assert_eq!(TokenKind::Punc(PuncKind::GreaterThan), l.next().unwrap().kind);
    assert_eq!(TokenKind::Punc(PuncKind::Equal), l.next().unwrap().kind);
    assert_eq!(TokenKind::Eof, l.next().unwrap().kind);

    let mut l = Lexer::new(b"+=-=");
    assert_eq!(TokenKind::Punc(PuncKind::Add), l.next().unwrap().kind);
    assert_eq!(TokenKind::Punc(PuncKind::Equal), l.next().unwrap().kind);
    assert_eq!(TokenKind::Punc(PuncKind::Subtract), l.next().unwrap().kind);
    assert_eq!(TokenKind::Punc(PuncKind::Equal), l.next().unwrap().kind);
    assert_eq!(TokenKind::Eof, l.next().unwrap().kind);

    let mut l = Lexer::new(b"< > + - * / % & | ^ = .");
    assert_eq!(TokenKind::Punc(PuncKind::LessThan), l.next_real().unwrap().kind);
    assert_eq!(TokenKind::Punc(PuncKind::GreaterThan), l.next_real().unwrap().kind);
    assert_eq!(TokenKind::Punc(PuncKind::Add), l.next_real().unwrap().kind);
    assert_eq!(TokenKind::Punc(PuncKind::Subtract), l.next_real().unwrap().kind);
    assert_eq!(TokenKind::Punc(PuncKind::Star), l.next_real().unwrap().kind);
    assert_eq!(TokenKind::Punc(PuncKind::Divide), l.next_real().unwrap().kind);
    assert_eq!(TokenKind::Punc(PuncKind::Modulo), l.next_real().unwrap().kind);
    assert_eq!(TokenKind::Punc(PuncKind::BitwiseAnd), l.next_real().unwrap().kind);
    assert_eq!(TokenKind::Punc(PuncKind::BitwiseOr), l.next_real().unwrap().kind);
    assert_eq!(TokenKind::Punc(PuncKind::BitwiseXor), l.next_real().unwrap().kind);
    assert_eq!(TokenKind::Punc(PuncKind::Equal), l.next_real().unwrap().kind);
    assert_eq!(TokenKind::Punc(PuncKind::Period), l.next_real().unwrap().kind);
    assert_eq!(TokenKind::Eof, l.next_real().unwrap().kind);
}

#[test]
fn test_peek_never_moves() {
    let input = b"  select";
    let l = Lexer::new(input);
    let t1 = l.peek().unwrap();
    let t2 = l.peek().unwrap();
    let t3 = l.peek().unwrap();
    assert_eq!(t1, t2);
    assert_eq!(t2, t3);
    assert_eq!(t1.kind, TokenKind::Whitespace(WhitespaceKind::Space));
    assert_eq!(l.position(), 0);
    let r1 = l.peek_real().unwrap();
    let r2 = l.peek_real().unwrap();
    assert_eq!(r1, r2);
    assert_eq!(r1.kind, TokenKind::Keyword(KeywordKind::Select));
    assert_eq!(l.position(), 0);
}

#[test]
fn test_expect() {
    let mut l = Lexer::new(b"select x");
    assert!(l.expect(TokenKind::Keyword(KeywordKind::Select)).is_ok());
    assert_eq!(l.position(), 6);
    // The next real token is the identifier at offset 7, not a comma: the
    // failure reports the found token's kind and position.
    let err = l.expect(TokenKind::Punc(PuncKind::Comma)).unwrap_err();
    assert_eq!(err.message, "Unexpected token: identifier");
    assert_eq!(err.pos, 7);

    let mut l = Lexer::new(b"select x");
    assert!(l.expect(TokenKind::Keyword(KeywordKind::Select)).is_ok());
}

#[test]
fn test_eat() {
    let mut l = Lexer::new(b"work ;");
    assert!(l.eat(TokenKind::Keyword(KeywordKind::Work)));
    assert_eq!(l.position(), 4);
    // A mismatch leaves the cursor exactly where it was.
    assert!(!l.eat(TokenKind::Keyword(KeywordKind::Work)));
    assert_eq!(l.position(), 4);
    assert!(l.eat(TokenKind::Punc(PuncKind::SemiColon)));
    assert_eq!(l.position(), 6);
}
