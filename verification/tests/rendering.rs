use sqlfront::parser::Parser;
use sqlfront::render::{decimal_string, process_request};

#[test]
fn test_decimal_string() {
    assert_eq!(decimal_string(0), "0");
    assert_eq!(decimal_string(7), "7");
    assert_eq!(decimal_string(10), "10");
    assert_eq!(decimal_string(120), "120");
    assert_eq!(decimal_string(6543), "6543");
}

#[test]
fn test_render_error() {
    let err = Parser::new(b"update ;").parse().unwrap_err();
    assert_eq!(err.render(), "ERROR[Position:7]: 'missing table name'");
}

#[test]
fn test_process_request_success() {
    let r = process_request(b"SELECT * from cats");
    assert_eq!(r.unwrap(), "SUCCESS");
    let r = process_request(b"commit work; rollback");
    assert_eq!(r.unwrap(), "SUCCESS");
}

#[test]
fn test_process_request_error() {
    let r = process_request(b"?");
    assert_eq!(r.unwrap_err(), "ERROR[Position:0]: 'unknown artifact'");
    let r = process_request(b"select * from");
    assert_eq!(r.unwrap_err(), "ERROR[Position:13]: 'Missing from clause'");
}
