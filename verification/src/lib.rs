//! The SQL front end of a small database server: a byte-level tokenizer and a
//! recursive-descent parser that turn one request buffer into a statement
//! tree, or into a structured error with a byte-accurate position.
//!
//! Every operation is specified against a mathematical model of the scan: the
//! lexer against [`lexer::token_at`], the parser against the `*_at` grammar
//! functions in [`parser`]. The network boundary that produces the request
//! buffer and renders responses lives outside this crate.

pub mod ascii;
pub mod token;
pub mod keywords;
pub mod lexer;
pub mod ast;
pub mod parser;
pub mod render;
pub mod laws;
