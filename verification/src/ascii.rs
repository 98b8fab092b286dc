//! Byte-level character classes for the lexer.
//!
//! The lexer works directly on the request buffer's bytes, so the few ASCII
//! facts it needs are stated here once: letter and digit ranges, lower-casing,
//! and named constants for the bytes the grammar treats specially.

use vstd::prelude::*;

verus! {

// Lower-case letters, by their ASCII values.
pub const A: u8 = 97;
pub const B: u8 = 98;
pub const C: u8 = 99;
pub const D: u8 = 100;
pub const E: u8 = 101;
pub const F: u8 = 102;
pub const G: u8 = 103;
pub const H: u8 = 104;
pub const I: u8 = 105;
pub const J: u8 = 106;
pub const K: u8 = 107;
pub const L: u8 = 108;
pub const M: u8 = 109;
pub const N: u8 = 110;
pub const O: u8 = 111;
pub const P: u8 = 112;
pub const Q: u8 = 113;
pub const R: u8 = 114;
pub const S: u8 = 115;
pub const T: u8 = 116;
pub const U: u8 = 117;
pub const V: u8 = 118;
pub const W: u8 = 119;
pub const X: u8 = 120;
pub const Y: u8 = 121;
pub const Z: u8 = 122;

// The upper-case letter range.
pub const UP_A: u8 = 65;
pub const UP_Z: u8 = 90;

// Digits.
pub const ZERO: u8 = 48;
pub const NINE: u8 = 57;

// Whitespace and line terminators.
pub const SP: u8 = 32;
pub const HT: u8 = 9;
pub const LF: u8 = 10;
pub const CR: u8 = 13;

// Quoting.
pub const SQUOTE: u8 = 39;
pub const BSLASH: u8 = 92;

// Punctuation bytes.
pub const LPAREN: u8 = 40;
pub const RPAREN: u8 = 41;
pub const LBRACK: u8 = 91;
pub const RBRACK: u8 = 93;
pub const COMMA: u8 = 44;
pub const SEMI: u8 = 59;
pub const COLON: u8 = 58;
pub const STAR: u8 = 42;
pub const DOT: u8 = 46;
pub const PLUS: u8 = 43;
pub const MINUS: u8 = 45;
pub const SLASH: u8 = 47;
pub const LT: u8 = 60;
pub const GT: u8 = 62;
pub const EQ: u8 = 61;
pub const PERCENT: u8 = 37;
pub const AMP: u8 = 38;
pub const PIPE: u8 = 124;
pub const CARET: u8 = 94;

/// An ASCII letter, either case.
pub open spec fn is_alpha(b: u8) -> bool {
    (A <= b && b <= Z) || (UP_A <= b && b <= UP_Z)
}

/// An ASCII decimal digit.
pub open spec fn is_digit(b: u8) -> bool {
    ZERO <= b && b <= NINE
}

/// The lower-case form of a byte; bytes outside the upper-case letter range
/// are unchanged.
pub open spec fn lower(b: u8) -> u8 {
    if UP_A <= b && b <= UP_Z {
        (b + 32) as u8
    } else {
        b
    }
}

/// A byte sequence lower-cased byte by byte.
pub open spec fn lower_all(s: Seq<u8>) -> Seq<u8> {
    s.map_values(|b: u8| lower(b))
}

pub fn byte_is_alpha(b: u8) -> (r: bool)
    ensures
        r == is_alpha(b),
{
    (A <= b && b <= Z) || (UP_A <= b && b <= UP_Z)
}

pub fn byte_is_digit(b: u8) -> (r: bool)
    ensures
        r == is_digit(b),
{
    ZERO <= b && b <= NINE
}

pub fn byte_lower(b: u8) -> (r: u8)
    ensures
        r == lower(b),
{
    if UP_A <= b && b <= UP_Z {
        b + 32
    } else {
        b
    }
}

/// Lower-casing twice is the same as lower-casing once.
pub proof fn lemma_lower_idempotent(s: Seq<u8>)
    ensures
        lower_all(lower_all(s)) == lower_all(s),
{
    assert(lower_all(lower_all(s)) =~= lower_all(s));
}

} // verus!
