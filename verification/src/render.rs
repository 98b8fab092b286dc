//! The boundary texts: the success marker, the two error renderings, and
//! the decimal formatting they need, all pinned down to the exact character
//! sequence.

use vstd::prelude::*;

use crate::parser::{stmts_at, ParseError, Parser};

verus! {

/// The decimal digit characters.
pub open spec fn digit_char(d: nat) -> char {
    if d == 0 {
        '0'
    } else if d == 1 {
        '1'
    } else if d == 2 {
        '2'
    } else if d == 3 {
        '3'
    } else if d == 4 {
        '4'
    } else if d == 5 {
        '5'
    } else if d == 6 {
        '6'
    } else if d == 7 {
        '7'
    } else if d == 8 {
        '8'
    } else {
        '9'
    }
}

/// The usual decimal rendering of a number, most significant digit first,
/// without leading zeroes (except for the number zero itself).
pub open spec fn dec_str(n: nat) -> Seq<char>
    decreases n,
{
    if n < 10 {
        seq![digit_char(n)]
    } else {
        dec_str(n / 10).push(digit_char(n % 10))
    }
}

fn digit_str(d: usize) -> (r: &'static str)
    requires
        d < 10,
    ensures
        r@ == seq![digit_char(d as nat)],
{
    if d == 0 {
        proof {
            reveal_strlit("0");
            assert("0"@ =~= seq![digit_char(0)]);
        }
        "0"
    } else if d == 1 {
        proof {
            reveal_strlit("1");
            assert("1"@ =~= seq![digit_char(1)]);
        }
        "1"
    } else if d == 2 {
        proof {
            reveal_strlit("2");
            assert("2"@ =~= seq![digit_char(2)]);
        }
        "2"
    } else if d == 3 {
        proof {
            reveal_strlit("3");
            assert("3"@ =~= seq![digit_char(3)]);
        }
        "3"
    } else if d == 4 {
        proof {
            reveal_strlit("4");
            assert("4"@ =~= seq![digit_char(4)]);
        }
        "4"
    } else if d == 5 {
        proof {
            reveal_strlit("5");
            assert("5"@ =~= seq![digit_char(5)]);
        }
        "5"
    } else if d == 6 {
        proof {
            reveal_strlit("6");
            assert("6"@ =~= seq![digit_char(6)]);
        }
        "6"
    } else if d == 7 {
        proof {
            reveal_strlit("7");
            assert("7"@ =~= seq![digit_char(7)]);
        }
        "7"
    } else if d == 8 {
        proof {
            reveal_strlit("8");
            assert("8"@ =~= seq![digit_char(8)]);
        }
        "8"
    } else {
        proof {
            reveal_strlit("9");
            assert("9"@ =~= seq![digit_char(9)]);
        }
        "9"
    }
}

/// Renders a number in decimal.
pub fn decimal_string(n: usize) -> (s: String)
    ensures
        s@ == dec_str(n as nat),
    decreases n,
{
    if n < 10 {
        digit_str(n).to_owned()
    } else {
        let mut s = decimal_string(n / 10);
        s.append(digit_str(n % 10));
        proof {
            assert(dec_str((n as nat) / 10).push(digit_char((n as nat) % 10)) =~= dec_str(
                (n as nat) / 10,
            ) + seq![digit_char((n as nat) % 10)]);
        }
        s
    }
}

impl ParseError {
    /// The wire rendering other components rely on:
    /// `ERROR[Position:<pos>]: '<message>'`.
    pub fn render(&self) -> (s: String)
        ensures
            s@ == "ERROR[Position:"@ + dec_str(self.pos as nat) + "]: '"@ + self.message@ + "'"@,
    {
        let mut s = "ERROR[Position:".to_owned();
        s.append(decimal_string(self.pos).as_str());
        s.append("]: '");
        s.append(self.message.as_str());
        s.append("'");
        s
    }
}

/// Parses one request buffer and renders the outcome: bare success as the
/// literal `SUCCESS`, a failure in the wire rendering of
/// [`ParseError::render`]. The statement tree itself is the parser's to
/// give; this boundary call only says whether there was one.
pub fn process_request(payload: &[u8]) -> (r: Result<String, String>)
    ensures
        match stmts_at(payload@, 0) {
            Ok(_) => r matches Ok(s) && s@ == "SUCCESS"@,
            Err(f) => r matches Err(s) && s@ == "ERROR[Position:"@ + dec_str(f.pos as nat)
                + "]: '"@ + f.msg + "'"@,
        },
{
    let mut parser = Parser::new(payload);
    match parser.parse() {
        Ok(_ast) => Ok("SUCCESS".to_owned()),
        Err(err) => Err(err.render()),
    }
}

} // verus!
