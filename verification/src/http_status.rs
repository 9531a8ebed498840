//! The typed error of HTTP-backed operations, so that callers can tell
//! transient failures from permanent ones without parsing messages.

use vstd::prelude::*;
use vstd::string::*;

verus! {

/// An HTTP request that failed with a non-success status.
#[derive(Debug, Clone, PartialEq)]
pub struct HttpStatusError {
    pub status: u16,
    pub body: String,
}

/// The character of the decimal digit `d`.
pub open spec fn digit_char(d: int) -> char {
    ('0' as int + d) as char
}

/// The decimal representation of `n`, without leading zeros.
pub open spec fn decimal(n: nat) -> Seq<char>
    decreases n,
{
    if n < 10 {
        seq![digit_char(n as int)]
    } else {
        decimal(n / 10).push(digit_char((n % 10) as int))
    }
}

fn digit_str(d: u16) -> (r: &'static str)
    requires
        d < 10,
    ensures
        r@ == seq![digit_char(d as int)],
{
    proof {
        reveal_strlit("0");
        reveal_strlit("1");
        reveal_strlit("2");
        reveal_strlit("3");
        reveal_strlit("4");
        reveal_strlit("5");
        reveal_strlit("6");
        reveal_strlit("7");
        reveal_strlit("8");
        reveal_strlit("9");
    }
    match d {
        0 => "0",
        1 => "1",
        2 => "2",
        3 => "3",
        4 => "4",
        5 => "5",
        6 => "6",
        7 => "7",
        8 => "8",
        _ => "9",
    }
}

/// Appends the decimal representation of `n` to `s`.
fn append_decimal(s: &mut String, n: u16)
    ensures
        final(s)@ == old(s)@ + decimal(n as nat),
    decreases n,
{
    if n >= 10 {
        append_decimal(s, n / 10);
    }
    let ghost before = s@;
    s.append(digit_str(n % 10));
    proof {
        if n >= 10 {
            assert(before + seq![digit_char((n % 10) as int)] =~= old(s)@ + decimal(n as nat));
        } else {
            assert(before == old(s)@);
        }
    }
}

impl HttpStatusError {
    /// Whether the failure calls for attention: request timeouts (408) and
    /// rate limiting (429) are transient, every other status is not.
    pub fn is_actionable(&self) -> (r: bool)
        ensures
            r == !(self.status == 408 || self.status == 429),
    {
        !(self.status == 408 || self.status == 429)
    }

    /// The error message.
    pub fn message(&self) -> (r: String)
        ensures
            r@ == "HTTP request failed with status "@ + decimal(self.status as nat) + ": "@
                + self.body@,
    {
        let mut m = String::from_str("HTTP request failed with status ");
        append_decimal(&mut m, self.status);
        m.append(": ");
        m.append(self.body.as_str());
        m
    }
}

} // verus!
