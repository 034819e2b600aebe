//! The text that a failed cycle is shown and logged with.

use vstd::prelude::*;

use crate::outcome::{ErrorInfo, ErrorView};

verus! {

pub open spec fn digit_chars() -> Seq<char> {
    seq!['0', '1', '2', '3', '4', '5', '6', '7', '8', '9']
}

/// The decimal digits of `n`, most significant first, with no leading zero.
pub open spec fn decimal(n: nat) -> Seq<char>
    decreases n,
{
    if n < 10 {
        seq![digit_chars()[n as int]]
    } else {
        decimal(n / 10).push(digit_chars()[(n % 10) as int])
    }
}

fn digit_text(d: u16) -> (r: &'static str)
    requires
        d < 10,
    ensures
        r@ == seq![digit_chars()[d as int]],
{
    proof {
        reveal_strlit("0");
        reveal_strlit("1");
        reveal_strlit("2");
        reveal_strlit("3");
        reveal_strlit("4");
        reveal_strlit("5");
        reveal_strlit("6");
        reveal_strlit("7");
        reveal_strlit("8");
        reveal_strlit("9");
    }
    let r = if d == 0 {
        "0"
    } else if d == 1 {
        "1"
    } else if d == 2 {
        "2"
    } else if d == 3 {
        "3"
    } else if d == 4 {
        "4"
    } else if d == 5 {
        "5"
    } else if d == 6 {
        "6"
    } else if d == 7 {
        "7"
    } else if d == 8 {
        "8"
    } else {
        "9"
    };
    assert(r@ =~= seq![digit_chars()[d as int]]);
    r
}

/// The decimal text of a status code.
pub fn decimal_text(n: u16) -> (r: String)
    ensures
        r@ == decimal(n as nat),
    decreases n,
{
    if n < 10 {
        digit_text(n).to_owned()
    } else {
        let mut s = decimal_text(n / 10);
        s.append(digit_text(n % 10));
        assert(s@ =~= decimal(n as nat));
        s
    }
}

pub const NETWORK_PREFIX: &'static str = "Network error: ";

pub const STATUS_PREFIX: &'static str = "Error response";

pub const PARSE_PREFIX: &'static str = "Failed to parse response: ";

/// How an error reads: its kind, then its detail; a status error names its
/// code, and its body where it could be read.
pub open spec fn describe_spec(e: ErrorView) -> Seq<char> {
    match e {
        ErrorView::Network(d) => NETWORK_PREFIX@ + d,
        ErrorView::HttpStatus(code, Some(b)) => STATUS_PREFIX@ + " ("@ + decimal(code as nat)
            + "): "@ + b,
        ErrorView::HttpStatus(code, None) => STATUS_PREFIX@ + ": "@ + decimal(code as nat),
        ErrorView::Parse(d) => PARSE_PREFIX@ + d,
    }
}

impl ErrorInfo {
    /// The text to show and log for this error.
    pub fn describe(&self) -> (r: String)
        ensures
            r@ == describe_spec(self@),
    {
        match self {
            ErrorInfo::Network(d) => NETWORK_PREFIX.to_owned().concat(d.as_str()),
            ErrorInfo::HttpStatus(code, Some(b)) => {
                let mut s = STATUS_PREFIX.to_owned();
                s.append(" (");
                s.append(decimal_text(*code).as_str());
                s.append("): ");
                s.append(b.as_str());
                s
            },
            ErrorInfo::HttpStatus(code, None) => {
                let mut s = STATUS_PREFIX.to_owned();
                s.append(": ");
                s.append(decimal_text(*code).as_str());
                s
            },
            ErrorInfo::Parse(d) => PARSE_PREFIX.to_owned().concat(d.as_str()),
        }
    }
}

} // verus!
