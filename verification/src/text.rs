//! Verified text for the diagnostic report: decimal rendering of counts and
//! error codes, and the summary line of the exhaustion experiment.

use vstd::prelude::*;
use vstd::string::StringExecFns;

use crate::limits::QueryError;
use crate::sys;

verus! {

/// The decimal digit character for a value below ten.
pub open spec fn dec_digit(d: nat) -> char {
    if d == 0 {
        '0'
    } else if d == 1 {
        '1'
    } else if d == 2 {
        '2'
    } else if d == 3 {
        '3'
    } else if d == 4 {
        '4'
    } else if d == 5 {
        '5'
    } else if d == 6 {
        '6'
    } else if d == 7 {
        '7'
    } else if d == 8 {
        '8'
    } else {
        '9'
    }
}

/// The decimal representation of a natural number, most significant digit
/// first, with no leading zeros (a single zero stands for zero itself).
pub open spec fn dec_rep(n: nat) -> Seq<char>
    decreases n,
{
    if n < 10 {
        seq![dec_digit(n)]
    } else {
        dec_rep(n / 10) + seq![dec_digit(n % 10)]
    }
}

/// The decimal representation of an integer: a minus sign before the digits
/// of the magnitude when the value is negative.
pub open spec fn dec_rep_signed(v: int) -> Seq<char> {
    if v < 0 {
        seq!['-'] + dec_rep((-v) as nat)
    } else {
        dec_rep(v as nat)
    }
}

fn dec_digit_str(d: u64) -> (s: &'static str)
    requires
        d < 10,
    ensures
        s@ == seq![dec_digit(d as nat)],
{
    let s: &'static str = match d {
        0 => "0",
        1 => "1",
        2 => "2",
        3 => "3",
        4 => "4",
        5 => "5",
        6 => "6",
        7 => "7",
        8 => "8",
        _ => "9",
    };
    proof {
        reveal_strlit("0");
        reveal_strlit("1");
        reveal_strlit("2");
        reveal_strlit("3");
        reveal_strlit("4");
        reveal_strlit("5");
        reveal_strlit("6");
        reveal_strlit("7");
        reveal_strlit("8");
        reveal_strlit("9");
        assert(s@ =~= seq![dec_digit(d as nat)]);
    }
    s
}

/// Render a count in decimal.
pub fn format_u64(n: u64) -> (s: String)
    ensures
        s@ == dec_rep(n as nat),
    decreases n,
{
    if n < 10 {
        dec_digit_str(n).to_owned()
    } else {
        let mut s = format_u64(n / 10);
        s.append(dec_digit_str(n % 10));
        proof {
            assert(s@ =~= dec_rep(n as nat));
        }
        s
    }
}

/// Render a count in decimal.
pub fn format_usize(n: usize) -> (s: String)
    ensures
        s@ == dec_rep(n as nat),
{
    format_u64(n as u64)
}

/// Render an error code in decimal, minus sign included when it is
/// negative.
pub fn format_i32(v: i32) -> (s: String)
    ensures
        s@ == dec_rep_signed(v as int),
{
    if v < 0 {
        let magnitude: i64 = -(v as i64);
        let mut s = "-".to_owned();
        s.append(format_u64(magnitude as u64).as_str());
        proof {
            reveal_strlit("-");
            assert("-"@ =~= seq!['-']);
            assert(s@ =~= dec_rep_signed(v as int));
        }
        s
    } else {
        format_u64(v as u64)
    }
}

/// The platform's description of an operating-system error code, exactly as
/// the outside lookup renders it: a fixed text per code.
pub uninterp spec fn errno_text(code: i32) -> Seq<char>;

/// Render the platform's description of an error code, ready to embed in a
/// report line.
pub fn errno_description(code: i32) -> (s: String)
    ensures
        s@ == errno_text(code),
{
    sys::errno_desc(code).to_owned()
}

/// The summary line of the expected exhaustion outcome, for a given number
/// of additional descriptors obtained.
pub open spec fn exhaustion_summary_rep(opened: nat) -> Seq<char> {
    "Opened "@ + dec_rep(opened) + " additional files, then failed"@
}

/// Build the summary line reporting how many additional descriptors were
/// obtained before the kernel refused.
pub fn exhaustion_summary(opened: usize) -> (s: String)
    ensures
        s@ == exhaustion_summary_rep(opened as nat),
{
    let mut s = "Opened ".to_owned();
    s.append(format_usize(opened).as_str());
    s.append(" additional files, then failed");
    proof {
        assert(s@ =~= exhaustion_summary_rep(opened as nat));
    }
    s
}

impl QueryError {
    /// What the error message of a query says, as a sequence of characters.
    pub open spec fn message_rep(self) -> Seq<char> {
        match self {
            QueryError::NoValue => "the interface did not return a value"@,
            QueryError::Sys(code) => errno_text(code) + " (errno "@ + dec_rep_signed(code as int)
                + ")"@,
        }
    }

    /// A human-readable description of the error, ready to embed in a
    /// report line.
    pub fn message(&self) -> (s: String)
        ensures
            s@ == self.message_rep(),
    {
        match self {
            QueryError::NoValue => "the interface did not return a value".to_owned(),
            QueryError::Sys(code) => {
                let mut s = errno_description(*code);
                s.append(" (errno ");
                s.append(format_i32(*code).as_str());
                s.append(")");
                proof {
                    assert(s@ =~= self.message_rep());
                }
                s
            },
        }
    }
}

} // verus!
