//! The informational report lines, rendered by a verified decimal formatter.

use vstd::prelude::*;
use vstd::string::StringExecFns;

verus! {

/// The decimal digit character for a value below ten.
pub open spec fn digit_char(d: nat) -> char {
    if d == 0 {
        '0'
    } else if d == 1 {
        '1'
    } else if d == 2 {
        '2'
    } else if d == 3 {
        '3'
    } else if d == 4 {
        '4'
    } else if d == 5 {
        '5'
    } else if d == 6 {
        '6'
    } else if d == 7 {
        '7'
    } else if d == 8 {
        '8'
    } else {
        '9'
    }
}

/// The decimal rendering of an unsigned number: most significant digit
/// first, and no leading zero but for the number zero itself.
pub open spec fn decimal_digits(n: nat) -> Seq<char>
    decreases n,
{
    if n < 10 {
        seq![digit_char(n)]
    } else {
        decimal_digits(n / 10) + seq![digit_char(n % 10)]
    }
}

/// The decimal rendering of a signed number: a minus sign before the digits
/// of the magnitude where it is negative.
pub open spec fn signed_decimal(v: int) -> Seq<char> {
    if v < 0 {
        seq!['-'] + decimal_digits((-v) as nat)
    } else {
        decimal_digits(v as nat)
    }
}

/// One decimal digit, as a string slice.
fn digit_str(d: u64) -> (r: &'static str)
    requires
        d < 10,
    ensures
        r@ == seq![digit_char(d as nat)],
{
    proof {
        reveal_strlit("0");
        reveal_strlit("1");
        reveal_strlit("2");
        reveal_strlit("3");
        reveal_strlit("4");
        reveal_strlit("5");
        reveal_strlit("6");
        reveal_strlit("7");
        reveal_strlit("8");
        reveal_strlit("9");
    }
    let r = match d {
        0 => "0",
        1 => "1",
        2 => "2",
        3 => "3",
        4 => "4",
        5 => "5",
        6 => "6",
        7 => "7",
        8 => "8",
        _ => "9",
    };
    proof {
        assert(r@ =~= seq![digit_char(d as nat)]);
    }
    r
}

/// Renders an unsigned number in decimal, exactly as [`decimal_digits`]
/// says.
pub fn format_u64(n: u64) -> (s: String)
    ensures
        s@ == decimal_digits(n as nat),
    decreases n,
{
    if n < 10 {
        let s = digit_str(n).to_owned();
        proof {
            assert(s@ =~= decimal_digits(n as nat));
        }
        s
    } else {
        let mut s = format_u64(n / 10);
        s.append(digit_str(n % 10));
        proof {
            assert(s@ =~= decimal_digits(n as nat));
        }
        s
    }
}

/// Renders a signed status value in decimal, exactly as [`signed_decimal`]
/// says.
pub fn format_i32(v: i32) -> (s: String)
    ensures
        s@ == signed_decimal(v as int),
{
    if v >= 0 {
        format_u64(v as u64)
    } else {
        proof {
            reveal_strlit("-");
        }
        let mut s = String::from_str("-");
        let magnitude: i64 = -(v as i64);
        s.append(format_u64(magnitude as u64).as_str());
        proof {
            assert(s@ =~= signed_decimal(v as int));
        }
        s
    }
}

/// What the line reporting the child's own exit says of a status: the fixed
/// prefix, then the status in decimal.
pub open spec fn exit_report_spec(status: i32) -> Seq<char> {
    "Child exited with status: "@ + signed_decimal(status as int)
}

/// The informational line reporting that the child exited on its own.
pub fn exit_report_line(status: i32) -> (s: String)
    ensures
        s@ == exit_report_spec(status),
{
    let mut s = String::from_str("Child exited with status: ");
    let digits = format_i32(status);
    s.append(digits.as_str());
    s
}

/// What the line reporting the trigger says of a threshold: free memory fell
/// below this many gigabytes, and the child is being interrupted.
pub open spec fn trigger_report_spec(threshold_gb: u64) -> Seq<char> {
    "Free memory below "@ + decimal_digits(threshold_gb as nat)
        + " GB. Sending SIGINT to the child"@
}

/// The informational line reporting that the threshold triggered.
pub fn trigger_report_line(threshold_gb: u64) -> (s: String)
    ensures
        s@ == trigger_report_spec(threshold_gb),
{
    let mut s = String::from_str("Free memory below ");
    let digits = format_u64(threshold_gb);
    s.append(digits.as_str());
    s.append(" GB. Sending SIGINT to the child");
    s
}

} // verus!
