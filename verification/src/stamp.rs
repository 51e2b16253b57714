//! The stamp of a development build: when the running program's own file was last
//! changed. It parts the entries of one build from those of the next, where the version
//! of the compiler stays the same.

use vstd::prelude::*;
use vstd::string::*;

verus! {

/// When a file was last changed, in milliseconds from the start of 1970.
#[derive(Debug, Clone, Copy, PartialEq, Eq, Structural)]
pub enum Mtime {
    /// So long after the start of 1970.
    After(u128),
    /// So long before the start of 1970.
    Before(u128),
}

/// The character of a digit.
pub open spec fn digit(d: nat) -> char {
    (48 + d) as char
}

/// A number in decimal digits.
pub open spec fn decimal(n: nat) -> Seq<char>
    decreases n,
{
    if n < 10 {
        seq![digit(n)]
    } else {
        decimal(n / 10).push(digit(n % 10))
    }
}

/// The stamp for the time at which the program's file was last changed, or for a time
/// that could not be had: the milliseconds in decimal digits, behind an `m` where the
/// time lies before 1970, and `no-mtime` where there is none.
pub open spec fn stamp_of(mtime: Option<Mtime>) -> Seq<char> {
    match mtime {
        Some(Mtime::After(millis)) => decimal(millis as nat),
        Some(Mtime::Before(millis)) => seq!['m'] + decimal(millis as nat),
        None => seq!['n', 'o', '-', 'm', 't', 'i', 'm', 'e'],
    }
}

fn digit_text(d: u128) -> (text: &'static str)
    requires
        d < 10,
    ensures
        text@ == seq![digit(d as nat)],
{
    proof {
        reveal_strlit("0");
        reveal_strlit("1");
        reveal_strlit("2");
        reveal_strlit("3");
        reveal_strlit("4");
        reveal_strlit("5");
        reveal_strlit("6");
        reveal_strlit("7");
        reveal_strlit("8");
        reveal_strlit("9");
    }
    let text = if d == 0 {
        "0"
    } else if d == 1 {
        "1"
    } else if d == 2 {
        "2"
    } else if d == 3 {
        "3"
    } else if d == 4 {
        "4"
    } else if d == 5 {
        "5"
    } else if d == 6 {
        "6"
    } else if d == 7 {
        "7"
    } else if d == 8 {
        "8"
    } else {
        "9"
    };
    text
}

/// A number in decimal digits.
pub fn to_decimal(n: u128) -> (text: String)
    ensures
        text@ == decimal(n as nat),
{
    let mut text = String::from_str(digit_text(n % 10));
    let mut rest = n / 10;
    assert(decimal(n as nat) =~= if rest == 0 {
        text@
    } else {
        decimal(rest as nat) + text@
    });
    while rest > 0
        invariant
            decimal(n as nat) == if rest == 0 {
                text@
            } else {
                decimal(rest as nat) + text@
            },
        decreases rest,
    {
        let ghost shorter = text@;
        text = String::from_str(digit_text(rest % 10)).concat(text.as_str());
        assert(decimal(rest as nat) + shorter =~= if rest / 10 == 0 {
            text@
        } else {
            decimal((rest / 10) as nat) + text@
        });
        rest = rest / 10;
    }
    text
}

/// The stamp for the time at which the program's file was last changed.
pub fn self_mtime(mtime: Option<Mtime>) -> (stamp: String)
    ensures
        stamp@ == stamp_of(mtime),
{
    proof {
        reveal_strlit("m");
        reveal_strlit("no-mtime");
    }
    match mtime {
        Some(Mtime::After(millis)) => to_decimal(millis),
        Some(Mtime::Before(millis)) => {
            String::from_str("m").concat(to_decimal(millis).as_str())
        },
        None => {
            String::from_str("no-mtime")
        },
    }
}

} // verus!
