//! Playback positions shown as minutes and seconds.

use vstd::prelude::*;

verus! {

/// The decimal digits, by value.
pub open spec fn digit_chars() -> Seq<char> {
    seq!['0', '1', '2', '3', '4', '5', '6', '7', '8', '9']
}

/// The decimal text of `n`, without leading zeros.
pub open spec fn decimal(n: nat) -> Seq<char>
    decreases n,
{
    if n < 10 {
        seq![digit_chars()[n as int]]
    } else {
        decimal(n / 10).push(digit_chars()[(n % 10) as int])
    }
}

/// The text of `v` zero-padded to two characters, as the format `{:02}`
/// writes it: a sign counts toward the width, and longer numbers stay whole.
pub open spec fn padded2(v: int) -> Seq<char> {
    if v < 0 {
        seq!['-'] + decimal((-v) as nat)
    } else if v < 10 {
        seq!['0'] + decimal(v as nat)
    } else {
        decimal(v as nat)
    }
}

/// `MM:SS` for a count of seconds: whole minutes and the seconds left over,
/// both taken toward zero so that they share the sign of the count.
pub open spec fn clock_text(seconds: int) -> Seq<char> {
    let a = if seconds < 0 {
        -seconds
    } else {
        seconds
    };
    let sign = if seconds < 0 {
        -1int
    } else {
        1int
    };
    padded2(sign * (a / 60)) + seq![':'] + padded2(sign * (a % 60))
}

fn digit_text(d: u64) -> (r: &'static str)
    requires
        d < 10,
    ensures
        r@ == seq![digit_chars()[d as int]],
{
    proof {
        reveal_strlit("0");
        reveal_strlit("1");
        reveal_strlit("2");
        reveal_strlit("3");
        reveal_strlit("4");
        reveal_strlit("5");
        reveal_strlit("6");
        reveal_strlit("7");
        reveal_strlit("8");
        reveal_strlit("9");
    }
    if d == 0 {
        "0"
    } else if d == 1 {
        "1"
    } else if d == 2 {
        "2"
    } else if d == 3 {
        "3"
    } else if d == 4 {
        "4"
    } else if d == 5 {
        "5"
    } else if d == 6 {
        "6"
    } else if d == 7 {
        "7"
    } else if d == 8 {
        "8"
    } else {
        "9"
    }
}

fn push_decimal(out: &mut String, n: u64)
    ensures
        final(out)@ == old(out)@ + decimal(n as nat),
    decreases n,
{
    if n >= 10 {
        push_decimal(out, n / 10);
    }
    out.append(digit_text(n % 10));
    assert(final(out)@ == old(out)@ + decimal(n as nat));
}

fn push_padded(out: &mut String, magnitude: u64, negative: bool)
    ensures
        final(out)@ == old(out)@ + padded2(
            if negative {
                -magnitude
            } else {
                magnitude as int
            },
        ),
{
    proof {
        reveal_strlit("-");
        reveal_strlit("0");
    }
    if negative && magnitude > 0 {
        out.append("-");
    } else if magnitude < 10 {
        out.append("0");
    }
    push_decimal(out, magnitude);
}

/// Formats a count of seconds as `MM:SS`, each part padded to two digits.
pub fn format_seconds_to_hhmm(seconds: i64) -> (r: String)
    ensures
        r@ == clock_text(seconds as int),
{
    let negative = seconds < 0;
    let magnitude: u64 = if negative {
        (-(seconds + 1)) as u64 + 1
    } else {
        seconds as u64
    };
    let ghost sign: int = if negative {
        -1
    } else {
        1
    };
    let ghost minutes: int = if negative {
        -(magnitude / 60)
    } else {
        (magnitude / 60) as int
    };
    let ghost rest: int = if negative {
        -(magnitude % 60)
    } else {
        (magnitude % 60) as int
    };
    assert(sign * (magnitude / 60) == minutes && sign * (magnitude % 60) == rest);
    let mut out = String::new();
    push_padded(&mut out, magnitude / 60, negative);
    proof {
        reveal_strlit(":");
    }
    out.append(":");
    push_padded(&mut out, magnitude % 60, negative);
    assert(out@ =~= padded2(minutes) + seq![':'] + padded2(rest));
    out
}

} // verus!
