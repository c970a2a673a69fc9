use vstd::prelude::*;
use vstd::string::StringExecFns;

verus! {

/// The character of a decimal digit.
pub open spec fn digit_char(d: nat) -> char {
    if d == 0 {
        '0'
    } else if d == 1 {
        '1'
    } else if d == 2 {
        '2'
    } else if d == 3 {
        '3'
    } else if d == 4 {
        '4'
    } else if d == 5 {
        '5'
    } else if d == 6 {
        '6'
    } else if d == 7 {
        '7'
    } else if d == 8 {
        '8'
    } else {
        '9'
    }
}

/// The decimal digits of `n`, without leading zeros.
pub open spec fn decimal(n: nat) -> Seq<char>
    decreases n,
{
    if n < 10 {
        seq![digit_char(n)]
    } else {
        decimal(n / 10).push(digit_char(n % 10))
    }
}

/// `n` in decimal, with a leading zero below ten.
pub open spec fn two_digits(n: nat) -> Seq<char> {
    if n < 10 {
        seq!['0'] + decimal(n)
    } else {
        decimal(n)
    }
}

/// `n` in decimal, with leading zeros up to three digits.
pub open spec fn three_digits(n: nat) -> Seq<char> {
    if n < 10 {
        seq!['0', '0'] + decimal(n)
    } else if n < 100 {
        seq!['0'] + decimal(n)
    } else {
        decimal(n)
    }
}

/// Whole seconds in `ms` milliseconds, where a remainder of half a second or more
/// counts as one more second.
pub open spec fn rounded_seconds(ms: nat) -> nat {
    ms / 1000 + if ms % 1000 >= 500 {
        1nat
    } else {
        0nat
    }
}

/// `ms` rounded to seconds and shown as `H:MM:SS`, `M:SS` or `0:SS`, leaving out
/// the hours when they are zero and the minutes too when both are zero.
pub open spec fn rounded_text(ms: nat) -> Seq<char> {
    let total = rounded_seconds(ms);
    let hours = total / 3600;
    let minutes = (total % 3600) / 60;
    let seconds = total % 60;
    if hours > 0 {
        decimal(hours) + seq![':'] + two_digits(minutes) + seq![':'] + two_digits(seconds)
    } else if minutes > 0 {
        decimal(minutes) + seq![':'] + two_digits(seconds)
    } else {
        seq!['0', ':'] + two_digits(seconds)
    }
}

/// `ms` shown in full as `HH:MM:SS.mmm`, with no rounding.
pub open spec fn padded_text(ms: nat) -> Seq<char> {
    let hours = ms / 3_600_000;
    let minutes = (ms % 3_600_000) / 60_000;
    let seconds = (ms % 60_000) / 1000;
    let millis = ms % 1000;
    two_digits(hours) + seq![':'] + two_digits(minutes) + seq![':'] + two_digits(seconds) + seq![
        '.',
    ] + three_digits(millis)
}

fn push_digit(out: &mut String, d: u32)
    requires
        d < 10,
    ensures
        final(out)@ == old(out)@.push(digit_char(d as nat)),
{
    proof {
        reveal_strlit("0");
        reveal_strlit("1");
        reveal_strlit("2");
        reveal_strlit("3");
        reveal_strlit("4");
        reveal_strlit("5");
        reveal_strlit("6");
        reveal_strlit("7");
        reveal_strlit("8");
        reveal_strlit("9");
    }
    let text = if d == 0 {
        "0"
    } else if d == 1 {
        "1"
    } else if d == 2 {
        "2"
    } else if d == 3 {
        "3"
    } else if d == 4 {
        "4"
    } else if d == 5 {
        "5"
    } else if d == 6 {
        "6"
    } else if d == 7 {
        "7"
    } else if d == 8 {
        "8"
    } else {
        "9"
    };
    out.append(text);
    assert(out@ =~= old(out)@.push(digit_char(d as nat)));
}

fn push_decimal(out: &mut String, n: u32)
    ensures
        final(out)@ == old(out)@ + decimal(n as nat),
    decreases n,
{
    if n >= 10 {
        push_decimal(out, n / 10);
    }
    push_digit(out, n % 10);
    assert(out@ =~= old(out)@ + decimal(n as nat));
}

fn push_text(out: &mut String, text: &str)
    ensures
        final(out)@ == old(out)@ + text@,
{
    out.append(text);
}

fn push_two_digits(out: &mut String, n: u32)
    ensures
        final(out)@ == old(out)@ + two_digits(n as nat),
{
    proof {
        reveal_strlit("0");
    }
    if n < 10 {
        push_text(out, "0");
    }
    push_decimal(out, n);
    assert(out@ =~= old(out)@ + two_digits(n as nat));
}

fn push_three_digits(out: &mut String, n: u32)
    ensures
        final(out)@ == old(out)@ + three_digits(n as nat),
{
    proof {
        reveal_strlit("0");
        reveal_strlit("00");
    }
    if n < 10 {
        push_text(out, "00");
    } else if n < 100 {
        push_text(out, "0");
    }
    push_decimal(out, n);
    assert(out@ =~= old(out)@ + three_digits(n as nat));
}

/// Shows `time` milliseconds rounded to whole seconds, as `H:MM:SS`, `M:SS` or
/// `0:SS`.
pub fn calculate_time(time: u32) -> (r: String)
    ensures
        r@ == rounded_text(time as nat),
{
    proof {
        reveal_strlit(":");
        reveal_strlit("0");
    }
    let total: u32 = time / 1000 + if time % 1000 >= 500 {
        1
    } else {
        0
    };
    assert(total == rounded_seconds(time as nat));
    let hours: u32 = total / 3600;
    let minutes: u32 = (total % 3600) / 60;
    let seconds: u32 = total % 60;
    let mut out = String::new();
    if hours > 0 {
        push_decimal(&mut out, hours);
        push_text(&mut out, ":");
        push_two_digits(&mut out, minutes);
    } else if minutes > 0 {
        push_decimal(&mut out, minutes);
    } else {
        push_text(&mut out, "0");
    }
    push_text(&mut out, ":");
    push_two_digits(&mut out, seconds);
    assert(out@ =~= rounded_text(time as nat));
    out
}

/// Shows `time` milliseconds in full as `HH:MM:SS.mmm`, without rounding.
pub fn format_duration_padded(time: u32) -> (r: String)
    ensures
        r@ == padded_text(time as nat),
{
    proof {
        reveal_strlit(":");
        reveal_strlit(".");
    }
    let mut out = String::new();
    push_two_digits(&mut out, time / 3_600_000);
    push_text(&mut out, ":");
    push_two_digits(&mut out, (time % 3_600_000) / 60_000);
    push_text(&mut out, ":");
    push_two_digits(&mut out, (time % 60_000) / 1000);
    push_text(&mut out, ".");
    push_three_digits(&mut out, time % 1000);
    assert(out@ =~= padded_text(time as nat));
    out
}

} // verus!
