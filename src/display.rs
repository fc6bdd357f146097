use crate::clock::duration_nanos;
use vstd::prelude::*;

verus! {

/// Nanoseconds in one second.
pub const NANOS_PER_SEC: u128 = 1_000_000_000;

/// Nanoseconds in one millisecond.
pub const NANOS_PER_MILLI: u128 = 1_000_000;

/// Nanoseconds in one microsecond.
pub const NANOS_PER_MICRO: u128 = 1_000;

/// The decimal digit character for `d < 10`.
pub open spec fn digit_char(d: nat) -> char {
    if d == 0 {
        '0'
    } else if d == 1 {
        '1'
    } else if d == 2 {
        '2'
    } else if d == 3 {
        '3'
    } else if d == 4 {
        '4'
    } else if d == 5 {
        '5'
    } else if d == 6 {
        '6'
    } else if d == 7 {
        '7'
    } else if d == 8 {
        '8'
    } else {
        '9'
    }
}

/// The decimal digits of `n`, most significant first, without leading zeros.
pub open spec fn digits_of(n: nat) -> Seq<char>
    decreases n,
{
    if n < 10 {
        seq![digit_char(n)]
    } else {
        digits_of(n / 10).push(digit_char(n % 10))
    }
}

/// `n / d` rounded to the nearest integer, halves rounded up.
pub open spec fn rounded_div(n: nat, d: nat) -> nat
    recommends
        d > 0,
{
    n / d + if 2 * (n % d) >= d {
        1nat
    } else {
        0nat
    }
}

/// A count of hundredths written with two decimal places: `12345` is `123.45`.
pub open spec fn hundredths(h: nat) -> Seq<char> {
    digits_of(h / 100) + seq!['.', digit_char((h / 10) % 10), digit_char(h % 10)]
}

/// How a duration of `n` nanoseconds is displayed: in the largest unit that
/// it strictly exceeds (seconds from one full second on), with two decimal
/// places, or as a whole number of nanoseconds up to one microsecond.
pub open spec fn duration_text(n: nat) -> Seq<char> {
    if n >= NANOS_PER_SEC {
        hundredths(rounded_div(n, 10_000_000)) + seq!['s']
    } else if n > NANOS_PER_MILLI {
        hundredths(rounded_div(n, 10_000)) + seq!['m', 's']
    } else if n > NANOS_PER_MICRO {
        hundredths(rounded_div(n, 10)) + seq!['\u{b5}', 's']
    } else {
        digits_of(n) + seq!['n', 's']
    }
}

fn digit_str(d: u128) -> (r: &'static str)
    requires
        d < 10,
    ensures
        r@ == seq![digit_char(d as nat)],
{
    proof {
        reveal_strlit("0");
        reveal_strlit("1");
        reveal_strlit("2");
        reveal_strlit("3");
        reveal_strlit("4");
        reveal_strlit("5");
        reveal_strlit("6");
        reveal_strlit("7");
        reveal_strlit("8");
        reveal_strlit("9");
    }
    if d == 0 {
        "0"
    } else if d == 1 {
        "1"
    } else if d == 2 {
        "2"
    } else if d == 3 {
        "3"
    } else if d == 4 {
        "4"
    } else if d == 5 {
        "5"
    } else if d == 6 {
        "6"
    } else if d == 7 {
        "7"
    } else if d == 8 {
        "8"
    } else {
        "9"
    }
}

fn push_digits(s: &mut String, n: u128)
    ensures
        final(s)@ == old(s)@ + digits_of(n as nat),
    decreases n,
{
    if n >= 10 {
        push_digits(s, n / 10);
    }
    s.append(digit_str(n % 10));
    assert(final(s)@ == old(s)@ + digits_of(n as nat)) by {
        if n >= 10 {
            assert(digits_of(n as nat) == digits_of((n / 10) as nat).push(digit_char((n % 10) as nat)));
        }
    }
}

fn push_hundredths(s: &mut String, h: u128)
    ensures
        final(s)@ == old(s)@ + hundredths(h as nat),
{
    proof {
        reveal_strlit(".");
    }
    push_digits(s, h / 100);
    s.append(".");
    s.append(digit_str((h / 10) % 10));
    s.append(digit_str(h % 10));
    assert(final(s)@ =~= old(s)@ + hundredths(h as nat));
}

fn divide_rounded(n: u128, d: u128) -> (r: u128)
    requires
        d > 0,
    ensures
        r == rounded_div(n as nat, d as nat),
{
    let q = n / d;
    let rem = n % d;
    if rem >= d - rem {
        assert(q < u128::MAX) by (nonlinear_arith)
            requires
                q == n / d,
                d >= 2,
        {
        }
        q + 1
    } else {
        q
    }
}

/// Renders `nanos` nanoseconds as `duration_text` describes.
pub fn format_nanos(nanos: u128) -> (r: String)
    ensures
        r@ == duration_text(nanos as nat),
{
    let mut s = String::new();
    proof {
        reveal_strlit("s");
        reveal_strlit("ms");
        reveal_strlit("\u{b5}s");
        reveal_strlit("ns");
    }
    if nanos >= NANOS_PER_SEC {
        push_hundredths(&mut s, divide_rounded(nanos, 10_000_000));
        s.append("s");
    } else if nanos > NANOS_PER_MILLI {
        push_hundredths(&mut s, divide_rounded(nanos, 10_000));
        s.append("ms");
    } else if nanos > NANOS_PER_MICRO {
        push_hundredths(&mut s, divide_rounded(nanos, 10));
        s.append("\u{b5}s");
    } else {
        push_digits(&mut s, nanos);
        s.append("ns");
    }
    assert(s@ =~= duration_text(nanos as nat));
    s
}


/// Renders a duration as `duration_text` describes for its nanoseconds.
pub fn format_duration(duration: std::time::Duration) -> (r: String)
    ensures
        r@ == duration_text(duration_nanos(duration)),
{
    format_nanos(duration.as_nanos())
}

} // verus!
