use crate::display::{
    digit_char, digits_of, duration_text, hundredths, rounded_div, NANOS_PER_MICRO, NANOS_PER_MILLI,
    NANOS_PER_SEC,
};
use vstd::prelude::*;

verus! {

/// Whether `c` is one of the ten ASCII decimal digits.
pub open spec fn is_digit(c: char) -> bool {
    '0' <= c <= '9'
}

/// Whether `s` ends with `suffix`.
pub open spec fn ends_with(s: Seq<char>, suffix: Seq<char>) -> bool {
    s.len() >= suffix.len() && s.subrange(s.len() - suffix.len(), s.len() as int) == suffix
}

/// Whether `s` holds no decimal point.
pub open spec fn has_no_point(s: Seq<char>) -> bool {
    forall|i: int| 0 <= i < s.len() ==> s[i] != '.'
}

proof fn lemma_digit_char(d: nat)
    ensures
        is_digit(digit_char(d)),
{
}

/// The digits of a number are at least one character, each a decimal digit.
proof fn lemma_digits_of(n: nat)
    ensures
        digits_of(n).len() >= 1,
        forall|i: int| 0 <= i < digits_of(n).len() ==> is_digit(#[trigger] digits_of(n)[i]),
    decreases n,
{
    lemma_digit_char(n % 10);
    if n >= 10 {
        lemma_digits_of(n / 10);
        assert forall|i: int| 0 <= i < digits_of(n).len() implies is_digit(
            #[trigger] digits_of(n)[i],
        ) by {
            if i < digits_of(n / 10).len() {
                assert(digits_of(n)[i] == digits_of(n / 10)[i]);
            }
        }
    }
}

/// A value with two decimal places followed by `unit`: the only point is the
/// fourth character from the end of `unit`, followed by two digits.
proof fn lemma_hundredths(h: nat, unit: Seq<char>)
    ensures
        ({
            let t = hundredths(h) + unit;
            let p = t.len() - unit.len() - 3;
            &&& p >= 1
            &&& t[p] == '.'
            &&& is_digit(t[p + 1])
            &&& is_digit(t[p + 2])
            &&& forall|i: int| 0 <= i < p ==> t[i] != '.'
            &&& ends_with(t, unit)
        }),
{
    let t = hundredths(h) + unit;
    let ds = digits_of(h / 100);
    lemma_digits_of(h / 100);
    lemma_digit_char((h / 10) % 10);
    lemma_digit_char(h % 10);
    assert(t.subrange(t.len() - unit.len(), t.len() as int) =~= unit);
    assert forall|i: int| 0 <= i < ds.len() implies t[i] != '.' by {
        assert(t[i] == ds[i]);
        assert(is_digit(ds[i]));
    }
}

/// From one full second on, the text ends in `s` and holds exactly one
/// decimal point, with exactly two digits after it, then the unit.
pub proof fn law_seconds_have_two_decimals(nanos: nat)
    requires
        nanos >= NANOS_PER_SEC,
    ensures
        ({
            let t = duration_text(nanos);
            &&& ends_with(t, seq!['s'])
            &&& t.len() >= 4
            &&& t[t.len() - 4] == '.'
            &&& is_digit(t[t.len() - 3])
            &&& is_digit(t[t.len() - 2])
            &&& forall|i: int| 0 <= i < t.len() && i != t.len() - 4 ==> t[i] != '.'
        }),
{
    let t = duration_text(nanos);
    lemma_hundredths(rounded_div(nanos, 10_000_000), seq!['s']);
    assert(t[t.len() - 1] == 's');
}

/// Above one millisecond and below one second, the text ends in `ms`.
pub proof fn law_milliseconds(nanos: nat)
    requires
        NANOS_PER_MILLI < nanos < NANOS_PER_SEC,
    ensures
        ends_with(duration_text(nanos), seq!['m', 's']),
{
    lemma_hundredths(rounded_div(nanos, 10_000), seq!['m', 's']);
}

/// Above one microsecond, up to and including one millisecond, the text
/// ends in `µs`.
pub proof fn law_microseconds(nanos: nat)
    requires
        NANOS_PER_MICRO < nanos <= NANOS_PER_MILLI,
    ensures
        ends_with(duration_text(nanos), seq!['\u{b5}', 's']),
{
    lemma_hundredths(rounded_div(nanos, 10), seq!['\u{b5}', 's']);
}

/// Up to and including one microsecond, the text ends in `ns` and holds no
/// decimal point.
pub proof fn law_nanoseconds(nanos: nat)
    requires
        nanos <= NANOS_PER_MICRO,
    ensures
        ends_with(duration_text(nanos), seq!['n', 's']),
        has_no_point(duration_text(nanos)),
{
    let t = duration_text(nanos);
    let ds = digits_of(nanos);
    lemma_digits_of(nanos);
    assert(t.subrange(t.len() - 2, t.len() as int) =~= seq!['n', 's']);
    assert forall|i: int| 0 <= i < t.len() implies t[i] != '.' by {
        if i < ds.len() {
            assert(t[i] == ds[i]);
            assert(is_digit(ds[i]));
        }
    }
}

} // verus!
