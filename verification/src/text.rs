//! Decimal text of numbers, zero-padded as `{:02}` and `{:03}` print them, and the
//! stopwatch reading built from it.

use vstd::prelude::*;

use crate::duration::Duration;

verus! {

/// The character of a decimal digit.
pub open spec fn digit_char(d: nat) -> char {
    if d == 0 { '0' }
    else if d == 1 { '1' }
    else if d == 2 { '2' }
    else if d == 3 { '3' }
    else if d == 4 { '4' }
    else if d == 5 { '5' }
    else if d == 6 { '6' }
    else if d == 7 { '7' }
    else if d == 8 { '8' }
    else { '9' }
}

/// The decimal digits of `n`, without leading zeros (`"0"` for zero).
pub open spec fn decimal(n: nat) -> Seq<char>
    decreases n,
{
    if n < 10 {
        seq![digit_char(n)]
    } else {
        decimal(n / 10).push(digit_char(n % 10))
    }
}

/// The decimal digits of `n`, with zeros in front up to `width` characters.
pub open spec fn padded(n: nat, width: nat) -> Seq<char> {
    let digits = decimal(n);
    if digits.len() < width {
        Seq::new((width - digits.len()) as nat, |_i: int| '0') + digits
    } else {
        digits
    }
}

/// Appends `c` to `s` with `String::push`.
#[verifier::external_body]
pub(crate) fn push_char(s: &mut String, c: char)
    ensures
        final(s)@ == old(s)@.push(c),
{
    s.push(c);
}

/// Appends `text` to `s`.
pub(crate) fn push_text(s: &mut String, text: &str)
    ensures
        final(s)@ == old(s)@ + text@,
{
    s.append(text);
}

fn digit(d: u64) -> (c: char)
    requires
        d < 10,
    ensures
        c == digit_char(d as nat),
{
    match d {
        0 => '0',
        1 => '1',
        2 => '2',
        3 => '3',
        4 => '4',
        5 => '5',
        6 => '6',
        7 => '7',
        8 => '8',
        _ => '9',
    }
}

/// Appends the decimal digits of `n`.
pub(crate) fn push_decimal(s: &mut String, n: u64)
    ensures
        final(s)@ == old(s)@ + decimal(n as nat),
    decreases n,
{
    if n >= 10 {
        push_decimal(s, n / 10);
        push_char(s, digit(n % 10));
        assert(s@ =~= old(s)@ + decimal(n as nat));
    } else {
        push_char(s, digit(n));
        assert(s@ =~= old(s)@ + decimal(n as nat));
    }
}

/// Ten to the power `k`.
pub open spec fn ten_pow(k: nat) -> nat
    decreases k,
{
    if k == 0 { 1 } else { 10 * ten_pow((k - 1) as nat) }
}

proof fn lemma_ten_pow_mono(a: nat, b: nat)
    requires
        a <= b,
    ensures
        ten_pow(a) <= ten_pow(b),
    decreases b,
{
    if a < b {
        lemma_ten_pow_mono(a, (b - 1) as nat);
    }
}

/// The number of decimal digits of `n`.
pub(crate) fn decimal_len(n: u64) -> (len: usize)
    ensures
        len == decimal(n as nat).len(),
        1 <= len <= 20,
        len >= 2 ==> n >= ten_pow((len - 1) as nat),
    decreases n,
{
    if n >= 10 {
        let l = decimal_len(n / 10);
        proof {
            if l >= 20 {
                lemma_ten_pow_mono(19, (l - 1) as nat);
                assert(ten_pow(19) == 10_000_000_000_000_000_000) by {
                    reveal_with_fuel(ten_pow, 20);
                }
            }
            let t = ten_pow((l - 1) as nat);
            assert(n >= 10 * t) by (nonlinear_arith)
                requires n / 10 >= t;
            assert(ten_pow(l as nat) == 10 * t);
        }
        l + 1
    } else {
        1
    }
}

/// Appends `n` in decimal, zero-padded to `width` characters.
pub(crate) fn push_padded(s: &mut String, n: u64, width: usize)
    ensures
        final(s)@ == old(s)@ + padded(n as nat, width as nat),
{
    let len = decimal_len(n);
    let ghost start = s@;
    if len < width {
        let pad = width - len;
        let mut i: usize = 0;
        while i < pad
            invariant
                i <= pad,
                s@ =~= start + Seq::new(i as nat, |_j: int| '0'),
            decreases pad - i,
        {
            push_char(s, '0');
            i = i + 1;
        }
    }
    push_decimal(s, n);
    assert(s@ =~= start + padded(n as nat, width as nat));
}

/// `n` in decimal, zero-padded to `width` characters, as `format!("{:0width$}", n)` prints it.
pub fn padded_number(n: u64, width: usize) -> (t: String)
    ensures
        t@ == padded(n as nat, width as nat),
{
    let mut t = String::new();
    push_padded(&mut t, n, width);
    assert(t@ =~= padded(n as nat, width as nat));
    t
}

/// The text of a stopwatch reading of `nanos` nanoseconds: `MM:SS.mmm`, or `HH:MM:SS.mmm`
/// when asked for hours or when an hour has passed.
pub open spec fn stopwatch_text(nanos: nat, force_hours: bool) -> Seq<char> {
    let total = nanos / 1_000_000_000;
    let hours = total / 3600;
    let minutes = (total % 3600) / 60;
    let seconds = total % 60;
    let millis = (nanos % 1_000_000_000) / 1_000_000;
    let tail = padded(minutes, 2) + seq![':'] + padded(seconds, 2) + seq!['.'] + padded(millis, 3);
    if force_hours || hours > 0 {
        padded(hours, 2) + seq![':'] + tail
    } else {
        tail
    }
}

/// The stopwatch reading of `elapsed`, as the stopwatch face and the lap list show it.
pub fn format_stopwatch_duration(elapsed: Duration, force_hours: bool) -> (t: String)
    ensures
        t@ == stopwatch_text(elapsed@, force_hours),
{
    let total_secs = elapsed.as_secs();
    let hours = total_secs / 3600;
    let minutes = (total_secs % 3600) / 60;
    let seconds = total_secs % 60;
    let millis = elapsed.subsec_millis();
    let mut t = String::new();
    if force_hours || hours > 0 {
        push_padded(&mut t, hours, 2);
        push_char(&mut t, ':');
    }
    push_padded(&mut t, minutes, 2);
    push_char(&mut t, ':');
    push_padded(&mut t, seconds, 2);
    push_char(&mut t, '.');
    push_padded(&mut t, millis as u64, 3);
    assert(t@ =~= stopwatch_text(elapsed@, force_hours));
    t
}

} // verus!
