use vstd::prelude::*;
use crate::text::{push_char, push_str};

verus! {

/// Ten to the power `n`.
pub open spec fn pow10(n: nat) -> nat
    decreases n,
{
    if n == 0 {
        1
    } else {
        10 * pow10((n - 1) as nat)
    }
}

/// The character of a decimal digit.
pub open spec fn digit_char(d: nat) -> char {
    if d == 0 { '0' } else if d == 1 { '1' } else if d == 2 { '2' } else if d == 3 { '3' }
    else if d == 4 { '4' } else if d == 5 { '5' } else if d == 6 { '6' } else if d == 7 { '7' }
    else if d == 8 { '8' } else { '9' }
}

/// The decimal rendering of `n`, without leading zeros ("0" for zero).
pub open spec fn decimal(n: nat) -> Seq<char>
    decreases n,
{
    if n < 10 {
        seq![digit_char(n)]
    } else {
        decimal(n / 10).push(digit_char(n % 10))
    }
}

/// The last `width` decimal digits of `n`, padded on the left with zeros.
pub open spec fn padded(n: nat, width: nat) -> Seq<char>
    decreases width,
{
    if width == 0 {
        seq![]
    } else {
        padded(n / 10, (width - 1) as nat).push(digit_char(n % 10))
    }
}

/// `s` without its trailing `'0'` characters.
pub open spec fn trim_zeros(s: Seq<char>) -> Seq<char>
    decreases s.len(),
{
    if s.len() > 0 && s.last() == '0' {
        trim_zeros(s.drop_last())
    } else {
        s
    }
}

/// The text of `units` of a token with `decimals` decimal places: the whole
/// part, then a point and the fractional digits, with trailing zeros of the
/// fraction removed, and the point too when no fractional digit is left.
pub open spec fn amount_text(units: nat, decimals: nat) -> Seq<char> {
    let whole = units / pow10(decimals);
    let fraction = trim_zeros(padded(units % pow10(decimals), decimals));
    if fraction.len() == 0 {
        decimal(whole)
    } else {
        decimal(whole) + seq!['.'] + fraction
    }
}

proof fn lemma_pow10_monotone(a: nat, b: nat)
    requires
        a <= b,
    ensures
        1 <= pow10(a) <= pow10(b),
    decreases b,
{
    if b > a {
        lemma_pow10_monotone(a, (b - 1) as nat);
    } else if a > 0 {
        lemma_pow10_monotone((a - 1) as nat, (a - 1) as nat);
    }
}

proof fn lemma_pow10_fits(n: nat)
    requires
        n <= 38,
    ensures
        pow10(n) <= 100_000_000_000_000_000_000_000_000_000_000_000_000,
{
    lemma_pow10_monotone(n, 38);
    reveal_with_fuel(pow10, 39);
}

proof fn lemma_decimal_digits(n: nat)
    ensures
        decimal(n).len() > 0,
        forall|i: int| 0 <= i < decimal(n).len() ==> decimal(n)[i] != '.',
    decreases n,
{
    if n >= 10 {
        lemma_decimal_digits(n / 10);
    }
}

proof fn lemma_trim_zeros_last(s: Seq<char>)
    ensures
        trim_zeros(s).len() > 0 ==> trim_zeros(s).last() != '0',
    decreases s.len(),
{
    if s.len() > 0 && s.last() == '0' {
        lemma_trim_zeros_last(s.drop_last());
    }
}

/// A rendered amount is never empty and never ends with a point; once it has
/// a point, it does not end with a zero either.
pub proof fn lemma_amount_text_trimmed(units: nat, decimals: nat)
    ensures
        amount_text(units, decimals).len() > 0,
        amount_text(units, decimals).last() != '.',
        amount_text(units, decimals).contains('.') ==> amount_text(units, decimals).last() != '0',
{
    lemma_pow10_monotone(0, decimals);
    let whole = units / pow10(decimals);
    let fraction = trim_zeros(padded(units % pow10(decimals), decimals));
    lemma_decimal_digits(whole);
    lemma_trim_zeros_last(padded(units % pow10(decimals), decimals));
    let t = amount_text(units, decimals);
    if fraction.len() == 0 {
        assert(t == decimal(whole));
        if t.contains('.') {
            let i = choose|i: int| 0 <= i < t.len() && t[i] == '.';
            assert(false);
        }
    } else {
        assert(t.last() == fraction.last());
        if t.last() == '.' {
            assert(fraction.last() == '.');
            lemma_trim_zeros_digit(padded(units % pow10(decimals), decimals));
        }
    }
}

proof fn lemma_padded_digits(n: nat, width: nat)
    ensures
        forall|i: int| 0 <= i < padded(n, width).len() ==> padded(n, width)[i] != '.',
    decreases width,
{
    if width > 0 {
        let rest = padded(n / 10, (width - 1) as nat);
        lemma_padded_digits(n / 10, (width - 1) as nat);
        assert forall|i: int| 0 <= i < padded(n, width).len() implies padded(n, width)[i] != '.' by {
            if i < rest.len() {
                assert(padded(n, width)[i] == rest[i]);
            }
        }
    }
}

proof fn lemma_trim_zeros_digit(s: Seq<char>)
    requires
        exists|n: nat, w: nat| s == padded(n, w),
    ensures
        trim_zeros(s).len() > 0 ==> trim_zeros(s).last() != '.',
    decreases s.len(),
{
    let (n, w) = choose|n: nat, w: nat| s == padded(n, w);
    lemma_padded_digits(n, w);
    if s.len() > 0 && s.last() == '0' {
        assert(s.drop_last() == padded(n / 10, (w - 1) as nat));
        lemma_trim_zeros_digit(s.drop_last());
    } else if s.len() > 0 {
        assert(s[s.len() - 1] != '.');
    }
}

fn digit(d: u128) -> (c: char)
    requires
        d < 10,
    ensures
        c == digit_char(d as nat),
{
    if d == 0 { '0' } else if d == 1 { '1' } else if d == 2 { '2' } else if d == 3 { '3' }
    else if d == 4 { '4' } else if d == 5 { '5' } else if d == 6 { '6' } else if d == 7 { '7' }
    else if d == 8 { '8' } else { '9' }
}

fn push_decimal(s: &mut String, n: u128)
    ensures
        final(s)@ == old(s)@ + decimal(n as nat),
    decreases n,
{
    if n >= 10 {
        push_decimal(s, n / 10);
    }
    push_char(s, digit(n % 10));
    assert(final(s)@ =~= old(s)@ + decimal(n as nat));
}

fn push_padded(s: &mut String, n: u128, width: u8)
    ensures
        final(s)@ == old(s)@ + padded(n as nat, width as nat),
    decreases width,
{
    if width > 0 {
        push_padded(s, n / 10, width - 1);
        push_char(s, digit(n % 10));
    }
    assert(final(s)@ =~= old(s)@ + padded(n as nat, width as nat));
}

/// Renders `units` of a token with `decimals` decimal places as text:
/// `format_crypto_amount(321_000_000, 8)` is `"3.21"`.
pub fn format_crypto_amount(units: u128, decimals: u8) -> (r: String)
    requires
        decimals <= 38,
    ensures
        r@ == amount_text(units as nat, decimals as nat),
{
    let mut subdividable_by: u128 = 1;
    let mut i: u8 = 0;
    while i < decimals
        invariant
            i <= decimals <= 38,
            subdividable_by == pow10(i as nat),
        decreases decimals - i,
    {
        proof {
            lemma_pow10_fits((i + 1) as nat);
        }
        subdividable_by = subdividable_by * 10;
        i = i + 1;
    }
    proof {
        lemma_pow10_monotone(0, decimals as nat);
    }
    let whole = units / subdividable_by;
    let mut fraction = units % subdividable_by;
    let mut width = decimals;
    while width > 0 && fraction % 10 == 0
        invariant
            width <= decimals,
            trim_zeros(padded(fraction as nat, width as nat))
                == trim_zeros(padded((units % subdividable_by) as nat, decimals as nat)),
        decreases width,
    {
        proof {
            let p = padded(fraction as nat, width as nat);
            assert(p.drop_last() =~= padded((fraction / 10) as nat, (width - 1) as nat));
        }
        fraction = fraction / 10;
        width = width - 1;
    }
    let ghost frac_text = trim_zeros(padded((units % subdividable_by) as nat, decimals as nat));
    proof {
        let p = padded(fraction as nat, width as nat);
        if width > 0 {
            assert(p.last() != '0');
        }
        assert(frac_text == p);
    }
    let mut r = String::new();
    push_decimal(&mut r, whole);
    if width > 0 {
        push_char(&mut r, '.');
        push_padded(&mut r, fraction, width);
    }
    assert(r@ =~= amount_text(units as nat, decimals as nat));
    r
}

/// The amount as `format_crypto_amount` renders it, then a space and `symbol`.
pub fn format_crypto_amount_with_symbol(units: u128, decimals: u8, symbol: &str) -> (r: String)
    requires
        decimals <= 38,
    ensures
        r@ == amount_text(units as nat, decimals as nat) + seq![' '] + symbol@,
{
    let mut r = format_crypto_amount(units, decimals);
    push_char(&mut r, ' ');
    push_str(&mut r, symbol);
    assert(r@ =~= amount_text(units as nat, decimals as nat) + seq![' '] + symbol@);
    r
}

} // verus!
