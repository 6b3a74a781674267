//! Decimal text for integers and for amounts counted in minor units.

use vstd::prelude::*;

verus! {

/// `String::push` appends one character to the end of the string.
pub assume_specification[ String::push ](s: &mut String, c: char)
    ensures
        final(s)@ == old(s)@.push(c),
;

/// The character that stands for the decimal digit `d`.
pub open spec fn digit_char(d: int) -> char
    recommends
        0 <= d < 10,
{
    ((48 + d) as u8) as char
}

/// The decimal digits of `n`, most significant first, without leading zeros
/// (a single `0` for zero).
pub open spec fn decimal(n: nat) -> Seq<char>
    decreases n,
{
    if n < 10 {
        seq![digit_char(n as int)]
    } else {
        decimal(n / 10).push(digit_char((n % 10) as int))
    }
}

/// `count` zeros.
pub open spec fn zeros(count: nat) -> Seq<char> {
    Seq::new(count, |i: int| '0')
}

/// The decimal digits of `n`, with zeros in front where there are fewer than
/// `width` of them.
pub open spec fn zero_padded(n: nat, width: nat) -> Seq<char> {
    if decimal(n).len() >= width {
        decimal(n)
    } else {
        zeros((width - decimal(n).len()) as nat) + decimal(n)
    }
}

/// The magnitude of `v`.
pub open spec fn magnitude(v: int) -> nat {
    if v < 0 {
        (-v) as nat
    } else {
        v as nat
    }
}

/// The sign that an amount's text begins with: a minus for a negative
/// amount, nothing otherwise.
pub open spec fn sign_text(v: int) -> Seq<char> {
    if v < 0 {
        seq!['-']
    } else {
        Seq::empty()
    }
}

/// An amount of `v` minor units as a decimal number of major units: the
/// sign, the whole part, a point and exactly two fraction digits.
pub open spec fn amount_text(v: int) -> Seq<char> {
    sign_text(v) + decimal(magnitude(v) / 100) + seq!['.'] + zero_padded(magnitude(v) % 100, 2)
}

/// A number under a hundred, padded to two places, is its tens digit and
/// its ones digit.
pub proof fn lemma_two_digits(n: nat)
    requires
        n < 100,
    ensures
        zero_padded(n, 2) == seq![digit_char((n / 10) as int), digit_char((n % 10) as int)],
{
    reveal_with_fuel(decimal, 3);
    if n < 10 {
        assert(zeros(1) + decimal(n) =~= seq![digit_char(0), digit_char(n as int)]);
    } else {
        assert(decimal(n) =~= seq![digit_char((n / 10) as int), digit_char((n % 10) as int)]);
    }
}

/// A number has at least one digit.
pub proof fn lemma_decimal_not_empty(n: nat)
    ensures
        decimal(n).len() >= 1,
{
}

/// An amount's text is made of the digits of its magnitude, padded to three
/// places: behind the sign stand all of them but the last two, the point,
/// and the last two.
pub proof fn lemma_amount_text_from_padded(v: int)
    ensures
        ({
            let digits = zero_padded(magnitude(v), 3);
            let cut = digits.len() - 2;
            amount_text(v) == sign_text(v) + digits.subrange(0, cut) + seq!['.'] + digits.subrange(
                cut,
                digits.len() as int,
            )
        }),
{
    let m = magnitude(v);
    let digits = zero_padded(m, 3);
    let cut = digits.len() - 2;
    let whole = decimal(m / 100);
    let fraction = zero_padded(m % 100, 2);
    lemma_two_digits(m % 100);
    if m < 100 {
        reveal_with_fuel(decimal, 3);
        if m < 10 {
            assert(digits =~= seq!['0', '0', digit_char(m as int)]);
        } else {
            assert(digits =~= seq!['0', digit_char((m / 10) as int), digit_char((m % 10) as int)]);
        }
        assert(digits.subrange(0, cut) =~= whole);
        assert(digits.subrange(cut, digits.len() as int) =~= fraction);
    } else {
        lemma_decimal_not_empty(m / 100);
        assert(m / 10 / 10 == m / 100);
        assert((m % 100) / 10 == (m / 10) % 10);
        assert((m % 100) % 10 == m % 10);
        assert(decimal(m / 10) == whole.push(digit_char(((m / 10) % 10) as int)));
        assert(decimal(m) == decimal(m / 10).push(digit_char((m % 10) as int)));
        assert(digits == decimal(m));
        assert(digits.subrange(0, cut) =~= whole);
        assert(digits.subrange(cut, digits.len() as int) =~= fraction);
    }
}

/// The character of one decimal digit.
pub fn digit(d: u8) -> (c: char)
    requires
        d < 10,
    ensures
        c == digit_char(d as int),
{
    (48u8 + d) as char
}

/// Appends the decimal digits of `n`.
pub fn push_decimal(out: &mut String, n: u64)
    ensures
        final(out)@ == old(out)@ + decimal(n as nat),
    decreases n,
{
    if n >= 10 {
        push_decimal(out, n / 10);
    }
    out.push(digit((n % 10) as u8));
    assert(out@ =~= old(out)@ + decimal(n as nat));
}

/// Appends the two decimal digits of a number under a hundred.
pub fn push_two_digits(out: &mut String, n: u8)
    requires
        n < 100,
    ensures
        final(out)@ == old(out)@ + zero_padded(n as nat, 2),
{
    out.push(digit(n / 10));
    out.push(digit(n % 10));
    proof {
        lemma_two_digits(n as nat);
        assert(out@ =~= old(out)@ + zero_padded(n as nat, 2));
    }
}

/// The magnitude of `v`, which fits in a `u64` for every `i64`.
pub fn magnitude_of(v: i64) -> (m: u64)
    ensures
        m == magnitude(v as int),
{
    if v < 0 {
        (-(v + 1)) as u64 + 1
    } else {
        v as u64
    }
}

/// Appends the text of an amount of `v` minor units.
pub fn push_amount(out: &mut String, v: i64)
    ensures
        final(out)@ == old(out)@ + amount_text(v as int),
{
    if v < 0 {
        out.push('-');
    }
    let m: u64 = magnitude_of(v);
    push_decimal(out, m / 100);
    out.push('.');
    push_two_digits(out, (m % 100) as u8);
    assert(out@ =~= old(out)@ + amount_text(v as int));
}

/// The text of an amount of `v` minor units: `-1000` gives `-10.00`, and
/// `5` gives `0.05`.
pub fn format_amount(v: i64) -> (text: String)
    ensures
        text@ == amount_text(v as int),
{
    let mut text = String::new();
    push_amount(&mut text, v);
    assert(text@ =~= amount_text(v as int));
    text
}

} // verus!
