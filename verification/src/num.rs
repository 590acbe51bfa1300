//! Decimal text of integers and of exact fractions.

use vstd::prelude::*;
use vstd::string::StringExecFns;

verus! {

/// The most fractional digits a decimal is printed with.
pub const FRACTION_DIGITS: u32 = 8;

/// The character of the decimal digit `d`.
pub open spec fn digit_char(d: int) -> char
    recommends
        0 <= d <= 9,
{
    (d + 48) as u8 as char
}

/// The decimal digits of `n`, most significant first, without leading zeros.
pub open spec fn nat_digits(n: nat) -> Seq<char>
    decreases n,
{
    if n < 10 {
        seq![digit_char(n as int)]
    } else {
        nat_digits(n / 10).push(digit_char((n % 10) as int))
    }
}

/// The decimal text of `v`: a minus sign for a negative value, then its digits.
pub open spec fn int_digits(v: int) -> Seq<char> {
    if v < 0 {
        seq!['-'] + nat_digits((-v) as nat)
    } else {
        nat_digits(v as nat)
    }
}

/// The first digits of the decimal expansion of `r / m`, for `0 <= r < m`:
/// as many as it takes to reach the exact value, and at most `limit`.
pub open spec fn fraction_digits(r: nat, m: nat, limit: nat) -> Seq<char>
    decreases limit,
{
    if r == 0 || limit == 0 || m == 0 {
        Seq::<char>::empty()
    } else {
        seq![digit_char(((10 * r) / m) as int)] + fraction_digits(
            (10 * r) % m,
            m,
            (limit - 1) as nat,
        )
    }
}

/// The decimal text of the fraction `q / m`: a minus sign for a negative
/// value, the integer part, and, where `m` does not divide `q`, a point and
/// the first [`FRACTION_DIGITS`] digits of the fraction at most.
pub open spec fn decimal_text(q: int, m: int) -> Seq<char>
    recommends
        m > 0,
{
    let a: nat = (if q < 0 { -q } else { q }) as nat;
    let whole: nat = a / (m as nat);
    let rest: nat = a % (m as nat);
    if rest == 0 {
        int_digits(if q < 0 { -(whole as int) } else { whole as int })
    } else {
        (if q < 0 { seq!['-'] } else { Seq::<char>::empty() }) + nat_digits(whole) + seq!['.']
            + fraction_digits(rest, m as nat, FRACTION_DIGITS as nat)
    }
}

/// The integer nearest to `n / d`, halves rounded away from zero.
pub open spec fn round_div(n: int, d: int) -> int
    recommends
        d > 0,
{
    if n >= 0 {
        (2 * n + d) / (2 * d)
    } else {
        -((2 * (-n) + d) / (2 * d))
    }
}

/// The decimal text of `value`.
///
/// Calls `itoa::Buffer::format`, which prints an integer in base ten: a minus
/// sign for a negative value, then the digits without leading zeros.
#[verifier::external_body]
fn int_string(value: i128) -> (text: String)
    ensures
        text@ == int_digits(value as int),
{
    itoa::Buffer::new().format(value).to_owned()
}

/// Appends the decimal text of `value` to `w`.
pub fn write_int(w: &mut String, value: i128)
    ensures
        final(w)@ == old(w)@ + int_digits(value as int),
{
    let text = int_string(value);
    w.append(text.as_str());
}

/// Appends the digit `d`.
fn push_digit(buf: &mut String, d: u8)
    requires
        d <= 9,
    ensures
        final(buf)@ == old(buf)@.push(digit_char(d as int)),
{
    buf.push((d + 48) as char);
}

/// Appends the decimal text of the fraction `q / m`.
pub fn push_decimal(buf: &mut String, q: i128, m: u32)
    requires
        m > 0,
        q > i128::MIN,
    ensures
        final(buf)@ == old(buf)@ + decimal_text(q as int, m as int),
{
    let a: u128 = if q < 0 { (-q) as u128 } else { q as u128 };
    let m128: u128 = m as u128;
    let whole: u128 = a / m128;
    let rest: u128 = a % m128;
    if rest == 0 {
        if q < 0 {
            write_int(buf, -(whole as i128));
        } else {
            write_int(buf, whole as i128);
        }
        return;
    }
    if q < 0 {
        buf.push('-');
    }
    write_int(buf, whole as i128);
    buf.push('.');
    let ghost head = buf@;
    let mut r: u64 = rest as u64;
    let m64: u64 = m as u64;
    let mut left: u32 = FRACTION_DIGITS;
    while r != 0 && left != 0
        invariant
            m64 == m,
            m > 0,
            r < m64,
            left <= FRACTION_DIGITS,
            head + fraction_digits(rest as nat, m as nat, FRACTION_DIGITS as nat) == buf@
                + fraction_digits(r as nat, m as nat, left as nat),
        decreases left,
    {
        let d: u64 = (10 * r) / m64;
        assert(d <= 9) by (nonlinear_arith)
            requires
                d == (10 * r) / (m64 as int),
                r < m64,
                m64 > 0,
        ;
        let ghost before = buf@;
        push_digit(buf, d as u8);
        assert(before + fraction_digits(r as nat, m as nat, left as nat) =~= buf@
            + fraction_digits(((10 * r) % (m64 as int)) as nat, m as nat, (left - 1) as nat));
        r = (10 * r) % m64;
        left = left - 1;
    }
    assert(fraction_digits(r as nat, m as nat, left as nat) =~= Seq::<char>::empty());
    assert(buf@ =~= head + fraction_digits(rest as nat, m as nat, FRACTION_DIGITS as nat));
}

} // verus!
