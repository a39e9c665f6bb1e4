//! Human-readable sizes.
//!
//! A size is shown in the largest unit, up to terabytes, in which it is at
//! least one, with one digit after the point. Sizes are taken with 53
//! significant bits, rounded to the nearest such value and to the even one
//! where two are equally near; the digit after the point is rounded in the
//! same way.

use crate::text::{chars_of, string_of};
use vstd::prelude::*;

verus! {

/// The character of the decimal digit `d`.
pub open spec fn digit_char(d: int) -> char {
    if d == 0 {
        '0'
    } else if d == 1 {
        '1'
    } else if d == 2 {
        '2'
    } else if d == 3 {
        '3'
    } else if d == 4 {
        '4'
    } else if d == 5 {
        '5'
    } else if d == 6 {
        '6'
    } else if d == 7 {
        '7'
    } else if d == 8 {
        '8'
    } else {
        '9'
    }
}

/// The decimal digits of `n`, most significant first.
pub open spec fn decimal(n: nat) -> Seq<char>
    decreases n,
{
    if n < 10 {
        seq![digit_char(n as int)]
    } else {
        decimal(n / 10).push(digit_char((n % 10) as int))
    }
}

/// The spacing between the values of 53 significant bits around `n`.
pub open spec fn float_unit(n: int) -> int {
    if n < 0x20_0000_0000_0000 {
        1
    } else if n < 0x40_0000_0000_0000 {
        2
    } else if n < 0x80_0000_0000_0000 {
        4
    } else if n < 0x100_0000_0000_0000 {
        8
    } else if n < 0x200_0000_0000_0000 {
        16
    } else if n < 0x400_0000_0000_0000 {
        32
    } else if n < 0x800_0000_0000_0000 {
        64
    } else if n < 0x1000_0000_0000_0000 {
        128
    } else if n < 0x2000_0000_0000_0000 {
        256
    } else if n < 0x4000_0000_0000_0000 {
        512
    } else if n < 0x8000_0000_0000_0000 {
        1024
    } else {
        2048
    }
}

/// The multiple of `q` nearest to `n`; of two that are equally near, the
/// even multiple.
pub open spec fn nearest_multiple(n: int, q: int) -> int {
    let r = n % q;
    let down = n - r;
    if 2 * r < q {
        down
    } else if 2 * r > q {
        down + q
    } else if (n / q) % 2 == 0 {
        down
    } else {
        down + q
    }
}

/// The value of 53 significant bits that stands for `n`.
pub open spec fn float_value(n: int) -> int {
    nearest_multiple(n, float_unit(n))
}

/// The quotient `n / d` rounded to the nearest integer; of two that are
/// equally near, the even one.
pub open spec fn round_half_even_div(n: int, d: int) -> int {
    let q = n / d;
    let r = n % d;
    if 2 * r < d {
        q
    } else if 2 * r > d {
        q + 1
    } else if q % 2 == 0 {
        q
    } else {
        q + 1
    }
}

/// The unit in which the value `v` is shown: 0 for bytes up to 4 for
/// terabytes.
pub open spec fn unit_index(v: int) -> int {
    if v < 1024 {
        0
    } else if v < 1048576 {
        1
    } else if v < 1073741824 {
        2
    } else if v < 1099511627776 {
        3
    } else {
        4
    }
}

/// The number of bytes in one of the unit `k`.
pub open spec fn unit_size(k: int) -> int {
    if k == 1 {
        1024
    } else if k == 2 {
        1048576
    } else if k == 3 {
        1073741824
    } else {
        1099511627776
    }
}

/// The name of the unit `k`.
pub open spec fn unit_name(k: int) -> Seq<char> {
    if k == 0 {
        seq!['B']
    } else if k == 1 {
        seq!['K', 'B']
    } else if k == 2 {
        seq!['M', 'B']
    } else if k == 3 {
        seq!['G', 'B']
    } else {
        seq!['T', 'B']
    }
}

/// The number of tenths of the unit `k` shown for the value `v`.
pub open spec fn tenths(v: int, k: int) -> int {
    round_half_even_div(v * 10, unit_size(k))
}

/// The text that shows `bytes`: the plain number where it is under 1024,
/// else the number of the unit with one digit after the point.
pub open spec fn size_text(bytes: u64) -> Seq<char> {
    let v = float_value(bytes as int);
    let k = unit_index(v);
    if k == 0 {
        decimal(bytes as nat) + seq![' '] + unit_name(0)
    } else {
        decimal((tenths(v, k) / 10) as nat) + seq!['.'] + decimal((tenths(v, k) % 10) as nat)
            + seq![' '] + unit_name(k)
    }
}

/// The character of the decimal digit `d`.
fn digit(d: u8) -> (c: char)
    requires
        d < 10,
    ensures
        c == digit_char(d as int),
{
    if d == 0 {
        '0'
    } else if d == 1 {
        '1'
    } else if d == 2 {
        '2'
    } else if d == 3 {
        '3'
    } else if d == 4 {
        '4'
    } else if d == 5 {
        '5'
    } else if d == 6 {
        '6'
    } else if d == 7 {
        '7'
    } else if d == 8 {
        '8'
    } else {
        '9'
    }
}

/// Appends the decimal digits of `n` to `out`.
pub fn push_decimal(n: u128, out: &mut Vec<char>)
    ensures
        final(out)@ == old(out)@ + decimal(n as nat),
    decreases n,
{
    if n >= 10 {
        push_decimal(n / 10, out);
    }
    let d: u8 = (n % 10) as u8;
    out.push(digit(d));
    assert(out@ =~= old(out)@ + decimal(n as nat));
}

/// The decimal digits of `n`.
pub fn decimal_string(n: u64) -> (text: String)
    ensures
        text@ == decimal(n as nat),
{
    let mut out: Vec<char> = Vec::new();
    push_decimal(n as u128, &mut out);
    assert(out@ =~= decimal(n as nat));
    string_of(&out)
}

/// The spacing between the values of 53 significant bits around `n`.
fn spacing(n: u64) -> (q: u128)
    ensures
        q == float_unit(n as int),
        1 <= q <= 2048,
{
    if n < 0x20_0000_0000_0000 {
        1
    } else if n < 0x40_0000_0000_0000 {
        2
    } else if n < 0x80_0000_0000_0000 {
        4
    } else if n < 0x100_0000_0000_0000 {
        8
    } else if n < 0x200_0000_0000_0000 {
        16
    } else if n < 0x400_0000_0000_0000 {
        32
    } else if n < 0x800_0000_0000_0000 {
        64
    } else if n < 0x1000_0000_0000_0000 {
        128
    } else if n < 0x2000_0000_0000_0000 {
        256
    } else if n < 0x4000_0000_0000_0000 {
        512
    } else if n < 0x8000_0000_0000_0000 {
        1024
    } else {
        2048
    }
}

/// The value of 53 significant bits that stands for `n`.
fn to_float_value(n: u64) -> (v: u128)
    ensures
        v == float_value(n as int),
        v <= n + 2048,
{
    let q = spacing(n);
    let wide: u128 = n as u128;
    let r = wide % q;
    let down = wide - r;
    if 2 * r < q {
        down
    } else if 2 * r > q {
        down + q
    } else if (wide / q) % 2 == 0 {
        down
    } else {
        down + q
    }
}

/// Shows `bytes` in the largest fitting unit.
pub fn format_size(bytes: u64) -> (text: String)
    ensures
        text@ == size_text(bytes),
{
    let v = to_float_value(bytes);
    let mut out: Vec<char> = Vec::new();
    if v < 1024 {
        push_decimal(bytes as u128, &mut out);
        out.push(' ');
        out.push('B');
        assert(out@ =~= size_text(bytes));
        return string_of(&out);
    }
    let (k, d, first): (u8, u128, char) = if v < 1048576 {
        (1, 1024, 'K')
    } else if v < 1073741824 {
        (2, 1048576, 'M')
    } else if v < 1099511627776 {
        (3, 1073741824, 'G')
    } else {
        (4, 1099511627776, 'T')
    };
    assert(k == unit_index(v as int));
    assert(d == unit_size(k as int));
    let n: u128 = v * 10;
    let q = n / d;
    let r = n % d;
    let t: u128 = if 2 * r < d {
        q
    } else if 2 * r > d {
        q + 1
    } else if q % 2 == 0 {
        q
    } else {
        q + 1
    };
    assert(t == tenths(v as int, k as int));
    push_decimal(t / 10, &mut out);
    out.push('.');
    push_decimal(t % 10, &mut out);
    out.push(' ');
    out.push(first);
    out.push('B');
    assert(out@ =~= size_text(bytes));
    string_of(&out)
}

/// `n` doubled until it reaches `d`.
pub open spec fn scaled_up(n: int, d: int) -> int
    decreases
            (if n < d {
                d - n
            } else {
                0
            }),
{
    if 0 < n < d {
        scaled_up(2 * n, d)
    } else {
        n
    }
}

/// The power of two by which `scaled_up` multiplies `n`, times `unit`.
pub open spec fn unit_up(n: int, d: int, unit: int) -> int
    decreases
            (if n < d {
                d - n
            } else {
                0
            }),
{
    if 0 < n < d {
        unit_up(2 * n, d, 2 * unit)
    } else {
        unit
    }
}

/// `d` doubled for as long as it stays within `n`.
pub open spec fn scaled_down(d: int, n: int) -> int
    decreases
            (if d < n {
                n - d
            } else {
                0
            }),
{
    if 0 < d && 2 * d <= n {
        scaled_down(2 * d, n)
    } else {
        d
    }
}

/// The power of two by which `scaled_down` multiplies `d`, times `unit`.
pub open spec fn unit_down(d: int, n: int, unit: int) -> int
    decreases
            (if d < n {
                n - d
            } else {
                0
            }),
{
    if 0 < d && 2 * d <= n {
        unit_down(2 * d, n, 2 * unit)
    } else {
        unit
    }
}

/// The 53 significant bits of the quotient `n / d`: the quotient, brought
/// between one and two by doublings, in units of 2 to the power of -52,
/// rounded to the nearest unit and to the even one of two.
pub open spec fn quotient_bits(n: int, d: int) -> int {
    round_half_even_div(scaled_up(n, d) * 0x10_0000_0000_0000, scaled_down(d, n))
}

/// The number of bits that a hundredfold of 53 bits has too many.
pub open spec fn hundredfold_excess(bits: int) -> int {
    if 100 * bits < 0x800_0000_0000_0000 {
        64
    } else {
        128
    }
}

/// The 53 significant bits of the hundredfold of `bits`.
pub open spec fn hundredfold_bits(bits: int) -> int {
    round_half_even_div(100 * bits, hundredfold_excess(bits))
}

/// The tenths of a percent that are shown for `current` out of `total`:
/// none where there is nothing to do or nothing done; else the share, taken
/// with 53 significant bits, a hundredfold, taken with 53 significant bits,
/// in tenths, each time rounded to the nearest and to the even of two.
pub open spec fn percent_tenths(current: u64, total: u64) -> int {
    if current == 0 || total == 0 {
        0
    } else {
        let n = float_value(current as int);
        let d = float_value(total as int);
        let bits = quotient_bits(n, d);
        round_half_even_div(
            10 * hundredfold_bits(bits) * hundredfold_excess(bits) * unit_down(d, n, 1),
            unit_up(n, d, 1) * 0x10_0000_0000_0000,
        )
    }
}

/// The text that shows a share in percent, with one digit after the point.
pub open spec fn percent_text(current: u64, total: u64) -> Seq<char> {
    decimal((percent_tenths(current, total) / 10) as nat) + seq!['.'] + decimal(
        (percent_tenths(current, total) % 10) as nat,
    )
}

/// The quotient `n / d` rounded to the nearest integer; of two that are
/// equally near, the even one.
fn rounded_quotient(n: u128, d: u128) -> (q: u128)
    requires
        0 < d <= 0x8000_0000_0000_0000_0000_0000_0000_0000,
        n < 0xffff_ffff_ffff_ffff_ffff_ffff_ffff_ffff,
    ensures
        q == round_half_even_div(n as int, d as int),
        q <= n / d + 1,
{
    let q = n / d;
    let r = n % d;
    proof {
        vstd::arithmetic::div_mod::lemma_fundamental_div_mod(n as int, d as int);
        vstd::arithmetic::div_mod::lemma_div_pos_is_pos(n as int, d as int);
        assert(q <= n) by (nonlinear_arith)
            requires
                n == d * q + r,
                d >= 1,
                q >= 0,
                r >= 0,
        ;
    }
    if r < d - r {
        q
    } else if r > d - r {
        q + 1
    } else if q % 2 == 0 {
        q
    } else {
        q + 1
    }
}

/// The tenths of a percent that are shown for `current` out of `total`.
pub fn percent_in_tenths(current: u64, total: u64) -> (tenths: u128)
    ensures
        tenths == percent_tenths(current, total),
{
    if current == 0 || total == 0 {
        return 0;
    }
    let n = to_float_value(current);
    let d = to_float_value(total);
    assert(n >= 1 && d >= 1) by {
        assert(float_value(current as int) >= 1);
        assert(float_value(total as int) >= 1);
    }
    let mut up: u128 = n;
    let mut up_unit: u128 = 1;
    while up < d
        invariant
            1 <= up_unit <= up,
            n < d ==> up < 2 * d,
            n >= d ==> up == n,
            d <= 0x1_0000_0000_0000_0800,
            scaled_up(n as int, d as int) == scaled_up(up as int, d as int),
            unit_up(n as int, d as int, 1) == unit_up(up as int, d as int, up_unit as int),
        decreases
                (if up < d {
                    d - up
                } else {
                    0
                }),
    {
        up = 2 * up;
        up_unit = 2 * up_unit;
    }
    let mut down: u128 = d;
    let mut down_unit: u128 = 1;
    while 2 * down <= n
        invariant
            1 <= down_unit <= down,
            down <= n || down == d,
            n < d ==> down == d,
            d <= 0x1_0000_0000_0000_0800,
            n <= 0x1_0000_0000_0000_0800,
            scaled_down(d as int, n as int) == scaled_down(down as int, n as int),
            unit_down(d as int, n as int, 1) == unit_down(down as int, n as int, down_unit as int),
        decreases
                (if down < n {
                    n - down
                } else {
                    0
                }),
    {
        down = 2 * down;
        down_unit = 2 * down_unit;
    }
    assert(up < 2 * down);
    let numerator: u128 = up * 0x10_0000_0000_0000;
    let bits = rounded_quotient(numerator, down);
    proof {
        assert(numerator < down * 0x20_0000_0000_0000);
        vstd::arithmetic::div_mod::lemma_multiply_divide_lt(
            numerator as int,
            down as int,
            0x20_0000_0000_0000,
        );
    }
    assert(bits <= 0x20_0000_0000_0000);
    let hundredfold: u128 = 100 * bits;
    let excess: u128 = if hundredfold < 0x800_0000_0000_0000 {
        64
    } else {
        128
    };
    let kept = rounded_quotient(hundredfold, excess);
    assert(kept <= 0x20_0000_0000_0000);
    assert(down_unit <= 0x1_0000_0000_0000_0800);
    let scaled: u128 = 10 * kept * excess;
    assert(scaled <= 10 * 0x20_0000_0000_0000 * 128) by (nonlinear_arith)
        requires
            kept <= 0x20_0000_0000_0000,
            excess <= 128,
            scaled == 10 * kept * excess,
    ;
    assert(scaled * down_unit <= 10 * 0x20_0000_0000_0000 * 128 * 0x1_0000_0000_0000_0800)
        by (nonlinear_arith)
        requires
            scaled <= 10 * 0x20_0000_0000_0000 * 128,
            down_unit <= 0x1_0000_0000_0000_0800,
    ;
    let shown: u128 = scaled * down_unit;
    let unit: u128 = up_unit * 0x10_0000_0000_0000;
    rounded_quotient(shown, unit)
}

/// Shows a share in percent, with one digit after the point.
pub fn format_percent(current: u64, total: u64) -> (text: String)
    ensures
        text@ == percent_text(current, total),
{
    let tenths = percent_in_tenths(current, total);
    let mut out: Vec<char> = Vec::new();
    push_decimal(tenths / 10, &mut out);
    out.push('.');
    push_decimal(tenths % 10, &mut out);
    assert(out@ =~= percent_text(current, total));
    string_of(&out)
}

/// Appends the characters of `text` to `out`.
pub fn push_text(out: &mut Vec<char>, text: &str)
    ensures
        final(out)@ == old(out)@ + text@,
{
    let chars = chars_of(text);
    let mut i: usize = 0;
    assert(old(out)@ + chars@.take(0) =~= old(out)@);
    while i < chars.len()
        invariant
            i <= chars.len(),
            chars@ == text@,
            out@ == old(out)@ + chars@.take(i as int),
        decreases chars.len() - i,
    {
        out.push(chars[i]);
        i += 1;
        assert(out@ =~= old(out)@ + chars@.take(i as int));
    }
    assert(chars@.take(i as int) =~= chars@);
}

} // verus!
