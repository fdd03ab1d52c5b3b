use vstd::prelude::*;
use crate::word::{signed16, signed8};

verus! {

pub open spec fn carry_value(c: bool) -> int {
    if c {
        1
    } else {
        0
    }
}

pub open spec fn pow16(n: nat) -> nat
    decreases n,
{
    if n == 0 {
        1
    } else {
        16 * pow16((n - 1) as nat)
    }
}

pub open spec fn pow10(n: nat) -> nat
    decreases n,
{
    if n == 0 {
        1
    } else {
        10 * pow10((n - 1) as nat)
    }
}

/// One decimal digit of an addition: the digit and the carry out. A sum
/// past nine is corrected by six, as the hardware does for any nibble.
pub open spec fn digit_add(x: int, y: int, c: int) -> (int, int) {
    let s = x + y + c;
    if s > 9 {
        ((s + 6) % 16, 1)
    } else {
        (s, 0)
    }
}

/// One decimal digit of a subtraction: the digit and the borrow out.
pub open spec fn digit_sub(x: int, y: int, b: int) -> (int, int) {
    let s = x - y - b;
    if s < 0 {
        ((s + 10) % 16, 1)
    } else {
        (s, 0)
    }
}

/// Digit-wise decimal addition of the low `n` nibbles of `a` and `b` with
/// carry in `c`: the packed result and the carry out of the top digit.
pub open spec fn bcd_add(a: nat, b: nat, c: int, n: nat) -> (nat, int)
    decreases n,
{
    if n == 0 {
        (0, c)
    } else {
        let (d, c1) = digit_add(a as int % 16, b as int % 16, c);
        let (rest, cout) = bcd_add(a / 16, b / 16, c1, (n - 1) as nat);
        ((rest * 16 + d) as nat, cout)
    }
}

/// Digit-wise decimal subtraction of the low `n` nibbles with borrow in
/// `b0`: the packed result and the borrow out of the top digit.
pub open spec fn bcd_sub(a: nat, b: nat, b0: int, n: nat) -> (nat, int)
    decreases n,
{
    if n == 0 {
        (0, b0)
    } else {
        let (d, b1) = digit_sub(a as int % 16, b as int % 16, b0);
        let (rest, bout) = bcd_sub(a / 16, b / 16, b1, (n - 1) as nat);
        ((rest * 16 + d) as nat, bout)
    }
}

/// Every one of the low `n` nibbles of `a` is a decimal digit.
pub open spec fn is_bcd(a: nat, n: nat) -> bool
    decreases n,
{
    n == 0 || (a % 16 <= 9 && is_bcd(a / 16, (n - 1) as nat))
}

/// The number that the low `n` nibbles of `a` spell in decimal.
pub open spec fn bcd_value(a: nat, n: nat) -> nat
    decreases n,
{
    if n == 0 {
        0
    } else {
        a % 16 + 10 * bcd_value(a / 16, (n - 1) as nat)
    }
}

/// Signed overflow of `a + v + c` at 8 or 16 bits.
pub open spec fn add_overflow(a: u16, v: u16, c: bool, wide: bool) -> bool {
    if wide {
        let s = signed16(a) + signed16(v) + carry_value(c);
        s < -0x8000 || s > 0x7FFF
    } else {
        let s = signed8(a as u8) + signed8(v as u8) + carry_value(c);
        s < -0x80 || s > 0x7F
    }
}

/// Signed overflow of `a - v - (1 - c)` at 8 or 16 bits.
pub open spec fn sub_overflow(a: u16, v: u16, c: bool, wide: bool) -> bool {
    if wide {
        let s = signed16(a) - signed16(v) - (1 - carry_value(c));
        s < -0x8000 || s > 0x7FFF
    } else {
        let s = signed8(a as u8) - signed8(v as u8) - (1 - carry_value(c));
        s < -0x80 || s > 0x7F
    }
}

pub open spec fn modulus(wide: bool) -> int {
    if wide {
        0x10000
    } else {
        0x100
    }
}

pub open spec fn digits(wide: bool) -> nat {
    if wide {
        4
    } else {
        2
    }
}

/// ADC on operands of the given width: the result and the carry out.
pub open spec fn adc_result(a: u16, v: u16, c: bool, decimal: bool, wide: bool) -> (u16, bool) {
    if decimal {
        let r = bcd_add(a as nat, v as nat, carry_value(c), digits(wide));
        (r.0 as u16, r.1 == 1)
    } else {
        let s = a + v + carry_value(c);
        ((s % modulus(wide)) as u16, s >= modulus(wide))
    }
}

/// SBC on operands of the given width: the result and the carry out (set
/// when no borrow occurred).
pub open spec fn sbc_result(a: u16, v: u16, c: bool, decimal: bool, wide: bool) -> (u16, bool) {
    if decimal {
        let r = bcd_sub(a as nat, v as nat, 1 - carry_value(c), digits(wide));
        (r.0 as u16, r.1 == 0)
    } else {
        let s = a - v - (1 - carry_value(c));
        ((s % modulus(wide)) as u16, s >= 0)
    }
}

fn decimal_add(a: u32, b: u32, c: u32, n: u32) -> (r: (u32, u32))
    requires
        n <= 4,
        c <= 1,
    ensures
        r.0 == bcd_add(a as nat, b as nat, c as int, n as nat).0,
        r.1 == bcd_add(a as nat, b as nat, c as int, n as nat).1,
        r.0 < pow16(n as nat),
        r.1 <= 1,
    decreases n,
{
    if n == 0 {
        (0, c)
    } else {
        let s = a % 16 + b % 16 + c;
        let (d, c1): (u32, u32) = if s > 9 {
            ((s + 6) % 16, 1)
        } else {
            (s, 0)
        };
        let (rest, cout) = decimal_add(a / 16, b / 16, c1, n - 1);
        proof {
            assert(pow16(n as nat) == 16 * pow16((n - 1) as nat));
            assert(rest * 16 + d < pow16(n as nat)) by (nonlinear_arith)
                requires
                    rest < pow16((n - 1) as nat),
                    d < 16,
                    pow16(n as nat) == 16 * pow16((n - 1) as nat),
            ;
            lemma_pow16_bound(n as nat);
        }
        (rest * 16 + d, cout)
    }
}

fn decimal_sub(a: u32, b: u32, b0: u32, n: u32) -> (r: (u32, u32))
    requires
        n <= 4,
        b0 <= 1,
    ensures
        r.0 == bcd_sub(a as nat, b as nat, b0 as int, n as nat).0,
        r.1 == bcd_sub(a as nat, b as nat, b0 as int, n as nat).1,
        r.0 < pow16(n as nat),
        r.1 <= 1,
    decreases n,
{
    if n == 0 {
        (0, b0)
    } else {
        let x = a % 16;
        let y = b % 16 + b0;
        let (d, b1): (u32, u32) = if x < y {
            ((x + 26 - y) % 16, 1)
        } else {
            (x - y, 0)
        };
        let (rest, bout) = decimal_sub(a / 16, b / 16, b1, n - 1);
        proof {
            assert(pow16(n as nat) == 16 * pow16((n - 1) as nat));
            assert(rest * 16 + d < pow16(n as nat)) by (nonlinear_arith)
                requires
                    rest < pow16((n - 1) as nat),
                    d < 16,
                    pow16(n as nat) == 16 * pow16((n - 1) as nat),
            ;
            lemma_pow16_bound(n as nat);
            if x < y {
                assert((x - y + 10) % 16 == (x + 26 - y) % 16) by {
                    vstd::arithmetic::div_mod::lemma_mod_add_multiples_vanish(x - y + 10, 16);
                }
            }
        }
        (rest * 16 + d, bout)
    }
}

pub proof fn lemma_pow16_bound(n: nat)
    requires
        n <= 4,
    ensures
        pow16(n) <= 0x10000,
{
    reveal_with_fuel(pow16, 5);
}

/// Adds `v` and the carry to `a` at 8 or 16 bits, in binary or decimal.
pub fn add_with_carry(a: u16, v: u16, c: bool, decimal: bool, wide: bool) -> (r: (u16, bool))
    requires
        !wide ==> a < 0x100 && v < 0x100,
    ensures
        r == adc_result(a, v, c, decimal, wide),
        !wide ==> r.0 < 0x100,
{
    let ci: u32 = if c {
        1
    } else {
        0
    };
    if decimal {
        let n: u32 = if wide {
            4
        } else {
            2
        };
        let (r, cout) = decimal_add(a as u32, v as u32, ci, n);
        proof {
            reveal_with_fuel(pow16, 3);
        }
        (r as u16, cout == 1)
    } else {
        let s: u32 = a as u32 + v as u32 + ci;
        let m: u32 = if wide {
            0x10000
        } else {
            0x100
        };
        ((s % m) as u16, s >= m)
    }
}

/// Subtracts `v` and the borrow (the inverted carry) from `a` at 8 or 16
/// bits, in binary or decimal.
pub fn subtract_with_carry(a: u16, v: u16, c: bool, decimal: bool, wide: bool) -> (r: (u16, bool))
    requires
        !wide ==> a < 0x100 && v < 0x100,
    ensures
        r == sbc_result(a, v, c, decimal, wide),
        !wide ==> r.0 < 0x100,
{
    let borrow: u32 = if c {
        0
    } else {
        1
    };
    if decimal {
        let n: u32 = if wide {
            4
        } else {
            2
        };
        let (r, bout) = decimal_sub(a as u32, v as u32, borrow, n);
        proof {
            reveal_with_fuel(pow16, 3);
        }
        (r as u16, bout == 0)
    } else {
        let m: u32 = if wide {
            0x10000
        } else {
            0x100
        };
        let s: u32 = a as u32 + m - v as u32 - borrow;
        proof {
            let t = a - v - borrow;
            assert(t % (m as int) == (s as int) % (m as int)) by {
                vstd::arithmetic::div_mod::lemma_mod_add_multiples_vanish(t, m as int);
            }
        }
        ((s % m) as u16, a as u32 >= v as u32 + borrow)
    }
}

/// Signed overflow of an addition.
pub fn overflow_of_add(a: u16, v: u16, c: bool, wide: bool) -> (r: bool)
    ensures
        r == add_overflow(a, v, c, wide),
{
    let ci: i32 = if c {
        1
    } else {
        0
    };
    if wide {
        let s = signed_16(a) + signed_16(v) + ci;
        s < -0x8000 || s > 0x7FFF
    } else {
        let s = signed_8(a as u8) + signed_8(v as u8) + ci;
        s < -0x80 || s > 0x7F
    }
}

/// Signed overflow of a subtraction.
pub fn overflow_of_sub(a: u16, v: u16, c: bool, wide: bool) -> (r: bool)
    ensures
        r == sub_overflow(a, v, c, wide),
{
    let borrow: i32 = if c {
        0
    } else {
        1
    };
    if wide {
        let s = signed_16(a) - signed_16(v) - borrow;
        s < -0x8000 || s > 0x7FFF
    } else {
        let s = signed_8(a as u8) - signed_8(v as u8) - borrow;
        s < -0x80 || s > 0x7F
    }
}

fn signed_8(v: u8) -> (r: i32)
    ensures
        r == signed8(v),
{
    if v >= 0x80 {
        v as i32 - 0x100
    } else {
        v as i32
    }
}

fn signed_16(v: u16) -> (r: i32)
    ensures
        r == signed16(v),
{
    if v >= 0x8000 {
        v as i32 - 0x10000
    } else {
        v as i32
    }
}

/// The packed result of a digit-wise addition has `n` nibbles.
pub proof fn lemma_bcd_add_bound(a: nat, b: nat, c: int, n: nat)
    requires
        0 <= c <= 1,
    ensures
        bcd_add(a, b, c, n).0 < pow16(n),
        0 <= bcd_add(a, b, c, n).1 <= 1,
    decreases n,
{
    if n > 0 {
        let (d, c1) = digit_add(a as int % 16, b as int % 16, c);
        lemma_bcd_add_bound(a / 16, b / 16, c1, (n - 1) as nat);
        let rest = bcd_add(a / 16, b / 16, c1, (n - 1) as nat).0;
        assert(rest * 16 + d < pow16(n)) by (nonlinear_arith)
            requires
                rest < pow16((n - 1) as nat),
                0 <= d < 16,
                pow16(n) == 16 * pow16((n - 1) as nat),
        ;
    }
}

/// A decimal number of `n` valid digits is below `10^n`.
pub proof fn lemma_bcd_value_bound(a: nat, n: nat)
    requires
        is_bcd(a, n),
    ensures
        bcd_value(a, n) < pow10(n),
    decreases n,
{
    if n > 0 {
        lemma_bcd_value_bound(a / 16, (n - 1) as nat);
    }
}

/// Decimal ADC on valid decimal digits is decimal addition: every digit of
/// the result is a decimal digit, the result spells the sum modulo `10^n`,
/// and the carry out is set exactly when the sum reaches `10^n`.
pub proof fn lemma_bcd_add_decimal(a: nat, b: nat, c: int, n: nat)
    requires
        is_bcd(a, n),
        is_bcd(b, n),
        0 <= c <= 1,
    ensures
        is_bcd(bcd_add(a, b, c, n).0, n),
        bcd_value(bcd_add(a, b, c, n).0, n) == (bcd_value(a, n) + bcd_value(b, n) + c) % (pow10(
            n,
        ) as int),
        bcd_add(a, b, c, n).1 == if bcd_value(a, n) + bcd_value(b, n) + c >= pow10(n) {
            1int
        } else {
            0int
        },
    decreases n,
{
    if n > 0 {
        let x = a as int % 16;
        let y = b as int % 16;
        let (d, c1) = digit_add(x, y, c);
        let n1 = (n - 1) as nat;
        lemma_bcd_add_decimal(a / 16, b / 16, c1, n1);
        lemma_bcd_value_bound(a / 16, n1);
        lemma_bcd_value_bound(b / 16, n1);
        let (rest, cout) = bcd_add(a / 16, b / 16, c1, n1);
        let r = (rest * 16 + d) as nat;
        assert(0 <= d <= 9);
        assert(x + y + c == d + 10 * c1);
        assert(r % 16 == d && r / 16 == rest);
        let p = pow10(n1) as int;
        let t = bcd_value(a / 16, n1) + bcd_value(b / 16, n1) + c1;
        let rv = bcd_value(rest, n1) as int;
        assert(rv == t % p);
        assert(0 <= t < 2 * p);
        assert(pow10(n) == 10 * p);
        let total = bcd_value(a, n) + bcd_value(b, n) + c;
        assert(total == d + 10 * t);
        if t >= p {
            assert(rv == t - p) by {
                vstd::arithmetic::div_mod::lemma_mod_add_multiples_vanish(t - p, p);
                vstd::arithmetic::div_mod::lemma_small_mod((t - p) as nat, p as nat);
            }
            assert(total == (d + 10 * rv) + 10 * p);
            vstd::arithmetic::div_mod::lemma_mod_add_multiples_vanish(d + 10 * rv, 10 * p);
            vstd::arithmetic::div_mod::lemma_small_mod((d + 10 * rv) as nat, (10 * p) as nat);
        } else {
            vstd::arithmetic::div_mod::lemma_small_mod(t as nat, p as nat);
            vstd::arithmetic::div_mod::lemma_small_mod((d + 10 * rv) as nat, (10 * p) as nat);
        }
    }
}

} // verus!
