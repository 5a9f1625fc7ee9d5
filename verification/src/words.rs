//! 16-bit word arithmetic: wraparound, two's-complement reinterpretation,
//! and truncated (toward-zero) signed division, with executable helpers
//! proved against the mathematical definitions.

use vstd::prelude::*;

verus! {

use vstd::arithmetic::div_mod::{
    lemma_fundamental_div_mod,
    lemma_fundamental_div_mod_converse,
    lemma_mod_multiples_vanish,
    lemma_small_mod,
};
use vstd::math::abs;

/// The low 16 bits of an integer: the unique value in `0..0x10000`
/// congruent to `x` modulo 2^16.
pub open spec fn w16(x: int) -> u16 {
    (x % 0x10000) as u16
}

/// A 16-bit word reinterpreted as a signed two's-complement value,
/// in `-0x8000..0x8000`.
pub open spec fn s16(x: u16) -> int {
    if x >= 0x8000 {
        x - 0x10000
    } else {
        x as int
    }
}

/// Signed division truncated toward zero: the quotient's magnitude is the
/// quotient of the magnitudes, and its sign is negative exactly when the
/// operands' signs differ.
pub open spec fn tdiv(x: int, y: int) -> int {
    if (x < 0) != (y < 0) {
        -(abs(x) as int / abs(y) as int)
    } else {
        abs(x) as int / abs(y) as int
    }
}

/// The remainder matching `tdiv`: its magnitude is the remainder of the
/// magnitudes, and its sign follows the dividend.
pub open spec fn tmod(x: int, y: int) -> int {
    if x < 0 {
        -(abs(x) as int % abs(y) as int)
    } else {
        abs(x) as int % abs(y) as int
    }
}

/// `x % m` for a negative dividend, written out: stepping the magnitude's
/// remainder back from `m`.
proof fn lemma_mod_of_neg(n: int, m: int)
    requires
        n > 0,
        m > 0,
    ensures
        (-n) % m == if n % m == 0 {
            0int
        } else {
            m - n % m
        },
{
    lemma_fundamental_div_mod(n, m);
    let q = n / m;
    let r = n % m;
    if r == 0 {
        assert(-n == (-q) * m + 0) by (nonlinear_arith)
            requires n == m * q + r, r == 0,
        ;
        lemma_fundamental_div_mod_converse(-n, m, -q, 0);
    } else {
        assert(-n == (-q - 1) * m + (m - r)) by (nonlinear_arith)
            requires n == m * q + r,
        ;
        lemma_fundamental_div_mod_converse(-n, m, -q - 1, m - r);
    }
}

/// Floor division of a negative dividend by a positive divisor is the
/// negated ceiling of the magnitudes' quotient.
proof fn lemma_div_of_neg(n: int, d: int)
    requires
        n > 0,
        d > 0,
    ensures
        (-n) / d == -((n + d - 1) / d),
{
    lemma_fundamental_div_mod(n, d);
    let q = n / d;
    let r = n % d;
    if r == 0 {
        assert(-n == (-q) * d + 0) by (nonlinear_arith)
            requires n == d * q + r, r == 0,
        ;
        lemma_fundamental_div_mod_converse(-n, d, -q, 0);
        assert(n + d - 1 == q * d + (d - 1)) by (nonlinear_arith)
            requires n == d * q + r, r == 0,
        ;
        lemma_fundamental_div_mod_converse(n + d - 1, d, q, d - 1);
    } else {
        assert(-n == (-q - 1) * d + (d - r)) by (nonlinear_arith)
            requires n == d * q + r,
        ;
        lemma_fundamental_div_mod_converse(-n, d, -q - 1, d - r);
        assert(n + d - 1 == (q + 1) * d + (r - 1)) by (nonlinear_arith)
            requires n == d * q + r,
        ;
        lemma_fundamental_div_mod_converse(n + d - 1, d, q + 1, r - 1);
    }
}

/// Taking the low 16 bits first does not change a sum's low 16 bits.
pub proof fn lemma_w16_add(x: int, y: int)
    ensures
        w16(w16(x) + y) == w16(x + y),
{
    lemma_fundamental_div_mod(x, 0x10000);
    let q = x / 0x10000;
    lemma_mod_multiples_vanish(-q, x + y, 0x10000);
    assert(0x10000 * (-q) + (x + y) == w16(x) + y);
}

/// Addition modulo 2^16.
pub fn wadd(x: u16, y: u16) -> (r: u16)
    ensures
        r == w16(x + y),
{
    let s: u32 = x as u32 + y as u32;
    let m: u32 = s % 0x10000;
    m as u16
}

/// Subtraction modulo 2^16.
pub fn wsub(x: u16, y: u16) -> (r: u16)
    ensures
        r == w16(x - y),
{
    if x >= y {
        proof {
            lemma_small_mod((x - y) as nat, 0x10000);
        }
        x - y
    } else {
        proof {
            lemma_fundamental_div_mod_converse(x - y, 0x10000, -1, 0x10000 + x - y);
        }
        (0x10000u32 + x as u32 - y as u32) as u16
    }
}

/// The low 16 bits of a (possibly negative) 64-bit value.
pub fn low16(x: i64) -> (r: u16)
    requires
        -0x4000_0000_0000_0000 <= x <= 0x4000_0000_0000_0000,
    ensures
        r == w16(x as int),
{
    if x >= 0 {
        ((x as u64) % 0x10000) as u16
    } else {
        let n: u64 = (-x) as u64;
        let m: u64 = n % 0x10000;
        proof {
            lemma_mod_of_neg(n as int, 0x10000);
        }
        if m == 0 {
            0u16
        } else {
            (0x10000 - m) as u16
        }
    }
}

/// Floor division of a bounded signed value by a positive divisor.
pub fn fdiv(x: i64, d: u64) -> (r: i64)
    requires
        1 <= d <= 0x8000_0000_0000_0000,
        -0x4000_0000_0000 <= x <= 0x4000_0000_0000,
    ensures
        r == (x as int) / (d as int),
        -0x4000_0000_0001 <= r <= 0x4000_0000_0000,
{
    if x >= 0 {
        let q: u64 = (x as u64) / d;
        proof {
            assert((x as int) / (d as int) <= x) by (nonlinear_arith)
                requires x >= 0, d >= 1,
            ;
            assert((x as int) / (d as int) >= 0) by (nonlinear_arith)
                requires x >= 0, d >= 1,
            ;
        }
        q as i64
    } else {
        let n: u64 = (-x) as u64;
        let q: u64 = (n + d - 1) / d;
        proof {
            lemma_div_of_neg(n as int, d as int);
            assert((n + d - 1) as int / (d as int) >= 0) by (nonlinear_arith)
                requires n >= 1, d >= 1,
            ;
            assert((n + d - 1) as int / (d as int) <= n as int) by (nonlinear_arith)
                requires n >= 1, d >= 1,
            ;
        }
        -(q as i64)
    }
}

/// The signed value a 16-bit word stands for.
pub fn to_signed(x: u16) -> (r: i32)
    ensures
        r == s16(x),
{
    if x >= 0x8000 {
        x as i32 - 0x10000
    } else {
        x as i32
    }
}

/// The magnitude of a signed 16-bit value.
pub fn mag16(r: i32) -> (m: u64)
    requires
        -0x8000 <= r <= 0x7FFF,
    ensures
        m == abs(r as int),
{
    if r < 0 {
        (-r) as u64
    } else {
        r as u64
    }
}

} // verus!
