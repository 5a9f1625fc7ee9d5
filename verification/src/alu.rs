//! The arithmetic/logic unit: for each basic opcode, the value written back
//! to `b` and the new EX (overflow/carry) register, exactly as the
//! architecture's opcode table states them. All results are masked to 16
//! bits; division or modulo by zero yields zero by definition and never
//! faults; shift amounts of any size have defined results.

use vstd::prelude::*;

verus! {

use vstd::arithmetic::div_mod::{
    lemma_basic_div,
    lemma_div_by_multiple,
    lemma_fundamental_div_mod_converse,
    lemma_mod_multiples_basic,
    lemma_small_mod,
};
use vstd::arithmetic::mul::{lemma_mul_is_associative, lemma_mul_strict_inequality};
use vstd::arithmetic::power2::{
    lemma2_to64,
    lemma2_to64_rest,
    lemma_pow2_adds,
    lemma_pow2_pos,
    lemma_pow2_strictly_increases,
    pow2,
};
use vstd::bits::{lemma_u64_pow2_no_overflow, lemma_u64_shl_is_mul, lemma_u64_shr_is_div};
use crate::decode::Op;
use crate::words::{fdiv, low16, mag16, s16, tdiv, tmod, to_signed, w16, wsub};

/// What a non-conditional basic opcode computes from the old destination
/// value `b`, the source value `a` and the old EX register: the 16-bit
/// result written to `b`, and the new EX value where the opcode sets one
/// (`None` leaves EX untouched). Conditional opcodes write nothing and are
/// handled by the skip logic; for them this yields `(b, None)`.
pub open spec fn spec_alu(op: Op, b: u16, a: u16, ex: u16) -> (u16, Option<u16>) {
    match op {
        Op::SET => (a, None),
        Op::ADD => (w16(b + a), Some(if b + a > 0xFFFF { 1u16 } else { 0u16 })),
        Op::SUB => (w16(b - a), Some(if b - a < 0 { 0xFFFFu16 } else { 0u16 })),
        Op::MUL => (w16(b * a), Some(w16((b * a) / 0x10000))),
        Op::MLI => (w16(s16(b) * s16(a)), Some(w16((s16(b) * s16(a)) / 0x10000))),
        Op::DIV => if a == 0 {
            (0u16, Some(0u16))
        } else {
            (w16(b as int / a as int), Some(w16((b * 0x10000) / (a as int))))
        },
        Op::DVI => if a == 0 {
            (0u16, Some(0u16))
        } else {
            (w16(tdiv(s16(b), s16(a))), Some(w16(tdiv(s16(b) * 0x10000, s16(a)))))
        },
        Op::MOD => (if a == 0 { 0u16 } else { w16(b as int % a as int) }, None),
        Op::MDI => (if a == 0 { 0u16 } else { w16(tmod(s16(b), s16(a))) }, None),
        Op::AND => (b & a, None),
        Op::BOR => (b | a, None),
        Op::XOR => (b ^ a, None),
        Op::SHR => (
            w16(b as int / pow2(a as nat) as int),
            Some(w16((b * 0x10000) / pow2(a as nat) as int)),
        ),
        Op::ASR => (
            w16(s16(b) / pow2(a as nat) as int),
            Some(w16((b * 0x10000) / pow2(a as nat) as int)),
        ),
        Op::SHL => (
            w16(b * pow2(a as nat)),
            Some(w16((b * pow2(a as nat)) / 0x10000)),
        ),
        Op::ADX => (w16(b + a + ex), Some(if b + a + ex > 0xFFFF { 1u16 } else { 0u16 })),
        Op::SBX => (w16(b - a + ex), Some(if b - a + ex < 0 { 0xFFFFu16 } else { 0u16 })),
        Op::STI => (a, None),
        Op::STD => (a, None),
        _ => (b, None),
    }
}

/// Whether a conditional opcode's test holds for destination value `b` and
/// source value `a`. For non-conditional opcodes this is meaningless and
/// yields `false`.
pub open spec fn spec_cond(op: Op, b: u16, a: u16) -> bool {
    match op {
        Op::IFB => b & a != 0,
        Op::IFC => b & a == 0,
        Op::IFE => b == a,
        Op::IFN => b != a,
        Op::IFG => b > a,
        Op::IFA => s16(b) > s16(a),
        Op::IFL => b < a,
        Op::IFU => s16(b) < s16(a),
        _ => false,
    }
}

/// Evaluate a conditional opcode's test.
pub fn eval_cond(op: Op, b: u16, a: u16) -> (r: bool)
    ensures
        r == spec_cond(op, b, a),
{
    match op {
        Op::IFB => b & a != 0,
        Op::IFC => b & a == 0,
        Op::IFE => b == a,
        Op::IFN => b != a,
        Op::IFG => b > a,
        Op::IFA => to_signed(b) > to_signed(a),
        Op::IFL => b < a,
        Op::IFU => to_signed(b) < to_signed(a),
        _ => false,
    }
}

/// The quotient of the EX numerator `b << 16` by `2^a`, masked to 16 bits:
/// the shared EX formula of SHR and ASR.
fn shift_right_ex(b: u16, a: u16) -> (e: u16)
    ensures
        e == w16((b * 0x10000) / pow2(a as nat) as int),
{
    proof {
        lemma2_to64();
    }
    if a >= 64 {
        proof {
            lemma_pow2_strictly_increases(32, a as nat);
            lemma_basic_div(b * 0x10000, pow2(a as nat) as int);
            lemma_small_mod(0, 0x10000);
        }
        0u16
    } else {
        let num: u64 = (b as u64) << 16;
        proof {
            lemma_u64_shl_is_mul(b as u64, 16);
        }
        let t: u64 = num >> (a as u64);
        proof {
            lemma_u64_shr_is_div(num, a as u64);
        }
        (t % 0x10000) as u16
    }
}

/// Apply one non-conditional basic opcode: returns the 16-bit result and
/// the new EX value, if the opcode sets one.
pub fn alu(op: Op, b: u16, a: u16, ex: u16) -> (r: (u16, Option<u16>))
    ensures
        r == spec_alu(op, b, a, ex),
{
    match op {
        Op::SET => (a, None),
        Op::ADD => {
            let s: u32 = b as u32 + a as u32;
            ((s % 0x10000) as u16, Some(if s > 0xFFFF { 1u16 } else { 0u16 }))
        },
        Op::SUB => (wsub(b, a), Some(if b < a { 0xFFFFu16 } else { 0u16 })),
        Op::MUL => {
            proof {
                assert(b * a <= 0xFFFF * 0xFFFF) by (nonlinear_arith)
                    requires b <= 0xFFFF, a <= 0xFFFF,
                ;
                lemma_small_mod(((b * a) / 0x10000) as nat, 0x10000);
            }
            let p: u32 = b as u32 * a as u32;
            ((p % 0x10000) as u16, Some((p / 0x10000) as u16))
        },
        Op::MLI => {
            let sb: i32 = to_signed(b);
            let sa: i32 = to_signed(a);
            proof {
                assert(-0x4000_0000 <= sb as int * sa as int <= 0x4000_0000) by (nonlinear_arith)
                    requires -0x8000 <= sb <= 0x7FFF, -0x8000 <= sa <= 0x7FFF,
                ;
            }
            let p: i64 = sb as i64 * sa as i64;
            let hi: i64 = fdiv(p, 0x10000);
            (low16(p), Some(low16(hi)))
        },
        Op::DIV => {
            if a == 0 {
                (0u16, Some(0u16))
            } else {
                let v: u16 = b / a;
                proof {
                    lemma_small_mod((b as int / a as int) as nat, 0x10000);
                    lemma2_to64();
                    lemma_u64_shl_is_mul(b as u64, 16);
                }
                let num: u64 = (b as u64) << 16;
                let q: u64 = num / (a as u64);
                (v, Some((q % 0x10000) as u16))
            }
        },
        Op::DVI => {
            if a == 0 {
                (0u16, Some(0u16))
            } else {
                let sb: i32 = to_signed(b);
                let sa: i32 = to_signed(a);
                let nb: u64 = mag16(sb);
                let na: u64 = mag16(sa);
                let neg: bool = (sb < 0) != (sa < 0);
                let q: u64 = nb / na;
                let exq: u64 = (nb * 0x10000) / na;
                proof {
                    assert(nb as int / na as int <= nb) by (nonlinear_arith)
                        requires na >= 1, nb >= 0,
                    ;
                    assert((nb * 0x10000) as int / na as int <= nb * 0x10000) by (nonlinear_arith)
                        requires na >= 1, nb >= 0,
                    ;
                }
                let v: u16 = if neg {
                    low16(-(q as i64))
                } else {
                    low16(q as i64)
                };
                let e: u16 = if neg {
                    low16(-(exq as i64))
                } else {
                    low16(exq as i64)
                };
                (v, Some(e))
            }
        },
        Op::MOD => {
            if a == 0 {
                (0u16, None)
            } else {
                proof {
                    lemma_small_mod((b as int % a as int) as nat, 0x10000);
                }
                (b % a, None)
            }
        },
        Op::MDI => {
            if a == 0 {
                (0u16, None)
            } else {
                let sb: i32 = to_signed(b);
                let sa: i32 = to_signed(a);
                let nb: u64 = mag16(sb);
                let na: u64 = mag16(sa);
                let m: u64 = nb % na;
                let v: u16 = if sb < 0 {
                    low16(-(m as i64))
                } else {
                    low16(m as i64)
                };
                (v, None)
            }
        },
        Op::AND => (b & a, None),
        Op::BOR => (b | a, None),
        Op::XOR => (b ^ a, None),
        Op::SHR => {
            let e: u16 = shift_right_ex(b, a);
            if a >= 64 {
                proof {
                    lemma2_to64();
                    lemma_pow2_strictly_increases(16, a as nat);
                    lemma_basic_div(b as int, pow2(a as nat) as int);
                    lemma_small_mod(0, 0x10000);
                }
                (0u16, Some(e))
            } else {
                let v64: u64 = (b as u64) >> (a as u64);
                proof {
                    lemma_u64_shr_is_div(b as u64, a as u64);
                    lemma_pow2_pos(a as nat);
                    assert(b as int / pow2(a as nat) as int <= b) by (nonlinear_arith)
                        requires pow2(a as nat) >= 1, b >= 0,
                    ;
                    lemma_small_mod((b as int / pow2(a as nat) as int) as nat, 0x10000);
                }
                (v64 as u16, Some(e))
            }
        },
        Op::ASR => {
            let sb: i32 = to_signed(b);
            let e: u16 = shift_right_ex(b, a);
            if a >= 64 {
                let v: u16 = if sb < 0 {
                    proof {
                        lemma_pow2_strictly_increases(16, a as nat);
                        lemma2_to64();
                        lemma_fundamental_div_mod_converse(
                            s16(b),
                            pow2(a as nat) as int,
                            -1,
                            pow2(a as nat) + s16(b),
                        );
                        lemma_fundamental_div_mod_converse(-1, 0x10000, -1, 0xFFFF);
                    }
                    0xFFFFu16
                } else {
                    proof {
                        lemma_pow2_strictly_increases(16, a as nat);
                        lemma2_to64();
                        lemma_basic_div(s16(b), pow2(a as nat) as int);
                        lemma_small_mod(0, 0x10000);
                    }
                    0u16
                };
                (v, Some(e))
            } else {
                proof {
                    lemma_u64_pow2_no_overflow(a as nat);
                }
                let pd: u64 = 1u64 << (a as u64);
                proof {
                    lemma_u64_shl_is_mul(1u64, a as u64);
                    lemma_pow2_pos(a as nat);
                    lemma2_to64_rest();
                    if a < 63 {
                        lemma_pow2_strictly_increases(a as nat, 63);
                    }
                }
                let q: i64 = fdiv(sb as i64, pd);
                (low16(q), Some(e))
            }
        },
        Op::SHL => {
            if a >= 48 {
                proof {
                    lemma_shl_high_vanishes(b, a);
                }
                (0u16, Some(0u16))
            } else {
                proof {
                    lemma_pow2_pos(a as nat);
                    lemma_u64_pow2_no_overflow((a + 16) as nat);
                    lemma_pow2_adds(16, a as nat);
                    lemma2_to64();
                    lemma_mul_strict_inequality(b as int, 0x10000, pow2(a as nat) as int);
                }
                let x: u64 = (b as u64) << (a as u64);
                proof {
                    lemma_u64_shl_is_mul(b as u64, a as u64);
                }
                let v: u16 = (x % 0x10000) as u16;
                let hi: u64 = x >> 16;
                proof {
                    lemma_u64_shr_is_div(x, 16);
                    lemma2_to64();
                }
                let e: u16 = (hi % 0x10000) as u16;
                (v, Some(e))
            }
        },
        Op::ADX => {
            let s: u32 = b as u32 + a as u32 + ex as u32;
            ((s % 0x10000) as u16, Some(if s > 0xFFFF { 1u16 } else { 0u16 }))
        },
        Op::SBX => {
            let d: i64 = b as i64 - a as i64 + ex as i64;
            (low16(d), Some(if d < 0 { 0xFFFFu16 } else { 0u16 }))
        },
        Op::STI => (a, None),
        Op::STD => (a, None),
        Op::IFB | Op::IFC | Op::IFE | Op::IFN | Op::IFG | Op::IFA | Op::IFL | Op::IFU => (b, None),
    }
}

/// A left shift by 48 or more drives both the 16-bit result and the EX
/// word to zero: the product `b * 2^a` is a multiple of 2^16 whose
/// quotient by 2^16 is still a multiple of 2^16.
proof fn lemma_shl_high_vanishes(b: u16, a: u16)
    requires
        a >= 48,
    ensures
        w16(b * pow2(a as nat)) == 0,
        w16((b * pow2(a as nat)) / 0x10000) == 0,
{
    lemma2_to64();
    lemma_pow2_adds((a - 16) as nat, 16);
    lemma_mul_is_associative(b as int, pow2((a - 16) as nat) as int, 0x10000);
    lemma_mod_multiples_basic(b * pow2((a - 16) as nat), 0x10000);
    assert(w16(b * pow2(a as nat)) == 0);
    lemma_pow2_pos((a - 16) as nat);
    lemma_div_by_multiple(b * pow2((a - 16) as nat), 0x10000);
    lemma_pow2_adds((a - 32) as nat, 16);
    lemma_mul_is_associative(b as int, pow2((a - 32) as nat) as int, 0x10000);
    lemma_mod_multiples_basic(b * pow2((a - 32) as nat), 0x10000);
}

} // verus!
