//! The library's general laws, proved once for every input: SET stores its
//! source and advances PC by the exact word count, ADD and SUB round-trip,
//! the overflow flags are exact, and division or modulo by zero yields
//! zero without faulting.

use vstd::prelude::*;

verus! {

use vstd::arithmetic::div_mod::{
    lemma_fundamental_div_mod,
    lemma_mod_multiples_vanish,
    lemma_small_mod,
};
use crate::alu::spec_alu;
use crate::cpu::{Action, CpuView, Fault, spec_step};
use crate::decode::Op;
use crate::words::{lemma_w16_add, w16};

/// For every register `r` and 16-bit value `v`: `SET r, v` with `v` in the
/// following word, run for one step, leaves `reg[r] == v`, advances PC by
/// exactly the two words consumed, and touches EX not at all.
pub proof fn lemma_set_register_next_word(s: CpuView, r: u16, v: u16)
    requires
        s.wf(),
        s.iq.len() == 0,
        r < 8,
        s.mem[s.pc as int] == (0x1Fu16 << 10) | (r << 5) | 0x01,
        s.mem[w16(s.pc + 1) as int] == v,
    ensures
        spec_step(s).1 == Ok::<Action, Fault>(Action::Done),
        spec_step(s).0.regs[r as int] == v,
        spec_step(s).0.pc == w16(s.pc + 2),
        spec_step(s).0.ex == s.ex,
{
    assert({
        let x = (0x1Fu16 << 10) | (r << 5) | 0x01;
        x & 0x1F == 0x01 && (x >> 5) & 0x1F == r && x >> 10 == 0x1F
    }) by (bit_vector)
        requires
            r < 8,
    ;
    lemma_w16_add(s.pc + 1, 1);
}

/// For every register `r` and inline literal selector: `SET r, lit` with
/// the literal packed into the instruction word, run for one step, leaves
/// `reg[r]` holding the literal's value and advances PC by exactly the one
/// word consumed.
pub proof fn lemma_set_register_inline(s: CpuView, r: u16, lit: u16)
    requires
        s.wf(),
        s.iq.len() == 0,
        r < 8,
        0x20 <= lit < 0x40,
        s.mem[s.pc as int] == (lit << 10) | (r << 5) | 0x01,
    ensures
        spec_step(s).1 == Ok::<Action, Fault>(Action::Done),
        spec_step(s).0.regs[r as int] == w16(lit - 0x21),
        spec_step(s).0.pc == w16(s.pc + 1),
        spec_step(s).0.ex == s.ex,
{
    assert({
        let x = (lit << 10) | (r << 5) | 0x01;
        x & 0x1F == 0x01 && (x >> 5) & 0x1F == r && x >> 10 == lit
    }) by (bit_vector)
        requires
            r < 8,
            0x20 <= lit < 0x40,
    ;
}

/// Arithmetic round-trip: `ADD b, a` then `SUB b, a` with the same `a`
/// restores `b`'s original value, for all `b` and `a` — the property
/// `(x + y - y) mod 2^16 == x`.
pub proof fn lemma_add_sub_round_trip(x: u16, y: u16, ex1: u16, ex2: u16)
    ensures
        spec_alu(Op::SUB, spec_alu(Op::ADD, x, y, ex1).0, y, ex2).0 == x,
{
    let v = w16(x + y);
    lemma_fundamental_div_mod(x + y, 0x10000);
    let q = (x + y) / 0x10000;
    lemma_mod_multiples_vanish(-q, x as int, 0x10000);
    assert(0x10000 * (-q) + x == v - y);
    lemma_small_mod(x as nat, 0x10000);
}

/// The arithmetic round-trip at the machine: `ADD r, v` then `SUB r, v`
/// (both with next-word literals), run for two steps, restore the
/// register's original value and advance PC by exactly the four words
/// consumed — for every starting value and every `v`.
#[verifier::rlimit(50)]
pub proof fn lemma_add_sub_round_trip_steps(s: CpuView, r: u16, v: u16)
    requires
        s.wf(),
        s.iq.len() == 0,
        r < 8,
        s.mem[s.pc as int] == (0x1Fu16 << 10) | (r << 5) | 0x02,
        s.mem[w16(s.pc + 1) as int] == v,
        s.mem[w16(s.pc + 2) as int] == (0x1Fu16 << 10) | (r << 5) | 0x03,
        s.mem[w16(s.pc + 3) as int] == v,
    ensures
        spec_step(s).1 == Ok::<Action, Fault>(Action::Done),
        spec_step(spec_step(s).0).1 == Ok::<Action, Fault>(Action::Done),
        spec_step(spec_step(s).0).0.regs[r as int] == s.regs[r as int],
        spec_step(spec_step(s).0).0.pc == w16(s.pc + 4),
{
    assert({
        let x = (0x1Fu16 << 10) | (r << 5) | 0x02;
        let y = (0x1Fu16 << 10) | (r << 5) | 0x03;
        x & 0x1F == 0x02 && (x >> 5) & 0x1F == r && x >> 10 == 0x1F && y & 0x1F == 0x03 && (y
            >> 5) & 0x1F == r && y >> 10 == 0x1F
    }) by (bit_vector)
        requires
            r < 8,
    ;
    lemma_w16_add(s.pc + 1, 1);
    let s1 = spec_step(s).0;
    assert(s1.mem == s.mem);
    assert(s1.pc == w16(s.pc + 2));
    assert(s1.iq.len() == 0 && s1.queueing == s.queueing);
    assert(s1.regs.len() == 8 && s1.regs[r as int] == w16(s.regs[r as int] + v));
    lemma_w16_add(s.pc + 2, 1);
    lemma_w16_add(s.pc + 2, 2);
    lemma_add_sub_round_trip(s.regs[r as int], v, s.ex, s1.ex);
}

/// Overflow flag exactness: ADD sets EX to 1 exactly when the true sum
/// exceeds 0xFFFF and to 0 otherwise; SUB sets EX to 0xFFFF exactly when
/// the true difference is negative and to 0 otherwise.
pub proof fn lemma_overflow_flags(b: u16, a: u16, ex: u16)
    ensures
        spec_alu(Op::ADD, b, a, ex).1 == Some(1u16) <==> b + a > 0xFFFF,
        spec_alu(Op::ADD, b, a, ex).1 == Some(0u16) <==> b + a <= 0xFFFF,
        spec_alu(Op::SUB, b, a, ex).1 == Some(0xFFFFu16) <==> b - a < 0,
        spec_alu(Op::SUB, b, a, ex).1 == Some(0u16) <==> b - a >= 0,
{
}

/// Division-by-zero idempotence at the ALU: for every prior `b`, `DIV b, 0`
/// yields 0 with EX 0, and `MOD b, 0` yields 0 with EX untouched; neither
/// is a fault.
pub proof fn lemma_div_mod_zero(b: u16, ex: u16)
    ensures
        spec_alu(Op::DIV, b, 0, ex) == (0u16, Some(0u16)),
        spec_alu(Op::MOD, b, 0, ex) == (0u16, None::<u16>),
{
}

/// Division-by-zero idempotence at the machine: one step of `DIV r, 0`
/// (zero as an inline literal) never faults and leaves `reg[r] == 0` and
/// `ex == 0`, whatever the register held before.
pub proof fn lemma_div_by_zero_step(s: CpuView, r: u16)
    requires
        s.wf(),
        s.iq.len() == 0,
        r < 8,
        s.mem[s.pc as int] == (0x21u16 << 10) | (r << 5) | 0x06,
    ensures
        spec_step(s).1 == Ok::<Action, Fault>(Action::Done),
        spec_step(s).0.regs[r as int] == 0,
        spec_step(s).0.ex == 0,
        spec_step(s).0.pc == w16(s.pc + 1),
{
    assert({
        let x = (0x21u16 << 10) | (r << 5) | 0x06;
        x & 0x1F == 0x06 && (x >> 5) & 0x1F == r && x >> 10 == 0x21
    }) by (bit_vector)
        requires
            r < 8,
    ;
    lemma_small_mod(0, 0x10000);
}

/// As [`lemma_div_by_zero_step`], for `MOD r, 0`: one step never faults,
/// leaves `reg[r] == 0` and EX untouched.
pub proof fn lemma_mod_by_zero_step(s: CpuView, r: u16)
    requires
        s.wf(),
        s.iq.len() == 0,
        r < 8,
        s.mem[s.pc as int] == (0x21u16 << 10) | (r << 5) | 0x08,
    ensures
        spec_step(s).1 == Ok::<Action, Fault>(Action::Done),
        spec_step(s).0.regs[r as int] == 0,
        spec_step(s).0.ex == s.ex,
        spec_step(s).0.pc == w16(s.pc + 1),
{
    assert({
        let x = (0x21u16 << 10) | (r << 5) | 0x08;
        x & 0x1F == 0x08 && (x >> 5) & 0x1F == r && x >> 10 == 0x21
    }) by (bit_vector)
        requires
            r < 8,
    ;
    lemma_small_mod(0, 0x10000);
}

} // verus!
