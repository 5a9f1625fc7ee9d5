//! Engine behaviour beyond the per-opcode basics: addressing classes,
//! overflow-flag boundaries, signed arithmetic, oversized shifts, skip
//! chains, faults, the interrupt controller and the hardware-bus routing.

use dcpu16::{Action, CpuState, Fault};

// ---- skip chains ----

#[test]
fn skip_chain_skips_whole_instruction() {
    // SET A, 1; IFE A, 2 (false); SET B, 9 (two words); SET C, 5.
    // The false IFE must skip the whole two-word instruction.
    let p: Vec<u16> = vec![0x8801, 0x8c12, 0x7c21, 0x0009, 0x9841];
    let mut c = CpuState::new();
    c.set_program(&p);
    c.step().unwrap();
    c.step().unwrap();
    c.step().unwrap();

    assert!(c.reg[0] == 1);
    assert!(c.reg[1] == 0); // the skipped SET B, 9 never ran
    assert!(c.reg[2] == 5);
    assert!(c.pc == 5);
}

#[test]
fn skip_chain_transitive() {
    // SET A, 1; IFE A, 2 (false); IFE A, 1; SET B, 9 (two words); SET C, 5.
    // Skipping continues through the conditional and takes the SET B with it.
    let p: Vec<u16> = vec![0x8801, 0x8c12, 0x8812, 0x7c21, 0x0009, 0x9841];
    let mut c = CpuState::new();
    c.set_program(&p);
    c.step().unwrap();
    c.step().unwrap();
    c.step().unwrap();

    assert!(c.reg[1] == 0);
    assert!(c.reg[2] == 5);
    assert!(c.pc == 6);
}

#[test]
fn ife_true_executes_next_instr() {
    // SET A, 1; IFE A, 1 (true); SET B, 9.
    let p: Vec<u16> = vec![0x8801, 0x8812, 0xa821];
    let mut c = CpuState::new();
    c.set_program(&p);
    c.step().unwrap();
    c.step().unwrap();
    c.step().unwrap();

    assert!(c.reg[1] == 9);
    assert!(c.pc == 3);
}

// ---- overflow flags ----

#[test]
fn add_sets_ex_on_overflow() {
    // SET A, 0xFFFF; ADD A, 1.
    let p: Vec<u16> = vec![0x7c01, 0xffff, 0x8802];
    let mut c = CpuState::new();
    c.set_program(&p);
    c.step().unwrap();
    c.step().unwrap();

    assert!(c.reg[0] == 0);
    assert!(c.ex == 1);
}

#[test]
fn add_clears_ex_without_overflow() {
    // SET A, 0x7FFF; ADD A, 0x7FFF: the sum stays within 16 bits.
    let p: Vec<u16> = vec![0x7c01, 0x7fff, 0x7c02, 0x7fff];
    let mut c = CpuState::new();
    c.set_program(&p);
    c.step().unwrap();
    c.step().unwrap();

    assert!(c.reg[0] == 0xfffe);
    assert!(c.ex == 0);
}

#[test]
fn sub_sets_ex_on_underflow() {
    // SET A, 0; SUB A, 1.
    let p: Vec<u16> = vec![0x8401, 0x8803];
    let mut c = CpuState::new();
    c.set_program(&p);
    c.step().unwrap();
    c.step().unwrap();

    assert!(c.reg[0] == 0xffff);
    assert!(c.ex == 0xffff);
}

#[test]
fn sub_clears_ex_without_underflow() {
    // SET A, 1; SUB A, 1.
    let p: Vec<u16> = vec![0x8801, 0x8803];
    let mut c = CpuState::new();
    c.set_program(&p);
    c.step().unwrap();
    c.step().unwrap();

    assert!(c.reg[0] == 0);
    assert!(c.ex == 0);
}

// ---- division and signed arithmetic ----

#[test]
fn div_by_zero_yields_zero() {
    // SET A, 0x30; DIV A, 0.
    let p: Vec<u16> = vec![0x7c01, 0x30, 0x7c06, 0x0];
    let mut c = CpuState::new();
    c.set_program(&p);
    c.step().unwrap();
    c.step().unwrap();

    assert!(c.reg[0] == 0);
    assert!(c.ex == 0);
}

#[test]
fn div_writes_fraction_to_ex() {
    // SET A, 1; DIV A, 2: quotient 0, EX holds (1 << 16) / 2.
    let p: Vec<u16> = vec![0x8801, 0x8c06];
    let mut c = CpuState::new();
    c.set_program(&p);
    c.step().unwrap();
    c.step().unwrap();

    assert!(c.reg[0] == 0);
    assert!(c.ex == 0x8000);
}

#[test]
fn mli_multiplies_signed() {
    // SET A, 0xFFFF (-1); MLI A, 3: product -3, high word 0xFFFF.
    let p: Vec<u16> = vec![0x7c01, 0xffff, 0x7c05, 0x3];
    let mut c = CpuState::new();
    c.set_program(&p);
    c.step().unwrap();
    c.step().unwrap();

    assert!(c.reg[0] == 0xfffd);
    assert!(c.ex == 0xffff);
}

#[test]
fn dvi_truncates_toward_zero() {
    // SET A, 0xFFF9 (-7); DVI A, 2: quotient -3.
    let p: Vec<u16> = vec![0x7c01, 0xfff9, 0x7c07, 0x2];
    let mut c = CpuState::new();
    c.set_program(&p);
    c.step().unwrap();
    c.step().unwrap();

    assert!(c.reg[0] == 0xfffd);
    assert!(c.ex == 0x8000);
}

#[test]
fn mdi_sign_follows_dividend() {
    // SET A, 0xFFF9 (-7); MDI A, 16: remainder -7.
    let p: Vec<u16> = vec![0x7c01, 0xfff9, 0xc409];
    let mut c = CpuState::new();
    c.set_program(&p);
    c.step().unwrap();
    c.step().unwrap();

    assert!(c.reg[0] == 0xfff9);
    assert!(c.ex == 0);
}

// ---- shifts ----

#[test]
fn shl_sets_ex_to_spilled_bits() {
    // SET A, 0xFFFF; SHL A, 4.
    let p: Vec<u16> = vec![0x7c01, 0xffff, 0x7c0f, 0x4];
    let mut c = CpuState::new();
    c.set_program(&p);
    c.step().unwrap();
    c.step().unwrap();

    assert!(c.reg[0] == 0xfff0);
    assert!(c.ex == 0xf);
}

#[test]
fn shr_sets_ex_to_spilled_bits() {
    // SET A, 0x31; SHR A, 4.
    let p: Vec<u16> = vec![0x7c01, 0x31, 0x7c0d, 0x4];
    let mut c = CpuState::new();
    c.set_program(&p);
    c.step().unwrap();
    c.step().unwrap();

    assert!(c.reg[0] == 0x3);
    assert!(c.ex == 0x1000);
}

#[test]
fn asr_extends_the_sign() {
    // SET A, 0x8000 (-32768); ASR A, 4: arithmetic shift gives -2048.
    let p: Vec<u16> = vec![0x7c01, 0x8000, 0x7c0e, 0x4];
    let mut c = CpuState::new();
    c.set_program(&p);
    c.step().unwrap();
    c.step().unwrap();

    assert!(c.reg[0] == 0xf800);
    assert!(c.ex == 0);
}

#[test]
fn oversized_shift_amounts_yield_zero() {
    // SET A, 0xFFFF; SHR A, 32 — then again with SHL. Both drain to zero.
    let p: Vec<u16> = vec![0x7c01, 0xffff, 0x7c0d, 0x20];
    let mut c = CpuState::new();
    c.set_program(&p);
    c.step().unwrap();
    c.step().unwrap();
    assert!(c.reg[0] == 0);
    assert!(c.ex == 0);

    let q: Vec<u16> = vec![0x7c01, 0xffff, 0x7c0f, 0x20];
    let mut d = CpuState::new();
    d.set_program(&q);
    d.step().unwrap();
    d.step().unwrap();
    assert!(d.reg[0] == 0);
    assert!(d.ex == 0);
}

// ---- ADX / SBX / STI / STD ----

#[test]
fn adx_adds_the_carry() {
    // SET A, 0xFFFF; SET EX, 1; ADX A, 0: sum overflows by exactly the carry.
    let p: Vec<u16> = vec![0x7c01, 0xffff, 0x8ba1, 0x841a];
    let mut c = CpuState::new();
    c.set_program(&p);
    c.step().unwrap();
    c.step().unwrap();
    c.step().unwrap();

    assert!(c.reg[0] == 0);
    assert!(c.ex == 1);
}

#[test]
fn sbx_sets_ex_on_underflow() {
    // SET A, 0; SBX A, 1 (EX is 0): -1 underflows.
    let p: Vec<u16> = vec![0x8401, 0x881b];
    let mut c = CpuState::new();
    c.set_program(&p);
    c.step().unwrap();
    c.step().unwrap();

    assert!(c.reg[0] == 0xffff);
    assert!(c.ex == 0xffff);
}

#[test]
fn sti_stores_and_increments() {
    // STI B, 5: B gets 5, then I and J step up.
    let p: Vec<u16> = vec![0x983e];
    let mut c = CpuState::new();
    c.set_program(&p);
    c.step().unwrap();

    assert!(c.reg[1] == 5);
    assert!(c.reg[6] == 1);
    assert!(c.reg[7] == 1);
    assert!(c.pc == 1);
}

#[test]
fn std_stores_and_decrements() {
    // STD B, 5: B gets 5, then I and J step down (wrapping).
    let p: Vec<u16> = vec![0x983f];
    let mut c = CpuState::new();
    c.set_program(&p);
    c.step().unwrap();

    assert!(c.reg[1] == 5);
    assert!(c.reg[6] == 0xffff);
    assert!(c.reg[7] == 0xffff);
}

// ---- addressing classes ----

#[test]
fn push_then_pop_round_trips() {
    // SET PUSH, 0x1234; SET A, POP.
    let p: Vec<u16> = vec![0x7f01, 0x1234, 0x6001];
    let mut c = CpuState::new();
    c.set_program(&p);
    c.step().unwrap();
    assert!(c.sp == 0xffff);
    assert!(c.mem[0xffff] == 0x1234);

    c.step().unwrap();
    assert!(c.reg[0] == 0x1234);
    assert!(c.sp == 0);
}

#[test]
fn peek_reads_without_popping() {
    // SET PUSH, 0x1234; SET A, PEEK.
    let p: Vec<u16> = vec![0x7f01, 0x1234, 0x6401];
    let mut c = CpuState::new();
    c.set_program(&p);
    c.step().unwrap();
    c.step().unwrap();

    assert!(c.reg[0] == 0x1234);
    assert!(c.sp == 0xffff);
}

#[test]
fn pick_reads_below_the_top() {
    // SET PUSH, 0x11; SET PUSH, 0x22; SET A, [SP + 1].
    let p: Vec<u16> = vec![0x7f01, 0x11, 0x7f01, 0x22, 0x6801, 0x0001];
    let mut c = CpuState::new();
    c.set_program(&p);
    c.step().unwrap();
    c.step().unwrap();
    c.step().unwrap();

    assert!(c.reg[0] == 0x11);
    assert!(c.pc == 6);
}

#[test]
fn register_pointer_writes_and_reads_memory() {
    // SET B, 0x1000; SET [B], 0x42; SET C, [B].
    let p: Vec<u16> = vec![0x7c21, 0x1000, 0x7d21, 0x42, 0x2441];
    let mut c = CpuState::new();
    c.set_program(&p);
    c.step().unwrap();
    c.step().unwrap();
    c.step().unwrap();

    assert!(c.mem[0x1000] == 0x42);
    assert!(c.reg[2] == 0x42);
    assert!(c.pc == 5);
}

#[test]
fn register_next_word_pointer_offsets() {
    // SET B, 0x1000; SET [B + 2], 7.
    let p: Vec<u16> = vec![0x7c21, 0x1000, 0xa221, 0x2];
    let mut c = CpuState::new();
    c.set_program(&p);
    c.step().unwrap();
    c.step().unwrap();

    assert!(c.mem[0x1002] == 7);
    assert!(c.pc == 4);
}

#[test]
fn sp_is_an_operand() {
    // SET SP, 0x100.
    let p: Vec<u16> = vec![0x7f61, 0x100];
    let mut c = CpuState::new();
    c.set_program(&p);
    c.step().unwrap();

    assert!(c.sp == 0x100);
}

#[test]
fn set_pc_jumps() {
    // SET PC, 16.
    let p: Vec<u16> = vec![0xc781];
    let mut c = CpuState::new();
    c.set_program(&p);
    c.step().unwrap();

    assert!(c.pc == 16);
}

#[test]
fn jsr_pushes_the_return_address() {
    // JSR 16: the address of the following instruction goes onto the stack.
    let p: Vec<u16> = vec![0xc420];
    let mut c = CpuState::new();
    c.set_program(&p);
    c.step().unwrap();

    assert!(c.pc == 16);
    assert!(c.sp == 0xffff);
    assert!(c.mem[0xffff] == 1);
}

// ---- faults ----

#[test]
fn unknown_basic_opcode_faults() {
    // Opcode field 0x18 is unassigned.
    let p: Vec<u16> = vec![0x0018];
    let mut c = CpuState::new();
    c.set_program(&p);
    let r = c.step();

    assert_eq!(r, Err(Fault::InvalidOpcode));
    assert!(c.pc == 0);
}

#[test]
fn unknown_special_opcode_faults() {
    // The all-zero word decodes as special opcode 0, which is unassigned.
    let p: Vec<u16> = vec![0x0000];
    let mut c = CpuState::new();
    c.set_program(&p);
    let r = c.step();

    assert_eq!(r, Err(Fault::InvalidOpcode));
    assert!(c.pc == 0);
}

#[test]
fn write_to_literal_faults() {
    // SET <next-word literal>, 0: the destination is read-only.
    let p: Vec<u16> = vec![0x87e1, 0x0];
    let mut c = CpuState::new();
    c.set_program(&p);
    let r = c.step();

    assert_eq!(r, Err(Fault::InvalidWriteTarget));
    assert!(c.pc == 0);
}

// ---- interrupt controller ----

#[test]
fn ias_sets_and_iag_reads_ia() {
    // IAS 16; IAG A.
    let p: Vec<u16> = vec![0xc540, 0x0120];
    let mut c = CpuState::new();
    c.set_program(&p);
    c.step().unwrap();
    assert!(c.ia == 16);

    c.step().unwrap();
    assert!(c.reg[0] == 16);
}

#[test]
fn int_dispatch_loads_the_message() {
    // IAS 16; INT 5; handler at 16: SET B, A.
    let mut p: Vec<u16> = vec![0; 17];
    p[0] = 0xc540;
    p[1] = 0x9900;
    p[16] = 0x0021;
    let mut c = CpuState::new();
    c.set_program(&p);
    c.step().unwrap();
    c.step().unwrap();
    assert!(c.iq.len() == 1);
    assert!(c.iq[0] == 5);

    // The third step dispatches: PC and A go onto the stack, PC becomes IA,
    // A the message; then the handler's first instruction runs.
    c.step().unwrap();
    assert!(c.reg[0] == 5);
    assert!(c.reg[1] == 5);
    assert!(c.sp == 0xfffe);
    assert!(c.mem[0xffff] == 2);
    assert!(c.mem[0xfffe] == 0);
    assert!(c.pc == 17);
    assert!(!c.queueing);
    assert!(c.iq.is_empty());
}

#[test]
fn rfi_returns_from_the_handler() {
    // IAS 16; INT 5; handler at 16: RFI.
    let mut p: Vec<u16> = vec![0; 17];
    p[0] = 0xc540;
    p[1] = 0x9900;
    p[16] = 0x8560;
    let mut c = CpuState::new();
    c.set_program(&p);
    c.step().unwrap();
    c.step().unwrap();
    c.step().unwrap();

    assert!(c.reg[0] == 0);
    assert!(c.pc == 2);
    assert!(c.sp == 0);
    assert!(c.queueing);
}

#[test]
fn interrupt_with_ia_zero_is_discarded() {
    // INT 5; SET A, 1 — with IA still 0 the message is dropped silently.
    let p: Vec<u16> = vec![0x9900, 0x8801];
    let mut c = CpuState::new();
    c.set_program(&p);
    c.step().unwrap();
    assert!(c.iq.len() == 1);

    c.step().unwrap();
    assert!(c.iq.is_empty());
    assert!(c.reg[0] == 1);
    assert!(c.pc == 2);
    assert!(c.queueing);
}

#[test]
fn iaq_toggles_the_mode() {
    // IAQ 1 disables interrupt handling; IAQ 0 enables it again.
    let p: Vec<u16> = vec![0x8980, 0x8580];
    let mut c = CpuState::new();
    c.set_program(&p);
    c.step().unwrap();
    assert!(!c.queueing);

    // A message delivered while disabled is discarded, without fault.
    assert_eq!(c.queue_interrupt(7), Ok(()));
    assert!(c.iq.is_empty());

    c.step().unwrap();
    assert!(c.queueing);
}

#[test]
fn queue_overflow_is_a_distinct_fault() {
    let mut c = CpuState::new();
    for i in 0..256u16 {
        assert_eq!(c.queue_interrupt(i), Ok(()));
    }
    assert_eq!(c.queue_interrupt(999), Err(Fault::InterruptQueueOverflow));
    assert!(c.iq.len() == 256);
}

// ---- hardware bus routing ----

#[test]
fn hwn_asks_for_the_device_count() {
    // HWN A.
    let p: Vec<u16> = vec![0x0200];
    let mut c = CpuState::new();
    c.set_program(&p);
    let r = c.step();

    assert_eq!(r, Ok(Action::HwCount));
    assert_eq!(c.provide_device_count(3), Ok(()));
    assert!(c.reg[0] == 3);
}

#[test]
fn device_count_without_pending_hwn_is_ignored() {
    let mut c = CpuState::new();
    assert_eq!(c.provide_device_count(9), Ok(()));
    assert!(c.reg[0] == 0);
}

#[test]
fn hwq_asks_for_device_information() {
    // HWQ 0, answered with five identification words into B, C, X, Y, Z.
    let p: Vec<u16> = vec![0x8620];
    let mut c = CpuState::new();
    c.set_program(&p);
    let r = c.step();

    assert_eq!(r, Ok(Action::HwQuery(0)));
    c.apply_hw_query(1, 2, 3, 4, 5);
    assert!(c.reg[1] == 1);
    assert!(c.reg[2] == 2);
    assert!(c.reg[3] == 3);
    assert!(c.reg[4] == 4);
    assert!(c.reg[5] == 5);
}

#[test]
fn hwi_routes_a_device_interrupt() {
    // HWI 2.
    let p: Vec<u16> = vec![0x8e40];
    let mut c = CpuState::new();
    c.set_program(&p);
    let r = c.step();

    assert_eq!(r, Ok(Action::HwInterrupt(2)));
}

// ---- program loading ----

#[test]
fn set_program_zero_fills_the_rest() {
    let mut c = CpuState::new();
    c.set_program(&vec![1, 2, 3]);
    c.set_program(&vec![9]);

    assert!(c.mem.len() == 0x10000);
    assert!(c.mem[0] == 9);
    assert!(c.mem[1] == 0);
    assert!(c.mem[2] == 0);
    assert!(c.pc == 0);
}
