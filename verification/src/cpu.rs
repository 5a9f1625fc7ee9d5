//! The CPU: machine state, operand resolution, the interrupt controller and
//! the single externally driven transition [`CpuState::step`]. A step
//! performs one full fetch-decode-resolve-execute-writeback cycle; its
//! contract says the state evolves exactly as the specification-level
//! interpreter [`spec_step`] dictates, for every well-formed state.

use vstd::prelude::*;

verus! {

use crate::alu::{alu, eval_cond, spec_alu, spec_cond};
use crate::decode::{
    a_field,
    b_field,
    classify,
    Instruction,
    instr_len,
    Op,
    op_field,
    spec_basic_op,
    spec_instr_len,
    spec_is_cond_op,
    spec_special_op,
    SpecialOp,
    ValueType,
    word_is_cond,
    word_is_conditional,
};
use crate::words::{w16, wadd, wsub};

/// The two fatal instruction faults, and the catastrophic interrupt-queue
/// overflow, which is reported separately so a driver can tell a bad
/// program from a malformed instruction stream.
#[derive(Clone, Copy, Debug, PartialEq, Eq, Structural)]
pub enum Fault {
    /// The basic or special opcode field holds a reserved code point.
    InvalidOpcode,
    /// The instruction would write through a read-only operand class.
    InvalidWriteTarget,
    /// An interrupt arrived with the 256-entry queue already full.
    InterruptQueueOverflow,
}

/// What a successful step asks of the external driver. The hardware bus is
/// an outside collaborator: the core routes the three bus operations to it
/// and receives their results through [`CpuState::provide_device_count`],
/// [`CpuState::apply_hw_query`] and [`CpuState::queue_interrupt`].
#[derive(Clone, Copy, Debug, PartialEq, Eq, Structural)]
pub enum Action {
    /// The instruction completed; nothing is asked of the driver.
    Done,
    /// HWN: the driver should hand back the connected-device count.
    HwCount,
    /// HWQ: the driver should look up the device with this index and hand
    /// back its identification words.
    HwQuery(u16),
    /// HWI: the driver should send an interrupt to the device with this
    /// index.
    HwInterrupt(u16),
}

/// A resolved write-back location.
#[derive(Clone, Copy, Debug)]
pub enum Dest {
    /// A general register, by index (0..8).
    Reg(u16),
    /// A memory cell, by address.
    Mem(u16),
    /// The SP register.
    Sp,
    /// The PC register.
    Pc,
    /// The EX register.
    Ex,
    /// A literal operand: reading is fine, writing is the
    /// `InvalidWriteTarget` fault.
    ReadOnly,
}

/// A register index named by a destination is in range.
pub open spec fn dest_wf(d: Dest) -> bool {
    match d {
        Dest::Reg(i) => i < 8,
        _ => true,
    }
}

/// The outcome of resolving one raw operand selector: the value read, the
/// write-back location, and SP and the instruction-word cursor after any
/// pop/push or next-word consumption.
#[derive(Clone, Copy, Debug)]
pub struct Resolved {
    /// The value the operand reads as.
    pub val: u16,
    /// Where a write to this operand lands.
    pub dest: Dest,
    /// SP after resolution (changed only by push/pop).
    pub sp: u16,
    /// The instruction-word cursor after resolution (advanced by one for
    /// each selector that consumes a following word).
    pub cursor: u16,
}

/// The mathematical machine state: what [`CpuState`] looks like to
/// contracts.
#[verifier::ext_equal]
pub ghost struct CpuView {
    /// The 8 general registers A, B, C, X, Y, Z, I, J.
    pub regs: Seq<u16>,
    /// Program counter.
    pub pc: u16,
    /// Stack pointer.
    pub sp: u16,
    /// Overflow/carry/borrow register.
    pub ex: u16,
    /// Interrupt-handler address register.
    pub ia: u16,
    /// The 65536 memory words.
    pub mem: Seq<u16>,
    /// Pending interrupt messages, oldest first.
    pub iq: Seq<u16>,
    /// Interrupt mode: `true` is the queueing-enabled (normal) mode, in
    /// which arriving interrupts join the queue and a step boundary may
    /// dispatch one; `false` (mid-interrupt, or disabled through IAQ)
    /// discards arriving messages and dispatches nothing.
    pub queueing: bool,
    /// The destination a HWN instruction is waiting to have filled with
    /// the device count.
    pub pending_hwn: Option<Dest>,
}

impl CpuView {
    /// Well-formedness: memory has exactly 2^16 cells, the register file 8,
    /// the interrupt queue respects its bound, and a pending HWN
    /// destination names a real register.
    pub open spec fn wf(self) -> bool {
        &&& self.regs.len() == 8
        &&& self.mem.len() == 0x10000
        &&& self.iq.len() <= 256
        &&& match self.pending_hwn {
            Some(d) => dest_wf(d),
            None => true,
        }
    }
}

/// The machine state: 8 general registers, PC, SP, EX, IA, 65536 words of
/// memory, and the interrupt controller's queue and mode.
pub struct CpuState {
    /// The 8 general registers A, B, C, X, Y, Z, I, J.
    pub reg: [u16; 8],
    /// Program counter.
    pub pc: u16,
    /// Stack pointer.
    pub sp: u16,
    /// Overflow/carry/borrow register.
    pub ex: u16,
    /// Interrupt-handler address register.
    pub ia: u16,
    /// The 65536 memory words.
    pub mem: Vec<u16>,
    /// Pending interrupt messages, oldest first (at most 256).
    pub iq: Vec<u16>,
    /// Interrupt mode; see [`CpuView::queueing`].
    pub queueing: bool,
    /// The destination a HWN instruction is waiting to have filled.
    pub pending_hwn: Option<Dest>,
}

impl View for CpuState {
    type V = CpuView;

    open spec fn view(&self) -> CpuView {
        CpuView {
            regs: self.reg@,
            pc: self.pc,
            sp: self.sp,
            ex: self.ex,
            ia: self.ia,
            mem: self.mem@,
            iq: self.iq@,
            queueing: self.queueing,
            pending_hwn: self.pending_hwn,
        }
    }
}

/// Resolve a raw operand selector against state `s`, with the
/// instruction-word cursor at `cursor` and the stack pointer at `sp`.
/// `is_a` tells the `a` position (pop) from the `b` position (push) for
/// selector 0x18. Reading the PC yields the cursor: the PC as already
/// advanced past the words consumed so far.
pub open spec fn spec_resolve(s: CpuView, raw: u16, cursor: u16, sp: u16, is_a: bool) -> Resolved {
    match classify(raw) {
        ValueType::Reg => Resolved { val: s.regs[raw as int], dest: Dest::Reg(raw), sp, cursor },
        ValueType::RegPointer => {
            let ad = s.regs[raw - 8];
            Resolved { val: s.mem[ad as int], dest: Dest::Mem(ad), sp, cursor }
        },
        ValueType::RegNextPointer => {
            let nw = s.mem[cursor as int];
            let ad = w16(s.regs[raw - 0x10] + nw);
            Resolved { val: s.mem[ad as int], dest: Dest::Mem(ad), sp, cursor: w16(cursor + 1) }
        },
        ValueType::PushPop => {
            if is_a {
                Resolved { val: s.mem[sp as int], dest: Dest::Mem(sp), sp: w16(sp + 1), cursor }
            } else {
                let nsp = w16(sp - 1);
                Resolved { val: s.mem[nsp as int], dest: Dest::Mem(nsp), sp: nsp, cursor }
            }
        },
        ValueType::Peek => Resolved { val: s.mem[sp as int], dest: Dest::Mem(sp), sp, cursor },
        ValueType::Pick => {
            let nw = s.mem[cursor as int];
            let ad = w16(sp + nw);
            Resolved { val: s.mem[ad as int], dest: Dest::Mem(ad), sp, cursor: w16(cursor + 1) }
        },
        ValueType::Sp => Resolved { val: sp, dest: Dest::Sp, sp, cursor },
        ValueType::Pc => Resolved { val: cursor, dest: Dest::Pc, sp, cursor },
        ValueType::Ex => Resolved { val: s.ex, dest: Dest::Ex, sp, cursor },
        ValueType::NextPointer => {
            let nw = s.mem[cursor as int];
            Resolved { val: s.mem[nw as int], dest: Dest::Mem(nw), sp, cursor: w16(cursor + 1) }
        },
        ValueType::NextLiteral => {
            let nw = s.mem[cursor as int];
            Resolved { val: nw, dest: Dest::ReadOnly, sp, cursor: w16(cursor + 1) }
        },
        ValueType::InlineLiteral => (
            Resolved { val: w16(raw - 0x21), dest: Dest::ReadOnly, sp, cursor }
        ),
    }
}

/// Write `v` through a resolved destination (a write to `ReadOnly` never
/// happens; stated as the identity to keep the function total).
pub open spec fn spec_apply_dest(s: CpuView, d: Dest, v: u16) -> CpuView {
    match d {
        Dest::Reg(i) => CpuView { regs: s.regs.update(i as int, v), ..s },
        Dest::Mem(a) => CpuView { mem: s.mem.update(a as int, v), ..s },
        Dest::Sp => CpuView { sp: v, ..s },
        Dest::Pc => CpuView { pc: v, ..s },
        Dest::Ex => CpuView { ex: v, ..s },
        Dest::ReadOnly => s,
    }
}

/// One stage of the skip chain: advance the program counter over whole
/// instructions while they are themselves conditional, then over one more;
/// only lengths matter, opcodes are not validated. The fuel covers every
/// chain that terminates: a chain of more than 2^16 instructions has
/// revisited an address and never ends, and the engine stops skipping
/// where the fuel runs out.
pub open spec fn spec_skip(mem: Seq<u16>, pc: u16, fuel: nat) -> u16
    decreases fuel,
{
    if fuel == 0 {
        pc
    } else {
        let w = mem[pc as int];
        let np = w16(pc + spec_instr_len(w));
        if word_is_cond(w) {
            spec_skip(mem, np, (fuel - 1) as nat)
        } else {
            np
        }
    }
}

/// Where the program counter lands after a failed conditional at `pc`.
pub open spec fn spec_skip_chain(mem: Seq<u16>, pc: u16) -> u16 {
    spec_skip(mem, pc, 0x10000)
}

/// The interrupt controller's step-boundary transition: in
/// queueing-enabled mode with a non-empty queue, dequeue one message; with
/// IA zero the message is silently discarded, otherwise queueing turns
/// off, PC then A go onto the stack, PC becomes IA and A the message.
pub open spec fn spec_dispatch(s: CpuView) -> CpuView {
    if s.queueing && s.iq.len() > 0 {
        let msg = s.iq[0];
        let rest = s.iq.remove(0);
        if s.ia == 0 {
            CpuView { iq: rest, ..s }
        } else {
            let sp1 = w16(s.sp - 1);
            let sp2 = w16(sp1 - 1);
            CpuView {
                regs: s.regs.update(0, msg),
                pc: s.ia,
                sp: sp2,
                mem: s.mem.update(sp1 as int, s.pc).update(sp2 as int, s.regs[0]),
                iq: rest,
                queueing: false,
                ..s
            }
        }
    } else {
        s
    }
}

/// Execute one basic instruction at `s.pc`: resolve `a` then `b`
/// (consuming following words in that order), test or compute, write back,
/// and advance PC past the words consumed. A false conditional walks the
/// skip chain; a write through a read-only operand class faults and
/// leaves the state unchanged.
pub open spec fn spec_exec_basic(s: CpuView, op: Op, b_raw: u16, a_raw: u16) -> (
    CpuView,
    Result<Action, Fault>,
) {
    let ra = spec_resolve(s, a_raw, w16(s.pc + 1), s.sp, true);
    let rb = spec_resolve(s, b_raw, ra.cursor, ra.sp, false);
    if spec_is_cond_op(op) {
        if spec_cond(op, rb.val, ra.val) {
            (CpuView { sp: rb.sp, pc: rb.cursor, ..s }, Ok(Action::Done))
        } else {
            (CpuView { sp: rb.sp, pc: spec_skip_chain(s.mem, rb.cursor), ..s }, Ok(Action::Done))
        }
    } else if rb.dest is ReadOnly {
        (s, Err(Fault::InvalidWriteTarget))
    } else {
        let r = spec_alu(op, rb.val, ra.val, s.ex);
        let s1 = CpuView { sp: rb.sp, pc: rb.cursor, ..s };
        let s2 = spec_apply_dest(s1, rb.dest, r.0);
        let s3 = match r.1 {
            Some(e) => CpuView { ex: e, ..s2 },
            None => s2,
        };
        let s4 = if op is STI {
            CpuView {
                regs: s3.regs.update(6, w16(s3.regs[6] + 1)).update(7, w16(s3.regs[7] + 1)),
                ..s3
            }
        } else if op is STD {
            CpuView {
                regs: s3.regs.update(6, w16(s3.regs[6] - 1)).update(7, w16(s3.regs[7] - 1)),
                ..s3
            }
        } else {
            s3
        };
        (s4, Ok(Action::Done))
    }
}

/// Execute one special instruction at `s.pc`: resolve the single operand
/// `a`, then apply the special operation. JSR pushes the address of the
/// following instruction and jumps; the interrupt family manipulates IA,
/// the queue and the mode; the three hardware-bus operations route to the
/// external driver through the returned [`Action`].
pub open spec fn spec_exec_special(s: CpuView, sop: SpecialOp, a_raw: u16) -> (
    CpuView,
    Result<Action, Fault>,
) {
    let ra = spec_resolve(s, a_raw, w16(s.pc + 1), s.sp, true);
    let s1 = CpuView { sp: ra.sp, pc: ra.cursor, ..s };
    match sop {
        SpecialOp::JSR => {
            let nsp = w16(ra.sp - 1);
            (
                CpuView { sp: nsp, pc: ra.val, mem: s1.mem.update(nsp as int, ra.cursor), ..s1 },
                Ok(Action::Done),
            )
        },
        SpecialOp::INT => {
            if s.queueing {
                if s.iq.len() >= 256 {
                    (s, Err(Fault::InterruptQueueOverflow))
                } else {
                    (CpuView { iq: s1.iq.push(ra.val), ..s1 }, Ok(Action::Done))
                }
            } else {
                (s1, Ok(Action::Done))
            }
        },
        SpecialOp::IAG => {
            if ra.dest is ReadOnly {
                (s, Err(Fault::InvalidWriteTarget))
            } else {
                (spec_apply_dest(s1, ra.dest, s.ia), Ok(Action::Done))
            }
        },
        SpecialOp::IAS => (CpuView { ia: ra.val, ..s1 }, Ok(Action::Done)),
        SpecialOp::RFI => {
            let a0 = s1.mem[ra.sp as int];
            let sp1 = w16(ra.sp + 1);
            let npc = s1.mem[sp1 as int];
            let sp2 = w16(sp1 + 1);
            (
                CpuView { regs: s1.regs.update(0, a0), pc: npc, sp: sp2, queueing: true, ..s1 },
                Ok(Action::Done),
            )
        },
        SpecialOp::IAQ => (CpuView { queueing: ra.val == 0, ..s1 }, Ok(Action::Done)),
        SpecialOp::HWN => {
            if ra.dest is ReadOnly {
                (s, Err(Fault::InvalidWriteTarget))
            } else {
                (CpuView { pending_hwn: Some(ra.dest), ..s1 }, Ok(Action::HwCount))
            }
        },
        SpecialOp::HWQ => (s1, Ok(Action::HwQuery(ra.val))),
        SpecialOp::HWI => (s1, Ok(Action::HwInterrupt(ra.val))),
    }
}

/// Fetch, decode and execute the instruction at `s.pc`. An unrecognized
/// basic or special opcode is the `InvalidOpcode` fault, which leaves the
/// state unchanged.
pub open spec fn spec_exec_instr(s: CpuView) -> (CpuView, Result<Action, Fault>) {
    let w = s.mem[s.pc as int];
    if op_field(w) == 0 {
        match spec_special_op(b_field(w)) {
            Some(sop) => spec_exec_special(s, sop, a_field(w)),
            None => (s, Err(Fault::InvalidOpcode)),
        }
    } else {
        match spec_basic_op(op_field(w)) {
            Some(op) => spec_exec_basic(s, op, b_field(w), a_field(w)),
            None => (s, Err(Fault::InvalidOpcode)),
        }
    }
}

/// One full step: the interrupt controller's boundary transition, then one
/// fetch-decode-resolve-execute-writeback cycle. On a fault the
/// instruction has no effect (the dispatched interrupt, if any, stands).
pub open spec fn spec_step(s: CpuView) -> (CpuView, Result<Action, Fault>) {
    spec_exec_instr(spec_dispatch(s))
}

/// The reset state: everything zero, memory empty, queueing enabled.
pub open spec fn initial_view() -> CpuView {
    CpuView {
        regs: Seq::new(8, |i: int| 0u16),
        pc: 0,
        sp: 0,
        ex: 0,
        ia: 0,
        mem: Seq::new(0x10000, |i: int| 0u16),
        iq: Seq::empty(),
        queueing: true,
        pending_hwn: None,
    }
}

/// What the queue-interrupt entry point does: enqueue in queueing-enabled
/// mode (overflow of the 256-entry bound is the distinct fault), discard
/// otherwise.
pub open spec fn spec_queue_interrupt(s: CpuView, msg: u16) -> (CpuView, Result<(), Fault>) {
    if s.queueing {
        if s.iq.len() >= 256 {
            (s, Err(Fault::InterruptQueueOverflow))
        } else {
            (CpuView { iq: s.iq.push(msg), ..s }, Ok(()))
        }
    } else {
        (s, Ok(()))
    }
}

/// What providing the device count does: fill the destination the pending
/// HWN named, if any.
pub open spec fn spec_provide_count(s: CpuView, n: u16) -> (CpuView, Result<(), Fault>) {
    match s.pending_hwn {
        None => (s, Ok(())),
        Some(d) => if d is ReadOnly {
            (CpuView { pending_hwn: None, ..s }, Err(Fault::InvalidWriteTarget))
        } else {
            (spec_apply_dest(CpuView { pending_hwn: None, ..s }, d, n), Ok(()))
        },
    }
}

impl CpuState {
    /// A CPU at reset: all registers and memory zero, interrupt queue
    /// empty, queueing enabled.
    pub fn new() -> (c: CpuState)
        ensures
            c@ == initial_view(),
            c@.wf(),
    {
        let c = CpuState {
            reg: [0u16, 0u16, 0u16, 0u16, 0u16, 0u16, 0u16, 0u16],
            pc: 0,
            sp: 0,
            ex: 0,
            ia: 0,
            mem: vec![0u16; 0x10000],
            iq: Vec::new(),
            queueing: true,
            pending_hwn: None,
        };
        proof {
            assert(c@.regs =~= Seq::new(8, |i: int| 0u16));
            assert(c@.mem =~= Seq::new(0x10000, |i: int| 0u16));
            assert(c@.iq =~= Seq::<u16>::empty());
            assert(c@ =~= initial_view());
        }
        c
    }

    /// Copy a program image into the low end of memory and zero-fill the
    /// rest. An image longer than memory is the loader's configuration
    /// error, not the core's.
    pub fn set_program(&mut self, p: &Vec<u16>)
        requires
            old(self)@.wf(),
            p@.len() <= 0x10000,
        ensures
            final(self)@ == (CpuView {
                mem: p@ + Seq::new((0x10000 - p@.len()) as nat, |i: int| 0u16),
                ..old(self)@
            }),
            final(self)@.wf(),
    {
        let n: usize = p.len();
        let mut i: usize = 0;
        while i < n
            invariant
                i <= n,
                n == p@.len() <= 0x10000,
                self@.mem.len() == 0x10000,
                self@ == (CpuView { mem: self@.mem, ..old(self)@ }),
                forall|j: int| 0 <= j < i ==> self@.mem[j] == p@[j],
            decreases n - i,
        {
            let v: u16 = p[i];
            self.mem[i] = v;
            i += 1;
        }
        while i < 0x10000
            invariant
                n == p@.len() <= 0x10000,
                n <= i <= 0x10000,
                self@.mem.len() == 0x10000,
                self@ == (CpuView { mem: self@.mem, ..old(self)@ }),
                forall|j: int| 0 <= j < n ==> self@.mem[j] == p@[j],
                forall|j: int| n <= j < i ==> self@.mem[j] == 0u16,
            decreases 0x10000 - i,
        {
            self.mem[i] = 0;
            i += 1;
        }
        proof {
            assert(self@.mem =~= p@ + Seq::new((0x10000 - p@.len()) as nat, |k: int| 0u16));
            assert(self@ =~= (CpuView {
                mem: p@ + Seq::new((0x10000 - p@.len()) as nat, |k: int| 0u16),
                ..old(self)@
            }));
        }
    }

    /// Resolve one raw operand selector; reads only.
    fn resolve(&self, raw: u16, cursor: u16, sp: u16, is_a: bool) -> (r: Resolved)
        requires
            self@.wf(),
            raw < 0x40,
        ensures
            r == spec_resolve(self@, raw, cursor, sp, is_a),
            dest_wf(r.dest),
    {
        match ValueType::new(raw) {
            ValueType::Reg => (
                Resolved { val: self.reg[raw as usize], dest: Dest::Reg(raw), sp, cursor }
            ),
            ValueType::RegPointer => {
                let ad: u16 = self.reg[(raw - 8) as usize];
                Resolved { val: self.mem[ad as usize], dest: Dest::Mem(ad), sp, cursor }
            },
            ValueType::RegNextPointer => {
                let nw: u16 = self.mem[cursor as usize];
                let ad: u16 = wadd(self.reg[(raw - 0x10) as usize], nw);
                Resolved {
                    val: self.mem[ad as usize],
                    dest: Dest::Mem(ad),
                    sp,
                    cursor: wadd(cursor, 1),
                }
            },
            ValueType::PushPop => {
                if is_a {
                    Resolved {
                        val: self.mem[sp as usize],
                        dest: Dest::Mem(sp),
                        sp: wadd(sp, 1),
                        cursor,
                    }
                } else {
                    let nsp: u16 = wsub(sp, 1);
                    Resolved { val: self.mem[nsp as usize], dest: Dest::Mem(nsp), sp: nsp, cursor }
                }
            },
            ValueType::Peek => (
                Resolved { val: self.mem[sp as usize], dest: Dest::Mem(sp), sp, cursor }
            ),
            ValueType::Pick => {
                let nw: u16 = self.mem[cursor as usize];
                let ad: u16 = wadd(sp, nw);
                Resolved {
                    val: self.mem[ad as usize],
                    dest: Dest::Mem(ad),
                    sp,
                    cursor: wadd(cursor, 1),
                }
            },
            ValueType::Sp => Resolved { val: sp, dest: Dest::Sp, sp, cursor },
            ValueType::Pc => Resolved { val: cursor, dest: Dest::Pc, sp, cursor },
            ValueType::Ex => Resolved { val: self.ex, dest: Dest::Ex, sp, cursor },
            ValueType::NextPointer => {
                let nw: u16 = self.mem[cursor as usize];
                Resolved {
                    val: self.mem[nw as usize],
                    dest: Dest::Mem(nw),
                    sp,
                    cursor: wadd(cursor, 1),
                }
            },
            ValueType::NextLiteral => {
                let nw: u16 = self.mem[cursor as usize];
                Resolved { val: nw, dest: Dest::ReadOnly, sp, cursor: wadd(cursor, 1) }
            },
            ValueType::InlineLiteral => (
                Resolved { val: wsub(raw, 0x21), dest: Dest::ReadOnly, sp, cursor }
            ),
        }
    }

    /// Write a value through a resolved destination.
    fn write_dest(&mut self, d: Dest, v: u16)
        requires
            old(self)@.wf(),
            dest_wf(d),
        ensures
            final(self)@ == spec_apply_dest(old(self)@, d, v),
            final(self)@.wf(),
    {
        match d {
            Dest::Reg(i) => {
                self.reg[i as usize] = v;
            },
            Dest::Mem(a) => {
                self.mem[a as usize] = v;
            },
            Dest::Sp => {
                self.sp = v;
            },
            Dest::Pc => {
                self.pc = v;
            },
            Dest::Ex => {
                self.ex = v;
            },
            Dest::ReadOnly => {},
        }
    }

    /// Walk the skip chain beginning at `start`.
    fn skip_from(&self, start: u16) -> (r: u16)
        requires
            self@.wf(),
        ensures
            r == spec_skip_chain(self@.mem, start),
    {
        let mut pc: u16 = start;
        let mut fuel: u32 = 0x10000;
        loop
            invariant
                self@.wf(),
                fuel <= 0x10000,
                spec_skip(self@.mem, start, 0x10000) == spec_skip(self@.mem, pc, fuel as nat),
            decreases fuel,
        {
            if fuel == 0 {
                return pc;
            }
            let w: u16 = self.mem[pc as usize];
            let len: u16 = instr_len(w);
            let np: u16 = wadd(pc, len);
            if word_is_conditional(w) {
                pc = np;
                fuel = fuel - 1;
            } else {
                return np;
            }
        }
    }

    /// The interrupt controller's step-boundary transition.
    fn dispatch_interrupt(&mut self)
        requires
            old(self)@.wf(),
        ensures
            final(self)@ == spec_dispatch(old(self)@),
            final(self)@.wf(),
    {
        if self.queueing && self.iq.len() > 0 {
            let msg: u16 = self.iq.remove(0);
            if self.ia != 0 {
                self.queueing = false;
                let sp1: u16 = wsub(self.sp, 1);
                self.mem[sp1 as usize] = self.pc;
                let sp2: u16 = wsub(sp1, 1);
                let a0: u16 = self.reg[0];
                self.mem[sp2 as usize] = a0;
                self.sp = sp2;
                self.pc = self.ia;
                self.reg[0] = msg;
            }
        }
    }

    /// Execute one decoded basic instruction.
    fn exec_basic(&mut self, op: Op, b_raw: u16, a_raw: u16) -> (r: Result<Action, Fault>)
        requires
            old(self)@.wf(),
            b_raw < 0x20,
            a_raw < 0x40,
        ensures
            (final(self)@, r) == spec_exec_basic(old(self)@, op, b_raw, a_raw),
            final(self)@.wf(),
    {
        let c0: u16 = wadd(self.pc, 1);
        let ra = self.resolve(a_raw, c0, self.sp, true);
        let rb = self.resolve(b_raw, ra.cursor, ra.sp, false);
        if op.is_conditional() {
            let c = eval_cond(op, rb.val, ra.val);
            self.sp = rb.sp;
            if c {
                self.pc = rb.cursor;
            } else {
                let npc: u16 = self.skip_from(rb.cursor);
                self.pc = npc;
            }
            Ok(Action::Done)
        } else {
            if matches!(rb.dest, Dest::ReadOnly) {
                return Err(Fault::InvalidWriteTarget);
            }
            let rv = alu(op, rb.val, ra.val, self.ex);
            self.sp = rb.sp;
            self.pc = rb.cursor;
            self.write_dest(rb.dest, rv.0);
            if let Some(e) = rv.1 {
                self.ex = e;
            }
            match op {
                Op::STI => {
                    let i6: u16 = self.reg[6];
                    self.reg[6] = wadd(i6, 1);
                    let i7: u16 = self.reg[7];
                    self.reg[7] = wadd(i7, 1);
                },
                Op::STD => {
                    let i6: u16 = self.reg[6];
                    self.reg[6] = wsub(i6, 1);
                    let i7: u16 = self.reg[7];
                    self.reg[7] = wsub(i7, 1);
                },
                _ => {},
            }
            Ok(Action::Done)
        }
    }

    /// Execute one decoded special instruction.
    fn exec_special(&mut self, sop: SpecialOp, a_raw: u16) -> (r: Result<Action, Fault>)
        requires
            old(self)@.wf(),
            a_raw < 0x40,
        ensures
            (final(self)@, r) == spec_exec_special(old(self)@, sop, a_raw),
            final(self)@.wf(),
    {
        let c0: u16 = wadd(self.pc, 1);
        let ra = self.resolve(a_raw, c0, self.sp, true);
        match sop {
            SpecialOp::JSR => {
                self.sp = ra.sp;
                self.pc = ra.cursor;
                let nsp: u16 = wsub(ra.sp, 1);
                self.mem[nsp as usize] = ra.cursor;
                self.sp = nsp;
                self.pc = ra.val;
                Ok(Action::Done)
            },
            SpecialOp::INT => {
                if self.queueing {
                    if self.iq.len() >= 256 {
                        return Err(Fault::InterruptQueueOverflow);
                    }
                    self.sp = ra.sp;
                    self.pc = ra.cursor;
                    self.iq.push(ra.val);
                } else {
                    self.sp = ra.sp;
                    self.pc = ra.cursor;
                }
                Ok(Action::Done)
            },
            SpecialOp::IAG => {
                if matches!(ra.dest, Dest::ReadOnly) {
                    return Err(Fault::InvalidWriteTarget);
                }
                let ia: u16 = self.ia;
                self.sp = ra.sp;
                self.pc = ra.cursor;
                self.write_dest(ra.dest, ia);
                Ok(Action::Done)
            },
            SpecialOp::IAS => {
                self.sp = ra.sp;
                self.pc = ra.cursor;
                self.ia = ra.val;
                Ok(Action::Done)
            },
            SpecialOp::RFI => {
                self.sp = ra.sp;
                self.pc = ra.cursor;
                let a0: u16 = self.mem[ra.sp as usize];
                self.reg[0] = a0;
                let sp1: u16 = wadd(ra.sp, 1);
                let npc: u16 = self.mem[sp1 as usize];
                let sp2: u16 = wadd(sp1, 1);
                self.sp = sp2;
                self.pc = npc;
                self.queueing = true;
                Ok(Action::Done)
            },
            SpecialOp::IAQ => {
                self.sp = ra.sp;
                self.pc = ra.cursor;
                self.queueing = ra.val == 0;
                Ok(Action::Done)
            },
            SpecialOp::HWN => {
                if matches!(ra.dest, Dest::ReadOnly) {
                    return Err(Fault::InvalidWriteTarget);
                }
                self.sp = ra.sp;
                self.pc = ra.cursor;
                self.pending_hwn = Some(ra.dest);
                Ok(Action::HwCount)
            },
            SpecialOp::HWQ => {
                self.sp = ra.sp;
                self.pc = ra.cursor;
                Ok(Action::HwQuery(ra.val))
            },
            SpecialOp::HWI => {
                self.sp = ra.sp;
                self.pc = ra.cursor;
                Ok(Action::HwInterrupt(ra.val))
            },
        }
    }

    /// One full machine step: possibly dispatch one pending interrupt, then
    /// fetch, decode, resolve, execute and write back one instruction. On
    /// `Err` the instruction had no effect (a dispatched interrupt
    /// stands); the driver should halt the instance.
    pub fn step(&mut self) -> (r: Result<Action, Fault>)
        requires
            old(self)@.wf(),
        ensures
            final(self)@ == spec_step(old(self)@).0,
            r == spec_step(old(self)@).1,
            final(self)@.wf(),
    {
        self.dispatch_interrupt();
        let w: u16 = self.mem[self.pc as usize];
        let i = Instruction::new(w);
        if i.op_bits == 0 {
            match SpecialOp::from_bits(i.b_raw) {
                Some(sop) => self.exec_special(sop, i.a_raw),
                None => Err(Fault::InvalidOpcode),
            }
        } else {
            match Op::from_bits(i.op_bits) {
                Some(op) => self.exec_basic(op, i.b_raw, i.a_raw),
                None => Err(Fault::InvalidOpcode),
            }
        }
    }

    /// Deliver an interrupt message from the hardware bus: in
    /// queueing-enabled mode it joins the bounded queue (overflow of the
    /// 256-entry bound is the distinct catastrophic fault), otherwise it
    /// is discarded.
    pub fn queue_interrupt(&mut self, msg: u16) -> (r: Result<(), Fault>)
        requires
            old(self)@.wf(),
        ensures
            final(self)@ == spec_queue_interrupt(old(self)@, msg).0,
            r == spec_queue_interrupt(old(self)@, msg).1,
            final(self)@.wf(),
    {
        if self.queueing {
            if self.iq.len() >= 256 {
                Err(Fault::InterruptQueueOverflow)
            } else {
                self.iq.push(msg);
                Ok(())
            }
        } else {
            Ok(())
        }
    }

    /// The hardware bus answers HWN: write the connected-device count
    /// through the destination the instruction named. Without a pending
    /// HWN this does nothing.
    pub fn provide_device_count(&mut self, n: u16) -> (r: Result<(), Fault>)
        requires
            old(self)@.wf(),
        ensures
            final(self)@ == spec_provide_count(old(self)@, n).0,
            r == spec_provide_count(old(self)@, n).1,
            final(self)@.wf(),
    {
        match self.pending_hwn {
            None => Ok(()),
            Some(d) => {
                self.pending_hwn = None;
                if matches!(d, Dest::ReadOnly) {
                    Err(Fault::InvalidWriteTarget)
                } else {
                    self.write_dest(d, n);
                    Ok(())
                }
            },
        }
    }

    /// The hardware bus answers HWQ: the architecture's five device
    /// identification words go into registers B, C, X, Y and Z.
    pub fn apply_hw_query(&mut self, vb: u16, vc: u16, vx: u16, vy: u16, vz: u16)
        requires
            old(self)@.wf(),
        ensures
            final(self)@ == (CpuView {
                regs: old(self)@.regs.update(1, vb).update(2, vc).update(3, vx).update(
                    4,
                    vy,
                ).update(5, vz),
                ..old(self)@
            }),
            final(self)@.wf(),
    {
        self.reg[1] = vb;
        self.reg[2] = vc;
        self.reg[3] = vx;
        self.reg[4] = vy;
        self.reg[5] = vz;
    }
}

} // verus!
