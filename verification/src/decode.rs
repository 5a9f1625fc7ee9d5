//! Instruction decoding: a packed 16-bit word splits into a 5-bit opcode,
//! a 5-bit `b` selector and a 6-bit `a` selector. Opcode 0 marks a special
//! instruction whose own opcode sits in the `b` field. Every raw selector
//! classifies into exactly one addressing class ([`ValueType`]).

use vstd::prelude::*;

verus! {

/// Basic opcodes: two operands, `b` is the destination, `a` the source.
#[allow(non_camel_case_types)]
#[derive(Clone, Copy, Debug)]
pub enum Op {
    SET,
    ADD,
    SUB,
    MUL,
    MLI,
    DIV,
    DVI,
    MOD,
    MDI,
    AND,
    BOR,
    XOR,
    SHR,
    ASR,
    SHL,
    IFB,
    IFC,
    IFE,
    IFN,
    IFG,
    IFA,
    IFL,
    IFU,
    ADX,
    SBX,
    STI,
    STD,
}

/// Special opcodes: a single operand `a`, selected by the `b` field of a
/// word whose basic opcode field is 0.
#[allow(non_camel_case_types)]
#[derive(Clone, Copy, Debug)]
pub enum SpecialOp {
    JSR,
    INT,
    IAG,
    IAS,
    RFI,
    IAQ,
    HWN,
    HWQ,
    HWI,
}

/// The addressing classes a raw operand selector can fall in.
#[derive(Clone, Copy, Debug)]
pub enum ValueType {
    /// `0x00..=0x07`: the register itself.
    Reg,
    /// `0x08..=0x0F`: memory at the register's value.
    RegPointer,
    /// `0x10..=0x17`: memory at register + next word; consumes one word.
    RegNextPointer,
    /// `0x18`: pop (`a` position) or push (`b` position).
    PushPop,
    /// `0x19`: memory at SP, no SP change.
    Peek,
    /// `0x1A`: memory at SP + next word; consumes one word.
    Pick,
    /// `0x1B`: the SP register itself.
    Sp,
    /// `0x1C`: the PC register itself.
    Pc,
    /// `0x1D`: the EX register itself.
    Ex,
    /// `0x1E`: memory at the next word; consumes one word.
    NextPointer,
    /// `0x1F`: the next word as a literal; consumes one word; read-only.
    NextLiteral,
    /// `0x20..=0x3F`: the inline literal `raw - 0x21` (range -1..=30);
    /// read-only, only possible in `a` position.
    InlineLiteral,
}

/// The addressing class of a raw selector, by its fixed numeric range.
pub open spec fn classify(raw: u16) -> ValueType {
    if raw < 0x08 {
        ValueType::Reg
    } else if raw < 0x10 {
        ValueType::RegPointer
    } else if raw < 0x18 {
        ValueType::RegNextPointer
    } else if raw == 0x18 {
        ValueType::PushPop
    } else if raw == 0x19 {
        ValueType::Peek
    } else if raw == 0x1A {
        ValueType::Pick
    } else if raw == 0x1B {
        ValueType::Sp
    } else if raw == 0x1C {
        ValueType::Pc
    } else if raw == 0x1D {
        ValueType::Ex
    } else if raw == 0x1E {
        ValueType::NextPointer
    } else if raw == 0x1F {
        ValueType::NextLiteral
    } else {
        ValueType::InlineLiteral
    }
}

impl ValueType {
    /// Classify a raw operand selector (total on the 6-bit domain).
    pub fn new(raw: u16) -> (t: ValueType)
        requires
            raw < 0x40,
        ensures
            t == classify(raw),
    {
        if raw < 0x08 {
            ValueType::Reg
        } else if raw < 0x10 {
            ValueType::RegPointer
        } else if raw < 0x18 {
            ValueType::RegNextPointer
        } else if raw == 0x18 {
            ValueType::PushPop
        } else if raw == 0x19 {
            ValueType::Peek
        } else if raw == 0x1A {
            ValueType::Pick
        } else if raw == 0x1B {
            ValueType::Sp
        } else if raw == 0x1C {
            ValueType::Pc
        } else if raw == 0x1D {
            ValueType::Ex
        } else if raw == 0x1E {
            ValueType::NextPointer
        } else if raw == 0x1F {
            ValueType::NextLiteral
        } else {
            ValueType::InlineLiteral
        }
    }
}

/// Whether resolving this selector consumes the following instruction word.
pub open spec fn consumes_word(raw: u16) -> bool {
    (0x10 <= raw < 0x18) || raw == 0x1A || raw == 0x1E || raw == 0x1F
}

/// Executable check matching [`consumes_word`].
pub fn selector_consumes_word(raw: u16) -> (r: bool)
    ensures
        r == consumes_word(raw),
{
    (0x10 <= raw && raw < 0x18) || raw == 0x1A || raw == 0x1E || raw == 0x1F
}

/// The basic opcode a 5-bit field names, if any. Field 0 marks a special
/// instruction and is not a basic opcode; 0x18, 0x19, 0x1C and 0x1D are
/// unassigned.
pub open spec fn spec_basic_op(bits: u16) -> Option<Op> {
    if bits == 0x01 {
        Some(Op::SET)
    } else if bits == 0x02 {
        Some(Op::ADD)
    } else if bits == 0x03 {
        Some(Op::SUB)
    } else if bits == 0x04 {
        Some(Op::MUL)
    } else if bits == 0x05 {
        Some(Op::MLI)
    } else if bits == 0x06 {
        Some(Op::DIV)
    } else if bits == 0x07 {
        Some(Op::DVI)
    } else if bits == 0x08 {
        Some(Op::MOD)
    } else if bits == 0x09 {
        Some(Op::MDI)
    } else if bits == 0x0A {
        Some(Op::AND)
    } else if bits == 0x0B {
        Some(Op::BOR)
    } else if bits == 0x0C {
        Some(Op::XOR)
    } else if bits == 0x0D {
        Some(Op::SHR)
    } else if bits == 0x0E {
        Some(Op::ASR)
    } else if bits == 0x0F {
        Some(Op::SHL)
    } else if bits == 0x10 {
        Some(Op::IFB)
    } else if bits == 0x11 {
        Some(Op::IFC)
    } else if bits == 0x12 {
        Some(Op::IFE)
    } else if bits == 0x13 {
        Some(Op::IFN)
    } else if bits == 0x14 {
        Some(Op::IFG)
    } else if bits == 0x15 {
        Some(Op::IFA)
    } else if bits == 0x16 {
        Some(Op::IFL)
    } else if bits == 0x17 {
        Some(Op::IFU)
    } else if bits == 0x1A {
        Some(Op::ADX)
    } else if bits == 0x1B {
        Some(Op::SBX)
    } else if bits == 0x1E {
        Some(Op::STI)
    } else if bits == 0x1F {
        Some(Op::STD)
    } else {
        None
    }
}

/// The special opcode a 5-bit field names, if any.
pub open spec fn spec_special_op(bits: u16) -> Option<SpecialOp> {
    if bits == 0x01 {
        Some(SpecialOp::JSR)
    } else if bits == 0x08 {
        Some(SpecialOp::INT)
    } else if bits == 0x09 {
        Some(SpecialOp::IAG)
    } else if bits == 0x0A {
        Some(SpecialOp::IAS)
    } else if bits == 0x0B {
        Some(SpecialOp::RFI)
    } else if bits == 0x0C {
        Some(SpecialOp::IAQ)
    } else if bits == 0x10 {
        Some(SpecialOp::HWN)
    } else if bits == 0x11 {
        Some(SpecialOp::HWQ)
    } else if bits == 0x12 {
        Some(SpecialOp::HWI)
    } else {
        None
    }
}

impl Op {
    /// Decode a basic opcode field.
    pub fn from_bits(bits: u16) -> (r: Option<Op>)
        ensures
            r == spec_basic_op(bits),
    {
        if bits == 0x01 {
            Some(Op::SET)
        } else if bits == 0x02 {
            Some(Op::ADD)
        } else if bits == 0x03 {
            Some(Op::SUB)
        } else if bits == 0x04 {
            Some(Op::MUL)
        } else if bits == 0x05 {
            Some(Op::MLI)
        } else if bits == 0x06 {
            Some(Op::DIV)
        } else if bits == 0x07 {
            Some(Op::DVI)
        } else if bits == 0x08 {
            Some(Op::MOD)
        } else if bits == 0x09 {
            Some(Op::MDI)
        } else if bits == 0x0A {
            Some(Op::AND)
        } else if bits == 0x0B {
            Some(Op::BOR)
        } else if bits == 0x0C {
            Some(Op::XOR)
        } else if bits == 0x0D {
            Some(Op::SHR)
        } else if bits == 0x0E {
            Some(Op::ASR)
        } else if bits == 0x0F {
            Some(Op::SHL)
        } else if bits == 0x10 {
            Some(Op::IFB)
        } else if bits == 0x11 {
            Some(Op::IFC)
        } else if bits == 0x12 {
            Some(Op::IFE)
        } else if bits == 0x13 {
            Some(Op::IFN)
        } else if bits == 0x14 {
            Some(Op::IFG)
        } else if bits == 0x15 {
            Some(Op::IFA)
        } else if bits == 0x16 {
            Some(Op::IFL)
        } else if bits == 0x17 {
            Some(Op::IFU)
        } else if bits == 0x1A {
            Some(Op::ADX)
        } else if bits == 0x1B {
            Some(Op::SBX)
        } else if bits == 0x1E {
            Some(Op::STI)
        } else if bits == 0x1F {
            Some(Op::STD)
        } else {
            None
        }
    }

    /// Whether this is one of the conditional (skip) opcodes.
    pub fn is_conditional(self) -> (r: bool)
        ensures
            r == spec_is_cond_op(self),
    {
        match self {
            Op::IFB | Op::IFC | Op::IFE | Op::IFN | Op::IFG | Op::IFA | Op::IFL | Op::IFU => true,
            _ => false,
        }
    }
}

impl SpecialOp {
    /// Decode a special opcode field.
    pub fn from_bits(bits: u16) -> (r: Option<SpecialOp>)
        ensures
            r == spec_special_op(bits),
    {
        if bits == 0x01 {
            Some(SpecialOp::JSR)
        } else if bits == 0x08 {
            Some(SpecialOp::INT)
        } else if bits == 0x09 {
            Some(SpecialOp::IAG)
        } else if bits == 0x0A {
            Some(SpecialOp::IAS)
        } else if bits == 0x0B {
            Some(SpecialOp::RFI)
        } else if bits == 0x0C {
            Some(SpecialOp::IAQ)
        } else if bits == 0x10 {
            Some(SpecialOp::HWN)
        } else if bits == 0x11 {
            Some(SpecialOp::HWQ)
        } else if bits == 0x12 {
            Some(SpecialOp::HWI)
        } else {
            None
        }
    }
}

/// The conditional opcode family.
pub open spec fn spec_is_cond_op(op: Op) -> bool {
    match op {
        Op::IFB | Op::IFC | Op::IFE | Op::IFN | Op::IFG | Op::IFA | Op::IFL | Op::IFU => true,
        _ => false,
    }
}

/// The basic opcode field of an instruction word.
pub open spec fn op_field(w: u16) -> u16 {
    w & 0x1F
}

/// The `b` selector field of an instruction word (the special opcode when
/// the basic opcode field is 0).
pub open spec fn b_field(w: u16) -> u16 {
    (w >> 5) & 0x1F
}

/// The `a` selector field of an instruction word.
pub open spec fn a_field(w: u16) -> u16 {
    w >> 10
}

/// Whether a word's basic opcode field is in the conditional range, which
/// is what the skip chain follows.
pub open spec fn word_is_cond(w: u16) -> bool {
    0x10 <= op_field(w) < 0x18
}

/// How many words an instruction occupies: the instruction word itself plus
/// one per operand whose selector consumes a following word. A special
/// instruction has only the `a` operand.
pub open spec fn spec_instr_len(w: u16) -> int {
    1 + (if consumes_word(a_field(w)) {
        1int
    } else {
        0int
    }) + (if op_field(w) != 0 && consumes_word(b_field(w)) {
        1int
    } else {
        0int
    })
}

/// A decoded instruction word: its three bit fields and the addressing
/// classes of the two selectors. Pure view over one memory word.
#[derive(Clone, Copy, Debug)]
pub struct Instruction {
    /// The 5-bit basic opcode field.
    pub op_bits: u16,
    /// The 5-bit `b` selector (or special opcode) field.
    pub b_raw: u16,
    /// The 6-bit `a` selector field.
    pub a_raw: u16,
    /// The addressing class of `a_raw`.
    pub a: ValueType,
    /// The addressing class of `b_raw`.
    pub b: ValueType,
}

impl Instruction {
    /// Split a word into its fields and classify both selectors.
    pub fn new(w: u16) -> (i: Instruction)
        ensures
            i.op_bits == op_field(w),
            i.b_raw == b_field(w),
            i.a_raw == a_field(w),
            i.a == classify(a_field(w)),
            i.b == classify(b_field(w)),
            i.op_bits < 0x20,
            i.b_raw < 0x20,
            i.a_raw < 0x40,
    {
        let op_bits: u16 = w & 0x1F;
        let b_raw: u16 = (w >> 5) & 0x1F;
        let a_raw: u16 = w >> 10;
        proof {
            lemma_field_bounds(w);
        }
        Instruction { op_bits, b_raw, a_raw, a: ValueType::new(a_raw), b: ValueType::new(b_raw) }
    }
}

/// The three bit fields of an instruction word fit their widths.
pub proof fn lemma_field_bounds(w: u16)
    ensures
        op_field(w) < 0x20,
        b_field(w) < 0x20,
        a_field(w) < 0x40,
{
    assert((w & 0x1F) < 0x20 && ((w >> 5) & 0x1F) < 0x20 && (w >> 10) < 0x40) by (bit_vector);
}

/// The executable instruction length, for walking skip chains.
pub fn instr_len(w: u16) -> (r: u16)
    ensures
        r == spec_instr_len(w),
        1 <= r <= 3,
{
    let i = Instruction::new(w);
    let mut len: u16 = 1;
    if selector_consumes_word(i.a_raw) {
        len += 1;
    }
    if i.op_bits != 0 && selector_consumes_word(i.b_raw) {
        len += 1;
    }
    len
}

/// Executable check matching [`word_is_cond`].
pub fn word_is_conditional(w: u16) -> (r: bool)
    ensures
        r == word_is_cond(w),
{
    let bits: u16 = w & 0x1F;
    0x10 <= bits && bits < 0x18
}

} // verus!
