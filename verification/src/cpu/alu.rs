//! What the instructions compute: arithmetic, comparisons, and the effect
//! of one instruction on the state that a program sees.
use vstd::prelude::*;
use super::isa::{sext, sign_extend, AluOp, Cond, Instr, Op};
use super::mem::Width;

verus! {

/// The two's-complement reading of a doubleword.
pub open spec fn signed(x: u64) -> int {
    if x < 0x8000_0000_0000_0000 {
        x as int
    } else {
        x - 0x1_0000_0000_0000_0000
    }
}

/// The doubleword that is congruent to `x` modulo 2 to the 64.
pub open spec fn wrap64(x: int) -> u64 {
    (x % 0x1_0000_0000_0000_0000) as u64
}

/// The low word of a doubleword.
pub open spec fn low32(x: u64) -> u32 {
    (x % 0x1_0000_0000) as u32
}

/// A word, read as two's complement and widened to a doubleword.
pub open spec fn sext32(x: u32) -> u64 {
    sign_extend(x as u64, 0x8000_0000)
}

/// What the arithmetic unit computes on doublewords. Sums and differences
/// wrap; a shift goes by the low six bits of `b`.
pub open spec fn alu_spec(op: AluOp, a: u64, b: u64) -> u64 {
    match op {
        AluOp::Add => wrap64(a + b),
        AluOp::Sub => wrap64(a - b),
        AluOp::Sll => a << (b % 64),
        AluOp::Slt => if signed(a) < signed(b) {
            1
        } else {
            0
        },
        AluOp::Sltu => if a < b {
            1
        } else {
            0
        },
        AluOp::Xor => a ^ b,
        AluOp::Srl => a >> (b % 64),
        AluOp::Sra => ((a as i64) >> (b % 64)) as u64,
        AluOp::Or => a | b,
        AluOp::And => a & b,
    }
}

/// What the arithmetic unit computes on words: the operation is done on the
/// low words of the operands, a shift goes by the low five bits of `b`, and
/// the 32-bit result is sign-extended.
pub open spec fn alu_word_spec(op: AluOp, a: u64, b: u64) -> u64 {
    match op {
        AluOp::Sll => sext32(low32(a) << (b % 32)),
        AluOp::Srl => sext32(low32(a) >> (b % 32)),
        AluOp::Sra => sext32(((low32(a) as i32) >> (b % 32)) as u32),
        _ => sext32(low32(alu_spec(op, a, b))),
    }
}

/// Whether a branch on `cond` between `a` and `b` is taken.
pub open spec fn cond_spec(cond: Cond, a: u64, b: u64) -> bool {
    match cond {
        Cond::Eq => a == b,
        Cond::Ne => a != b,
        Cond::Lt => signed(a) < signed(b),
        Cond::Ge => signed(a) >= signed(b),
        Cond::Ltu => a < b,
        Cond::Geu => a >= b,
    }
}

/// The low `width` bytes of `raw`, widened to a doubleword: by their sign if
/// `sign` is set, by zeros if not.
pub open spec fn extend_spec(raw: u64, width: Width, sign: bool) -> u64 {
    match width {
        Width::Byte => if sign {
            sign_extend(raw % 0x100, 0x80)
        } else {
            raw % 0x100
        },
        Width::Half => if sign {
            sign_extend(raw % 0x1_0000, 0x8000)
        } else {
            raw % 0x1_0000
        },
        Width::Word => if sign {
            sign_extend(raw % 0x1_0000_0000, 0x8000_0000)
        } else {
            raw % 0x1_0000_0000
        },
        Width::Double => raw,
    }
}

/// What an instruction asks of the data memory.
#[derive(Clone, Copy, Debug, PartialEq, Eq)]
pub enum Request {
    /// Nothing.
    Idle,
    /// A load of the given width at the address; `true` extends the sign.
    Load(Width, bool, u64),
    /// A store of the given width at the address, of the value.
    Store(Width, u64, u64),
}

/// What one instruction does to the architectural state.
#[derive(Clone, Copy, Debug, PartialEq, Eq)]
pub struct Outcome {
    /// Destination register; 0 where nothing is written.
    pub rd: u8,
    /// The value for the destination, unless a load supplies it.
    pub value: u64,
    /// Where execution goes on, if not at the next instruction.
    pub target: Option<u64>,
    /// The access to the data memory.
    pub request: Request,
    /// Whether the instruction ends the run.
    pub stop: bool,
}

/// What `instr`, standing at address `pc`, does when its first source
/// register holds `a` and its second `b`.
pub open spec fn evaluate_spec(instr: Instr, pc: u64, a: u64, b: u64) -> Outcome {
    let quiet = Outcome { rd: instr.rd, value: 0, target: None, request: Request::Idle, stop: false };
    match instr.op {
        Op::Lui => Outcome { value: instr.imm, ..quiet },
        Op::Auipc => Outcome { value: wrap64(pc + instr.imm), ..quiet },
        Op::Jal => Outcome { value: wrap64(pc + 4), target: Some(wrap64(pc + instr.imm)), ..quiet },
        Op::Jalr => Outcome {
            value: wrap64(pc + 4),
            target: Some((wrap64(a + instr.imm) - wrap64(a + instr.imm) % 2) as u64),
            ..quiet
        },
        Op::Branch(cond) => Outcome {
            rd: 0,
            target: if cond_spec(cond, a, b) {
                Some(wrap64(pc + instr.imm))
            } else {
                None
            },
            ..quiet
        },
        Op::Load(width, sign) => Outcome {
            request: Request::Load(width, sign, wrap64(a + instr.imm)),
            ..quiet
        },
        Op::Store(width) => Outcome {
            rd: 0,
            request: Request::Store(width, wrap64(a + instr.imm), b),
            ..quiet
        },
        Op::OpImm(op) => Outcome { value: alu_spec(op, a, instr.imm), ..quiet },
        Op::OpReg(op) => Outcome { value: alu_spec(op, a, b), ..quiet },
        Op::OpImmWord(op) => Outcome { value: alu_word_spec(op, a, instr.imm), ..quiet },
        Op::OpRegWord(op) => Outcome { value: alu_word_spec(op, a, b), ..quiet },
        Op::Fence => Outcome { rd: 0, ..quiet },
        Op::Ecall => Outcome { rd: 0, stop: true, ..quiet },
        Op::Ebreak => Outcome { rd: 0, stop: true, ..quiet },
    }
}

/// The sum of two doublewords, wrapped.
pub fn wrapping_sum(a: u64, b: u64) -> (r: u64)
    ensures
        r == wrap64(a + b),
{
    a.wrapping_add(b)
}

/// The difference of two doublewords, wrapped.
pub fn wrapping_difference(a: u64, b: u64) -> (r: u64)
    ensures
        r == wrap64(a - b),
{
    a.wrapping_sub(b)
}

/// Whether `a` is less than `b`, both read as two's complement.
pub fn less_signed(a: u64, b: u64) -> (r: bool)
    ensures
        r == (signed(a) < signed(b)),
{
    let a_negative: bool = a >= 0x8000_0000_0000_0000;
    let b_negative: bool = b >= 0x8000_0000_0000_0000;
    if a_negative != b_negative {
        a_negative
    } else {
        a < b
    }
}

/// The arithmetic unit on doublewords.
pub fn alu(op: AluOp, a: u64, b: u64) -> (r: u64)
    ensures
        r == alu_spec(op, a, b),
{
    match op {
        AluOp::Add => wrapping_sum(a, b),
        AluOp::Sub => wrapping_difference(a, b),
        AluOp::Sll => a << (b % 64),
        AluOp::Slt => if less_signed(a, b) {
            1
        } else {
            0
        },
        AluOp::Sltu => if a < b {
            1
        } else {
            0
        },
        AluOp::Xor => a ^ b,
        AluOp::Srl => a >> (b % 64),
        AluOp::Sra => ((a as i64) >> (b % 64)) as u64,
        AluOp::Or => a | b,
        AluOp::And => a & b,
    }
}

/// The arithmetic unit on words.
pub fn alu_word(op: AluOp, a: u64, b: u64) -> (r: u64)
    ensures
        r == alu_word_spec(op, a, b),
{
    let x: u32 = (a % 0x1_0000_0000) as u32;
    let word: u32 = match op {
        AluOp::Sll => x << (b % 32),
        AluOp::Srl => x >> (b % 32),
        AluOp::Sra => ((x as i32) >> (b % 32)) as u32,
        _ => (alu(op, a, b) % 0x1_0000_0000) as u32,
    };
    sext(word as u64, 0x8000_0000)
}

/// Whether a branch on `cond` between `a` and `b` is taken.
pub fn taken(cond: Cond, a: u64, b: u64) -> (r: bool)
    ensures
        r == cond_spec(cond, a, b),
{
    match cond {
        Cond::Eq => a == b,
        Cond::Ne => a != b,
        Cond::Lt => less_signed(a, b),
        Cond::Ge => !less_signed(a, b),
        Cond::Ltu => a < b,
        Cond::Geu => a >= b,
    }
}

/// Widens the low `width` bytes of `raw` to a doubleword.
pub fn extend(raw: u64, width: Width, sign: bool) -> (r: u64)
    ensures
        r == extend_spec(raw, width, sign),
{
    match width {
        Width::Byte => if sign {
            sext(raw % 0x100, 0x80)
        } else {
            raw % 0x100
        },
        Width::Half => if sign {
            sext(raw % 0x1_0000, 0x8000)
        } else {
            raw % 0x1_0000
        },
        Width::Word => if sign {
            sext(raw % 0x1_0000_0000, 0x8000_0000)
        } else {
            raw % 0x1_0000_0000
        },
        Width::Double => raw,
    }
}

/// What `instr`, standing at address `pc`, does when its first source
/// register holds `a` and its second `b`.
pub fn evaluate(instr: Instr, pc: u64, a: u64, b: u64) -> (r: Outcome)
    ensures
        r == evaluate_spec(instr, pc, a, b),
{
    let quiet = Outcome { rd: instr.rd, value: 0, target: None, request: Request::Idle, stop: false };
    match instr.op {
        Op::Lui => Outcome { value: instr.imm, ..quiet },
        Op::Auipc => Outcome { value: wrapping_sum(pc, instr.imm), ..quiet },
        Op::Jal => Outcome {
            value: wrapping_sum(pc, 4),
            target: Some(wrapping_sum(pc, instr.imm)),
            ..quiet
        },
        Op::Jalr => {
            let sum: u64 = wrapping_sum(a, instr.imm);
            Outcome { value: wrapping_sum(pc, 4), target: Some(sum - sum % 2), ..quiet }
        },
        Op::Branch(cond) => Outcome {
            rd: 0,
            target: if taken(cond, a, b) {
                Some(wrapping_sum(pc, instr.imm))
            } else {
                None
            },
            ..quiet
        },
        Op::Load(width, sign) => Outcome {
            request: Request::Load(width, sign, wrapping_sum(a, instr.imm)),
            ..quiet
        },
        Op::Store(width) => Outcome {
            rd: 0,
            request: Request::Store(width, wrapping_sum(a, instr.imm), b),
            ..quiet
        },
        Op::OpImm(op) => Outcome { value: alu(op, a, instr.imm), ..quiet },
        Op::OpReg(op) => Outcome { value: alu(op, a, b), ..quiet },
        Op::OpImmWord(op) => Outcome { value: alu_word(op, a, instr.imm), ..quiet },
        Op::OpRegWord(op) => Outcome { value: alu_word(op, a, b), ..quiet },
        Op::Fence => Outcome { rd: 0, ..quiet },
        Op::Ecall => Outcome { rd: 0, stop: true, ..quiet },
        Op::Ebreak => Outcome { rd: 0, stop: true, ..quiet },
    }
}

} // verus!
