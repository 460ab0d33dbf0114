//! The instructions of RV64I and how an instruction word is taken apart.
use vstd::prelude::*;
use super::mem::Width;

verus! {

/// An operation of the arithmetic unit.
#[derive(Clone, Copy, Debug, PartialEq, Eq)]
pub enum AluOp {
    Add,
    Sub,
    Sll,
    Slt,
    Sltu,
    Xor,
    Srl,
    Sra,
    Or,
    And,
}

/// The condition of a branch.
#[derive(Clone, Copy, Debug, PartialEq, Eq)]
pub enum Cond {
    Eq,
    Ne,
    Lt,
    Ge,
    Ltu,
    Geu,
}

/// Every operation the processor knows, one variant per family.
#[derive(Clone, Copy, Debug, PartialEq, Eq)]
pub enum Op {
    /// Load the upper immediate.
    Lui,
    /// Add the upper immediate to the address of the instruction.
    Auipc,
    /// Jump and link, relative to the address of the instruction.
    Jal,
    /// Jump and link, to a register plus the immediate.
    Jalr,
    /// Conditional branch, relative to the address of the instruction.
    Branch(Cond),
    /// Load of the given width; `true` extends the sign.
    Load(Width, bool),
    /// Store of the given width.
    Store(Width),
    /// Doubleword arithmetic on a register and the immediate.
    OpImm(AluOp),
    /// Doubleword arithmetic on two registers.
    OpReg(AluOp),
    /// Word arithmetic on a register and the immediate.
    OpImmWord(AluOp),
    /// Word arithmetic on two registers.
    OpRegWord(AluOp),
    /// Memory ordering; nothing to do on a single in-order processor.
    Fence,
    /// Environment call: ends the run.
    Ecall,
    /// Breakpoint: ends the run.
    Ebreak,
}

/// Where in the instruction word the operands stand.
#[derive(Clone, Copy, Debug, PartialEq, Eq)]
pub enum Format {
    /// Two source registers and a destination.
    R,
    /// A source register, a destination, a 12-bit immediate.
    I,
    /// A source register, a destination, a 6-bit shift amount.
    Shift,
    /// A source register, a destination, a 5-bit shift amount.
    ShiftWord,
    /// Two source registers, a 12-bit immediate.
    S,
    /// Two source registers, a 13-bit even immediate.
    B,
    /// A destination, a 32-bit immediate with its low 12 bits clear.
    U,
    /// A destination, a 21-bit even immediate.
    J,
    /// No operands.
    Bare,
}

/// A decoded instruction. A register that the format lacks is register 0;
/// the immediate is sign-extended to 64 bits, 0 where the format has none.
#[derive(Clone, Copy, Debug, PartialEq, Eq)]
pub struct Instr {
    pub op: Op,
    pub rd: u8,
    pub rs1: u8,
    pub rs2: u8,
    pub imm: u64,
}

/// The two's-complement reading of `value` as a number of twice as many
/// bits as `half` has zeros, widened to 64 bits: `half` is the weight of the
/// sign bit.
pub open spec fn sign_extend(value: u64, half: u64) -> u64 {
    if value >= half {
        (value + (0x1_0000_0000_0000_0000 - 2 * half)) as u64
    } else {
        value
    }
}

/// Bits 6 to 0.
pub open spec fn opcode_of(word: u32) -> u32 {
    word % 128
}

/// Bits 11 to 7.
pub open spec fn rd_of(word: u32) -> u8 {
    ((word / 128) % 32) as u8
}

/// Bits 14 to 12.
pub open spec fn funct3_of(word: u32) -> u32 {
    (word / 0x1000) % 8
}

/// Bits 19 to 15.
pub open spec fn rs1_of(word: u32) -> u8 {
    ((word / 0x8000) % 32) as u8
}

/// Bits 24 to 20.
pub open spec fn rs2_of(word: u32) -> u8 {
    ((word / 0x10_0000) % 32) as u8
}

/// Bits 31 to 25.
pub open spec fn funct7_of(word: u32) -> u32 {
    word / 0x200_0000
}

/// Bits 31 to 26.
pub open spec fn funct6_of(word: u32) -> u32 {
    word / 0x400_0000
}

/// The immediate of format I.
pub open spec fn imm_i(word: u32) -> u64 {
    sign_extend((word / 0x10_0000) as u64, 0x800)
}

/// The immediate of format S.
pub open spec fn imm_s(word: u32) -> u64 {
    sign_extend(((word / 0x200_0000) * 32 + (word / 128) % 32) as u64, 0x800)
}

/// The immediate of format B.
pub open spec fn imm_b(word: u32) -> u64 {
    sign_extend(
        ((word / 0x8000_0000) * 0x1000 + ((word / 128) % 2) * 0x800 + ((word / 0x200_0000) % 64)
            * 32 + ((word / 256) % 16) * 2) as u64,
        0x1000,
    )
}

/// The immediate of format U.
pub open spec fn imm_u(word: u32) -> u64 {
    sign_extend(((word / 0x1000) * 0x1000) as u64, 0x8000_0000)
}

/// The immediate of format J.
pub open spec fn imm_j(word: u32) -> u64 {
    sign_extend(
        ((word / 0x8000_0000) * 0x10_0000 + ((word / 0x1000) % 256) * 0x1000 + ((word
            / 0x10_0000) % 2) * 0x800 + ((word / 0x20_0000) % 1024) * 2) as u64,
        0x10_0000,
    )
}

/// The condition that `funct3` selects in a branch.
pub open spec fn cond_of(funct3: u32) -> Option<Cond> {
    if funct3 == 0 {
        Some(Cond::Eq)
    } else if funct3 == 1 {
        Some(Cond::Ne)
    } else if funct3 == 4 {
        Some(Cond::Lt)
    } else if funct3 == 5 {
        Some(Cond::Ge)
    } else if funct3 == 6 {
        Some(Cond::Ltu)
    } else if funct3 == 7 {
        Some(Cond::Geu)
    } else {
        None
    }
}

/// The load that `funct3` selects.
pub open spec fn load_of(funct3: u32) -> Option<Op> {
    if funct3 == 0 {
        Some(Op::Load(Width::Byte, true))
    } else if funct3 == 1 {
        Some(Op::Load(Width::Half, true))
    } else if funct3 == 2 {
        Some(Op::Load(Width::Word, true))
    } else if funct3 == 3 {
        Some(Op::Load(Width::Double, true))
    } else if funct3 == 4 {
        Some(Op::Load(Width::Byte, false))
    } else if funct3 == 5 {
        Some(Op::Load(Width::Half, false))
    } else if funct3 == 6 {
        Some(Op::Load(Width::Word, false))
    } else {
        None
    }
}

/// The store that `funct3` selects.
pub open spec fn store_of(funct3: u32) -> Option<Op> {
    if funct3 == 0 {
        Some(Op::Store(Width::Byte))
    } else if funct3 == 1 {
        Some(Op::Store(Width::Half))
    } else if funct3 == 2 {
        Some(Op::Store(Width::Word))
    } else if funct3 == 3 {
        Some(Op::Store(Width::Double))
    } else {
        None
    }
}

/// The arithmetic that `funct3` selects between a register and a 12-bit
/// immediate; the two shifts are not among them.
pub open spec fn imm_alu_of(funct3: u32) -> Option<AluOp> {
    if funct3 == 0 {
        Some(AluOp::Add)
    } else if funct3 == 2 {
        Some(AluOp::Slt)
    } else if funct3 == 3 {
        Some(AluOp::Sltu)
    } else if funct3 == 4 {
        Some(AluOp::Xor)
    } else if funct3 == 6 {
        Some(AluOp::Or)
    } else if funct3 == 7 {
        Some(AluOp::And)
    } else {
        None
    }
}

/// The shift that `funct3` and the bits above the shift amount (`upper`,
/// of which `alt` marks the arithmetic shift) select.
pub open spec fn shift_of(funct3: u32, upper: u32, alt: u32) -> Option<AluOp> {
    if funct3 == 1 && upper == 0 {
        Some(AluOp::Sll)
    } else if funct3 == 5 && upper == 0 {
        Some(AluOp::Srl)
    } else if funct3 == 5 && upper == alt {
        Some(AluOp::Sra)
    } else {
        None
    }
}

/// The doubleword arithmetic that `funct3` and `funct7` select between two
/// registers.
pub open spec fn reg_alu_of(funct3: u32, funct7: u32) -> Option<AluOp> {
    if funct7 == 0 {
        if funct3 == 0 {
            Some(AluOp::Add)
        } else if funct3 == 1 {
            Some(AluOp::Sll)
        } else if funct3 == 2 {
            Some(AluOp::Slt)
        } else if funct3 == 3 {
            Some(AluOp::Sltu)
        } else if funct3 == 4 {
            Some(AluOp::Xor)
        } else if funct3 == 5 {
            Some(AluOp::Srl)
        } else if funct3 == 6 {
            Some(AluOp::Or)
        } else {
            Some(AluOp::And)
        }
    } else if funct7 == 0x20 {
        if funct3 == 0 {
            Some(AluOp::Sub)
        } else if funct3 == 5 {
            Some(AluOp::Sra)
        } else {
            None
        }
    } else {
        None
    }
}

/// The word arithmetic that `funct3` and `funct7` select between two
/// registers.
pub open spec fn reg_word_alu_of(funct3: u32, funct7: u32) -> Option<AluOp> {
    if funct7 == 0 {
        if funct3 == 0 {
            Some(AluOp::Add)
        } else if funct3 == 1 {
            Some(AluOp::Sll)
        } else if funct3 == 5 {
            Some(AluOp::Srl)
        } else {
            None
        }
    } else if funct7 == 0x20 {
        if funct3 == 0 {
            Some(AluOp::Sub)
        } else if funct3 == 5 {
            Some(AluOp::Sra)
        } else {
            None
        }
    } else {
        None
    }
}

/// The operation that an instruction word encodes, if it encodes one.
pub open spec fn op_of(word: u32) -> Option<Op> {
    let opcode = opcode_of(word);
    let funct3 = funct3_of(word);
    if opcode == 0x37 {
        Some(Op::Lui)
    } else if opcode == 0x17 {
        Some(Op::Auipc)
    } else if opcode == 0x6f {
        Some(Op::Jal)
    } else if opcode == 0x67 {
        if funct3 == 0 {
            Some(Op::Jalr)
        } else {
            None
        }
    } else if opcode == 0x63 {
        match cond_of(funct3) {
            Some(c) => Some(Op::Branch(c)),
            None => None,
        }
    } else if opcode == 0x03 {
        load_of(funct3)
    } else if opcode == 0x23 {
        store_of(funct3)
    } else if opcode == 0x13 {
        if funct3 == 1 || funct3 == 5 {
            match shift_of(funct3, funct6_of(word), 0x10) {
                Some(a) => Some(Op::OpImm(a)),
                None => None,
            }
        } else {
            match imm_alu_of(funct3) {
                Some(a) => Some(Op::OpImm(a)),
                None => None,
            }
        }
    } else if opcode == 0x33 {
        match reg_alu_of(funct3, funct7_of(word)) {
            Some(a) => Some(Op::OpReg(a)),
            None => None,
        }
    } else if opcode == 0x1b {
        if funct3 == 0 {
            Some(Op::OpImmWord(AluOp::Add))
        } else {
            match shift_of(funct3, funct7_of(word), 0x20) {
                Some(a) => Some(Op::OpImmWord(a)),
                None => None,
            }
        }
    } else if opcode == 0x3b {
        match reg_word_alu_of(funct3, funct7_of(word)) {
            Some(a) => Some(Op::OpRegWord(a)),
            None => None,
        }
    } else if opcode == 0x0f {
        if funct3 == 0 {
            Some(Op::Fence)
        } else {
            None
        }
    } else if word == 0x0000_0073 {
        Some(Op::Ecall)
    } else if word == 0x0010_0073 {
        Some(Op::Ebreak)
    } else {
        None
    }
}

impl AluOp {
    /// Whether the operation is one of the three shifts.
    pub open spec fn is_shift(self) -> bool {
        self == AluOp::Sll || self == AluOp::Srl || self == AluOp::Sra
    }

    /// Whether the operation is one of the three shifts.
    pub fn shifts(self) -> (r: bool)
        ensures
            r == self.is_shift(),
    {
        match self {
            AluOp::Sll => true,
            AluOp::Srl => true,
            AluOp::Sra => true,
            _ => false,
        }
    }
}

impl Op {
    /// Where the operands of the operation stand.
    pub open spec fn format_spec(self) -> Format {
        match self {
            Op::Lui => Format::U,
            Op::Auipc => Format::U,
            Op::Jal => Format::J,
            Op::Jalr => Format::I,
            Op::Branch(_) => Format::B,
            Op::Load(_, _) => Format::I,
            Op::Store(_) => Format::S,
            Op::OpImm(a) => if a.is_shift() {
                Format::Shift
            } else {
                Format::I
            },
            Op::OpReg(_) => Format::R,
            Op::OpImmWord(a) => if a.is_shift() {
                Format::ShiftWord
            } else {
                Format::I
            },
            Op::OpRegWord(_) => Format::R,
            Op::Fence => Format::Bare,
            Op::Ecall => Format::Bare,
            Op::Ebreak => Format::Bare,
        }
    }

    /// Where the operands of the operation stand.
    pub fn format(self) -> (f: Format)
        ensures
            f == self.format_spec(),
    {
        match self {
            Op::Lui => Format::U,
            Op::Auipc => Format::U,
            Op::Jal => Format::J,
            Op::Jalr => Format::I,
            Op::Branch(_) => Format::B,
            Op::Load(_, _) => Format::I,
            Op::Store(_) => Format::S,
            Op::OpImm(a) => if a.shifts() {
                Format::Shift
            } else {
                Format::I
            },
            Op::OpReg(_) => Format::R,
            Op::OpImmWord(a) => if a.shifts() {
                Format::ShiftWord
            } else {
                Format::I
            },
            Op::OpRegWord(_) => Format::R,
            Op::Fence => Format::Bare,
            Op::Ecall => Format::Bare,
            Op::Ebreak => Format::Bare,
        }
    }
}

/// The instruction that `op` makes of the operands in `word`.
pub open spec fn operands_of(op: Op, word: u32) -> Instr {
    match op.format_spec() {
        Format::R => Instr { op, rd: rd_of(word), rs1: rs1_of(word), rs2: rs2_of(word), imm: 0 },
        Format::I => Instr { op, rd: rd_of(word), rs1: rs1_of(word), rs2: 0, imm: imm_i(word) },
        Format::Shift => Instr {
            op,
            rd: rd_of(word),
            rs1: rs1_of(word),
            rs2: 0,
            imm: ((word / 0x10_0000) % 64) as u64,
        },
        Format::ShiftWord => Instr {
            op,
            rd: rd_of(word),
            rs1: rs1_of(word),
            rs2: 0,
            imm: ((word / 0x10_0000) % 32) as u64,
        },
        Format::S => Instr { op, rd: 0, rs1: rs1_of(word), rs2: rs2_of(word), imm: imm_s(word) },
        Format::B => Instr { op, rd: 0, rs1: rs1_of(word), rs2: rs2_of(word), imm: imm_b(word) },
        Format::U => Instr { op, rd: rd_of(word), rs1: 0, rs2: 0, imm: imm_u(word) },
        Format::J => Instr { op, rd: rd_of(word), rs1: 0, rs2: 0, imm: imm_j(word) },
        Format::Bare => Instr { op, rd: 0, rs1: 0, rs2: 0, imm: 0 },
    }
}

/// The instruction that a word encodes, if it encodes one.
pub open spec fn decode_spec(word: u32) -> Option<Instr> {
    match op_of(word) {
        Some(op) => Some(operands_of(op, word)),
        None => None,
    }
}

/// Every register of a decoded instruction is one of the 32.
pub proof fn lemma_decoded_registers(word: u32)
    ensures
        decode_spec(word) is Some ==> {
            &&& decode_spec(word)->0.rd < 32
            &&& decode_spec(word)->0.rs1 < 32
            &&& decode_spec(word)->0.rs2 < 32
        },
{
}

/// Widens `value`, a two's-complement number whose sign bit weighs `half`,
/// to 64 bits.
pub fn sext(value: u64, half: u64) -> (r: u64)
    requires
        0 < half <= 0x8000_0000_0000_0000,
        value < 2 * half,
    ensures
        r == sign_extend(value, half),
{
    if value >= half {
        let low: u64 = value - half;
        let top: u64 = u64::MAX - (half - 1);
        top + low
    } else {
        value
    }
}

fn decode_cond(funct3: u32) -> (r: Option<Cond>)
    ensures
        r == cond_of(funct3),
{
    match funct3 {
        0 => Some(Cond::Eq),
        1 => Some(Cond::Ne),
        4 => Some(Cond::Lt),
        5 => Some(Cond::Ge),
        6 => Some(Cond::Ltu),
        7 => Some(Cond::Geu),
        _ => None,
    }
}

fn decode_load(funct3: u32) -> (r: Option<Op>)
    ensures
        r == load_of(funct3),
{
    match funct3 {
        0 => Some(Op::Load(Width::Byte, true)),
        1 => Some(Op::Load(Width::Half, true)),
        2 => Some(Op::Load(Width::Word, true)),
        3 => Some(Op::Load(Width::Double, true)),
        4 => Some(Op::Load(Width::Byte, false)),
        5 => Some(Op::Load(Width::Half, false)),
        6 => Some(Op::Load(Width::Word, false)),
        _ => None,
    }
}

fn decode_store(funct3: u32) -> (r: Option<Op>)
    ensures
        r == store_of(funct3),
{
    match funct3 {
        0 => Some(Op::Store(Width::Byte)),
        1 => Some(Op::Store(Width::Half)),
        2 => Some(Op::Store(Width::Word)),
        3 => Some(Op::Store(Width::Double)),
        _ => None,
    }
}

fn decode_imm_alu(funct3: u32) -> (r: Option<AluOp>)
    ensures
        r == imm_alu_of(funct3),
{
    match funct3 {
        0 => Some(AluOp::Add),
        2 => Some(AluOp::Slt),
        3 => Some(AluOp::Sltu),
        4 => Some(AluOp::Xor),
        6 => Some(AluOp::Or),
        7 => Some(AluOp::And),
        _ => None,
    }
}

fn decode_shift(funct3: u32, upper: u32, alt: u32) -> (r: Option<AluOp>)
    ensures
        r == shift_of(funct3, upper, alt),
{
    if funct3 == 1 && upper == 0 {
        Some(AluOp::Sll)
    } else if funct3 == 5 && upper == 0 {
        Some(AluOp::Srl)
    } else if funct3 == 5 && upper == alt {
        Some(AluOp::Sra)
    } else {
        None
    }
}

fn decode_reg_alu(funct3: u32, funct7: u32) -> (r: Option<AluOp>)
    ensures
        r == reg_alu_of(funct3, funct7),
{
    if funct7 == 0 {
        match funct3 {
            0 => Some(AluOp::Add),
            1 => Some(AluOp::Sll),
            2 => Some(AluOp::Slt),
            3 => Some(AluOp::Sltu),
            4 => Some(AluOp::Xor),
            5 => Some(AluOp::Srl),
            6 => Some(AluOp::Or),
            _ => Some(AluOp::And),
        }
    } else if funct7 == 0x20 {
        match funct3 {
            0 => Some(AluOp::Sub),
            5 => Some(AluOp::Sra),
            _ => None,
        }
    } else {
        None
    }
}

fn decode_reg_word_alu(funct3: u32, funct7: u32) -> (r: Option<AluOp>)
    ensures
        r == reg_word_alu_of(funct3, funct7),
{
    if funct7 == 0 {
        match funct3 {
            0 => Some(AluOp::Add),
            1 => Some(AluOp::Sll),
            5 => Some(AluOp::Srl),
            _ => None,
        }
    } else if funct7 == 0x20 {
        match funct3 {
            0 => Some(AluOp::Sub),
            5 => Some(AluOp::Sra),
            _ => None,
        }
    } else {
        None
    }
}

/// The operation that `word` encodes; `None` if it encodes none.
pub fn decode_op(word: u32) -> (r: Option<Op>)
    ensures
        r == op_of(word),
{
    let opcode: u32 = word % 128;
    let funct3: u32 = (word / 0x1000) % 8;
    let funct7: u32 = word / 0x200_0000;
    match opcode {
        0x37 => Some(Op::Lui),
        0x17 => Some(Op::Auipc),
        0x6f => Some(Op::Jal),
        0x67 => if funct3 == 0 {
            Some(Op::Jalr)
        } else {
            None
        },
        0x63 => match decode_cond(funct3) {
            Some(c) => Some(Op::Branch(c)),
            None => None,
        },
        0x03 => decode_load(funct3),
        0x23 => decode_store(funct3),
        0x13 => {
            let picked: Option<AluOp> = if funct3 == 1 || funct3 == 5 {
                decode_shift(funct3, word / 0x400_0000, 0x10)
            } else {
                decode_imm_alu(funct3)
            };
            match picked {
                Some(a) => Some(Op::OpImm(a)),
                None => None,
            }
        },
        0x33 => match decode_reg_alu(funct3, funct7) {
            Some(a) => Some(Op::OpReg(a)),
            None => None,
        },
        0x1b => if funct3 == 0 {
            Some(Op::OpImmWord(AluOp::Add))
        } else {
            match decode_shift(funct3, funct7, 0x20) {
                Some(a) => Some(Op::OpImmWord(a)),
                None => None,
            }
        },
        0x3b => match decode_reg_word_alu(funct3, funct7) {
            Some(a) => Some(Op::OpRegWord(a)),
            None => None,
        },
        0x0f => if funct3 == 0 {
            Some(Op::Fence)
        } else {
            None
        },
        _ => if word == 0x0000_0073 {
            Some(Op::Ecall)
        } else if word == 0x0010_0073 {
            Some(Op::Ebreak)
        } else {
            None
        },
    }
}

/// The immediate of format I in `word`.
fn decode_imm_i(word: u32) -> (r: u64)
    ensures
        r == imm_i(word),
{
    sext((word / 0x10_0000) as u64, 0x800)
}

/// The immediate of format S in `word`.
fn decode_imm_s(word: u32) -> (r: u64)
    ensures
        r == imm_s(word),
{
    let raw: u32 = (word / 0x200_0000) * 32 + (word / 128) % 32;
    sext(raw as u64, 0x800)
}

/// The immediate of format B in `word`.
fn decode_imm_b(word: u32) -> (r: u64)
    ensures
        r == imm_b(word),
{
    let raw: u32 = (word / 0x8000_0000) * 0x1000 + ((word / 128) % 2) * 0x800 + ((word
        / 0x200_0000) % 64) * 32 + ((word / 256) % 16) * 2;
    sext(raw as u64, 0x1000)
}

/// The immediate of format U in `word`.
fn decode_imm_u(word: u32) -> (r: u64)
    ensures
        r == imm_u(word),
{
    let raw: u32 = (word / 0x1000) * 0x1000;
    sext(raw as u64, 0x8000_0000)
}

/// The immediate of format J in `word`.
fn decode_imm_j(word: u32) -> (r: u64)
    ensures
        r == imm_j(word),
{
    let raw: u32 = (word / 0x8000_0000) * 0x10_0000 + ((word / 0x1000) % 256) * 0x1000 + ((word
        / 0x10_0000) % 2) * 0x800 + ((word / 0x20_0000) % 1024) * 2;
    sext(raw as u64, 0x10_0000)
}

/// The instruction that `op` makes of the operands in `word`.
pub fn operands(op: Op, word: u32) -> (r: Instr)
    ensures
        r == operands_of(op, word),
        r.rd < 32 && r.rs1 < 32 && r.rs2 < 32,
{
    let rd: u8 = ((word / 128) % 32) as u8;
    let rs1: u8 = ((word / 0x8000) % 32) as u8;
    let rs2: u8 = ((word / 0x10_0000) % 32) as u8;
    match op.format() {
        Format::R => Instr { op, rd, rs1, rs2, imm: 0 },
        Format::I => Instr { op, rd, rs1, rs2: 0, imm: decode_imm_i(word) },
        Format::Shift => Instr { op, rd, rs1, rs2: 0, imm: ((word / 0x10_0000) % 64) as u64 },
        Format::ShiftWord => Instr { op, rd, rs1, rs2: 0, imm: ((word / 0x10_0000) % 32) as u64 },
        Format::S => Instr { op, rd: 0, rs1, rs2, imm: decode_imm_s(word) },
        Format::B => Instr { op, rd: 0, rs1, rs2, imm: decode_imm_b(word) },
        Format::U => Instr { op, rd, rs1: 0, rs2: 0, imm: decode_imm_u(word) },
        Format::J => Instr { op, rd, rs1: 0, rs2: 0, imm: decode_imm_j(word) },
        Format::Bare => Instr { op, rd: 0, rs1: 0, rs2: 0, imm: 0 },
    }
}

/// Decodes an instruction word; `None` if it encodes no instruction.
pub fn decode(word: u32) -> (r: Option<Instr>)
    ensures
        r == decode_spec(word),
        r is Some ==> r->0.rd < 32 && r->0.rs1 < 32 && r->0.rs2 < 32,
{
    match decode_op(word) {
        Some(op) => Some(operands(op, word)),
        None => None,
    }
}

} // verus!
