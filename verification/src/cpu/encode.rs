//! How an instruction is written as a word, and the proof that decoding
//! gives it back.
use vstd::prelude::*;
use super::isa::{
    decode_spec, funct3_of, funct6_of, funct7_of, imm_b, imm_i, imm_j, imm_s, imm_u, op_of,
    opcode_of, rd_of, rs1_of, rs2_of, AluOp, Cond, Format, Instr, Op,
};
use super::mem::Width;

verus! {

/// The word made of six fields, from bit 31 down: 7, 5, 5, 3, 5 and 7 bits.
pub open spec fn pack(f7: u32, rs2: u32, rs1: u32, f3: u32, rd: u32, opcode: u32) -> u32 {
    (f7 * 0x200_0000 + rs2 * 0x10_0000 + rs1 * 0x8000 + f3 * 0x1000 + rd * 0x80 + opcode) as u32
}

/// The word of format B with the even 13-bit immediate `x`.
pub open spec fn pack_branch(x: u32, rs2: u32, rs1: u32, f3: u32, opcode: u32) -> u32 {
    ((x / 0x1000) * 0x8000_0000 + ((x / 32) % 64) * 0x200_0000 + rs2 * 0x10_0000 + rs1 * 0x8000
        + f3 * 0x1000 + ((x / 2) % 16) * 0x100 + ((x / 0x800) % 2) * 0x80 + opcode) as u32
}

/// The word of format J with the even 21-bit immediate `x`.
pub open spec fn pack_jump(x: u32, rd: u32, opcode: u32) -> u32 {
    ((x / 0x10_0000) * 0x8000_0000 + ((x / 2) % 1024) * 0x20_0000 + ((x / 0x800) % 2) * 0x10_0000
        + ((x / 0x1000) % 256) * 0x1000 + rd * 0x80 + opcode) as u32
}

/// Whether `imm` is a two's-complement number that fits the bits whose sign
/// bit weighs `half`.
pub open spec fn fits(imm: u64, half: u64) -> bool {
    imm < half || imm >= 0x1_0000_0000_0000_0000 - half
}

impl AluOp {
    /// The `funct3` field of the operation.
    pub open spec fn funct3_spec(self) -> u32 {
        match self {
            AluOp::Add => 0,
            AluOp::Sub => 0,
            AluOp::Sll => 1,
            AluOp::Slt => 2,
            AluOp::Sltu => 3,
            AluOp::Xor => 4,
            AluOp::Srl => 5,
            AluOp::Sra => 5,
            AluOp::Or => 6,
            AluOp::And => 7,
        }
    }

    /// The `funct7` field of the operation.
    pub open spec fn funct7_spec(self) -> u32 {
        match self {
            AluOp::Sub => 0x20,
            AluOp::Sra => 0x20,
            _ => 0,
        }
    }

    /// Whether the operation exists on words.
    pub open spec fn on_words(self) -> bool {
        self == AluOp::Add || self == AluOp::Sub || self.is_shift()
    }

    /// The `funct3` field of the operation.
    pub fn funct3(self) -> (r: u32)
        ensures
            r == self.funct3_spec(),
    {
        match self {
            AluOp::Add => 0,
            AluOp::Sub => 0,
            AluOp::Sll => 1,
            AluOp::Slt => 2,
            AluOp::Sltu => 3,
            AluOp::Xor => 4,
            AluOp::Srl => 5,
            AluOp::Sra => 5,
            AluOp::Or => 6,
            AluOp::And => 7,
        }
    }

    /// The `funct7` field of the operation.
    pub fn funct7(self) -> (r: u32)
        ensures
            r == self.funct7_spec(),
    {
        match self {
            AluOp::Sub => 0x20,
            AluOp::Sra => 0x20,
            _ => 0,
        }
    }
}

impl Cond {
    /// The `funct3` field of the condition.
    pub open spec fn funct3_spec(self) -> u32 {
        match self {
            Cond::Eq => 0,
            Cond::Ne => 1,
            Cond::Lt => 4,
            Cond::Ge => 5,
            Cond::Ltu => 6,
            Cond::Geu => 7,
        }
    }

    /// The `funct3` field of the condition.
    pub fn funct3(self) -> (r: u32)
        ensures
            r == self.funct3_spec(),
    {
        match self {
            Cond::Eq => 0,
            Cond::Ne => 1,
            Cond::Lt => 4,
            Cond::Ge => 5,
            Cond::Ltu => 6,
            Cond::Geu => 7,
        }
    }
}

impl Width {
    /// The `funct3` field of a store of this width.
    pub open spec fn code_spec(self) -> u32 {
        match self {
            Width::Byte => 0,
            Width::Half => 1,
            Width::Word => 2,
            Width::Double => 3,
        }
    }

    /// The `funct3` field of a store of this width.
    pub fn code(self) -> (r: u32)
        ensures
            r == self.code_spec(),
    {
        match self {
            Width::Byte => 0,
            Width::Half => 1,
            Width::Word => 2,
            Width::Double => 3,
        }
    }
}

impl Op {
    /// Whether the instruction set has the operation.
    pub open spec fn valid(self) -> bool {
        match self {
            Op::Load(width, sign) => sign || width != Width::Double,
            Op::OpImm(a) => a != AluOp::Sub,
            Op::OpImmWord(a) => a == AluOp::Add || a.is_shift(),
            Op::OpRegWord(a) => a.on_words(),
            _ => true,
        }
    }

    /// The opcode of the operation.
    pub open spec fn opcode_spec(self) -> u32 {
        match self {
            Op::Lui => 0x37,
            Op::Auipc => 0x17,
            Op::Jal => 0x6f,
            Op::Jalr => 0x67,
            Op::Branch(_) => 0x63,
            Op::Load(_, _) => 0x03,
            Op::Store(_) => 0x23,
            Op::OpImm(_) => 0x13,
            Op::OpReg(_) => 0x33,
            Op::OpImmWord(_) => 0x1b,
            Op::OpRegWord(_) => 0x3b,
            Op::Fence => 0x0f,
            Op::Ecall => 0x73,
            Op::Ebreak => 0x73,
        }
    }

    /// The `funct3` field of the operation, 0 where the format has none.
    pub open spec fn funct3_spec(self) -> u32 {
        match self {
            Op::Branch(c) => c.funct3_spec(),
            Op::Load(width, sign) => if sign {
                width.code_spec()
            } else {
                (width.code_spec() + 4) as u32
            },
            Op::Store(width) => width.code_spec(),
            Op::OpImm(a) => a.funct3_spec(),
            Op::OpReg(a) => a.funct3_spec(),
            Op::OpImmWord(a) => a.funct3_spec(),
            Op::OpRegWord(a) => a.funct3_spec(),
            _ => 0,
        }
    }

    /// The `funct7` field of the operation, 0 where the format has none.
    pub open spec fn funct7_spec(self) -> u32 {
        match self {
            Op::OpImm(a) => a.funct7_spec(),
            Op::OpReg(a) => a.funct7_spec(),
            Op::OpImmWord(a) => a.funct7_spec(),
            Op::OpRegWord(a) => a.funct7_spec(),
            _ => 0,
        }
    }

    /// Whether the instruction set has the operation.
    pub fn is_valid(self) -> (r: bool)
        ensures
            r == self.valid(),
    {
        match self {
            Op::Load(width, sign) => sign || !matches!(width, Width::Double),
            Op::OpImm(a) => !matches!(a, AluOp::Sub),
            Op::OpImmWord(a) => matches!(a, AluOp::Add) || a.shifts(),
            Op::OpRegWord(a) => matches!(a, AluOp::Add) || matches!(a, AluOp::Sub) || a.shifts(),
            _ => true,
        }
    }

    /// The opcode of the operation.
    pub fn opcode(self) -> (r: u32)
        ensures
            r == self.opcode_spec(),
    {
        match self {
            Op::Lui => 0x37,
            Op::Auipc => 0x17,
            Op::Jal => 0x6f,
            Op::Jalr => 0x67,
            Op::Branch(_) => 0x63,
            Op::Load(_, _) => 0x03,
            Op::Store(_) => 0x23,
            Op::OpImm(_) => 0x13,
            Op::OpReg(_) => 0x33,
            Op::OpImmWord(_) => 0x1b,
            Op::OpRegWord(_) => 0x3b,
            Op::Fence => 0x0f,
            Op::Ecall => 0x73,
            Op::Ebreak => 0x73,
        }
    }

    /// The `funct3` field of the operation, 0 where the format has none.
    pub fn funct3(self) -> (r: u32)
        ensures
            r == self.funct3_spec(),
    {
        match self {
            Op::Branch(c) => c.funct3(),
            Op::Load(width, sign) => if sign {
                width.code()
            } else {
                width.code() + 4
            },
            Op::Store(width) => width.code(),
            Op::OpImm(a) => a.funct3(),
            Op::OpReg(a) => a.funct3(),
            Op::OpImmWord(a) => a.funct3(),
            Op::OpRegWord(a) => a.funct3(),
            _ => 0,
        }
    }

    /// The `funct7` field of the operation, 0 where the format has none.
    pub fn funct7(self) -> (r: u32)
        ensures
            r == self.funct7_spec(),
    {
        match self {
            Op::OpImm(a) => a.funct7(),
            Op::OpReg(a) => a.funct7(),
            Op::OpImmWord(a) => a.funct7(),
            Op::OpRegWord(a) => a.funct7(),
            _ => 0,
        }
    }
}

impl Instr {
    /// Whether the instruction can be written as a word: the operation
    /// exists, the registers that its format has are among the 32 and the
    /// others are 0, and the immediate fits the format.
    pub open spec fn encodable(self) -> bool {
        &&& self.op.valid()
        &&& self.rd < 32
        &&& self.rs1 < 32
        &&& self.rs2 < 32
        &&& match self.op.format_spec() {
            Format::R => self.imm == 0,
            Format::I => self.rs2 == 0 && fits(self.imm, 0x800),
            Format::Shift => self.rs2 == 0 && self.imm < 64,
            Format::ShiftWord => self.rs2 == 0 && self.imm < 32,
            Format::S => self.rd == 0 && fits(self.imm, 0x800),
            Format::B => self.rd == 0 && fits(self.imm, 0x1000) && self.imm % 2 == 0,
            Format::U => self.rs1 == 0 && self.rs2 == 0 && fits(self.imm, 0x8000_0000) && self.imm
                % 0x1000 == 0,
            Format::J => self.rs1 == 0 && self.rs2 == 0 && fits(self.imm, 0x10_0000) && self.imm
                % 2 == 0,
            Format::Bare => self.rd == 0 && self.rs1 == 0 && self.rs2 == 0 && self.imm == 0,
        }
    }

    /// The word that stands for the instruction.
    pub open spec fn encode_spec(self) -> u32 {
        let opcode = self.op.opcode_spec();
        let f3 = self.op.funct3_spec();
        let f7 = self.op.funct7_spec();
        let rd = self.rd as u32;
        let rs1 = self.rs1 as u32;
        let rs2 = self.rs2 as u32;
        match self.op.format_spec() {
            Format::R => pack(f7, rs2, rs1, f3, rd, opcode),
            Format::I => {
                let x = (self.imm % 0x1000) as u32;
                pack(x / 32, x % 32, rs1, f3, rd, opcode)
            },
            Format::Shift => {
                let x = self.imm as u32;
                pack((f7 + x / 32) as u32, x % 32, rs1, f3, rd, opcode)
            },
            Format::ShiftWord => pack(f7, self.imm as u32, rs1, f3, rd, opcode),
            Format::S => {
                let x = (self.imm % 0x1000) as u32;
                pack(x / 32, rs2, rs1, f3, x % 32, opcode)
            },
            Format::B => pack_branch((self.imm % 0x2000) as u32, rs2, rs1, f3, opcode),
            Format::U => {
                let up = ((self.imm % 0x1_0000_0000) / 0x1000) as u32;
                pack(up / 0x2000, (up / 256) % 32, (up / 8) % 32, up % 8, rd, opcode)
            },
            Format::J => pack_jump((self.imm % 0x20_0000) as u32, rd, opcode),
            Format::Bare => if self.op == Op::Ebreak {
                pack(0, 1, 0, 0, 0, opcode)
            } else {
                pack(0, 0, 0, 0, 0, opcode)
            },
        }
    }
}

/// Taking a packed word apart gives the six fields back, and with them
/// what the immediates are cut from.
pub proof fn lemma_pack(f7: u32, rs2: u32, rs1: u32, f3: u32, rd: u32, opcode: u32)
    by (bit_vector)
    requires
        f7 < 128,
        rs2 < 32,
        rs1 < 32,
        f3 < 8,
        rd < 32,
        opcode < 128,
    ensures
        ({
            let sum = f7 * 0x200_0000 + rs2 * 0x10_0000 + rs1 * 0x8000 + f3 * 0x1000 + rd * 0x80
                + opcode;
            let w = sum as u32;
            &&& sum < 0x1_0000_0000
            &&& opcode_of(w) == opcode
            &&& rd_of(w) == rd
            &&& funct3_of(w) == f3
            &&& rs1_of(w) == rs1
            &&& rs2_of(w) == rs2
            &&& funct7_of(w) == f7
            &&& funct6_of(w) == f7 / 2
            &&& w / 0x10_0000 == f7 * 32 + rs2
            &&& (w / 0x10_0000) % 64 == (f7 % 2) * 32 + rs2
            &&& w / 0x8000_0000 == f7 / 64
            &&& (w / 0x200_0000) % 64 == f7 % 64
            &&& (w / 128) % 2 == rd % 2
            &&& (w / 256) % 16 == rd / 2
            &&& w / 0x1000 == f7 * 0x2000 + rs2 * 256 + rs1 * 8 + f3
            &&& (w / 0x1000) % 256 == rs1 * 8 + f3
            &&& (w / 0x10_0000) % 2 == rs2 % 2
            &&& (w / 0x20_0000) % 1024 == (f7 % 64) * 16 + rs2 / 2
        }),
{
}

/// A number is even if and only if its lowest bit is clear.
pub proof fn lemma_even(imm: u64)
    by (bit_vector)
    ensures
        (imm % 2 == 0) == (imm & 1 == 0),
{
}

/// A word of format B, taken apart, gives its fields and its immediate
/// back.
pub proof fn lemma_pack_branch(imm: u64, rs2: u32, rs1: u32, f3: u32, opcode: u32)
    by (bit_vector)
    requires
        fits(imm, 0x1000),
        imm & 1 == 0,
        rs2 < 32,
        rs1 < 32,
        f3 < 8,
        opcode < 128,
    ensures
        ({
            let x = (imm % 0x2000) as u32;
            let sum = (x / 0x1000) * 0x8000_0000 + ((x / 32) % 64) * 0x200_0000 + rs2 * 0x10_0000
                + rs1 * 0x8000 + f3 * 0x1000 + ((x / 2) % 16) * 0x100 + ((x / 0x800) % 2) * 0x80
                + opcode;
            let w = sum as u32;
            &&& sum < 0x1_0000_0000
            &&& opcode_of(w) == opcode
            &&& funct3_of(w) == f3
            &&& rs1_of(w) == rs1
            &&& rs2_of(w) == rs2
            &&& imm_b(w) == imm
        }),
{
}

/// A word of format J, taken apart, gives its fields and its immediate
/// back.
pub proof fn lemma_pack_jump(imm: u64, rd: u32, opcode: u32)
    by (bit_vector)
    requires
        fits(imm, 0x10_0000),
        imm & 1 == 0,
        rd < 32,
        opcode < 128,
    ensures
        ({
            let x = (imm % 0x20_0000) as u32;
            let sum = (x / 0x10_0000) * 0x8000_0000 + ((x / 2) % 1024) * 0x20_0000 + ((x / 0x800)
                % 2) * 0x10_0000 + ((x / 0x1000) % 256) * 0x1000 + rd * 0x80 + opcode;
            let w = sum as u32;
            &&& sum < 0x1_0000_0000
            &&& opcode_of(w) == opcode
            &&& rd_of(w) == rd
            &&& imm_j(w) == imm
        }),
{
}

/// A word of format U, taken apart, gives its fields and its immediate
/// back.
pub proof fn lemma_pack_upper(imm: u64, rd: u32, opcode: u32)
    by (bit_vector)
    requires
        fits(imm, 0x8000_0000),
        imm % 0x1000 == 0,
        rd < 32,
        opcode < 128,
    ensures
        ({
            let up = ((imm % 0x1_0000_0000) / 0x1000) as u32;
            let sum = (up / 0x2000) * 0x200_0000 + ((up / 256) % 32) * 0x10_0000 + ((up / 8) % 32)
                * 0x8000 + (up % 8) * 0x1000 + rd * 0x80 + opcode;
            let w = sum as u32;
            &&& up / 0x2000 < 128
            &&& sum < 0x1_0000_0000
            &&& opcode_of(w) == opcode
            &&& rd_of(w) == rd
            &&& imm_u(w) == imm
        }),
{
}

/// A word of format I or S, taken apart, gives its fields and its
/// immediate back.
pub proof fn lemma_pack_short(imm: u64, rs2: u32, rs1: u32, f3: u32, rd: u32, opcode: u32)
    by (bit_vector)
    requires
        fits(imm, 0x800),
        rs2 < 32,
        rs1 < 32,
        f3 < 8,
        rd < 32,
        opcode < 128,
    ensures
        ({
            let x = (imm % 0x1000) as u32;
            let sum = (x / 32) * 0x200_0000 + (x % 32) * 0x10_0000 + rs1 * 0x8000 + f3 * 0x1000
                + rd * 0x80 + opcode;
            let w = sum as u32;
            &&& sum < 0x1_0000_0000
            &&& opcode_of(w) == opcode
            &&& funct3_of(w) == f3
            &&& rs1_of(w) == rs1
            &&& rd_of(w) == rd
            &&& imm_i(w) == imm
        }),
        ({
            let x = (imm % 0x1000) as u32;
            let sum = (x / 32) * 0x200_0000 + rs2 * 0x10_0000 + rs1 * 0x8000 + f3 * 0x1000 + (x
                % 32) * 0x80 + opcode;
            let w = sum as u32;
            &&& sum < 0x1_0000_0000
            &&& opcode_of(w) == opcode
            &&& funct3_of(w) == f3
            &&& rs1_of(w) == rs1
            &&& rs2_of(w) == rs2
            &&& imm_s(w) == imm
        }),
{
}

/// A word with the opcode and the function fields of an operation that
/// exists decodes to that operation.
pub proof fn lemma_op_found(op: Op, w: u32)
    requires
        op.valid(),
        opcode_of(w) == op.opcode_spec(),
        match op.format_spec() {
            Format::R => funct3_of(w) == op.funct3_spec() && funct7_of(w) == op.funct7_spec(),
            Format::ShiftWord => funct3_of(w) == op.funct3_spec() && funct7_of(w)
                == op.funct7_spec(),
            Format::Shift => funct3_of(w) == op.funct3_spec() && funct6_of(w) == op.funct7_spec()
                / 2,
            Format::I => funct3_of(w) == op.funct3_spec(),
            Format::S => funct3_of(w) == op.funct3_spec(),
            Format::B => funct3_of(w) == op.funct3_spec(),
            Format::U => true,
            Format::J => true,
            Format::Bare => funct3_of(w) == 0 && (op == Op::Ecall ==> w == 0x73) && (op
                == Op::Ebreak ==> w == 0x10_0073),
        },
    ensures
        op_of(w) == Some(op),
{
}

proof fn lemma_round_trip_r(instr: Instr)
    requires
        instr.encodable(),
        instr.op.format_spec() == Format::R,
    ensures
        decode_spec(instr.encode_spec()) == Some(instr),
{
    let op = instr.op;
    lemma_pack(
        op.funct7_spec(),
        instr.rs2 as u32,
        instr.rs1 as u32,
        op.funct3_spec(),
        instr.rd as u32,
        op.opcode_spec(),
    );
    lemma_op_found(op, instr.encode_spec());
}

proof fn lemma_round_trip_i(instr: Instr)
    requires
        instr.encodable(),
        instr.op.format_spec() == Format::I,
    ensures
        decode_spec(instr.encode_spec()) == Some(instr),
{
    let op = instr.op;
    lemma_pack_short(
        instr.imm,
        0,
        instr.rs1 as u32,
        op.funct3_spec(),
        instr.rd as u32,
        op.opcode_spec(),
    );
    lemma_op_found(op, instr.encode_spec());
}

proof fn lemma_round_trip_shift(instr: Instr)
    requires
        instr.encodable(),
        instr.op.format_spec() == Format::Shift || instr.op.format_spec() == Format::ShiftWord,
    ensures
        decode_spec(instr.encode_spec()) == Some(instr),
{
    let op = instr.op;
    let x = instr.imm as u32;
    if op.format_spec() == Format::Shift {
        let f7 = (op.funct7_spec() + x / 32) as u32;
        lemma_pack(f7, x % 32, instr.rs1 as u32, op.funct3_spec(), instr.rd as u32, op.opcode_spec());
        assert(f7 / 2 == op.funct7_spec() / 2);
        assert((f7 % 2) * 32 + x % 32 == x);
    } else {
        lemma_pack(
            op.funct7_spec(),
            x,
            instr.rs1 as u32,
            op.funct3_spec(),
            instr.rd as u32,
            op.opcode_spec(),
        );
    }
    lemma_op_found(op, instr.encode_spec());
}

proof fn lemma_round_trip_s(instr: Instr)
    requires
        instr.encodable(),
        instr.op.format_spec() == Format::S,
    ensures
        decode_spec(instr.encode_spec()) == Some(instr),
{
    let op = instr.op;
    lemma_pack_short(
        instr.imm,
        instr.rs2 as u32,
        instr.rs1 as u32,
        op.funct3_spec(),
        0,
        op.opcode_spec(),
    );
    lemma_op_found(op, instr.encode_spec());
}

proof fn lemma_round_trip_b(instr: Instr)
    requires
        instr.encodable(),
        instr.op.format_spec() == Format::B,
    ensures
        decode_spec(instr.encode_spec()) == Some(instr),
{
    let op = instr.op;
    lemma_even(instr.imm);
    lemma_pack_branch(
        instr.imm,
        instr.rs2 as u32,
        instr.rs1 as u32,
        op.funct3_spec(),
        op.opcode_spec(),
    );
    lemma_op_found(op, instr.encode_spec());
}

proof fn lemma_round_trip_u(instr: Instr)
    requires
        instr.encodable(),
        instr.op.format_spec() == Format::U,
    ensures
        decode_spec(instr.encode_spec()) == Some(instr),
{
    let op = instr.op;
    lemma_pack_upper(instr.imm, instr.rd as u32, op.opcode_spec());
    lemma_op_found(op, instr.encode_spec());
}

proof fn lemma_round_trip_j(instr: Instr)
    requires
        instr.encodable(),
        instr.op.format_spec() == Format::J,
    ensures
        decode_spec(instr.encode_spec()) == Some(instr),
{
    let op = instr.op;
    lemma_even(instr.imm);
    lemma_pack_jump(instr.imm, instr.rd as u32, op.opcode_spec());
    lemma_op_found(op, instr.encode_spec());
}

proof fn lemma_round_trip_bare(instr: Instr)
    requires
        instr.encodable(),
        instr.op.format_spec() == Format::Bare,
    ensures
        decode_spec(instr.encode_spec()) == Some(instr),
{
    let op = instr.op;
    lemma_pack(0, 0, 0, 0, 0, op.opcode_spec());
    lemma_pack(0, 1, 0, 0, 0, op.opcode_spec());
    lemma_op_found(op, instr.encode_spec());
}

/// Decoding undoes encoding: the word of an instruction that can be
/// written as one decodes to that instruction.
pub proof fn lemma_decode_encode(instr: Instr)
    requires
        instr.encodable(),
    ensures
        decode_spec(instr.encode_spec()) == Some(instr),
{
    match instr.op.format_spec() {
        Format::R => lemma_round_trip_r(instr),
        Format::I => lemma_round_trip_i(instr),
        Format::Shift => lemma_round_trip_shift(instr),
        Format::ShiftWord => lemma_round_trip_shift(instr),
        Format::S => lemma_round_trip_s(instr),
        Format::B => lemma_round_trip_b(instr),
        Format::U => lemma_round_trip_u(instr),
        Format::J => lemma_round_trip_j(instr),
        Format::Bare => lemma_round_trip_bare(instr),
    }
}

/// The immediates that the decoder cuts from a word fit their formats.
pub proof fn lemma_immediates_fit(word: u32)
    by (bit_vector)
    ensures
        fits(imm_i(word), 0x800),
        fits(imm_s(word), 0x800),
        fits(imm_b(word), 0x1000),
        imm_b(word) & 1 == 0,
        fits(imm_u(word), 0x8000_0000),
        imm_u(word) & 0xfff == 0,
        fits(imm_j(word), 0x10_0000),
        imm_j(word) & 1 == 0,
{
}

/// A number is a multiple of 4096 if and only if its low twelve bits are
/// clear.
pub proof fn lemma_page(imm: u64)
    by (bit_vector)
    ensures
        (imm % 0x1000 == 0) == (imm & 0xfff == 0),
{
}

/// The decoder yields only instructions that can be written as words.
#[verifier::rlimit(20)]
pub proof fn lemma_decoded_encodable(word: u32)
    ensures
        decode_spec(word) is Some ==> decode_spec(word)->0.encodable(),
{
    lemma_immediates_fit(word);
    lemma_even(imm_b(word));
    lemma_even(imm_j(word));
    lemma_page(imm_u(word));
}

/// Packs six fields into a word.
fn pack_fields(f7: u32, rs2: u32, rs1: u32, f3: u32, rd: u32, opcode: u32) -> (w: u32)
    requires
        f7 < 128,
        rs2 < 32,
        rs1 < 32,
        f3 < 8,
        rd < 32,
        opcode < 128,
    ensures
        w == pack(f7, rs2, rs1, f3, rd, opcode),
{
    f7 * 0x200_0000 + rs2 * 0x10_0000 + rs1 * 0x8000 + f3 * 0x1000 + rd * 0x80 + opcode
}

/// Whether `imm` is a two's-complement number that fits the bits whose sign
/// bit weighs `half`.
fn in_range(imm: u64, half: u64) -> (r: bool)
    requires
        0 < half,
    ensures
        r == fits(imm, half),
{
    imm < half || imm > u64::MAX - half
}

/// Whether `instr` can be written as a word.
pub fn can_encode(instr: &Instr) -> (r: bool)
    ensures
        r == instr.encodable(),
{
    if !instr.op.is_valid() || instr.rd >= 32 || instr.rs1 >= 32 || instr.rs2 >= 32 {
        return false;
    }
    match instr.op.format() {
        Format::R => instr.imm == 0,
        Format::I => instr.rs2 == 0 && in_range(instr.imm, 0x800),
        Format::Shift => instr.rs2 == 0 && instr.imm < 64,
        Format::ShiftWord => instr.rs2 == 0 && instr.imm < 32,
        Format::S => instr.rd == 0 && in_range(instr.imm, 0x800),
        Format::B => instr.rd == 0 && in_range(instr.imm, 0x1000) && instr.imm % 2 == 0,
        Format::U => instr.rs1 == 0 && instr.rs2 == 0 && in_range(instr.imm, 0x8000_0000)
            && instr.imm % 0x1000 == 0,
        Format::J => instr.rs1 == 0 && instr.rs2 == 0 && in_range(instr.imm, 0x10_0000)
            && instr.imm % 2 == 0,
        Format::Bare => instr.rd == 0 && instr.rs1 == 0 && instr.rs2 == 0 && instr.imm == 0,
    }
}

/// The word that stands for `instr`; `None` if `instr` cannot be written
/// as a word. Decoding the word gives `instr` back.
#[verifier::rlimit(20)]
pub fn encode(instr: &Instr) -> (r: Option<u32>)
    ensures
        r == (if instr.encodable() {
            Some(instr.encode_spec())
        } else {
            None
        }),
        r is Some ==> decode_spec(r->0) == Some(*instr),
{
    if !can_encode(instr) {
        return None;
    }
    proof {
        lemma_decode_encode(*instr);
    }
    let opcode: u32 = instr.op.opcode();
    let f3: u32 = instr.op.funct3();
    let f7: u32 = instr.op.funct7();
    let rd: u32 = instr.rd as u32;
    let rs1: u32 = instr.rs1 as u32;
    let rs2: u32 = instr.rs2 as u32;
    let w: u32 = match instr.op.format() {
        Format::R => pack_fields(f7, rs2, rs1, f3, rd, opcode),
        Format::I => {
            let x: u32 = (instr.imm % 0x1000) as u32;
            pack_fields(x / 32, x % 32, rs1, f3, rd, opcode)
        },
        Format::Shift => {
            let x: u32 = instr.imm as u32;
            pack_fields(f7 + x / 32, x % 32, rs1, f3, rd, opcode)
        },
        Format::ShiftWord => pack_fields(f7, instr.imm as u32, rs1, f3, rd, opcode),
        Format::S => {
            let x: u32 = (instr.imm % 0x1000) as u32;
            pack_fields(x / 32, rs2, rs1, f3, x % 32, opcode)
        },
        Format::B => {
            let x: u32 = (instr.imm % 0x2000) as u32;
            (x / 0x1000) * 0x8000_0000 + ((x / 32) % 64) * 0x200_0000 + rs2 * 0x10_0000 + rs1
                * 0x8000 + f3 * 0x1000 + ((x / 2) % 16) * 0x100 + ((x / 0x800) % 2) * 0x80 + opcode
        },
        Format::U => {
            let up: u32 = ((instr.imm % 0x1_0000_0000) / 0x1000) as u32;
            pack_fields(up / 0x2000, (up / 256) % 32, (up / 8) % 32, up % 8, rd, opcode)
        },
        Format::J => {
            let x: u32 = (instr.imm % 0x20_0000) as u32;
            (x / 0x10_0000) * 0x8000_0000 + ((x / 2) % 1024) * 0x20_0000 + ((x / 0x800) % 2)
                * 0x10_0000 + ((x / 0x1000) % 256) * 0x1000 + rd * 0x80 + opcode
        },
        Format::Bare => if matches!(instr.op, Op::Ebreak) {
            pack_fields(0, 1, 0, 0, 0, opcode)
        } else {
            pack_fields(0, 0, 0, 0, 0, opcode)
        },
    };
    Some(w)
}

} // verus!
