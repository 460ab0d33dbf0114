use rcpu::cpu::alu::{evaluate, extend, Request};
use rcpu::cpu::cpu::Status;
use rcpu::cpu::encode::encode;
use rcpu::cpu::isa::{decode, AluOp, Cond, Instr, Op};
use rcpu::cpu::mem::{locate, Access, MemFault, Width, MEMSIZE};
use rcpu::cpu::pipeline::Stop;
use rcpu::cpu::traits::Tickable;
use rcpu::CPU;

const START: u64 = 0x8000_0000;

/// A program executed one instruction after the other.
struct Sequential {
    pc: u64,
    regs: [u64; 32],
    mem: Vec<u8>,
}

fn put(regs: &mut [u64; 32], rd: u8, value: u64) {
    if rd != 0 {
        regs[rd as usize] = value;
    }
}

fn read_le(mem: &[u8], at: usize, width: usize) -> u64 {
    let mut value = 0u64;
    for i in (0..width).rev() {
        value = value << 8 | mem[at + i] as u64;
    }
    value
}

impl Sequential {
    fn new(image: &[u8], pc: u64) -> Sequential {
        let mut mem = vec![0u8; MEMSIZE];
        let at = locate(START, image.len()).unwrap();
        mem[at..at + image.len()].copy_from_slice(image);
        Sequential { pc, regs: [0; 32], mem }
    }

    fn step(&mut self, imem: &[u8]) -> Option<Stop> {
        let pc = self.pc;
        let at = match locate(pc, 4) {
            Some(at) => at,
            None => return Some(Stop::Memory(MemFault { addr: pc, kind: Access::Fetch })),
        };
        let word = read_le(imem, at, 4) as u32;
        let instr = match decode(word) {
            Some(instr) => instr,
            None => return Some(Stop::DecodeFault { pc, word }),
        };
        let o = evaluate(instr, pc, self.regs[instr.rs1 as usize], self.regs[instr.rs2 as usize]);
        if o.stop {
            return Some(Stop::Halt { pc });
        }
        match o.request {
            Request::Idle => put(&mut self.regs, o.rd, o.value),
            Request::Load(width, sign, addr) => match locate(addr, width.bytes()) {
                Some(at) => {
                    let raw = read_le(&self.mem, at, width.bytes());
                    put(&mut self.regs, o.rd, extend(raw, width, sign));
                }
                None => return Some(Stop::Memory(MemFault { addr, kind: Access::Load })),
            },
            Request::Store(width, addr, data) => match locate(addr, width.bytes()) {
                Some(at) => {
                    for i in 0..width.bytes() {
                        self.mem[at + i] = (data >> (8 * i)) as u8;
                    }
                }
                None => return Some(Stop::Memory(MemFault { addr, kind: Access::Store })),
            },
        }
        self.pc = o.target.unwrap_or(pc.wrapping_add(4));
        None
    }

    fn run(&mut self, imem: &[u8]) -> (Stop, u64) {
        let mut executed = 0;
        loop {
            if let Some(stop) = self.step(imem) {
                return (stop, executed);
            }
            executed += 1;
        }
    }
}

struct Random(u64);

impl Random {
    fn next(&mut self) -> u64 {
        self.0 = self.0.wrapping_mul(6_364_136_223_846_793_005).wrapping_add(1_442_695_040_888_963_407);
        self.0 >> 33
    }

    fn below(&mut self, n: u64) -> u64 {
        self.next() % n
    }

    fn reg(&mut self) -> u8 {
        // few registers, so that instructions often depend on each other
        self.below(6) as u8
    }

    fn short(&mut self) -> u64 {
        (self.below(0x1000) as i64 - 0x800) as u64
    }
}

const ALU: [AluOp; 10] = [
    AluOp::Add,
    AluOp::Sub,
    AluOp::Sll,
    AluOp::Slt,
    AluOp::Sltu,
    AluOp::Xor,
    AluOp::Srl,
    AluOp::Sra,
    AluOp::Or,
    AluOp::And,
];
const CONDS: [Cond; 6] = [Cond::Eq, Cond::Ne, Cond::Lt, Cond::Ge, Cond::Ltu, Cond::Geu];
const WIDTHS: [Width; 4] = [Width::Byte, Width::Half, Width::Word, Width::Double];

/// Register 7 holds the address of a scratch area when the program starts;
/// the program may overwrite it.
const BASE: u8 = 7;

fn random_instr(r: &mut Random) -> Instr {
    loop {
        let alu = ALU[r.below(10) as usize];
        let width = WIDTHS[r.below(4) as usize];
        let instr = match r.below(12) {
            0 => Instr { op: Op::OpReg(alu), rd: r.reg(), rs1: r.reg(), rs2: r.reg(), imm: 0 },
            1 => Instr { op: Op::OpRegWord(alu), rd: r.reg(), rs1: r.reg(), rs2: r.reg(), imm: 0 },
            2 => Instr { op: Op::OpImm(alu), rd: r.reg(), rs1: r.reg(), rs2: 0, imm: r.short() },
            3 => Instr { op: Op::OpImm(alu), rd: r.reg(), rs1: r.reg(), rs2: 0, imm: r.below(64) },
            4 => Instr { op: Op::OpImmWord(alu), rd: r.reg(), rs1: r.reg(), rs2: 0, imm: r.below(32) },
            5 => Instr { op: Op::Lui, rd: r.reg(), rs1: 0, rs2: 0, imm: r.short() << 12 },
            6 => Instr { op: Op::Auipc, rd: r.reg(), rs1: 0, rs2: 0, imm: r.below(16) << 12 },
            7 => Instr {
                op: Op::Branch(CONDS[r.below(6) as usize]),
                rd: 0,
                rs1: r.reg(),
                rs2: r.reg(),
                imm: 4 * (1 + r.below(4)),
            },
            8 => Instr { op: Op::Jal, rd: r.reg(), rs1: 0, rs2: 0, imm: 4 * (1 + r.below(4)) },
            9 => Instr {
                op: Op::Load(width, r.below(2) == 0),
                rd: r.reg(),
                rs1: BASE,
                rs2: 0,
                imm: r.below(64),
            },
            10 => Instr { op: Op::Store(width), rd: 0, rs1: BASE, rs2: r.reg(), imm: r.below(64) },
            _ => Instr { op: Op::Fence, rd: 0, rs1: 0, rs2: 0, imm: 0 },
        };
        if encode(&instr).is_some() {
            return instr;
        }
    }
}

fn random_program(seed: u64, length: usize) -> Vec<u8> {
    let mut r = Random(seed);
    let mut words = vec![
        // auipc x7, 1: the scratch area lies 4096 bytes behind the start
        encode(&Instr { op: Op::Auipc, rd: BASE, rs1: 0, rs2: 0, imm: 0x1000 }).unwrap(),
    ];
    for _ in 0..length {
        words.push(encode(&random_instr(&mut r)).unwrap());
    }
    for _ in 0..5 {
        words.push(0x0000_0073);
    }
    let mut image = Vec::new();
    for w in words {
        image.extend_from_slice(&w.to_le_bytes());
    }
    image
}

fn agree(image: &[u8]) -> (Stop, u64) {
    let mut imem = vec![0u8; MEMSIZE];
    let at = locate(START, image.len()).unwrap();
    imem[at..at + image.len()].copy_from_slice(image);
    let mut reference = Sequential::new(image, START);
    let (stop, executed) = reference.run(&imem);

    // The program has ended with the instruction after the executed ones:
    // 11 cycles for each of them and 4 more are enough, fewer for one of
    // them are not.
    let mut cpu = CPU::new();
    cpu.load_elf(&image.to_vec()).unwrap();
    assert_eq!(cpu.run_for(4 + executed), Status::Running);
    assert_eq!(cpu.run_for(10 * executed + 11), Status::Stopped(stop));
    assert_eq!(cpu.regs().values(), reference.regs.to_vec());
    for (i, b) in reference.mem.iter().enumerate() {
        assert_eq!(cpu.mem().peek(i), Some(*b), "byte {:#x}", i);
    }
    (stop, executed)
}

#[test]
fn pipeline_agrees_with_sequential_execution() {
    let mut halts = 0;
    let mut executed = 0;
    for seed in 0..300u64 {
        let (stop, n) = agree(&random_program(seed * 7919 + 1, 60));
        executed += n;
        if let Stop::Halt { .. } = stop {
            halts += 1;
        }
    }
    // most programs run to their trap; a few leave the scratch area
    assert!(halts > 150, "{}", halts);
    assert!(executed > 5000, "{}", executed);
}

#[test]
fn retired_instructions_are_the_executed_ones() {
    for seed in [3u64, 14, 159, 2653] {
        let image = random_program(seed, 40);
        let mut imem = vec![0u8; MEMSIZE];
        let at = locate(START, image.len()).unwrap();
        imem[at..at + image.len()].copy_from_slice(&image);
        let (_, executed) = Sequential::new(&image, START).run(&imem);
        let mut cpu = CPU::new();
        cpu.load_elf(&image).unwrap();
        cpu.run();
        assert_eq!(cpu.retired(), executed);
    }
}

#[test]
fn every_cycle_is_one_instruction_or_none() {
    let image = random_program(42, 50);
    let mut imem = vec![0u8; MEMSIZE];
    let at = locate(START, image.len()).unwrap();
    imem[at..at + image.len()].copy_from_slice(&image);
    let mut reference = Sequential::new(&image, START);
    let mut cpu = CPU::new();
    cpu.load_elf(&image).unwrap();
    // The register file lags behind the program by what is in flight, so
    // what it shows is what the program had made of the registers a few
    // instructions ago: follow it by the count of retired instructions.
    let mut retired = 0;
    let mut stopped = false;
    while cpu.running() {
        cpu.tick();
        while retired < cpu.retired() {
            assert!(reference.step(&imem).is_none());
            retired += 1;
            stopped = false;
        }
        if !stopped {
            assert_eq!(cpu.regs().values(), reference.regs.to_vec());
            stopped = true;
        }
    }
    assert!(retired > 10);
    assert_eq!(reference.step(&imem), match cpu.status() {
        Status::Stopped(stop) => Some(stop),
        Status::Running => None,
    });
}
