use rcpu::cpu::cpu::{Snapshot, Status, CYCLE_LIMIT, DEFAULT_PC};
use rcpu::cpu::mem::{Access, MemFault};
use rcpu::cpu::pipeline::Stop;
use rcpu::cpu::traits::Tickable;
use rcpu::CPU;

const START: u64 = 0x8000_0000;

const ZERO: u32 = 0;
const RA: u32 = 1;
const A0: u32 = 10;
const A1: u32 = 11;
const A2: u32 = 12;
const A3: u32 = 13;
const A4: u32 = 14;
const A5: u32 = 15;

const ECALL: u32 = 0x0000_0073;
const EBREAK: u32 = 0x0010_0073;
const NOP: u32 = 0x0000_0013;

fn r_type(funct7: u32, rs2: u32, rs1: u32, funct3: u32, rd: u32, opcode: u32) -> u32 {
    funct7 << 25 | rs2 << 20 | rs1 << 15 | funct3 << 12 | rd << 7 | opcode
}

fn i_type(imm: i32, rs1: u32, funct3: u32, rd: u32, opcode: u32) -> u32 {
    (imm as u32 & 0xfff) << 20 | rs1 << 15 | funct3 << 12 | rd << 7 | opcode
}

fn s_type(imm: i32, rs2: u32, rs1: u32, funct3: u32) -> u32 {
    let imm = imm as u32;
    (imm >> 5 & 0x7f) << 25 | rs2 << 20 | rs1 << 15 | funct3 << 12 | (imm & 0x1f) << 7 | 0x23
}

fn b_type(imm: i32, rs2: u32, rs1: u32, funct3: u32) -> u32 {
    let imm = imm as u32;
    (imm >> 12 & 1) << 31
        | (imm >> 5 & 0x3f) << 25
        | rs2 << 20
        | rs1 << 15
        | funct3 << 12
        | (imm >> 1 & 0xf) << 8
        | (imm >> 11 & 1) << 7
        | 0x63
}

fn j_type(imm: i32, rd: u32) -> u32 {
    let imm = imm as u32;
    (imm >> 20 & 1) << 31
        | (imm >> 1 & 0x3ff) << 21
        | (imm >> 11 & 1) << 20
        | (imm >> 12 & 0xff) << 12
        | rd << 7
        | 0x6f
}

fn addi(rd: u32, rs1: u32, imm: i32) -> u32 {
    i_type(imm, rs1, 0, rd, 0x13)
}

fn add(rd: u32, rs1: u32, rs2: u32) -> u32 {
    r_type(0, rs2, rs1, 0, rd, 0x33)
}

fn beq(rs1: u32, rs2: u32, imm: i32) -> u32 {
    b_type(imm, rs2, rs1, 0)
}

fn bne(rs1: u32, rs2: u32, imm: i32) -> u32 {
    b_type(imm, rs2, rs1, 1)
}

fn auipc(rd: u32, upper: u32) -> u32 {
    upper << 12 | rd << 7 | 0x17
}

fn lui(rd: u32, upper: u32) -> u32 {
    upper << 12 | rd << 7 | 0x37
}

fn image(words: &[u32]) -> Vec<u8> {
    let mut bytes = Vec::new();
    for w in words {
        bytes.extend_from_slice(&w.to_le_bytes());
    }
    bytes
}

fn loaded(words: &[u32]) -> CPU {
    let mut cpu = CPU::new();
    cpu.load_elf(&image(words)).unwrap();
    cpu
}

fn reg(cpu: &CPU, name: &str) -> u64 {
    cpu.regs().get(name).unwrap()
}

#[test]
fn rv64ui_lb() {
    let mut words = vec![
        auipc(A1, 0),
        i_type(64, A1, 0, A2, 0x03),
        i_type(65, A1, 0, A3, 0x03),
        addi(A4, ZERO, -1),
        bne(A2, A4, 28),
        addi(A5, ZERO, 0x7f),
        bne(A3, A5, 20),
        addi(A0, ZERO, 0),
        ECALL,
        NOP,
        NOP,
        addi(A0, ZERO, 1),
        ECALL,
    ];
    words.resize(16, NOP);
    words.push(0x0000_7fff);
    let mut cpu = loaded(&words);
    assert_eq!(cpu.run(), Status::Stopped(Stop::Halt { pc: START + 32 }));
    let regs = cpu.regs();
    assert_eq!(regs.get("a0"), Some(0));
    assert_eq!(regs.get("a2"), Some(0xffff_ffff_ffff_ffff));
    assert_eq!(regs.get("a3"), Some(0x7f));
}

#[test]
fn rv64ui_lbu() {
    let mut words = vec![
        auipc(A1, 0),
        i_type(64, A1, 4, A2, 0x03),
        i_type(65, A1, 4, A3, 0x03),
        addi(A4, ZERO, 0xff),
        bne(A2, A4, 28),
        addi(A5, ZERO, 0x7f),
        bne(A3, A5, 20),
        addi(A0, ZERO, 0),
        ECALL,
        NOP,
        NOP,
        addi(A0, ZERO, 1),
        ECALL,
    ];
    words.resize(16, NOP);
    words.push(0x0000_7fff);
    let mut cpu = loaded(&words);
    assert_eq!(cpu.run(), Status::Stopped(Stop::Halt { pc: START + 32 }));
    let regs = cpu.regs();
    assert_eq!(regs.get("a0"), Some(0));
    assert_eq!(regs.get("a2"), Some(0xff));
    assert_eq!(regs.get("a3"), Some(0x7f));
}

#[test]
fn failing_comparison_reports_its_code() {
    let mut words = vec![
        auipc(A1, 0),
        i_type(64, A1, 0, A2, 0x03),
        addi(A4, ZERO, 0xff),
        bne(A2, A4, 16),
        addi(A0, ZERO, 0),
        ECALL,
        NOP,
        addi(A0, ZERO, 3),
        ECALL,
    ];
    words.resize(16, NOP);
    words.push(0x0000_00ff);
    let mut cpu = loaded(&words);
    assert_eq!(cpu.run(), Status::Stopped(Stop::Halt { pc: START + 32 }));
    assert_eq!(reg(&cpu, "a0"), 3);
}

#[test]
fn program_that_clears_a0_reports_zero() {
    let mut cpu = loaded(&[0x0000_0513, 0x0000_0073]);
    assert_eq!(cpu.run(), Status::Stopped(Stop::Halt { pc: START + 4 }));
    assert_eq!(cpu.regs().get("a0"), Some(0));
    assert_eq!(cpu.status(), Status::Stopped(Stop::Halt { pc: START + 4 }));
    assert!(!cpu.running());
}

#[test]
fn program_that_sets_a_failure_code_reports_it() {
    let mut cpu = loaded(&[0x0070_0513, 0x0000_0073]);
    assert_eq!(cpu.run(), Status::Stopped(Stop::Halt { pc: START + 4 }));
    assert_eq!(cpu.regs().get("a0"), Some(7));
    assert_eq!(cpu.retired(), 1);
}

#[test]
fn halt_takes_ten_cycles_for_two_instructions() {
    let mut cpu = loaded(&[addi(A0, ZERO, 7), ECALL]);
    assert_eq!(cpu.run_for(8), Status::Running);
    assert_eq!(reg(&cpu, "a0"), 0);
    assert_eq!(cpu.run_for(1), Status::Running);
    assert_eq!(reg(&cpu, "a0"), 7);
    assert_eq!(cpu.run_for(0), Status::Running);
    assert_eq!(cpu.run_for(1), Status::Stopped(Stop::Halt { pc: START + 4 }));
    assert_eq!(reg(&cpu, "a0"), 7);
}

#[test]
fn breakpoint_ends_the_run() {
    let mut cpu = loaded(&[addi(A0, ZERO, 2), EBREAK]);
    assert_eq!(cpu.run(), Status::Stopped(Stop::Halt { pc: START + 4 }));
    assert_eq!(reg(&cpu, "a0"), 2);
}

#[test]
fn taken_branch_redirects_one_cycle_late() {
    let after_branch = addi(A0, ZERO, 5);
    let mut cpu = loaded(&[
        beq(ZERO, ZERO, 12),
        after_branch,
        addi(A1, ZERO, 6),
        addi(A2, ZERO, 7),
        ECALL,
    ]);
    for _ in 0..4 {
        cpu.tick();
    }
    // The branch is in decode; the instruction behind it has been fetched.
    assert_eq!(cpu.fetch.word(), after_branch);
    assert!(cpu.fetch.tag().valid);
    assert_eq!(cpu.fetch.tag().pc, START + 4);
    assert!(!cpu.fetch.redirecting());
    assert_eq!(cpu.pc(), START + 16);
    cpu.tick();
    // Execute has taken the branch; fetch went on by 4 all the same.
    assert!(cpu.fetch.redirecting());
    assert_eq!(cpu.pc(), START + 20);
    cpu.tick();
    // One cycle later the target is the program counter and what was
    // fetched behind the branch is off the path.
    assert!(!cpu.fetch.redirecting());
    assert_eq!(cpu.pc(), START + 12);
    assert!(!cpu.fetch.tag().valid);
    assert_eq!(cpu.run(), Status::Stopped(Stop::Halt { pc: START + 16 }));
    assert_eq!(reg(&cpu, "a0"), 0);
    assert_eq!(reg(&cpu, "a1"), 0);
    assert_eq!(reg(&cpu, "a2"), 7);
    assert_eq!(cpu.retired(), 2);
}

#[test]
fn untaken_branch_falls_through() {
    let mut cpu = loaded(&[
        addi(A1, ZERO, 1),
        beq(A1, ZERO, 12),
        addi(A0, ZERO, 5),
        addi(A2, ZERO, 6),
        ECALL,
    ]);
    assert_eq!(cpu.run(), Status::Stopped(Stop::Halt { pc: START + 16 }));
    assert_eq!(reg(&cpu, "a0"), 5);
    assert_eq!(reg(&cpu, "a2"), 6);
    assert_eq!(cpu.retired(), 4);
}

#[test]
fn dependent_instructions_see_each_other() {
    let mut cpu = loaded(&[
        addi(A0, ZERO, 5),
        addi(A0, A0, 1),
        addi(A0, A0, 1),
        add(A1, A0, A0),
        ECALL,
    ]);
    assert_eq!(cpu.run(), Status::Stopped(Stop::Halt { pc: START + 16 }));
    assert_eq!(reg(&cpu, "a0"), 7);
    assert_eq!(reg(&cpu, "a1"), 14);
}

#[test]
fn loop_sums_one_to_ten() {
    let mut cpu = loaded(&[
        addi(A0, ZERO, 0),
        addi(A1, ZERO, 10),
        add(A0, A0, A1),
        addi(A1, A1, -1),
        bne(A1, ZERO, -8),
        ECALL,
    ]);
    assert_eq!(cpu.run(), Status::Stopped(Stop::Halt { pc: START + 20 }));
    assert_eq!(reg(&cpu, "a0"), 55);
    assert_eq!(reg(&cpu, "a1"), 0);
    assert_eq!(cpu.retired(), 32);
}

#[test]
fn jump_links_the_next_instruction() {
    let mut cpu = loaded(&[
        j_type(8, RA),
        addi(A0, ZERO, 1),
        addi(A1, ZERO, 2),
        auipc(A2, 0),
        i_type(13, A2, 0, A3, 0x67),
        addi(A4, ZERO, 3),
        ECALL,
    ]);
    // jalr a3, 13(a2) goes to a2 + 12, the low bit of the sum cleared.
    assert_eq!(cpu.run(), Status::Stopped(Stop::Halt { pc: START + 24 }));
    assert_eq!(reg(&cpu, "ra"), START + 4);
    assert_eq!(reg(&cpu, "a0"), 0);
    assert_eq!(reg(&cpu, "a1"), 2);
    assert_eq!(reg(&cpu, "a2"), START + 12);
    assert_eq!(reg(&cpu, "a3"), START + 20);
    assert_eq!(reg(&cpu, "a4"), 0);
}

#[test]
fn stores_reach_memory_and_loads_read_them_back() {
    let mut cpu = loaded(&[
        auipc(A1, 0),
        lui(A2, 0x12345),
        addi(A2, A2, 0x678),
        i_type(32, A2, 1, A3, 0x13),
        r_type(0, A2, A3, 6, A3, 0x33),
        s_type(256, A3, A1, 3),
        i_type(256, A1, 3, A4, 0x03),
        i_type(260, A1, 2, A5, 0x03),
        s_type(270, A3, A1, 0),
        s_type(272, A3, A1, 1),
        s_type(276, A3, A1, 2),
        ECALL,
    ]);
    assert_eq!(cpu.run(), Status::Stopped(Stop::Halt { pc: START + 44 }));
    assert_eq!(reg(&cpu, "a3"), 0x1234_5678_1234_5678);
    assert_eq!(reg(&cpu, "a4"), 0x1234_5678_1234_5678);
    assert_eq!(reg(&cpu, "a5"), 0x1234_5678);
    let mem = cpu.mem();
    assert_eq!(mem.peek(0x2_0100), Some(0x78));
    assert_eq!(mem.peek(0x2_0107), Some(0x12));
    assert_eq!(mem.peek(0x2_010e), Some(0x78));
    assert_eq!(mem.peek(0x2_010f), Some(0));
    assert_eq!(mem.read_u32(START + 272), Some(0x5678));
    assert_eq!(mem.read_u32(START + 276), Some(0x1234_5678));
    assert_eq!(mem.read_u32(START + 280), Some(0));
}

#[test]
fn loads_extend_by_width_and_sign() {
    let mut words = vec![
        auipc(A1, 0),
        i_type(64, A1, 1, A0, 0x03),
        i_type(64, A1, 5, A2, 0x03),
        i_type(64, A1, 2, A3, 0x03),
        i_type(64, A1, 6, A4, 0x03),
        i_type(64, A1, 3, A5, 0x03),
        ECALL,
    ];
    words.resize(16, NOP);
    words.push(0x8765_c321);
    words.push(0x0fed_cba9);
    let mut cpu = loaded(&words);
    assert_eq!(cpu.run(), Status::Stopped(Stop::Halt { pc: START + 24 }));
    assert_eq!(reg(&cpu, "a0"), 0xffff_ffff_ffff_c321);
    assert_eq!(reg(&cpu, "a2"), 0xc321);
    assert_eq!(reg(&cpu, "a3"), 0xffff_ffff_8765_c321);
    assert_eq!(reg(&cpu, "a4"), 0x8765_c321);
    assert_eq!(reg(&cpu, "a5"), 0x0fed_cba9_8765_c321);
}

#[test]
fn register_zero_takes_no_value() {
    let mut cpu = loaded(&[addi(ZERO, ZERO, 5), add(A0, ZERO, ZERO), ECALL]);
    assert_eq!(cpu.run(), Status::Stopped(Stop::Halt { pc: START + 8 }));
    assert_eq!(reg(&cpu, "zero"), 0);
    assert_eq!(reg(&cpu, "a0"), 0);
}

#[test]
fn unknown_word_is_a_decode_fault() {
    let mut cpu = loaded(&[addi(A0, ZERO, 3), 0xffff_ffff, addi(A0, ZERO, 4), ECALL]);
    assert_eq!(
        cpu.run(),
        Status::Stopped(Stop::DecodeFault { pc: START + 4, word: 0xffff_ffff })
    );
    assert_eq!(reg(&cpu, "a0"), 3);
}

#[test]
fn empty_memory_is_a_decode_fault() {
    let mut cpu = CPU::new();
    assert_eq!(cpu.run(), Status::Stopped(Stop::DecodeFault { pc: START, word: 0 }));
    assert_eq!(cpu.retired(), 0);
}

#[test]
fn unknown_word_behind_a_taken_branch_is_no_fault() {
    let mut cpu = loaded(&[beq(ZERO, ZERO, 8), 0xffff_ffff, addi(A0, ZERO, 4), ECALL]);
    assert_eq!(cpu.run(), Status::Stopped(Stop::Halt { pc: START + 12 }));
    assert_eq!(reg(&cpu, "a0"), 4);
}

#[test]
fn load_outside_memory_is_a_fault() {
    let mut cpu = loaded(&[addi(A1, ZERO, 9), i_type(16, ZERO, 2, A0, 0x03), addi(A1, ZERO, 1), ECALL]);
    assert_eq!(
        cpu.run(),
        Status::Stopped(Stop::Memory(MemFault { addr: 16, kind: Access::Load }))
    );
    assert_eq!(reg(&cpu, "a1"), 9);
    assert_eq!(reg(&cpu, "a0"), 0);
}

#[test]
fn store_outside_memory_is_a_fault() {
    let mut cpu = loaded(&[s_type(-4, A0, ZERO, 2), ECALL]);
    assert_eq!(
        cpu.run(),
        Status::Stopped(Stop::Memory(MemFault { addr: 0xffff_ffff_ffff_fffc, kind: Access::Store }))
    );
    let mut cpu = loaded(&[lui(A1, 0x80020), s_type(-3, A0, A1, 2), ECALL]);
    assert_eq!(
        cpu.run(),
        Status::Stopped(Stop::Memory(MemFault { addr: 0xffff_ffff_8001_fffd, kind: Access::Store }))
    );
}

#[test]
fn jump_outside_memory_is_a_fetch_fault() {
    let mut cpu = loaded(&[addi(A0, ZERO, 1), i_type(64, ZERO, 0, ZERO, 0x67), addi(A0, ZERO, 2)]);
    assert_eq!(
        cpu.run(),
        Status::Stopped(Stop::Memory(MemFault { addr: 64, kind: Access::Fetch }))
    );
    assert_eq!(reg(&cpu, "a0"), 1);
}

#[test]
fn nothing_behind_a_trap_takes_effect() {
    let mut cpu = loaded(&[
        auipc(A1, 0),
        ECALL,
        addi(A0, ZERO, 9),
        s_type(64, A1, A1, 3),
        ECALL,
    ]);
    assert_eq!(cpu.run(), Status::Stopped(Stop::Halt { pc: START + 4 }));
    assert_eq!(reg(&cpu, "a0"), 0);
    assert_eq!(cpu.mem().read_u32(START + 64), Some(0));
    assert_eq!(cpu.retired(), 1);
}

#[test]
fn stopped_processor_stays_as_it_is() {
    let mut cpu = loaded(&[addi(A0, ZERO, 7), ECALL]);
    let status = cpu.run();
    let pc = cpu.pc();
    let retired = cpu.retired();
    let before = cpu.snapshot(4);
    for _ in 0..5 {
        cpu.tick();
    }
    assert_eq!(cpu.run(), status);
    assert_eq!(cpu.run_for(100), status);
    assert_eq!(cpu.pc(), pc);
    assert_eq!(cpu.retired(), retired);
    assert_eq!(cpu.snapshot(4), before);
}

#[test]
fn endless_loop_runs_out_of_cycles() {
    let mut cpu = loaded(&[addi(A0, ZERO, 1), j_type(0, ZERO)]);
    assert_eq!(cpu.run_for(1000), Status::Running);
    assert_eq!(cpu.status(), Status::Running);
    assert!(cpu.running());
    assert_eq!(reg(&cpu, "a0"), 1);
    assert_eq!(CYCLE_LIMIT, 0x100_0000);
}

#[test]
fn start_address_can_be_set() {
    let mut cpu = CPU::new();
    assert_eq!(cpu.pc(), DEFAULT_PC);
    cpu.load_binary(&image(&[auipc(A0, 0), ECALL]), 0x8000_0100).unwrap();
    cpu.set_start_pc(0x8000_0100);
    assert_eq!(cpu.pc(), 0x8000_0100);
    assert_eq!(cpu.run(), Status::Stopped(Stop::Halt { pc: 0x8000_0104 }));
    assert_eq!(reg(&cpu, "a0"), 0x8000_0100);
}

#[test]
fn image_that_does_not_fit_is_refused() {
    let mut cpu = CPU::new();
    assert_eq!(
        cpu.load_elf(&vec![0u8; 0x2_0001]),
        Err(MemFault { addr: DEFAULT_PC, kind: Access::Image })
    );
    assert_eq!(cpu.load_elf(&vec![0x13u8; 0x2_0000]), Ok(()));
    assert_eq!(cpu.mem().peek(0x3_ffff), Some(0x13));
    assert_eq!(
        cpu.load_binary(&[1, 2, 3], 0x8001_fffe),
        Err(MemFault { addr: 0x8001_fffe, kind: Access::Image })
    );
    assert_eq!(
        cpu.load_binary(&[1, 2, 3], 0x1000),
        Err(MemFault { addr: 0x1000, kind: Access::Image })
    );
    assert_eq!(cpu.load_binary(&[], 0x8002_0000), Ok(()));
}

#[test]
fn snapshot_shows_window_and_registers() {
    let words = [addi(A0, ZERO, 7), ECALL];
    let mut cpu = loaded(&words);
    let first = cpu.snapshot(3);
    assert_eq!(
        first,
        Snapshot { pc: START, words: vec![words[0], words[1], 0], regs: vec![0; 32] }
    );
    cpu.run();
    let last = cpu.snapshot(1);
    assert_eq!(last.pc, cpu.pc());
    assert_eq!(last.regs[10], 7);
    assert_eq!(last.regs.iter().filter(|v| **v != 0).count(), 1);
    assert_eq!(cpu.fetch.window(2), cpu.mem().window(cpu.pc(), 2));
}

#[test]
fn dependent_instruction_waits_for_its_operand() {
    // addi a0, zero, 5 is executed in the fifth cycle; its value shows in
    // the register file after the tenth, and addi a1, a0, 1 is held in
    // decode until then.
    let mut cpu = loaded(&[addi(A0, ZERO, 5), addi(A1, A0, 1), ECALL]);
    assert_eq!(cpu.run_for(9), Status::Running);
    assert_eq!(reg(&cpu, "a0"), 5);
    assert_eq!(cpu.retired(), 1);
    // fetch has been held for five cycles: it has read five words fewer
    // than cycles have passed
    assert_eq!(cpu.pc(), START + 4 * (9 - 5));
    assert_eq!(cpu.run_for(5), Status::Running);
    assert_eq!(reg(&cpu, "a1"), 0);
    assert_eq!(cpu.run_for(1), Status::Running);
    assert_eq!(reg(&cpu, "a1"), 6);
    assert_eq!(cpu.retired(), 2);
    assert_eq!(cpu.run_for(1), Status::Stopped(Stop::Halt { pc: START + 8 }));
}
