use rcpu::cpu::debug::{command_for, Command};
use rcpu::cpu::isa::{AluOp, Cond, Instr, Op};
use rcpu::cpu::mem::{Access, Mem, MemFault, Width};
use rcpu::cpu::pipeline::{
    issue, retire, work, Busy, Decode, Execute, Executed, Fetch, Issue, MemAccess, Retire, Stop,
    Tag, Work, WriteBack,
};
use rcpu::cpu::regfile::RegFile;
use rcpu::cpu::traits::{Tickable, Value};

const IDLE: Busy = Busy { executing: 0, accessing: 0, issued: 0, waiting: 0, retiring: 0 };

fn on_path(pc: u64) -> Tag {
    Tag { valid: true, pc, mapped: true }
}

fn regs_with(index: u8, value: u64) -> RegFile<u64> {
    let mut regs = RegFile::<u64>::new();
    regs.write(index, value);
    regs.tick();
    regs
}

#[test]
fn zero_values_are_bubbles() {
    assert_eq!(Tag::zero(), Tag { valid: false, pc: 0, mapped: false });
    assert_eq!(Issue::zero(), Issue::Bubble);
    assert_eq!(Work::zero(), Work::Bubble);
    assert_eq!(Retire::zero(), Retire::Bubble);
    assert_eq!(u64::zero(), 0);
    assert_eq!(u32::zero(), 0);
    assert_eq!(u16::zero(), 0);
    assert_eq!(u8::zero(), 0);
    assert!(!bool::zero());
}

#[test]
fn decode_reads_the_source_registers() {
    let regs = regs_with(11, 40);
    // add a0, a1, a1
    let got = issue(0x00b5_8533, on_path(0x8000_0000), &regs, false, IDLE);
    assert_eq!(
        got,
        Issue::Ready {
            pc: 0x8000_0000,
            instr: Instr { op: Op::OpReg(AluOp::Add), rd: 10, rs1: 11, rs2: 11, imm: 0 },
            a: 40,
            b: 40,
        }
    );
    assert_eq!(got.dest(), 10);
}

#[test]
fn decode_hands_on_nothing_off_the_path() {
    let regs = RegFile::<u64>::new();
    assert_eq!(issue(0x00b5_8533, on_path(0x8000_0000), &regs, true, IDLE), Issue::Bubble);
    assert_eq!(issue(0x00b5_8533, Tag::zero(), &regs, false, IDLE), Issue::Bubble);
    assert_eq!(
        issue(0xffff_ffff, Tag { valid: false, pc: 4, mapped: false }, &regs, false, IDLE),
        Issue::Bubble
    );
    assert_eq!(Issue::Bubble.dest(), 0);
}

#[test]
fn decode_reports_what_cannot_be_executed() {
    let regs = RegFile::<u64>::new();
    assert_eq!(
        issue(0xffff_ffff, on_path(0x8000_0008), &regs, false, IDLE),
        Issue::Fault(Stop::DecodeFault { pc: 0x8000_0008, word: 0xffff_ffff })
    );
    assert_eq!(
        issue(0x00b5_8533, Tag { valid: true, pc: 0x40, mapped: false }, &regs, false, IDLE),
        Issue::Fault(Stop::Memory(MemFault { addr: 0x40, kind: Access::Fetch }))
    );
}

#[test]
fn decode_waits_for_registers_in_flight() {
    let regs = RegFile::<u64>::new();
    // add a0, a1, a2
    let word = 0x00c5_8533;
    let tag = on_path(0x8000_0000);
    for busy in [
        Busy { executing: 11, ..IDLE },
        Busy { accessing: 12, ..IDLE },
        Busy { issued: 11, ..IDLE },
        Busy { waiting: 12, ..IDLE },
        Busy { retiring: 11, ..IDLE },
    ] {
        assert_eq!(issue(word, tag, &regs, false, busy), Issue::Bubble);
        assert!(busy.holds(11) || busy.holds(12));
    }
    let other = Busy { executing: 10, accessing: 13, issued: 1, waiting: 2, retiring: 3 };
    assert!(matches!(issue(word, tag, &regs, false, other), Issue::Ready { .. }));
    assert!(!other.holds(11));
    assert!(!IDLE.holds(0));
    // addi a0, zero, 1 never waits for register zero
    assert!(matches!(issue(0x0010_0513, tag, &regs, false, IDLE), Issue::Ready { .. }));
}

fn ready(op: Op, rd: u8, imm: u64, a: u64, b: u64) -> Issue {
    Issue::Ready { pc: 0x8000_0010, instr: Instr { op, rd, rs1: 1, rs2: 2, imm }, a, b }
}

#[test]
fn execute_computes_and_redirects() {
    assert_eq!(
        work(ready(Op::OpReg(AluOp::Add), 5, 0, 3, 4), false, false),
        Executed { work: Work::Done { rd: 5, value: 7 }, target: None, stop: false }
    );
    assert_eq!(
        work(ready(Op::Branch(Cond::Ne), 0, 0x20, 3, 4), false, false),
        Executed { work: Work::Done { rd: 0, value: 0 }, target: Some(0x8000_0030), stop: false }
    );
    assert_eq!(
        work(ready(Op::Branch(Cond::Eq), 0, 0x20, 3, 4), false, false),
        Executed { work: Work::Done { rd: 0, value: 0 }, target: None, stop: false }
    );
    assert_eq!(
        work(ready(Op::Jal, 1, 0x20, 3, 4), false, false),
        Executed {
            work: Work::Done { rd: 1, value: 0x8000_0014 },
            target: Some(0x8000_0030),
            stop: false
        }
    );
}

#[test]
fn execute_checks_memory_accesses() {
    assert_eq!(
        work(ready(Op::Load(Width::Word, true), 5, 4, 0x8000_0000, 0), false, false),
        Executed {
            work: Work::Load { rd: 5, width: Width::Word, sign: true, addr: 0x8000_0004 },
            target: None,
            stop: false
        }
    );
    assert_eq!(
        work(ready(Op::Store(Width::Byte), 0, 0, 0x8001_ffff, 0xaa), false, false),
        Executed {
            work: Work::Store { width: Width::Byte, addr: 0x8001_ffff, data: 0xaa },
            target: None,
            stop: false
        }
    );
    assert_eq!(
        work(ready(Op::Load(Width::Word, true), 5, 4, 0x8001_fffc, 0), false, false),
        Executed {
            work: Work::Fault(Stop::Memory(MemFault { addr: 0x8002_0000, kind: Access::Load })),
            target: None,
            stop: true
        }
    );
    assert_eq!(
        work(ready(Op::Store(Width::Half), 0, 0, 0x7fff_ffff, 0xaa), false, false),
        Executed {
            work: Work::Fault(Stop::Memory(MemFault { addr: 0x7fff_ffff, kind: Access::Store })),
            target: None,
            stop: true
        }
    );
}

#[test]
fn execute_ends_the_run() {
    assert_eq!(
        work(ready(Op::Ecall, 0, 0, 0, 0), false, false),
        Executed { work: Work::Fault(Stop::Halt { pc: 0x8000_0010 }), target: None, stop: true }
    );
    let fault = Stop::DecodeFault { pc: 8, word: 9 };
    assert_eq!(
        work(Issue::Fault(fault), false, false),
        Executed { work: Work::Fault(fault), target: None, stop: true }
    );
}

#[test]
fn execute_drops_what_is_off_the_path() {
    let idle = Executed { work: Work::Bubble, target: None, stop: false };
    let jump = ready(Op::Jal, 1, 0x20, 3, 4);
    assert_eq!(work(jump, true, false), idle);
    assert_eq!(work(jump, false, true), idle);
    assert_eq!(work(ready(Op::Ecall, 0, 0, 0, 0), true, false), idle);
    assert_eq!(work(Issue::Fault(Stop::Halt { pc: 0 }), false, true), idle);
    assert_eq!(work(Issue::Bubble, false, false), idle);
}

#[test]
fn retirement_takes_loaded_values_from_memory() {
    assert_eq!(retire(Work::Bubble, 5), Retire::Bubble);
    assert_eq!(retire(Work::Done { rd: 3, value: 8 }, 5), Retire::Done { rd: 3, value: 8 });
    assert_eq!(
        retire(Work::Load { rd: 3, width: Width::Byte, sign: true, addr: 0 }, 0x1ff),
        Retire::Done { rd: 3, value: u64::MAX }
    );
    assert_eq!(
        retire(Work::Load { rd: 3, width: Width::Half, sign: false, addr: 0 }, 0x1_ffff),
        Retire::Done { rd: 3, value: 0xffff }
    );
    assert_eq!(
        retire(Work::Store { width: Width::Byte, addr: 0, data: 7 }, 5),
        Retire::Done { rd: 0, value: 0 }
    );
    let halt = Stop::Halt { pc: 4 };
    assert_eq!(retire(Work::Fault(halt), 5), Retire::Fault(halt));
    assert_eq!(Work::Load { rd: 3, width: Width::Byte, sign: true, addr: 0 }.dest(), 3);
    assert_eq!(Work::Done { rd: 4, value: 0 }.dest(), 4);
    assert_eq!(Work::Store { width: Width::Byte, addr: 0, data: 7 }.dest(), 0);
    assert_eq!(Retire::Done { rd: 5, value: 0 }.dest(), 5);
    assert_eq!(Retire::Bubble.dest(), 0);
}

#[test]
fn fetch_delivers_a_word_three_edges_after_its_address() {
    let mut fetch = Fetch::new(0x8000_0000);
    fetch.load(0x8000_0000, &[0x13, 0x05, 0x70, 0x00, 0x73, 0, 0, 0]).unwrap();
    assert_eq!(fetch.pc(), 0x8000_0000);
    assert!(!fetch.tag().valid);
    for step in 1..=2u64 {
        fetch.run();
        fetch.tick();
        assert_eq!(fetch.pc(), 0x8000_0000 + 4 * step);
        assert!(!fetch.tag().valid);
    }
    fetch.run();
    fetch.tick();
    assert_eq!(fetch.tag(), Tag { valid: true, pc: 0x8000_0000, mapped: true });
    assert_eq!(fetch.word(), 0x0070_0513);
    fetch.run();
    fetch.tick();
    assert_eq!(fetch.tag(), Tag { valid: true, pc: 0x8000_0004, mapped: true });
    assert_eq!(fetch.word(), 0x0000_0073);
    assert_eq!(fetch.pc(), 0x8000_0010);
}

#[test]
fn fetch_uses_a_redirection_once() {
    let mut fetch = Fetch::new(0x8000_0000);
    for _ in 0..3 {
        fetch.run();
        fetch.tick();
    }
    fetch.set_newpc(0x8000_0100);
    assert!(fetch.redirecting());
    assert_eq!(fetch.pc(), 0x8000_000c);
    fetch.run();
    assert!(!fetch.redirecting());
    assert_eq!(fetch.pc(), 0x8000_000c);
    fetch.tick();
    assert_eq!(fetch.pc(), 0x8000_0100);
    assert!(!fetch.tag().valid);
    fetch.run();
    fetch.tick();
    assert_eq!(fetch.pc(), 0x8000_0104);
    assert!(!fetch.tag().valid);
    fetch.run();
    fetch.tick();
    assert!(!fetch.tag().valid);
    fetch.run();
    fetch.tick();
    assert_eq!(fetch.tag(), Tag { valid: true, pc: 0x8000_0100, mapped: true });
}

#[test]
fn fetch_marks_unmapped_addresses() {
    let mut fetch = Fetch::new(0x8001_fffc);
    for _ in 0..3 {
        fetch.run();
        fetch.tick();
    }
    assert_eq!(fetch.tag(), Tag { valid: true, pc: 0x8001_fffc, mapped: true });
    fetch.run();
    fetch.tick();
    assert_eq!(fetch.tag(), Tag { valid: true, pc: 0x8002_0000, mapped: false });
    let mut low = Fetch::new(u64::MAX - 3);
    for _ in 0..4 {
        low.run();
        low.tick();
    }
    assert_eq!(low.tag(), Tag { valid: true, pc: 0, mapped: false });
    assert_eq!(low.pc(), 12);
}

#[test]
fn fetch_restart_keeps_the_instruction_memory() {
    let mut fetch = Fetch::new(0x8000_0000);
    fetch.load(0x8000_0040, &[0x73, 0, 0, 0]).unwrap();
    for _ in 0..5 {
        fetch.run();
        fetch.tick();
    }
    fetch.set_newpc(4);
    fetch.restart(0x8000_0040);
    assert_eq!(fetch.pc(), 0x8000_0040);
    assert!(!fetch.redirecting());
    assert!(!fetch.tag().valid);
    assert_eq!(fetch.word(), 0);
    assert_eq!(fetch.window(1), vec![0x73]);
    for _ in 0..3 {
        fetch.run();
        fetch.tick();
    }
    assert_eq!(fetch.word(), 0x73);
    assert_eq!(
        fetch.load(0x8002_0000, &[1]),
        Err(MemFault { addr: 0x8002_0000, kind: Access::Image })
    );
}

#[test]
fn stage_latches_show_after_the_edge() {
    let regs = regs_with(1, 6);
    let mut decode = Decode::new();
    let mut execute = Execute::new();
    // addi t0, ra, 1
    let hold = decode.run(0x0010_8293, on_path(0x8000_0000), &regs, false, IDLE);
    assert!(!hold);
    assert_eq!(decode.out(), Issue::Bubble);
    decode.tick();
    let issued = decode.out();
    assert_eq!(issued.dest(), 5);
    assert_eq!(execute.run(issued, false), None);
    assert_eq!(execute.out(), Work::Bubble);
    execute.tick();
    assert_eq!(execute.out(), Work::Done { rd: 5, value: 7 });
    let held = decode.run(0x0010_8293, on_path(0x8000_0004), &regs, false, Busy { waiting: 1, ..IDLE });
    assert!(held);
    decode.tick();
    assert_eq!(decode.out(), Issue::Bubble);
    assert!(!decode.run(0x0010_8293, on_path(0x8000_0004), &regs, true, Busy { waiting: 1, ..IDLE }));
}

#[test]
fn execute_stays_stopped() {
    let mut execute = Execute::new();
    assert_eq!(execute.run(ready(Op::Ecall, 0, 0, 0, 0), false), None);
    execute.tick();
    assert_eq!(execute.out(), Work::Fault(Stop::Halt { pc: 0x8000_0010 }));
    assert_eq!(execute.run(ready(Op::Jal, 1, 0x20, 3, 4), false), None);
    execute.tick();
    assert_eq!(execute.out(), Work::Bubble);
    assert_eq!(execute.run(ready(Op::OpReg(AluOp::Add), 5, 0, 3, 4), false), None);
    execute.tick();
    assert_eq!(execute.out(), Work::Bubble);
}

#[test]
fn execute_returns_the_target() {
    let mut execute = Execute::new();
    assert_eq!(execute.run(ready(Op::Jal, 1, 0x20, 3, 4), false), Some(0x8000_0030));
    assert_eq!(execute.run(ready(Op::Jal, 1, 0x20, 3, 4), true), None);
}

#[test]
fn load_retires_three_edges_after_it_is_issued() {
    let mut dmem = Mem::new();
    dmem.load_array(0x8000_0020, &[0x80, 0x01]).unwrap();
    let mut stage = MemAccess::new();
    let load = Work::Load { rd: 7, width: Width::Byte, sign: true, addr: 0x8000_0020 };
    stage.run(load, &mut dmem);
    stage.tick();
    dmem.tick();
    assert_eq!(stage.issued(), load);
    assert_eq!(stage.out(), Retire::Bubble);
    stage.run(Work::Load { rd: 8, width: Width::Byte, sign: false, addr: 0x8000_0021 }, &mut dmem);
    stage.tick();
    dmem.tick();
    assert_eq!(stage.waiting(), load);
    assert_eq!(stage.out(), Retire::Bubble);
    stage.run(Work::Bubble, &mut dmem);
    stage.tick();
    dmem.tick();
    assert_eq!(stage.out(), Retire::Done { rd: 7, value: 0xffff_ffff_ffff_ff80 });
    stage.run(Work::Bubble, &mut dmem);
    stage.tick();
    dmem.tick();
    assert_eq!(stage.out(), Retire::Done { rd: 8, value: 1 });
    stage.run(Work::Bubble, &mut dmem);
    stage.tick();
    dmem.tick();
    assert_eq!(stage.out(), Retire::Bubble);
}

#[test]
fn store_reaches_memory_at_the_edge_after_it_is_issued() {
    let mut dmem = Mem::new();
    let mut stage = MemAccess::new();
    stage.run(Work::Store { width: Width::Half, addr: 0x8000_0030, data: 0xabcd_ef01 }, &mut dmem);
    assert_eq!(dmem.peek(0x2_0030), Some(0));
    stage.tick();
    dmem.tick();
    assert_eq!(dmem.peek(0x2_0030), Some(0x01));
    assert_eq!(dmem.peek(0x2_0031), Some(0xef));
    assert_eq!(dmem.peek(0x2_0032), Some(0));
}

#[test]
fn memory_access_refuses_unmapped_addresses() {
    let mut dmem = Mem::new();
    let mut stage = MemAccess::new();
    stage.run(Work::Load { rd: 7, width: Width::Word, sign: true, addr: 0x10 }, &mut dmem);
    stage.tick();
    assert_eq!(
        stage.issued(),
        Work::Fault(Stop::Memory(MemFault { addr: 0x10, kind: Access::Load }))
    );
    stage.run(Work::Store { width: Width::Word, addr: 0x8001_fffd, data: 1 }, &mut dmem);
    stage.tick();
    assert_eq!(
        stage.issued(),
        Work::Fault(Stop::Memory(MemFault { addr: 0x8001_fffd, kind: Access::Store }))
    );
    stage.run(Work::Store { width: Width::Word, addr: 0x20, data: 1 }, &mut dmem);
    stage.tick();
    assert_eq!(
        stage.issued(),
        Work::Fault(Stop::Memory(MemFault { addr: 0x20, kind: Access::Store }))
    );
    dmem.tick();
    assert_eq!(dmem.peek(0x20), Some(0));
}

#[test]
fn write_back_writes_and_counts() {
    let mut regs = RegFile::<u64>::new();
    let mut stage = WriteBack::new();
    assert_eq!(stage.run(Retire::Done { rd: 10, value: 4 }, &mut regs), None);
    assert_eq!(stage.retired(), 0);
    stage.tick();
    regs.tick();
    assert_eq!(stage.retired(), 1);
    assert_eq!(regs.get("a0"), Some(4));
    assert_eq!(stage.run(Retire::Bubble, &mut regs), None);
    stage.tick();
    regs.tick();
    assert_eq!(stage.retired(), 1);
    assert_eq!(stage.run(Retire::Done { rd: 0, value: 9 }, &mut regs), None);
    stage.tick();
    regs.tick();
    assert_eq!(stage.retired(), 2);
    assert_eq!(regs.values().iter().filter(|v| **v != 0).count(), 1);
    let halt = Stop::Halt { pc: 8 };
    assert_eq!(stage.run(Retire::Fault(halt), &mut regs), Some(halt));
    stage.tick();
    assert_eq!(stage.retired(), 2);
}

#[test]
fn only_q_quits() {
    assert_eq!(command_for('q'), Command::Quit);
    for key in ['Q', 'x', ' ', '\n', '\u{1b}', 'é'] {
        assert_eq!(command_for(key), Command::Stay);
    }
}

#[test]
fn held_fetch_keeps_its_words() {
    let mut fetch = Fetch::new(0x8000_0000);
    fetch.load(0x8000_0000, &[1, 0, 0, 0, 2, 0, 0, 0, 3, 0, 0, 0]).unwrap();
    for _ in 0..3 {
        fetch.run();
        fetch.tick();
    }
    assert_eq!(fetch.tag(), Tag { valid: true, pc: 0x8000_0000, mapped: true });
    assert_eq!(fetch.word(), 1);
    for _ in 0..4 {
        fetch.run();
        fetch.hold();
        fetch.tick();
        fetch.release();
        assert_eq!(fetch.tag(), Tag { valid: true, pc: 0x8000_0000, mapped: true });
        assert_eq!(fetch.word(), 1);
        assert_eq!(fetch.pc(), 0x8000_000c);
    }
    fetch.run();
    fetch.tick();
    assert_eq!(fetch.tag(), Tag { valid: true, pc: 0x8000_0004, mapped: true });
    assert_eq!(fetch.word(), 2);
    fetch.run();
    fetch.tick();
    assert_eq!(fetch.tag(), Tag { valid: true, pc: 0x8000_0008, mapped: true });
    assert_eq!(fetch.word(), 3);
    assert_eq!(fetch.pc(), 0x8000_0014);
}
