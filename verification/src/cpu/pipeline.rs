//! The five stages: fetch, decode, execute, memory access, write-back.
//!
//! Each stage has a combinational pass, `run`, which reads what the last
//! clock edge committed and stages what it hands on, and a clock edge,
//! `tick`, which commits what was staged.
use vstd::prelude::*;
use super::alu::{evaluate, evaluate_spec, extend, extend_spec, low32, wrap64, Outcome, Request};
use super::isa::{decode, decode_spec, Instr};
use super::mem::{
    locate, mapped, window_words, Access, Mem, MemFault, MemView, Width, INSTBASE,
};
use super::reg::{Reg, RegView};
use super::regfile::{RegFile, RegFileView, REGISTERS};
use super::traits::{Tickable, Value};

verus! {

/// Why a run ended.
#[derive(Clone, Copy, Debug, PartialEq, Eq)]
pub enum Stop {
    /// A trap instruction at `pc` was reached.
    Halt { pc: u64 },
    /// The word at `pc` encodes no instruction.
    DecodeFault { pc: u64, word: u32 },
    /// An access that the program made lies outside the mapped memory.
    Memory(MemFault),
}

/// What travels with a word through the fetch stage.
#[derive(Clone, Copy, Debug, PartialEq, Eq)]
pub struct Tag {
    /// Whether the word belongs to the program's path.
    pub valid: bool,
    /// The address that the word was read from.
    pub pc: u64,
    /// Whether that address is mapped.
    pub mapped: bool,
}

/// What decode hands to execute.
#[derive(Clone, Copy, Debug, PartialEq, Eq)]
pub enum Issue {
    /// No instruction.
    Bubble,
    /// An instruction that cannot be executed.
    Fault(Stop),
    /// The instruction at `pc` with the values of its source registers.
    Ready { pc: u64, instr: Instr, a: u64, b: u64 },
}

/// What execute hands to memory access.
#[derive(Clone, Copy, Debug, PartialEq, Eq)]
pub enum Work {
    /// No instruction.
    Bubble,
    /// The end of the run, on its way to write-back.
    Fault(Stop),
    /// A finished instruction with the value for its destination.
    Done { rd: u8, value: u64 },
    /// A load that is still to be made.
    Load { rd: u8, width: Width, sign: bool, addr: u64 },
    /// A store that is still to be made.
    Store { width: Width, addr: u64, data: u64 },
}

/// What memory access hands to write-back.
#[derive(Clone, Copy, Debug, PartialEq, Eq)]
pub enum Retire {
    /// No instruction.
    Bubble,
    /// The end of the run.
    Fault(Stop),
    /// A finished instruction with the value for its destination.
    Done { rd: u8, value: u64 },
}

/// What execute decides in one cycle.
#[derive(Clone, Copy, Debug, PartialEq, Eq)]
pub struct Executed {
    /// What goes on to memory access.
    pub work: Work,
    /// Where fetch is to go on, if the instruction transfers control.
    pub target: Option<u64>,
    /// Whether the instruction ends the run.
    pub stop: bool,
}

/// The destination registers of the instructions that are in flight behind
/// decode, 0 where an instruction writes none.
#[derive(Clone, Copy, Debug, PartialEq, Eq)]
pub struct Busy {
    /// Of the instruction that execute works on.
    pub executing: u8,
    /// Of the instruction that memory access takes up.
    pub accessing: u8,
    /// Of the instruction whose access is under way.
    pub issued: u8,
    /// Of the instruction that waits for the memory's output.
    pub waiting: u8,
    /// Of the instruction that write-back works on.
    pub retiring: u8,
}

impl Busy {
    /// Whether an instruction in flight is still to write register `r`, so
    /// that the register file does not show the value yet. Register 0 is
    /// never waited for.
    pub open spec fn blocks(self, r: u8) -> bool {
        r != 0 && (self.executing == r || self.accessing == r || self.issued == r || self.waiting
            == r || self.retiring == r)
    }

    /// Whether an instruction in flight is still to write register `r`.
    pub fn holds(&self, r: u8) -> (b: bool)
        ensures
            b == self.blocks(r),
    {
        r != 0 && (self.executing == r || self.accessing == r || self.issued == r || self.waiting
            == r || self.retiring == r)
    }
}

impl Tag {
    /// The tag of a word that is not on the program's path.
    pub open spec fn none() -> Tag {
        Tag { valid: false, pc: 0, mapped: false }
    }
}

impl Issue {
    /// The destination is one of the 32 registers.
    pub open spec fn wf(self) -> bool {
        match self {
            Issue::Ready { instr, .. } => instr.rd < REGISTERS,
            _ => true,
        }
    }

    /// The destination register, 0 if there is none.
    pub open spec fn dest_spec(self) -> u8 {
        match self {
            Issue::Ready { instr, .. } => instr.rd,
            _ => 0,
        }
    }

    /// The destination register, 0 if there is none.
    pub fn dest(&self) -> (rd: u8)
        ensures
            rd == self.dest_spec(),
    {
        match self {
            Issue::Ready { instr, .. } => instr.rd,
            _ => 0,
        }
    }
}

impl Work {
    /// The destination is one of the 32 registers.
    pub open spec fn wf(self) -> bool {
        match self {
            Work::Done { rd, .. } => rd < REGISTERS,
            Work::Load { rd, .. } => rd < REGISTERS,
            _ => true,
        }
    }

    /// The destination register, 0 if there is none.
    pub open spec fn dest_spec(self) -> u8 {
        match self {
            Work::Done { rd, .. } => rd,
            Work::Load { rd, .. } => rd,
            _ => 0,
        }
    }

    /// The destination register, 0 if there is none.
    pub fn dest(&self) -> (rd: u8)
        ensures
            rd == self.dest_spec(),
    {
        match self {
            Work::Done { rd, .. } => *rd,
            Work::Load { rd, .. } => *rd,
            _ => 0,
        }
    }
}

impl Retire {
    /// The destination is one of the 32 registers.
    pub open spec fn wf(self) -> bool {
        match self {
            Retire::Done { rd, .. } => rd < REGISTERS,
            _ => true,
        }
    }

    /// The destination register, 0 if there is none.
    pub open spec fn dest_spec(self) -> u8 {
        match self {
            Retire::Done { rd, .. } => rd,
            _ => 0,
        }
    }

    /// The destination register, 0 if there is none.
    pub fn dest(&self) -> (rd: u8)
        ensures
            rd == self.dest_spec(),
    {
        match self {
            Retire::Done { rd, .. } => *rd,
            _ => 0,
        }
    }
}

impl Value for Tag {
    open spec fn zero_value() -> Tag {
        Tag::none()
    }

    fn zero() -> (z: Tag) {
        Tag { valid: false, pc: 0, mapped: false }
    }
}

impl Value for Issue {
    open spec fn zero_value() -> Issue {
        Issue::Bubble
    }

    fn zero() -> (z: Issue) {
        Issue::Bubble
    }
}

impl Value for Work {
    open spec fn zero_value() -> Work {
        Work::Bubble
    }

    fn zero() -> (z: Work) {
        Work::Bubble
    }
}

impl Value for Retire {
    open spec fn zero_value() -> Retire {
        Retire::Bubble
    }

    fn zero() -> (z: Retire) {
        Retire::Bubble
    }
}

/// Whether decode has to hold the word `word` with tag `tag` back for a
/// cycle: it is an instruction on the path, and an instruction in flight is
/// still to write one of its source registers.
pub open spec fn hold_spec(word: u32, tag: Tag, flush: bool, busy: Busy) -> bool {
    &&& !flush
    &&& tag.valid
    &&& tag.mapped
    &&& match decode_spec(word) {
        None => false,
        Some(instr) => busy.blocks(instr.rs1) || busy.blocks(instr.rs2),
    }
}

/// What decode makes of the word `word` with tag `tag`: nothing while
/// fetch is redirected, if the word is off the path, or while the word is
/// held back; a fault if the word's address is unmapped or the word encodes
/// no instruction; else the instruction with what its source registers
/// show.
pub open spec fn issue_spec(
    word: u32,
    tag: Tag,
    regs: RegFileView<u64>,
    flush: bool,
    busy: Busy,
) -> Issue {
    if flush || !tag.valid || hold_spec(word, tag, flush, busy) {
        Issue::Bubble
    } else if !tag.mapped {
        Issue::Fault(Stop::Memory(MemFault { addr: tag.pc, kind: Access::Fetch }))
    } else {
        match decode_spec(word) {
            None => Issue::Fault(Stop::DecodeFault { pc: tag.pc, word }),
            Some(instr) => Issue::Ready {
                pc: tag.pc,
                instr,
                a: regs.read(instr.rs1 as int),
                b: regs.read(instr.rs2 as int),
            },
        }
    }
}

/// What execute makes of `issue`: nothing while fetch is redirected or once
/// the run is ending; else what the instruction does. A trap, a fault
/// handed down by decode and an access to unmapped memory end the run.
pub open spec fn work_spec(issue: Issue, flush: bool, stopped: bool) -> Executed {
    let idle = Executed { work: Work::Bubble, target: None, stop: false };
    if flush || stopped {
        idle
    } else {
        match issue {
            Issue::Bubble => idle,
            Issue::Fault(stop) => Executed { work: Work::Fault(stop), target: None, stop: true },
            Issue::Ready { pc, instr, a, b } => {
                let o = evaluate_spec(instr, pc, a, b);
                if o.stop {
                    Executed { work: Work::Fault(Stop::Halt { pc }), target: None, stop: true }
                } else {
                    match o.request {
                        Request::Idle => Executed {
                            work: Work::Done { rd: o.rd, value: o.value },
                            target: o.target,
                            stop: false,
                        },
                        Request::Load(width, sign, addr) => if mapped(addr, width.size()) {
                            Executed {
                                work: Work::Load { rd: o.rd, width, sign, addr },
                                target: None,
                                stop: false,
                            }
                        } else {
                            Executed {
                                work: Work::Fault(
                                    Stop::Memory(MemFault { addr, kind: Access::Load }),
                                ),
                                target: None,
                                stop: true,
                            }
                        },
                        Request::Store(width, addr, data) => if mapped(addr, width.size()) {
                            Executed {
                                work: Work::Store { width, addr, data },
                                target: None,
                                stop: false,
                            }
                        } else {
                            Executed {
                                work: Work::Fault(
                                    Stop::Memory(MemFault { addr, kind: Access::Store }),
                                ),
                                target: None,
                                stop: true,
                            }
                        },
                    }
                }
            },
        }
    }
}

/// The data memory after `work` was issued to it.
pub open spec fn memory_spec(work: Work, dmem: MemView) -> MemView {
    match work {
        Work::Load { width, addr, .. } => dmem.read(addr, width.size()),
        Work::Store { width, addr, data } => dmem.write(addr, width.size(), data),
        _ => dmem,
    }
}

/// `work` as memory access takes it up: an access to unmapped memory is a
/// fault.
pub open spec fn accept_spec(work: Work) -> Work {
    match work {
        Work::Load { width, addr, .. } => if mapped(addr, width.size()) {
            work
        } else {
            Work::Fault(Stop::Memory(MemFault { addr, kind: Access::Load }))
        },
        Work::Store { width, addr, .. } => if mapped(addr, width.size()) {
            work
        } else {
            Work::Fault(Stop::Memory(MemFault { addr, kind: Access::Store }))
        },
        _ => work,
    }
}

/// What `work` retires as when the data memory shows `data`: a load takes
/// its value from there.
pub open spec fn retire_spec(work: Work, data: u64) -> Retire {
    match work {
        Work::Bubble => Retire::Bubble,
        Work::Fault(stop) => Retire::Fault(stop),
        Work::Done { rd, value } => Retire::Done { rd, value },
        Work::Load { rd, width, sign, .. } => Retire::Done {
            rd,
            value: extend_spec(data, width, sign),
        },
        Work::Store { .. } => Retire::Done { rd: 0, value: 0 },
    }
}

/// The register file after write-back took `retire`.
pub open spec fn writeback_spec(retire: Retire, regs: RegFileView<u64>) -> RegFileView<u64> {
    match retire {
        Retire::Done { rd, value } => regs.write(rd as int, value),
        _ => regs,
    }
}

/// The end of the run that `retire` brings, if it brings one.
pub open spec fn stop_spec(retire: Retire) -> Option<Stop> {
    match retire {
        Retire::Fault(stop) => Some(stop),
        _ => None,
    }
}

/// What decode makes of a word and its tag.
pub fn issue(word: u32, tag: Tag, regs: &RegFile<u64>, flush: bool, busy: Busy) -> (r: Issue)
    requires
        regs@.wf(),
    ensures
        r == issue_spec(word, tag, regs@, flush, busy),
        r is Bubble && !flush && tag.valid <==> hold_spec(word, tag, flush, busy),
        r.wf(),
{
    if flush || !tag.valid {
        Issue::Bubble
    } else if !tag.mapped {
        Issue::Fault(Stop::Memory(MemFault { addr: tag.pc, kind: Access::Fetch }))
    } else {
        match decode(word) {
            None => Issue::Fault(Stop::DecodeFault { pc: tag.pc, word }),
            Some(instr) => if busy.holds(instr.rs1) || busy.holds(instr.rs2) {
                Issue::Bubble
            } else {
                Issue::Ready { pc: tag.pc, instr, a: regs.read(instr.rs1), b: regs.read(instr.rs2) }
            },
        }
    }
}

/// What execute makes of what decode handed over.
pub fn work(issue: Issue, flush: bool, stopped: bool) -> (r: Executed)
    ensures
        r == work_spec(issue, flush, stopped),
        issue.wf() ==> r.work.wf(),
{
    let idle = Executed { work: Work::Bubble, target: None, stop: false };
    if flush || stopped {
        return idle;
    }
    match issue {
        Issue::Bubble => idle,
        Issue::Fault(stop) => Executed { work: Work::Fault(stop), target: None, stop: true },
        Issue::Ready { pc, instr, a, b } => {
            let o: Outcome = evaluate(instr, pc, a, b);
            if o.stop {
                return Executed { work: Work::Fault(Stop::Halt { pc }), target: None, stop: true };
            }
            match o.request {
                Request::Idle => Executed {
                    work: Work::Done { rd: o.rd, value: o.value },
                    target: o.target,
                    stop: false,
                },
                Request::Load(width, sign, addr) => if locate(addr, width.bytes()).is_some() {
                    Executed {
                        work: Work::Load { rd: o.rd, width, sign, addr },
                        target: None,
                        stop: false,
                    }
                } else {
                    Executed {
                        work: Work::Fault(Stop::Memory(MemFault { addr, kind: Access::Load })),
                        target: None,
                        stop: true,
                    }
                },
                Request::Store(width, addr, data) => if locate(addr, width.bytes()).is_some() {
                    Executed { work: Work::Store { width, addr, data }, target: None, stop: false }
                } else {
                    Executed {
                        work: Work::Fault(Stop::Memory(MemFault { addr, kind: Access::Store })),
                        target: None,
                        stop: true,
                    }
                },
            }
        },
    }
}

/// What `work` retires as when the data memory shows `data`.
pub fn retire(work: Work, data: u64) -> (r: Retire)
    ensures
        r == retire_spec(work, data),
        work.wf() ==> r.wf(),
{
    match work {
        Work::Bubble => Retire::Bubble,
        Work::Fault(stop) => Retire::Fault(stop),
        Work::Done { rd, value } => Retire::Done { rd, value },
        Work::Load { rd, width, sign, .. } => Retire::Done { rd, value: extend(data, width, sign) },
        Work::Store { .. } => Retire::Done { rd: 0, value: 0 },
    }
}

/// The mathematical content of the fetch stage.
pub struct FetchView {
    /// The program counter.
    pub pc: RegView<u64>,
    /// The instruction latch.
    pub inst: RegView<u32>,
    /// The instruction memory.
    pub imem: MemView,
    /// A pending redirection.
    pub newpc: Option<u64>,
    /// The tag of the word that the instruction memory read last.
    pub asked: RegView<Tag>,
    /// The tag of the word at the output of the instruction memory.
    pub arrived: RegView<Tag>,
    /// The tag of the word in the instruction latch.
    pub tag: RegView<Tag>,
}

impl FetchView {
    /// The instruction memory is well-formed, and it and every latch are
    /// enabled.
    pub open spec fn wf(self) -> bool {
        &&& self.imem.wf()
        &&& self.imem.enabled
        &&& self.pc.enabled
        &&& self.inst.enabled
        &&& self.asked.enabled
        &&& self.arrived.enabled
        &&& self.tag.enabled
    }

    /// A fetch stage about to read at `pc`, with nothing in flight, around
    /// the instruction memory `imem`.
    pub open spec fn fresh(pc: u64, imem: MemView) -> FetchView {
        FetchView {
            pc: RegView::fresh(pc, 0),
            inst: RegView::fresh(0, 0),
            imem,
            newpc: None,
            asked: RegView::fresh(Tag::none(), Tag::none()),
            arrived: RegView::fresh(Tag::none(), Tag::none()),
            tag: RegView::fresh(Tag::none(), Tag::none()),
        }
    }

    /// Whether this cycle redirects fetch, so that what is in flight behind
    /// the instruction that asked for it is dropped.
    pub open spec fn redirecting(self) -> bool {
        self.newpc is Some
    }

    /// The stage after `newpc` was registered as the next program counter.
    pub open spec fn set_newpc(self, newpc: u64) -> FetchView {
        FetchView { newpc: Some(newpc), ..self }
    }

    /// The stage after its combinational pass: a read is issued at the
    /// program counter, the word at the memory's output goes to the
    /// instruction latch, and the program counter moves on by 4 or to the
    /// pending redirection, which is used up. A redirection marks every
    /// word in flight as off the path.
    pub open spec fn run(self) -> FetchView {
        let pc = self.pc.current;
        let flush = self.redirecting();
        FetchView {
            pc: self.pc.set(
                match self.newpc {
                    Some(target) => target,
                    None => wrap64(pc + 4),
                },
            ),
            inst: self.inst.set(low32(self.imem.output.current)),
            imem: self.imem.read(pc, 4),
            newpc: None,
            asked: self.asked.set(
                if flush {
                    Tag::none()
                } else {
                    Tag { valid: true, pc, mapped: mapped(pc, 4) }
                },
            ),
            arrived: self.arrived.set(
                if flush {
                    Tag::none()
                } else {
                    self.asked.current
                },
            ),
            tag: self.tag.set(
                if flush {
                    Tag::none()
                } else {
                    self.arrived.current
                },
            ),
        }
    }

    /// The stage with the clock edge kept out of its latches and of the
    /// instruction memory.
    pub open spec fn hold(self) -> FetchView {
        FetchView {
            pc: self.pc.disable(),
            inst: self.inst.disable(),
            imem: self.imem.disable(),
            newpc: self.newpc,
            asked: self.asked.disable(),
            arrived: self.arrived.disable(),
            tag: self.tag.disable(),
        }
    }

    /// The stage with the clock edge let through again.
    pub open spec fn release(self) -> FetchView {
        FetchView {
            pc: self.pc.enable(),
            inst: self.inst.enable(),
            imem: self.imem.enable(),
            newpc: self.newpc,
            asked: self.asked.enable(),
            arrived: self.arrived.enable(),
            tag: self.tag.enable(),
        }
    }

    /// The stage after a clock edge.
    pub open spec fn tick(self) -> FetchView {
        FetchView {
            pc: self.pc.commit(),
            inst: self.inst.commit(),
            imem: self.imem.tick(),
            newpc: self.newpc,
            asked: self.asked.commit(),
            arrived: self.arrived.commit(),
            tag: self.tag.commit(),
        }
    }
}

/// The fetch stage: program counter, instruction memory and instruction
/// latch.
#[derive(Debug)]
pub struct Fetch {
    pc: Reg<u64>,
    imem: Mem,
    inst: Reg<u32>,
    newpc: Option<u64>,
    asked: Reg<Tag>,
    arrived: Reg<Tag>,
    tag: Reg<Tag>,
}

impl View for Fetch {
    type V = FetchView;

    closed spec fn view(&self) -> FetchView {
        FetchView {
            pc: self.pc@,
            inst: self.inst@,
            imem: self.imem@,
            newpc: self.newpc,
            asked: self.asked@,
            arrived: self.arrived@,
            tag: self.tag@,
        }
    }
}

impl Fetch {
    /// A fetch stage about to read at `pc`, with an empty instruction
    /// memory.
    pub fn new(pc: u64) -> (f: Fetch)
        ensures
            f@ == FetchView::fresh(pc, MemView::empty()),
            f@.wf(),
    {
        Fetch {
            pc: Reg::<u64>::new(pc),
            imem: Mem::new(),
            inst: Reg::<u32>::default(),
            newpc: None,
            asked: Reg::<Tag>::default(),
            arrived: Reg::<Tag>::default(),
            tag: Reg::<Tag>::default(),
        }
    }

    /// Starts over at `pc`: whatever is in flight is dropped, the
    /// instruction memory stays.
    pub fn restart(&mut self, pc: u64)
        requires
            old(self)@.wf(),
        ensures
            final(self)@ == FetchView::fresh(pc, old(self)@.imem),
            final(self)@.wf(),
    {
        self.pc = Reg::<u64>::new(pc);
        self.inst = Reg::<u32>::default();
        self.newpc = None;
        self.asked = Reg::<Tag>::default();
        self.arrived = Reg::<Tag>::default();
        self.tag = Reg::<Tag>::default();
    }

    /// Copies `bin` into the instruction memory at `addr`.
    pub fn load(&mut self, addr: u64, bin: &[u8]) -> (r: Result<(), MemFault>)
        requires
            old(self)@.wf(),
        ensures
            final(self)@ == (FetchView { imem: old(self)@.imem.load(addr, bin@), ..old(self)@ }),
            final(self)@.wf(),
            r is Err <==> addr >= INSTBASE && !mapped(addr, bin@.len()),
            r is Err ==> r == Err::<(), MemFault>(MemFault { addr, kind: Access::Image }),
    {
        self.imem.load_array(addr, bin)
    }

    /// The combinational pass of the stage.
    pub fn run(&mut self)
        requires
            old(self)@.wf(),
        ensures
            final(self)@ == old(self)@.run(),
            final(self)@.wf(),
    {
        let pc: u64 = self.pc.get();
        let found: bool = locate(pc, 4).is_some();
        let flush: bool = self.newpc.is_some();
        if found {
            let _ = self.imem.read(pc);
        }
        self.inst.set((self.imem.output() % 0x1_0000_0000) as u32);
        match self.newpc {
            Some(target) => self.pc.set(target),
            None => self.pc.set(pc.wrapping_add(4)),
        }
        if flush {
            self.asked.set(Tag::zero());
            self.arrived.set(Tag::zero());
            self.tag.set(Tag::zero());
        } else {
            self.tag.set(self.arrived.get());
            self.arrived.set(self.asked.get());
            self.asked.set(Tag { valid: true, pc, mapped: found });
        }
        self.newpc = None;
    }

    /// Registers `newpc` as the next program counter: the next
    /// combinational pass uses it in place of the program counter plus 4.
    pub fn set_newpc(&mut self, newpc: u64)
        ensures
            final(self)@ == old(self)@.set_newpc(newpc),
    {
        self.newpc = Some(newpc);
    }

    /// Keeps the clock edge out of the stage: while decode holds an
    /// instruction back, the words behind it stay where they are.
    pub fn hold(&mut self)
        ensures
            final(self)@ == old(self)@.hold(),
    {
        self.pc.disable();
        self.inst.disable();
        self.imem.disable();
        self.asked.disable();
        self.arrived.disable();
        self.tag.disable();
    }

    /// Lets the clock edge through again.
    pub fn release(&mut self)
        ensures
            final(self)@ == old(self)@.release(),
    {
        self.pc.enable();
        self.inst.enable();
        self.imem.enable();
        self.asked.enable();
        self.arrived.enable();
        self.tag.enable();
    }

    /// Whether the next combinational pass redirects fetch.
    pub fn redirecting(&self) -> (r: bool)
        ensures
            r == self@.redirecting(),
    {
        self.newpc.is_some()
    }

    /// The program counter.
    pub fn pc(&self) -> (pc: u64)
        ensures
            pc == self@.pc.current,
    {
        self.pc.get()
    }

    /// The word in the instruction latch.
    pub fn word(&self) -> (word: u32)
        ensures
            word == self@.inst.current,
    {
        self.inst.get()
    }

    /// The tag of the word in the instruction latch.
    pub fn tag(&self) -> (tag: Tag)
        ensures
            tag == self@.tag.current,
    {
        self.tag.get()
    }

    /// The words that a window of `rows` rows of the instruction memory
    /// shows, starting at the program counter.
    pub fn window(&self, rows: u16) -> (words: Vec<u32>)
        requires
            self@.wf(),
        ensures
            words@ == window_words(self@.imem.bytes, self@.pc.current, rows as nat),
    {
        self.imem.window(self.pc.get(), rows)
    }
}

impl Tickable for Fetch {
    open spec fn ready(&self) -> bool {
        self@.imem.wf()
    }

    open spec fn follows(&self, before: &Self) -> bool {
        self@ == before@.tick()
    }

    fn tick(&mut self) {
        self.pc.tick();
        self.inst.tick();
        self.imem.tick();
        self.asked.tick();
        self.arrived.tick();
        self.tag.tick();
    }
}

/// The mathematical content of the decode stage.
pub struct DecodeView {
    /// The latch read by execute.
    pub out: RegView<Issue>,
}

impl DecodeView {
    /// The latch is enabled and holds destinations among the 32 registers.
    pub open spec fn wf(self) -> bool {
        &&& self.out.enabled
        &&& self.out.current.wf()
        &&& self.out.pending.wf()
    }

    /// A decode stage with nothing in its latch.
    pub open spec fn fresh() -> DecodeView {
        DecodeView { out: RegView::fresh(Issue::Bubble, Issue::Bubble) }
    }

    /// The stage after its combinational pass.
    pub open spec fn run(
        self,
        word: u32,
        tag: Tag,
        regs: RegFileView<u64>,
        flush: bool,
        busy: Busy,
    ) -> DecodeView {
        DecodeView { out: self.out.set(issue_spec(word, tag, regs, flush, busy)) }
    }

    /// The stage after a clock edge.
    pub open spec fn tick(self) -> DecodeView {
        DecodeView { out: self.out.commit() }
    }
}

/// The decode stage.
#[derive(Debug)]
pub struct Decode {
    out: Reg<Issue>,
}

impl View for Decode {
    type V = DecodeView;

    closed spec fn view(&self) -> DecodeView {
        DecodeView { out: self.out@ }
    }
}

impl Decode {
    /// A decode stage with nothing in its latch.
    pub fn new() -> (d: Decode)
        ensures
            d@ == DecodeView::fresh(),
            d@.wf(),
    {
        Decode { out: Reg::<Issue>::default() }
    }

    /// The combinational pass: decodes the word that fetch latched and
    /// reads its source registers. Returns whether the word is held back,
    /// so that fetch has to keep it for another cycle.
    pub fn run(&mut self, word: u32, tag: Tag, regs: &RegFile<u64>, flush: bool, busy: Busy) -> (hold:
        bool)
        requires
            old(self)@.wf(),
            regs@.wf(),
        ensures
            final(self)@ == old(self)@.run(word, tag, regs@, flush, busy),
            final(self)@.wf(),
            hold == hold_spec(word, tag, flush, busy),
    {
        let r: Issue = issue(word, tag, regs, flush, busy);
        self.out.set(r);
        match r {
            Issue::Bubble => !flush && tag.valid,
            _ => false,
        }
    }

    /// What execute reads this cycle.
    pub fn out(&self) -> (r: Issue)
        ensures
            r == self@.out.current,
    {
        self.out.get()
    }
}

impl Tickable for Decode {
    open spec fn ready(&self) -> bool {
        self@.wf()
    }

    open spec fn follows(&self, before: &Self) -> bool {
        self@ == before@.tick()
    }

    fn tick(&mut self) {
        self.out.tick();
    }
}

/// The mathematical content of the execute stage.
pub struct ExecuteView {
    /// The latch read by memory access.
    pub out: RegView<Work>,
    /// Whether an instruction that ends the run has been executed.
    pub stopped: RegView<bool>,
}

impl ExecuteView {
    /// The latches are enabled and hold destinations among the 32
    /// registers.
    pub open spec fn wf(self) -> bool {
        &&& self.out.enabled
        &&& self.stopped.enabled
        &&& self.out.current.wf()
        &&& self.out.pending.wf()
    }

    /// An execute stage with nothing in its latch.
    pub open spec fn fresh() -> ExecuteView {
        ExecuteView {
            out: RegView::fresh(Work::Bubble, Work::Bubble),
            stopped: RegView::fresh(false, false),
        }
    }

    /// What the stage decides this cycle.
    pub open spec fn decide(self, issue: Issue, flush: bool) -> Executed {
        work_spec(issue, flush, self.stopped.current)
    }

    /// The stage after its combinational pass.
    pub open spec fn run(self, issue: Issue, flush: bool) -> ExecuteView {
        let e = self.decide(issue, flush);
        ExecuteView {
            out: self.out.set(e.work),
            stopped: self.stopped.set(self.stopped.current || e.stop),
        }
    }

    /// The stage after a clock edge.
    pub open spec fn tick(self) -> ExecuteView {
        ExecuteView { out: self.out.commit(), stopped: self.stopped.commit() }
    }
}

/// The execute stage.
#[derive(Debug)]
pub struct Execute {
    out: Reg<Work>,
    stopped: Reg<bool>,
}

impl View for Execute {
    type V = ExecuteView;

    closed spec fn view(&self) -> ExecuteView {
        ExecuteView { out: self.out@, stopped: self.stopped@ }
    }
}

impl Execute {
    /// An execute stage with nothing in its latch.
    pub fn new() -> (e: Execute)
        ensures
            e@ == ExecuteView::fresh(),
            e@.wf(),
    {
        Execute { out: Reg::<Work>::default(), stopped: Reg::<bool>::default() }
    }

    /// The combinational pass: executes what decode latched. Returns the
    /// address at which fetch is to go on, if the instruction transfers
    /// control.
    pub fn run(&mut self, issue: Issue, flush: bool) -> (target: Option<u64>)
        requires
            old(self)@.wf(),
            issue.wf(),
        ensures
            final(self)@ == old(self)@.run(issue, flush),
            final(self)@.wf(),
            target == old(self)@.decide(issue, flush).target,
    {
        let stopped: bool = self.stopped.get();
        let e: Executed = work(issue, flush, stopped);
        self.out.set(e.work);
        self.stopped.set(stopped || e.stop);
        e.target
    }

    /// What memory access reads this cycle.
    pub fn out(&self) -> (r: Work)
        ensures
            r == self@.out.current,
    {
        self.out.get()
    }
}

impl Tickable for Execute {
    open spec fn ready(&self) -> bool {
        self@.wf()
    }

    open spec fn follows(&self, before: &Self) -> bool {
        self@ == before@.tick()
    }

    fn tick(&mut self) {
        self.out.tick();
        self.stopped.tick();
    }
}

/// The mathematical content of the memory-access stage.
pub struct MemAccessView {
    /// The instruction whose access the data memory performs at this clock
    /// edge.
    pub issued: RegView<Work>,
    /// The instruction whose loaded value the data memory shows next cycle.
    pub waiting: RegView<Work>,
    /// The latch read by write-back.
    pub out: RegView<Retire>,
}

impl MemAccessView {
    /// The latches are enabled and hold destinations among the 32
    /// registers.
    pub open spec fn wf(self) -> bool {
        &&& self.issued.enabled
        &&& self.waiting.enabled
        &&& self.out.enabled
        &&& self.issued.current.wf()
        &&& self.issued.pending.wf()
        &&& self.waiting.current.wf()
        &&& self.waiting.pending.wf()
        &&& self.out.current.wf()
        &&& self.out.pending.wf()
    }

    /// A memory-access stage with nothing in its latches.
    pub open spec fn fresh() -> MemAccessView {
        MemAccessView {
            issued: RegView::fresh(Work::Bubble, Work::Bubble),
            waiting: RegView::fresh(Work::Bubble, Work::Bubble),
            out: RegView::fresh(Retire::Bubble, Retire::Bubble),
        }
    }

    /// The stage after its combinational pass: `work` is issued, what was
    /// issued a cycle ago waits for the memory's output, and what has
    /// waited retires with the value that the data memory shows, `data`.
    pub open spec fn run(self, work: Work, data: u64) -> MemAccessView {
        MemAccessView {
            issued: self.issued.set(accept_spec(work)),
            waiting: self.waiting.set(self.issued.current),
            out: self.out.set(retire_spec(self.waiting.current, data)),
        }
    }

    /// The stage after a clock edge.
    pub open spec fn tick(self) -> MemAccessView {
        MemAccessView {
            issued: self.issued.commit(),
            waiting: self.waiting.commit(),
            out: self.out.commit(),
        }
    }
}

/// The memory-access stage. An access takes two clock edges to show at the
/// data memory's output, so an instruction passes two latches here before
/// it retires.
#[derive(Debug)]
pub struct MemAccess {
    issued: Reg<Work>,
    waiting: Reg<Work>,
    out: Reg<Retire>,
}

impl View for MemAccess {
    type V = MemAccessView;

    closed spec fn view(&self) -> MemAccessView {
        MemAccessView { issued: self.issued@, waiting: self.waiting@, out: self.out@ }
    }
}

impl MemAccess {
    /// A memory-access stage with nothing in its latches.
    pub fn new() -> (m: MemAccess)
        ensures
            m@ == MemAccessView::fresh(),
            m@.wf(),
    {
        MemAccess {
            issued: Reg::<Work>::default(),
            waiting: Reg::<Work>::default(),
            out: Reg::<Retire>::default(),
        }
    }

    /// The combinational pass: issues the access of `work` to the data
    /// memory and moves the instructions in flight on by one latch.
    pub fn run(&mut self, work: Work, dmem: &mut Mem)
        requires
            old(self)@.wf(),
            old(dmem)@.wf(),
            work.wf(),
        ensures
            final(self)@ == old(self)@.run(work, old(dmem)@.output.current),
            final(self)@.wf(),
            final(dmem)@ == memory_spec(work, old(dmem)@),
            final(dmem)@.wf(),
    {
        let data: u64 = dmem.output();
        let accepted: Work = match work {
            Work::Load { width, addr, .. } => match dmem.read_wide(addr, width) {
                Ok(_) => if addr >= INSTBASE {
                    work
                } else {
                    Work::Fault(Stop::Memory(MemFault { addr, kind: Access::Load }))
                },
                Err(fault) => Work::Fault(Stop::Memory(fault)),
            },
            Work::Store { width, addr, data } => match dmem.write_wide(addr, data, width) {
                Ok(_) => if addr >= INSTBASE {
                    work
                } else {
                    Work::Fault(Stop::Memory(MemFault { addr, kind: Access::Store }))
                },
                Err(fault) => Work::Fault(Stop::Memory(fault)),
            },
            _ => work,
        };
        self.out.set(retire(self.waiting.get(), data));
        self.waiting.set(self.issued.get());
        self.issued.set(accepted);
    }

    /// What write-back reads this cycle.
    pub fn out(&self) -> (r: Retire)
        ensures
            r == self@.out.current,
    {
        self.out.get()
    }

    /// The instruction whose access is under way.
    pub fn issued(&self) -> (r: Work)
        ensures
            r == self@.issued.current,
    {
        self.issued.get()
    }

    /// The instruction that waits for the memory's output.
    pub fn waiting(&self) -> (r: Work)
        ensures
            r == self@.waiting.current,
    {
        self.waiting.get()
    }
}

impl Tickable for MemAccess {
    open spec fn ready(&self) -> bool {
        self@.wf()
    }

    open spec fn follows(&self, before: &Self) -> bool {
        self@ == before@.tick()
    }

    fn tick(&mut self) {
        self.issued.tick();
        self.waiting.tick();
        self.out.tick();
    }
}

/// The mathematical content of the write-back stage.
pub struct WriteBackView {
    /// How many instructions have retired, modulo 2 to the 64.
    pub retired: RegView<u64>,
}

impl WriteBackView {
    /// The counter is enabled.
    pub open spec fn wf(self) -> bool {
        self.retired.enabled
    }

    /// A write-back stage that has retired nothing.
    pub open spec fn fresh() -> WriteBackView {
        WriteBackView { retired: RegView::fresh(0, 0) }
    }

    /// The stage after its combinational pass: a finished instruction
    /// counts.
    pub open spec fn run(self, retire: Retire) -> WriteBackView {
        WriteBackView {
            retired: self.retired.set(
                if retire is Done {
                    wrap64(self.retired.current + 1)
                } else {
                    self.retired.current
                },
            ),
        }
    }

    /// The stage after a clock edge.
    pub open spec fn tick(self) -> WriteBackView {
        WriteBackView { retired: self.retired.commit() }
    }
}

/// The write-back stage, the only writer of the register file.
#[derive(Debug)]
pub struct WriteBack {
    retired: Reg<u64>,
}

impl View for WriteBack {
    type V = WriteBackView;

    closed spec fn view(&self) -> WriteBackView {
        WriteBackView { retired: self.retired@ }
    }
}

impl WriteBack {
    /// A write-back stage that has retired nothing.
    pub fn new() -> (w: WriteBack)
        ensures
            w@ == WriteBackView::fresh(),
            w@.wf(),
    {
        WriteBack { retired: Reg::<u64>::default() }
    }

    /// The combinational pass: stages the value of a finished instruction
    /// for its destination register. Returns the end of the run, if
    /// `retire` brings it.
    pub fn run(&mut self, retire: Retire, regs: &mut RegFile<u64>) -> (stop: Option<Stop>)
        requires
            old(self)@.wf(),
            old(regs)@.wf(),
            retire.wf(),
        ensures
            final(self)@ == old(self)@.run(retire),
            final(self)@.wf(),
            final(regs)@ == writeback_spec(retire, old(regs)@),
            final(regs)@.wf(),
            stop == stop_spec(retire),
    {
        let count: u64 = self.retired.get();
        match retire {
            Retire::Bubble => {
                self.retired.set(count);
                None
            },
            Retire::Fault(stop) => {
                self.retired.set(count);
                Some(stop)
            },
            Retire::Done { rd, value } => {
                regs.write(rd, value);
                self.retired.set(count.wrapping_add(1));
                None
            },
        }
    }

    /// How many instructions have retired, modulo 2 to the 64.
    pub fn retired(&self) -> (n: u64)
        ensures
            n == self@.retired.current,
    {
        self.retired.get()
    }
}

impl Tickable for WriteBack {
    open spec fn ready(&self) -> bool {
        self@.wf()
    }

    open spec fn follows(&self, before: &Self) -> bool {
        self@ == before@.tick()
    }

    fn tick(&mut self) {
        self.retired.tick();
    }
}

} // verus!
