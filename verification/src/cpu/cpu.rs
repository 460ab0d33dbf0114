//! The processor: register file, data memory and the five stages, stepped
//! one cycle at a time.
use vstd::prelude::*;
use super::alu::wrap64;
use super::isa::lemma_decoded_registers;
use super::mem::{mapped, window_words, Access, Mem, MemFault, MemView, INSTBASE};
use super::pipeline::{
    hold_spec, memory_spec, stop_spec, writeback_spec, Busy, Decode, DecodeView, Execute,
    ExecuteView, Fetch, FetchView, Issue, MemAccess, MemAccessView, Stop, Tag, Work, WriteBack,
    WriteBackView,
};
pub use super::regfile::RegFile;
use super::regfile::RegFileView;
use super::traits::Tickable;

verus! {

/// The address at which a program starts unless another is set.
pub const DEFAULT_PC: u64 = 0x8000_0000;

/// The number of cycles after which `run` gives up on a program that has
/// not ended.
pub const CYCLE_LIMIT: u64 = 0x100_0000;

/// Whether the processor is still running.
#[derive(Clone, Copy, Debug, PartialEq, Eq)]
pub enum Status {
    /// Nothing has ended the run.
    Running,
    /// The run has ended, for the reason given.
    Stopped(Stop),
}

/// A read-only picture of the processor for a debugger.
#[derive(Debug, PartialEq, Eq)]
pub struct Snapshot {
    /// The program counter.
    pub pc: u64,
    /// The mapped words of the data memory from the program counter on.
    pub words: Vec<u32>,
    /// What the registers show, by number.
    pub regs: Vec<u64>,
}

/// The mathematical content of the processor.
pub struct CpuView {
    /// The register file.
    pub regs: RegFileView<u64>,
    /// The data memory.
    pub mem: MemView,
    /// The fetch stage, with the instruction memory.
    pub fetch: FetchView,
    /// The decode stage.
    pub decode: DecodeView,
    /// The execute stage.
    pub execute: ExecuteView,
    /// The memory-access stage.
    pub memaccess: MemAccessView,
    /// The write-back stage.
    pub writeback: WriteBackView,
    /// Whether the processor is still running.
    pub status: Status,
}

impl CpuView {
    /// Every component is well-formed, and the data memory is enabled.
    pub open spec fn wf(self) -> bool {
        &&& self.regs.wf()
        &&& self.mem.wf()
        &&& self.mem.enabled
        &&& self.fetch.wf()
        &&& self.decode.wf()
        &&& self.execute.wf()
        &&& self.memaccess.wf()
        &&& self.writeback.wf()
    }

    /// A processor about to start at `DEFAULT_PC`, with empty memories and
    /// nothing in flight.
    pub open spec fn fresh() -> CpuView {
        CpuView {
            regs: RegFileView::zeroed(),
            mem: MemView::empty(),
            fetch: FetchView::fresh(DEFAULT_PC, MemView::empty()),
            decode: DecodeView::fresh(),
            execute: ExecuteView::fresh(),
            memaccess: MemAccessView::fresh(),
            writeback: WriteBackView::fresh(),
            status: Status::Running,
        }
    }

    /// The processor after `bin` was copied to `addr` in the instruction
    /// and in the data memory. Nothing changes unless the whole of `bin`
    /// is mapped.
    pub open spec fn load(self, addr: u64, bin: Seq<u8>) -> CpuView {
        CpuView {
            mem: self.mem.load(addr, bin),
            fetch: FetchView { imem: self.fetch.imem.load(addr, bin), ..self.fetch },
            ..self
        }
    }

    /// The processor about to start at `pc`: fetch starts over, the rest
    /// stays.
    pub open spec fn start_at(self, pc: u64) -> CpuView {
        CpuView { fetch: FetchView::fresh(pc, self.fetch.imem), ..self }
    }

    /// The destination registers of the instructions in flight behind
    /// decode.
    pub open spec fn busy(self) -> Busy {
        Busy {
            executing: self.decode.out.current.dest_spec(),
            accessing: self.execute.out.current.dest_spec(),
            issued: self.memaccess.issued.current.dest_spec(),
            waiting: self.memaccess.waiting.current.dest_spec(),
            retiring: self.memaccess.out.current.dest_spec(),
        }
    }

    /// Whether decode holds its instruction back this cycle, and fetch with
    /// it.
    pub open spec fn holding(self) -> bool {
        hold_spec(
            self.fetch.inst.current,
            self.fetch.tag.current,
            self.fetch.redirecting(),
            self.busy(),
        )
    }

    /// The processor one cycle on. Every stage works on what the last
    /// clock edge committed; the clock edge at the end of the cycle commits
    /// what the stages staged, all at once. While decode holds an
    /// instruction back, the latches of fetch are disabled for the edge. A
    /// processor that has stopped stays as it is.
    pub open spec fn step(self) -> CpuView {
        if self.status != Status::Running {
            self
        } else {
            let flush = self.fetch.redirecting();
            let issue = self.decode.out.current;
            let work = self.execute.out.current;
            let retire = self.memaccess.out.current;
            let fetch = match self.execute.decide(issue, flush).target {
                Some(target) => self.fetch.run().set_newpc(target),
                None => self.fetch.run(),
            };
            CpuView {
                regs: writeback_spec(retire, self.regs).tick(),
                mem: memory_spec(work, self.mem).tick(),
                fetch: if self.holding() {
                    fetch.hold().tick().release()
                } else {
                    fetch.tick()
                },
                decode: self.decode.run(
                    self.fetch.inst.current,
                    self.fetch.tag.current,
                    self.regs,
                    flush,
                    self.busy(),
                ).tick(),
                execute: self.execute.run(issue, flush).tick(),
                memaccess: self.memaccess.run(work, self.mem.output.current).tick(),
                writeback: self.writeback.run(retire).tick(),
                status: match stop_spec(retire) {
                    Some(stop) => Status::Stopped(stop),
                    None => Status::Running,
                },
            }
        }
    }

    /// The processor after it ran until it stopped, for `budget` cycles at
    /// most.
    pub open spec fn run(self, budget: nat) -> CpuView
        decreases budget,
    {
        if budget == 0 || self.status != Status::Running {
            self
        } else {
            self.step().run((budget - 1) as nat)
        }
    }

    /// A cycle keeps every component well-formed; in particular register 0
    /// goes on showing zero.
    pub proof fn lemma_step_wf(self)
        requires
            self.wf(),
        ensures
            self.step().wf(),
            self.step().regs.read(0) == 0,
    {
        if self.status == Status::Running {
            lemma_decoded_registers(self.fetch.inst.current);
            self.fetch.run().imem.lemma_tick_wf();
            memory_spec(self.execute.out.current, self.mem).lemma_tick_wf();
        }
    }

    /// A processor that has stopped does not change any more, however long
    /// it is run.
    pub proof fn lemma_stopped_stays(self, budget: nat)
        requires
            self.status != Status::Running,
        ensures
            self.step() == self,
            self.run(budget) == self,
    {
    }

    /// The cycle that uses a redirection up drops what was fetched behind
    /// the instruction that asked for it: after it the program counter is
    /// the target, no word in the fetch stage is on the path, and decode
    /// and execute have handed on nothing.
    pub proof fn lemma_redirect_discards(self, target: u64)
        requires
            self.wf(),
            self.status == Status::Running,
            self.fetch.newpc == Some(target),
        ensures
            self.step().fetch.pc.current == target,
            self.step().fetch.newpc is None,
            self.step().fetch.asked.current == Tag::none(),
            self.step().fetch.arrived.current == Tag::none(),
            self.step().fetch.tag.current == Tag::none(),
            self.step().decode.out.current == Issue::Bubble,
            self.step().execute.out.current == Work::Bubble,
    {
    }

    /// A transfer of control takes effect one cycle late: in the cycle in
    /// which execute asks for `target`, fetch still reads at the program
    /// counter and moves on by 4; the cycle after, the program counter is
    /// `target`.
    pub proof fn lemma_redirect_delay(self, target: u64)
        requires
            self.wf(),
            self.status == Status::Running,
            self.memaccess.out.current !is Fault,
            !self.fetch.redirecting(),
            !self.holding(),
            self.execute.decide(self.decode.out.current, false).target == Some(target),
        ensures
            self.step().fetch.pc.current == wrap64(self.fetch.pc.current + 4),
            self.step().fetch.asked.current == (Tag {
                valid: true,
                pc: self.fetch.pc.current,
                mapped: mapped(self.fetch.pc.current, 4),
            }),
            self.step().fetch.newpc == Some(target),
            self.step().step().fetch.pc.current == target,
    {
        self.lemma_step_wf();
        self.step().lemma_redirect_discards(target);
    }
}

/// A pipelined processor: register file, data memory and five stages.
#[derive(Debug)]
pub struct CPU {
    regs: RegFile<u64>,
    mem: Mem,
    /// The fetch stage, which holds the program counter and the
    /// instruction memory.
    pub fetch: Fetch,
    decode: Decode,
    execute: Execute,
    memaccess: MemAccess,
    writeback: WriteBack,
    status: Status,
}

impl View for CPU {
    type V = CpuView;

    closed spec fn view(&self) -> CpuView {
        CpuView {
            regs: self.regs@,
            mem: self.mem@,
            fetch: self.fetch@,
            decode: self.decode@,
            execute: self.execute@,
            memaccess: self.memaccess@,
            writeback: self.writeback@,
            status: self.status,
        }
    }
}

impl CPU {
    /// A processor about to start at `DEFAULT_PC`, with empty memories.
    pub fn new() -> (cpu: CPU)
        ensures
            cpu@ == CpuView::fresh(),
            cpu@.wf(),
            cpu@.idle(),
    {
        CPU {
            regs: RegFile::new(),
            mem: Mem::new(),
            fetch: Fetch::new(DEFAULT_PC),
            decode: Decode::new(),
            execute: Execute::new(),
            memaccess: MemAccess::new(),
            writeback: WriteBack::new(),
            status: Status::Running,
        }
    }

    /// Copies a flat program image to `addr`, into the instruction and
    /// into the data memory. An image that is not mapped as a whole is
    /// refused, and nothing changes.
    pub fn load_binary(&mut self, bin: &[u8], addr: u64) -> (r: Result<(), MemFault>)
        requires
            old(self)@.wf(),
        ensures
            final(self)@ == old(self)@.load(addr, bin@),
            final(self)@.wf(),
            old(self)@.idle() ==> final(self)@.idle(),
            r is Err <==> !mapped(addr, bin@.len()),
            r is Err ==> r == Err::<(), MemFault>(MemFault { addr, kind: Access::Image }),
    {
        if addr < INSTBASE {
            return Err(MemFault { addr, kind: Access::Image });
        }
        match self.mem.load_array(addr, bin) {
            Ok(_) => self.fetch.load(addr, bin),
            Err(fault) => Err(fault),
        }
    }

    /// Copies a flat program image to `DEFAULT_PC`.
    pub fn load_elf(&mut self, bin: &Vec<u8>) -> (r: Result<(), MemFault>)
        requires
            old(self)@.wf(),
        ensures
            final(self)@ == old(self)@.load(DEFAULT_PC, bin@),
            final(self)@.wf(),
            old(self)@.idle() ==> final(self)@.idle(),
            r is Err <==> !mapped(DEFAULT_PC, bin@.len()),
            r is Err ==> r == Err::<(), MemFault>(
                MemFault { addr: DEFAULT_PC, kind: Access::Image },
            ),
    {
        self.load_binary(bin.as_slice(), DEFAULT_PC)
    }

    /// Makes fetch start over at `start_pc`.
    pub fn set_start_pc(&mut self, start_pc: u64)
        requires
            old(self)@.wf(),
        ensures
            final(self)@ == old(self)@.start_at(start_pc),
            final(self)@.wf(),
            old(self)@.idle() ==> final(self)@.idle(),
    {
        self.fetch.restart(start_pc);
    }

    /// Runs until the program ends, for `CYCLE_LIMIT` cycles at most.
    /// Returns `Status::Running` if the program has not ended by then.
    ///
    /// A processor that was coherent, as one is that had nothing in flight,
    /// is coherent afterwards, and to the program the run was as many
    /// instructions as execute has worked on. A program that ends is run
    /// to its end if there are 11 cycles for each of its instructions and 4
    /// more.
    pub fn run(&mut self) -> (status: Status)
        requires
            old(self)@.wf(),
        ensures
            final(self)@ == old(self)@.run(CYCLE_LIMIT as nat),
            final(self)@.wf(),
            status == final(self)@.status,
            old(self)@.coherent() ==> final(self)@.coherent() && final(self)@.arch() == old(
                self,
            )@.arch().run(old(self)@.fetch.imem.bytes, old(self)@.committed(CYCLE_LIMIT as nat)),
            forall|k: nat|
                old(self)@.coherent() && 11 * k + 4 <= CYCLE_LIMIT && (#[trigger] old(
                    self,
                )@.arch().run(old(self)@.fetch.imem.bytes, k)).stop is Some ==> status
                    != Status::Running,
    {
        self.run_for(CYCLE_LIMIT)
    }

    /// Runs until the program ends, for `cycles` cycles at most. Returns
    /// `Status::Running` if the program has not ended by then.
    ///
    /// A processor that was coherent, as one is that had nothing in flight,
    /// is coherent afterwards, and to the program the run was as many
    /// instructions as execute has worked on. A program that ends is run
    /// to its end if there are 11 cycles for each of its instructions and 4
    /// more.
    pub fn run_for(&mut self, cycles: u64) -> (status: Status)
        requires
            old(self)@.wf(),
        ensures
            final(self)@ == old(self)@.run(cycles as nat),
            final(self)@.wf(),
            status == final(self)@.status,
            old(self)@.coherent() ==> final(self)@.coherent() && final(self)@.arch() == old(
                self,
            )@.arch().run(old(self)@.fetch.imem.bytes, old(self)@.committed(cycles as nat)),
            forall|k: nat|
                old(self)@.coherent() && 11 * k + 4 <= cycles && (#[trigger] old(
                    self,
                )@.arch().run(old(self)@.fetch.imem.bytes, k)).stop is Some ==> status
                    != Status::Running,
    {
        let mut left: u64 = cycles;
        while left > 0 && self.running()
            invariant
                self@.wf(),
                self@.run(left as nat) == old(self)@.run(cycles as nat),
            decreases left,
        {
            self.tick();
            left -= 1;
        }
        proof {
            let before = old(self)@;
            if before.coherent() {
                before.lemma_run_refines(cycles as nat);
                assert forall|k: nat|
                    11 * k + 4 <= cycles && (#[trigger] before.arch().run(
                        before.fetch.imem.bytes,
                        k,
                    )).stop is Some implies self@.status != Status::Running by {
                    before.lemma_end_is_reached(k, cycles as nat);
                }
            }
        }
        self.status
    }

    /// Whether nothing has ended the run.
    pub fn running(&self) -> (r: bool)
        ensures
            r == (self@.status == Status::Running),
    {
        match self.status {
            Status::Running => true,
            Status::Stopped(_) => false,
        }
    }

    /// Whether the processor is still running, and if not, why.
    pub fn status(&self) -> (status: Status)
        ensures
            status == self@.status,
    {
        self.status
    }

    /// The register file.
    pub fn regs(&self) -> (regs: &RegFile<u64>)
        ensures
            regs@ == self@.regs,
    {
        &self.regs
    }

    /// The data memory.
    pub fn mem(&self) -> (mem: &Mem)
        ensures
            mem@ == self@.mem,
    {
        &self.mem
    }

    /// The program counter.
    pub fn pc(&self) -> (pc: u64)
        ensures
            pc == self@.fetch.pc.current,
    {
        self.fetch.pc()
    }

    /// How many instructions have retired, modulo 2 to the 64.
    pub fn retired(&self) -> (n: u64)
        ensures
            n == self@.writeback.retired.current,
    {
        self.writeback.retired()
    }

    /// A picture of the processor: the program counter, the mapped words
    /// of a window of `rows` rows of the data memory that starts there,
    /// and what the registers show.
    pub fn snapshot(&self, rows: u16) -> (s: Snapshot)
        requires
            self@.wf(),
        ensures
            s.pc == self@.fetch.pc.current,
            s.words@ == window_words(self@.mem.bytes, self@.fetch.pc.current, rows as nat),
            s.regs@ == self@.regs.values(),
    {
        let pc: u64 = self.fetch.pc();
        Snapshot { pc, words: self.mem.window(pc, rows), regs: self.regs.values() }
    }
}

impl Tickable for CPU {
    open spec fn ready(&self) -> bool {
        self@.wf()
    }

    open spec fn follows(&self, before: &Self) -> bool {
        self@ == before@.step()
    }

    /// One cycle: the combinational pass of every stage, in pipeline
    /// order, and the clock edge for all of them.
    ///
    /// A processor that was coherent is coherent afterwards, and to the
    /// program the cycle was one instruction if execute has worked on one,
    /// and nothing if not.
    fn tick(&mut self)
        ensures
            old(self)@.coherent() ==> final(self)@.coherent() && final(self)@.arch() == (if old(
                self,
            )@.commits() {
                old(self)@.arch().step(old(self)@.fetch.imem.bytes)
            } else {
                old(self)@.arch()
            }),
    {
        proof {
            if self@.coherent() {
                self@.lemma_step_refines();
            }
        }
        if !self.running() {
            return;
        }
        let flush: bool = self.fetch.redirecting();
        let word: u32 = self.fetch.word();
        let tag: Tag = self.fetch.tag();
        let busy = Busy {
            executing: self.decode.out().dest(),
            accessing: self.execute.out().dest(),
            issued: self.memaccess.issued().dest(),
            waiting: self.memaccess.waiting().dest(),
            retiring: self.memaccess.out().dest(),
        };
        self.fetch.run();
        let hold: bool = self.decode.run(word, tag, &self.regs, flush, busy);
        match self.execute.run(self.decode.out(), flush) {
            Some(target) => self.fetch.set_newpc(target),
            None => {},
        }
        self.memaccess.run(self.execute.out(), &mut self.mem);
        let stop: Option<Stop> = self.writeback.run(self.memaccess.out(), &mut self.regs);

        if hold {
            self.fetch.hold();
        }
        self.fetch.tick();
        if hold {
            self.fetch.release();
        }
        self.decode.tick();
        self.execute.tick();
        self.memaccess.tick();
        self.mem.tick();
        self.regs.tick();
        self.writeback.tick();
        match stop {
            Some(reason) => {
                self.status = Status::Stopped(reason);
            },
            None => {},
        }
    }
}

} // verus!
