//! The pipeline executes the program: what the latches hold is, at every
//! clock edge, what the instructions that execute has worked on make of
//! the state that the program sees.
use vstd::prelude::*;
use super::alu::{low32, wrap64};
use super::arch::{put, word_at, Machine};
use super::cpu::{CpuView, Status};
use super::isa::{decode_spec, lemma_decoded_registers};
use super::mem::{
    le_store, le_value, lemma_le_value_bound, lemma_pow256_values, mapped, physical, Access,
    MemView,
};
use super::pipeline::{
    retire_spec, DecodeView, ExecuteView, Executed, FetchView, Issue, MemAccessView, Retire, Stop,
    Tag, Work,
};

verus! {

/// The address of the instruction that decode hands on, if it hands one on.
pub open spec fn issue_pc(issue: Issue) -> Option<u64> {
    match issue {
        Issue::Bubble => None,
        Issue::Ready { pc, .. } => Some(pc),
        Issue::Fault(Stop::Halt { pc }) => Some(pc),
        Issue::Fault(Stop::DecodeFault { pc, .. }) => Some(pc),
        Issue::Fault(Stop::Memory(fault)) => Some(fault.addr),
    }
}

/// The address of the word that a tag goes with, if the word is on the
/// path.
pub open spec fn tag_pc(tag: Tag) -> Option<u64> {
    if tag.valid {
        Some(tag.pc)
    } else {
        None
    }
}

/// `first` if there is one, else `rest`.
pub open spec fn or_else(first: Option<u64>, rest: u64) -> u64 {
    match first {
        Some(pc) => pc,
        None => rest,
    }
}

/// `regs` after the instruction `retire` has written its destination.
pub open spec fn put_retire(regs: Seq<u64>, retire: Retire) -> Seq<u64> {
    match retire {
        Retire::Done { rd, value } => put(regs, rd, value),
        _ => regs,
    }
}

/// `regs` after the instruction `work` has written its destination, a load
/// the value that the data memory shows as `data`.
pub open spec fn put_work(regs: Seq<u64>, work: Work, data: u64) -> Seq<u64> {
    put_retire(regs, retire_spec(work, data))
}

/// What a load that has not been issued yet will read from `bytes`.
pub open spec fn loaded(work: Work, bytes: Seq<u8>) -> u64 {
    match work {
        Work::Load { width, addr, .. } => le_value(bytes, physical(addr), width.size()) as u64,
        _ => 0,
    }
}

/// Whether the tag `tag` tells the truth about the word `word`.
pub open spec fn tag_true(tag: Tag, word: u32, imem: Seq<u8>) -> bool {
    tag.valid ==> tag.mapped == mapped(tag.pc, 4) && (tag.mapped ==> word == word_at(imem, tag.pc))
}

impl FetchView {
    /// The address of the oldest word on the path behind the one at the
    /// output of the instruction memory.
    pub open spec fn behind_arrived(self) -> u64 {
        or_else(tag_pc(self.asked.current), self.pc.current)
    }

    /// The address of the oldest word on the path behind the one in the
    /// instruction latch.
    pub open spec fn behind_tag(self) -> u64 {
        or_else(tag_pc(self.arrived.current), self.behind_arrived())
    }

    /// The address of the oldest word on the path that decode has not
    /// handed on.
    pub open spec fn behind_decode(self) -> u64 {
        or_else(tag_pc(self.tag.current), self.behind_tag())
    }

    /// The words on the path follow each other by 4, what their tags say
    /// is true, and the instruction memory is not written.
    pub open spec fn coherent(self) -> bool {
        let imem = self.imem.bytes;
        &&& !self.imem.write_enabled
        &&& self.imem.output.enabled
        &&& self.imem.read_width == 4
        &&& tag_true(self.tag.current, self.inst.current, imem)
        &&& tag_true(self.arrived.current, low32(self.imem.output.current), imem)
        &&& tag_true(self.asked.current, low32(self.imem.output.pending), imem)
        &&& self.newpc is None ==> {
            &&& self.asked.current.valid ==> self.pc.current == wrap64(self.asked.current.pc + 4)
            &&& self.arrived.current.valid ==> self.behind_arrived() == wrap64(
                self.arrived.current.pc + 4,
            )
            &&& self.tag.current.valid ==> self.behind_tag() == wrap64(self.tag.current.pc + 4)
        }
    }

    /// The stage with `target`, if there is one, registered as the next
    /// program counter.
    pub open spec fn redirected(self, target: Option<u64>) -> FetchView {
        match target {
            Some(t) => self.set_newpc(t),
            None => self,
        }
    }

    /// A stage that is held over a clock edge and released is as it was.
    proof fn lemma_held(self)
        requires
            self.wf(),
        ensures
            self.hold().tick().release() == self,
    {
    }

    /// The combinational pass leaves what the latches show, and with it
    /// the coherence of the stage, as it was.
    proof fn lemma_run_coherent(self)
        requires
            self.wf(),
            self.coherent(),
        ensures
            self.newpc is None ==> self.run().coherent(),
            self.run().wf(),
            self.run().imem.bytes == self.imem.bytes,
            self.run().newpc is None,
            self.run().pc.current == self.pc.current,
            self.run().inst.current == self.inst.current,
            self.run().asked.current == self.asked.current,
            self.run().arrived.current == self.arrived.current,
            self.run().tag.current == self.tag.current,
            forall|t: u64| (#[trigger] self.run().set_newpc(t)).coherent(),
    {
    }

    /// The clock edge after the combinational pass leaves the stage
    /// coherent: the words move on by one latch, or all of them are off
    /// the path.
    proof fn lemma_tick_coherent(self)
        requires
            self.wf(),
            self.coherent(),
        ensures
            self.run().tick().coherent(),
            self.run().tick().imem.bytes == self.imem.bytes,
            forall|t: u64| (#[trigger] self.run().tick().redirected(Some(t))).coherent(),
            self.newpc is Some ==> {
                &&& self.run().tick().pc.current == self.newpc->0
                &&& !self.run().tick().asked.current.valid
                &&& !self.run().tick().arrived.current.valid
                &&& !self.run().tick().tag.current.valid
            },
            self.newpc is None ==> {
                &&& self.run().tick().tag.current == self.arrived.current
                &&& self.run().tick().behind_tag() == self.behind_arrived()
                &&& self.run().tick().behind_decode() == self.behind_tag()
            },
    {
        lemma_pow256_values();
        lemma_le_value_bound(self.imem.bytes, physical(self.pc.current), 4);
    }
}

impl CpuView {
    /// The address of the next instruction that execute is to work on.
    pub open spec fn next_pc(self) -> u64 {
        match self.fetch.newpc {
            Some(target) => target,
            None => or_else(issue_pc(self.decode.out.current), self.fetch.behind_decode()),
        }
    }

    /// What the registers hold once every instruction that execute has
    /// worked on has written its destination.
    pub open spec fn arch_regs(self) -> Seq<u64> {
        let r1 = put_retire(self.regs.values(), self.memaccess.out.current);
        let r2 = put_work(r1, self.memaccess.waiting.current, self.mem.output.current);
        let r3 = put_work(r2, self.memaccess.issued.current, self.mem.output.pending);
        put_work(
            r3,
            self.execute.out.current,
            loaded(self.execute.out.current, self.mem.bytes),
        )
    }

    /// What the data memory holds once every instruction that execute has
    /// worked on has stored its value.
    pub open spec fn arch_mem(self) -> Seq<u8> {
        match self.execute.out.current {
            Work::Store { width, addr, data } => le_store(
                self.mem.bytes,
                physical(addr),
                width.size(),
                data,
            ),
            _ => self.mem.bytes,
        }
    }

    /// The end of the run that is on its way to write-back or has arrived
    /// there.
    pub open spec fn arch_stop(self) -> Option<Stop> {
        match self.status {
            Status::Stopped(stop) => Some(stop),
            Status::Running => match self.memaccess.out.current {
                Retire::Fault(stop) => Some(stop),
                _ => match self.memaccess.waiting.current {
                    Work::Fault(stop) => Some(stop),
                    _ => match self.memaccess.issued.current {
                        Work::Fault(stop) => Some(stop),
                        _ => match self.execute.out.current {
                            Work::Fault(stop) => Some(stop),
                            _ => None,
                        },
                    },
                },
            },
        }
    }

    /// The state that the program sees: the state of the processor once
    /// every instruction that execute has worked on is over and done.
    pub open spec fn arch(self) -> Machine {
        Machine {
            pc: if self.arch_stop() is Some {
                0
            } else {
                self.next_pc()
            },
            regs: self.arch_regs(),
            mem: self.arch_mem(),
            stop: self.arch_stop(),
        }
    }

    /// Whether execute works on an instruction this cycle.
    pub open spec fn commits(self) -> bool {
        &&& self.status == Status::Running
        &&& !self.fetch.redirecting()
        &&& !self.execute.stopped.current
        &&& self.decode.out.current !is Bubble
    }

    /// How many instructions execute works on in the next `n` cycles of a
    /// run.
    pub open spec fn committed(self, n: nat) -> nat
        decreases n,
    {
        if n == 0 || self.status != Status::Running {
            0
        } else if self.commits() {
            1 + self.step().committed((n - 1) as nat)
        } else {
            self.step().committed((n - 1) as nat)
        }
    }

    /// What decode has handed on is true to the instruction memory and to
    /// the registers as the program sees them.
    pub open spec fn issue_true(self) -> bool {
        let imem = self.fetch.imem.bytes;
        match self.decode.out.current {
            Issue::Bubble => true,
            Issue::Ready { pc, instr, a, b } => {
                &&& mapped(pc, 4)
                &&& decode_spec(word_at(imem, pc)) == Some(instr)
                &&& a == self.arch_regs()[instr.rs1 as int]
                &&& b == self.arch_regs()[instr.rs2 as int]
            },
            Issue::Fault(Stop::DecodeFault { pc, word }) => {
                &&& mapped(pc, 4)
                &&& word == word_at(imem, pc)
                &&& decode_spec(word) is None
            },
            Issue::Fault(Stop::Memory(fault)) => fault.kind == Access::Fetch && !mapped(
                fault.addr,
                4,
            ),
            Issue::Fault(Stop::Halt { .. }) => false,
        }
    }

    /// Behind an end of the run that is on its way to write-back, the
    /// latches are empty; the execute stage knows of it.
    pub open spec fn stop_true(self) -> bool {
        let e = self.execute.out.current;
        let i = self.memaccess.issued.current;
        let w = self.memaccess.waiting.current;
        let r = self.memaccess.out.current;
        &&& self.execute.stopped.current == (self.arch_stop() is Some)
        &&& self.status != Status::Running ==> r is Bubble && w is Bubble && i is Bubble && e
            is Bubble
        &&& r is Fault ==> w is Bubble && i is Bubble && e is Bubble
        &&& w is Fault ==> i is Bubble && e is Bubble
        &&& i is Fault ==> e is Bubble
    }

    /// Whether nothing is in flight: the processor is running, its latches
    /// are empty and its memories have nothing to write.
    pub open spec fn idle(self) -> bool {
        &&& self.wf()
        &&& self.status == Status::Running
        &&& self.fetch == FetchView::fresh(self.fetch.pc.current, self.fetch.imem)
        &&& self.decode == DecodeView::fresh()
        &&& self.execute == ExecuteView::fresh()
        &&& self.memaccess == MemAccessView::fresh()
        &&& !self.fetch.imem.write_enabled
        &&& self.fetch.imem.output.enabled
        &&& self.fetch.imem.read_width == 4
        &&& !self.mem.write_enabled
        &&& self.mem.output.enabled
        &&& forall|i: int|
            0 <= i < self.regs.regs.len() ==> (#[trigger] self.regs.regs[i]).pending
                == self.regs.regs[i].current
    }

    /// The invariant of a run: the latches of the pipeline hold what the
    /// program, executed one instruction after the other, would have made
    /// of the state.
    pub open spec fn coherent(self) -> bool {
        &&& self.wf()
        &&& forall|i: int|
            0 <= i < self.regs.regs.len() ==> (#[trigger] self.regs.regs[i]).pending
                == self.regs.regs[i].current
        &&& !self.mem.write_enabled
        &&& self.mem.output.enabled
        &&& self.fetch.coherent()
        &&& self.fetch.newpc is None && issue_pc(self.decode.out.current) is Some
            ==> self.fetch.behind_decode() == wrap64(issue_pc(self.decode.out.current)->0 + 4)
        &&& self.issue_true()
        &&& self.stop_true()
        &&& match self.execute.out.current {
            Work::Load { width, addr, .. } => mapped(addr, width.size()),
            Work::Store { width, addr, .. } => mapped(addr, width.size()),
            _ => true,
        }
    }
}

impl CpuView {
    /// After a cycle the register file shows what it showed and what
    /// write-back wrote, and has nothing else staged.
    proof fn lemma_step_regfile(self)
        requires
            self.coherent(),
            self.status == Status::Running,
        ensures
            self.step().regs.values() == put_retire(self.regs.values(), self.memaccess.out.current),
            forall|i: int|
                0 <= i < self.step().regs.regs.len() ==> (#[trigger] self.step().regs.regs[i]).pending
                    == self.step().regs.regs[i].current,
    {
        let before = self.regs;
        let after = self.step().regs;
        assert(after.values() =~= put_retire(before.values(), self.memaccess.out.current));
    }

    /// After a cycle the data memory holds the store that execute had
    /// handed on, and stages what the load that execute had handed on reads.
    proof fn lemma_step_memory(self)
        requires
            self.coherent(),
            self.status == Status::Running,
        ensures
            !self.step().mem.write_enabled,
            self.step().mem.output.enabled,
            self.step().mem.bytes == self.arch_mem(),
            self.step().mem.output.current == self.mem.output.pending,
            self.execute.out.current is Load ==> self.step().mem.output.pending == loaded(
                self.execute.out.current,
                self.mem.bytes,
            ) && self.step().mem.bytes == self.mem.bytes,
            self.step().memaccess.issued.current == self.execute.out.current,
            self.step().memaccess.waiting.current == self.memaccess.issued.current,
            self.step().memaccess.out.current == retire_spec(
                self.memaccess.waiting.current,
                self.mem.output.current,
            ),
    {
    }

    /// After a cycle the registers as the program sees them are what they
    /// were, but for what the instruction that execute worked on writes.
    proof fn lemma_step_regs(self)
        requires
            self.coherent(),
            self.status == Status::Running,
        ensures
            self.step().arch_regs() == put_work(
                self.arch_regs(),
                self.step().execute.out.current,
                loaded(self.step().execute.out.current, self.step().mem.bytes),
            ),
    {
        self.lemma_step_regfile();
        self.lemma_step_memory();
    }

    /// What execute decides this cycle.
    pub open spec fn decided(self) -> Executed {
        self.execute.decide(self.decode.out.current, self.fetch.redirecting())
    }

    /// After a cycle an end of the run is one latch further on its way, and
    /// a new one is there if execute has come upon one.
    proof fn lemma_step_stop(self)
        requires
            self.coherent(),
            self.status == Status::Running,
        ensures
            self.step().stop_true(),
            self.decided().stop == (self.decided().work is Fault),
            self.step().arch_stop() == match self.arch_stop() {
                Some(stop) => Some(stop),
                None => match self.decided().work {
                    Work::Fault(stop) => Some(stop),
                    _ => None,
                },
            },
    {
        self.lemma_step_memory();
    }

    /// After a cycle the fetch stage is coherent, and the instruction
    /// memory is as it was.
    proof fn lemma_step_fetch(self)
        requires
            self.coherent(),
            self.status == Status::Running,
        ensures
            self.step().fetch.coherent(),
            self.step().fetch.imem.bytes == self.fetch.imem.bytes,
            self.step().fetch.newpc == self.decided().target,
            self.step().fetch == (if self.holding() {
                self.fetch.run().redirected(self.decided().target)
            } else {
                self.fetch.run().tick().redirected(self.decided().target)
            }),
    {
        let f = self.fetch;
        f.lemma_run_coherent();
        f.lemma_tick_coherent();
        let target = self.decided().target;
        let g = match target {
            Some(t) => f.run().set_newpc(t),
            None => f.run(),
        };
        assert(g.tick() == f.run().tick().redirected(target));
        assert(g == f.run().redirected(target));
        g.lemma_held();
    }

    /// A register that no instruction in flight is still to write holds,
    /// as the program sees it, what the register file shows.
    proof fn lemma_idle_register(self, r: u8)
        requires
            self.coherent(),
            r < 32,
            !self.busy().blocks(r),
        ensures
            self.arch_regs()[r as int] == self.regs.read(r as int),
    {
    }

    /// After a cycle, what decode has handed on is true.
    proof fn lemma_step_issue(self)
        requires
            self.coherent(),
            self.status == Status::Running,
        ensures
            self.step().issue_true(),
            self.step().fetch.newpc is None && issue_pc(self.step().decode.out.current) is Some
                ==> self.step().fetch.behind_decode() == wrap64(
                issue_pc(self.step().decode.out.current)->0 + 4,
            ),
    {
        self.lemma_step_regs();
        self.lemma_step_regfile();
        self.lemma_step_fetch();
        let word = self.fetch.inst.current;
        lemma_decoded_registers(word);
        match self.step().decode.out.current {
            Issue::Ready { pc, instr, a, b } => {
                self.lemma_idle_register(instr.rs1);
                self.lemma_idle_register(instr.rs2);
            },
            _ => {},
        }
    }

    /// After a cycle the next instruction for execute is the one that
    /// follows the instruction that execute has worked on, or the same as
    /// before if execute has worked on none.
    proof fn lemma_step_pc(self)
        requires
            self.coherent(),
            self.status == Status::Running,
            !self.execute.stopped.current,
        ensures
            self.step().next_pc() == (if self.commits() {
                match self.decided().target {
                    Some(target) => target,
                    None => wrap64(self.next_pc() + 4),
                }
            } else {
                self.next_pc()
            }),
    {
        self.lemma_step_fetch();
    }

    /// One cycle of a coherent processor leaves it coherent and the
    /// instruction memory as it was. To the program the cycle is one
    /// instruction if execute has worked on one, and nothing if not.
    pub proof fn lemma_step_refines(self)
        requires
            self.coherent(),
        ensures
            self.step().coherent(),
            self.step().fetch.imem.bytes == self.fetch.imem.bytes,
            self.step().arch() == (if self.commits() {
                self.arch().step(self.fetch.imem.bytes)
            } else {
                self.arch()
            }),
    {
        reveal(Machine::step);
        if self.status == Status::Running {
            self.lemma_step_wf();
            self.lemma_step_regfile();
            self.lemma_step_memory();
            self.lemma_step_regs();
            self.lemma_step_stop();
            self.lemma_step_fetch();
            self.lemma_step_issue();
            if !self.execute.stopped.current {
                self.lemma_step_pc();
            }
            let next = self.step();
            assert(next.execute.out.current == self.decided().work);
            assert(next.arch_regs() == (if self.commits() {
                self.arch().step(self.fetch.imem.bytes).regs
            } else {
                self.arch().regs
            }));
            assert(next.arch_mem() == (if self.commits() {
                self.arch().step(self.fetch.imem.bytes).mem
            } else {
                self.arch().mem
            }));
            assert(next.arch_stop() == (if self.commits() {
                self.arch().step(self.fetch.imem.bytes).stop
            } else {
                self.arch().stop
            }));
            assert(next.arch().pc == (if self.commits() {
                self.arch().step(self.fetch.imem.bytes).pc
            } else {
                self.arch().pc
            }));
        }
    }

    /// A run of a coherent processor leaves it coherent and the
    /// instruction memory as it was. To the program the run is as many
    /// instructions as execute has worked on.
    pub proof fn lemma_run_refines(self, budget: nat)
        requires
            self.coherent(),
        ensures
            self.run(budget).coherent(),
            self.run(budget).fetch.imem.bytes == self.fetch.imem.bytes,
            self.run(budget).arch() == self.arch().run(
                self.fetch.imem.bytes,
                self.committed(budget),
            ),
        decreases budget,
    {
        if budget > 0 && self.status == Status::Running {
            let imem = self.fetch.imem.bytes;
            let rest = (budget - 1) as nat;
            self.lemma_step_refines();
            self.step().lemma_run_refines(rest);
            if self.commits() {
                self.arch().lemma_run_unfolds(imem, self.step().committed(rest));
            }
        }
    }

    /// Once a coherent processor has stopped, nothing is in flight: the
    /// register file and the data memory show what the program has made
    /// of them, and the status says why the program has ended.
    pub proof fn lemma_stopped_shows_all(self, stop: Stop)
        requires
            self.coherent(),
            self.status == Status::Stopped(stop),
        ensures
            self.arch() == (Machine {
                pc: 0,
                regs: self.regs.values(),
                mem: self.mem.bytes,
                stop: Some(stop),
            }),
    {
    }

    /// A processor with nothing in flight is coherent: to the program its
    /// state is what the register file and the data memory show, and the
    /// next instruction is the one at the program counter.
    pub proof fn lemma_idle_is_coherent(self)
        requires
            self.idle(),
        ensures
            self.coherent(),
            self.arch() == (Machine {
                pc: self.fetch.pc.current,
                regs: self.regs.values(),
                mem: self.mem.bytes,
                stop: None,
            }),
    {
    }

    /// A new processor with a program image loaded and its start address
    /// set is coherent. To the program all registers hold zero, the data
    /// memory holds the image, and the next instruction is the one at the
    /// start address.
    pub proof fn lemma_loaded_is_coherent(addr: u64, bin: Seq<u8>, start_pc: u64)
        ensures
            CpuView::fresh().load(addr, bin).start_at(start_pc).coherent(),
            CpuView::fresh().load(addr, bin).start_at(start_pc).arch() == (Machine {
                pc: start_pc,
                regs: Seq::new(32, |i: int| 0u64),
                mem: MemView::empty().load(addr, bin).bytes,
                stop: None,
            }),
            CpuView::fresh().load(addr, bin).start_at(start_pc).fetch.imem.bytes
                == MemView::empty().load(addr, bin).bytes,
    {
        let c = CpuView::fresh().load(addr, bin).start_at(start_pc);
        assert(c.idle());
        c.lemma_idle_is_coherent();
        assert(c.regs.values() =~= Seq::new(32, |i: int| 0u64));
    }

    /// What a run that has stopped leaves in the registers and in the data
    /// memory is what the program, executed one instruction after the
    /// other, leaves there, and it has stopped for the program's reason.
    pub proof fn lemma_run_is_architectural(self, budget: nat, stop: Stop)
        requires
            self.coherent(),
            self.run(budget).status == Status::Stopped(stop),
        ensures
            ({
                let program = self.arch().run(self.fetch.imem.bytes, self.committed(budget));
                &&& self.run(budget).regs.values() == program.regs
                &&& self.run(budget).mem.bytes == program.mem
                &&& program.stop == Some(stop)
            }),
    {
        self.lemma_run_refines(budget);
        self.run(budget).lemma_stopped_shows_all(stop);
    }

    /// A new processor with a program image loaded and its start address
    /// set, once it has stopped, shows in its registers and its data
    /// memory what the program leaves there when it is executed one
    /// instruction after the other, from registers that all hold zero and a
    /// memory that holds the image; and it has stopped where and why the
    /// program ends.
    pub proof fn lemma_loaded_run(addr: u64, bin: Seq<u8>, start_pc: u64, budget: nat, stop: Stop)
        requires
            CpuView::fresh().load(addr, bin).start_at(start_pc).run(budget).status
                == Status::Stopped(stop),
        ensures
            ({
                let cpu = CpuView::fresh().load(addr, bin).start_at(start_pc);
                let image = MemView::empty().load(addr, bin).bytes;
                let program = (Machine {
                    pc: start_pc,
                    regs: Seq::new(32, |i: int| 0u64),
                    mem: image,
                    stop: None,
                }).run(image, cpu.committed(budget));
                &&& cpu.run(budget).regs.values() == program.regs
                &&& cpu.run(budget).mem.bytes == program.mem
                &&& program.stop == Some(stop)
                &&& forall|more: nat| #[trigger] program.run(image, more) == program
            }),
    {
        let cpu = CpuView::fresh().load(addr, bin).start_at(start_pc);
        let image = MemView::empty().load(addr, bin).bytes;
        CpuView::lemma_loaded_is_coherent(addr, bin, start_pc);
        cpu.lemma_run_is_architectural(budget, stop);
        let program = cpu.arch().run(image, cpu.committed(budget));
        assert forall|more: nat| #[trigger] program.run(image, more) == program by {
            program.lemma_ended_stays(image, more);
        }
    }
}

} // verus!
