//! The pipeline gets on with the program: execute never waits long for
//! its next instruction, and a program that ends stops the processor.
use vstd::prelude::*;
use super::arch::Machine;
use super::cpu::{CpuView, Status};
use super::isa::decode_spec;
use super::mem::MemView;
use super::pipeline::{Busy, Retire, Work};

verus! {

impl Busy {
    /// How many cycles decode has to wait until the register file shows
    /// what the instruction in flight that is to write register `r` writes;
    /// 0 if none is to write it.
    pub open spec fn wait(self, r: u8) -> nat {
        if r == 0 {
            0
        } else if self.executing == r {
            5
        } else if self.accessing == r {
            4
        } else if self.issued == r {
            3
        } else if self.waiting == r {
            2
        } else if self.retiring == r {
            1
        } else {
            0
        }
    }
}

impl CpuView {
    /// How many cycles decode holds the word in the instruction latch
    /// back.
    pub open spec fn hold_time(self) -> nat {
        let tag = self.fetch.tag.current;
        if tag.valid && tag.mapped {
            match decode_spec(self.fetch.inst.current) {
                Some(instr) => if self.busy().wait(instr.rs1) >= self.busy().wait(instr.rs2) {
                    self.busy().wait(instr.rs1)
                } else {
                    self.busy().wait(instr.rs2)
                },
                None => 0,
            }
        } else {
            0
        }
    }

    /// A bound on the number of cycles that pass before execute works on
    /// an instruction.
    pub open spec fn lag(self) -> nat {
        if self.fetch.redirecting() {
            10
        } else if self.decode.out.current !is Bubble {
            0
        } else if self.fetch.tag.current.valid {
            1 + self.hold_time()
        } else if self.fetch.arrived.current.valid {
            7
        } else if self.fetch.asked.current.valid {
            8
        } else {
            9
        }
    }

    /// How many cycles pass before an end of the run that execute has come
    /// upon arrives at write-back.
    pub open spec fn drain(self) -> nat {
        if self.memaccess.out.current is Fault {
            1
        } else if self.memaccess.waiting.current is Fault {
            2
        } else if self.memaccess.issued.current is Fault {
            3
        } else {
            4
        }
    }

    /// A bound on the number of cycles that pass before the processor
    /// stops, for a program that ends within `k` instructions.
    pub open spec fn cycles_left(self, k: nat) -> nat {
        if self.status != Status::Running {
            0
        } else if self.execute.stopped.current {
            self.drain()
        } else {
            (self.lag() + 11 * k - 6) as nat
        }
    }

    /// In a cycle in which execute works on no instruction, the next one
    /// comes nearer.
    proof fn lemma_lag_decreases(self)
        requires
            self.coherent(),
            self.status == Status::Running,
            !self.execute.stopped.current,
            !self.commits(),
        ensures
            self.step().lag() < self.lag(),
            self.lag() <= 10,
            self.step().status == Status::Running,
            !self.step().execute.stopped.current,
    {
        self.lemma_step_refines();
    }

    /// After a cycle in which execute has worked on an instruction, the
    /// next one is 10 cycles away at most.
    proof fn lemma_lag_bounded(self)
        ensures
            self.lag() <= 10,
    {
    }

    /// An end of the run that execute has come upon is one latch nearer
    /// to write-back after a cycle.
    proof fn lemma_drain_decreases(self)
        requires
            self.coherent(),
            self.status == Status::Running,
            self.execute.stopped.current,
        ensures
            self.step().status == Status::Running ==> self.step().execute.stopped.current
                && self.step().drain() < self.drain(),
            self.drain() == 1 ==> self.step().status != Status::Running,
            1 <= self.drain() <= 4,
    {
        self.lemma_step_refines();
    }

    /// Every cycle brings the end of a program that ends nearer: the bound
    /// on the cycles that are left goes down, for the instructions that
    /// are left once execute has worked on one.
    proof fn lemma_cycles_left_decrease(self, k: nat)
        requires
            self.coherent(),
            self.status == Status::Running,
            self.arch().run(self.fetch.imem.bytes, k).stop is Some,
        ensures
            self.commits() ==> k >= 1,
            ({
                let rest = if self.commits() {
                    (k - 1) as nat
                } else {
                    k
                };
                &&& self.step().arch().run(self.fetch.imem.bytes, rest).stop is Some
                &&& self.step().cycles_left(rest) < self.cycles_left(k)
            }),
    {
        let imem = self.fetch.imem.bytes;
        self.lemma_step_refines();
        self.step().lemma_lag_bounded();
        if self.execute.stopped.current {
            self.lemma_drain_decreases();
        } else {
            assert(self.arch().stop is None);
            assert(self.arch().run(imem, 0) == self.arch());
            assert(k >= 1);
            if self.commits() {
                self.arch().lemma_run_unfolds(imem, (k - 1) as nat);
                if !self.step().execute.stopped.current {
                    assert(self.step().arch().stop is None);
                    assert(self.step().arch().run(imem, 0) == self.step().arch());
                    assert(k >= 2);
                }
            } else {
                self.lemma_lag_decreases();
            }
        }
    }

    /// A run of at least as many cycles as are left for a program that
    /// ends within `k` instructions ends with the processor stopped.
    proof fn lemma_run_ends(self, k: nat, budget: nat)
        requires
            self.coherent(),
            self.arch().run(self.fetch.imem.bytes, k).stop is Some,
            budget >= self.cycles_left(k),
        ensures
            self.run(budget).status != Status::Running,
        decreases budget,
    {
        if self.status == Status::Running {
            self.lemma_step_refines();
            self.lemma_cycles_left_decrease(k);
            let rest = if self.commits() {
                (k - 1) as nat
            } else {
                k
            };
            self.step().lemma_run_ends(rest, (budget - 1) as nat);
        }
    }

    /// A program that ends within `k` instructions has stopped the
    /// processor after 11 cycles for each of them and 4 more: no
    /// instruction keeps execute waiting for more than 10 cycles, and the
    /// end of the run takes 4 cycles from execute to write-back.
    pub proof fn lemma_end_is_reached(self, k: nat, budget: nat)
        requires
            self.coherent(),
            self.arch().run(self.fetch.imem.bytes, k).stop is Some,
            budget >= 11 * k + 4,
        ensures
            self.run(budget).status != Status::Running,
    {
        self.lemma_lag_bounded();
        if self.status == Status::Running && self.execute.stopped.current {
            self.lemma_drain_decreases();
        }
        self.lemma_run_ends(k, budget);
    }

    /// A new processor with a program image loaded and its start address
    /// set runs a program that ends within `k` instructions to its end in
    /// 11 cycles for each of them and 4 more. The end of the run is the
    /// end of the program, and the register file and the data memory show
    /// what the program, executed one instruction after the other from
    /// registers that all hold zero and a memory that holds the image, has
    /// left there.
    pub proof fn lemma_loaded_program_runs(
        addr: u64,
        bin: Seq<u8>,
        start_pc: u64,
        k: nat,
        budget: nat,
    )
        requires
            budget >= 11 * k + 4,
            (Machine {
                pc: start_pc,
                regs: Seq::new(32, |i: int| 0u64),
                mem: MemView::empty().load(addr, bin).bytes,
                stop: None,
            }).run(MemView::empty().load(addr, bin).bytes, k).stop is Some,
        ensures
            ({
                let cpu = CpuView::fresh().load(addr, bin).start_at(start_pc);
                let image = MemView::empty().load(addr, bin).bytes;
                let program = (Machine {
                    pc: start_pc,
                    regs: Seq::new(32, |i: int| 0u64),
                    mem: image,
                    stop: None,
                }).run(image, k);
                &&& program.stop is Some
                &&& cpu.run(budget).status == Status::Stopped(program.stop->0)
                &&& cpu.run(budget).regs.values() == program.regs
                &&& cpu.run(budget).mem.bytes == program.mem
            }),
    {
        let cpu = CpuView::fresh().load(addr, bin).start_at(start_pc);
        let image = MemView::empty().load(addr, bin).bytes;
        let start = cpu.arch();
        CpuView::lemma_loaded_is_coherent(addr, bin, start_pc);
        cpu.lemma_end_is_reached(k, budget);
        let stop = match cpu.run(budget).status {
            Status::Stopped(stop) => stop,
            Status::Running => arbitrary(),
        };
        cpu.lemma_run_is_architectural(budget, stop);
        let n = cpu.committed(budget);
        start.lemma_same_end(image, n, k);
    }
}

} // verus!
