//! The machine that a program sees: one instruction after the other, no
//! latches, no cycles.
use vstd::prelude::*;
use super::alu::{evaluate_spec, extend_spec, wrap64, Request};
use super::isa::decode_spec;
use super::mem::{le_store, le_value, mapped, physical, Access, MemFault};
use super::pipeline::Stop;

verus! {

/// The state that a program sees: what the instruction set architecture
/// speaks of, with no word of latches or cycles.
pub struct Machine {
    /// The address of the next instruction; 0 once the run has ended.
    pub pc: u64,
    /// What the 32 registers hold.
    pub regs: Seq<u64>,
    /// The data memory.
    pub mem: Seq<u8>,
    /// Why the run has ended, if it has.
    pub stop: Option<Stop>,
}

/// `regs` with `value` in register `rd`; register 0 takes no value.
pub open spec fn put(regs: Seq<u64>, rd: u8, value: u64) -> Seq<u64> {
    if rd == 0 {
        regs
    } else {
        regs.update(rd as int, value)
    }
}

/// The instruction word at the mapped address `pc` of the instruction
/// memory `imem`.
pub open spec fn word_at(imem: Seq<u8>, pc: u64) -> u32 {
    le_value(imem, physical(pc), 4) as u32
}

impl Machine {
    /// The machine after its run has ended for the reason `stop`.
    pub open spec fn end(self, stop: Stop) -> Machine {
        Machine { pc: 0, stop: Some(stop), ..self }
    }

    /// The machine after the instruction at its program counter, read from
    /// the instruction memory `imem`, has been executed in full. A machine
    /// whose run has ended stays as it is.
    #[verifier::opaque]
    pub open spec fn step(self, imem: Seq<u8>) -> Machine {
        let pc = self.pc;
        if self.stop is Some {
            self
        } else if !mapped(pc, 4) {
            self.end(Stop::Memory(MemFault { addr: pc, kind: Access::Fetch }))
        } else {
            let word = word_at(imem, pc);
            match decode_spec(word) {
                None => self.end(Stop::DecodeFault { pc, word }),
                Some(instr) => {
                    let o = evaluate_spec(
                        instr,
                        pc,
                        self.regs[instr.rs1 as int],
                        self.regs[instr.rs2 as int],
                    );
                    let next = match o.target {
                        Some(target) => target,
                        None => wrap64(pc + 4),
                    };
                    if o.stop {
                        self.end(Stop::Halt { pc })
                    } else {
                        match o.request {
                            Request::Idle => Machine {
                                pc: next,
                                regs: put(self.regs, o.rd, o.value),
                                ..self
                            },
                            Request::Load(width, sign, addr) => if mapped(addr, width.size()) {
                                Machine {
                                    pc: next,
                                    regs: put(
                                        self.regs,
                                        o.rd,
                                        extend_spec(
                                            le_value(self.mem, physical(addr), width.size()) as u64,
                                            width,
                                            sign,
                                        ),
                                    ),
                                    ..self
                                }
                            } else {
                                self.end(Stop::Memory(MemFault { addr, kind: Access::Load }))
                            },
                            Request::Store(width, addr, data) => if mapped(addr, width.size()) {
                                Machine {
                                    pc: next,
                                    mem: le_store(self.mem, physical(addr), width.size(), data),
                                    ..self
                                }
                            } else {
                                self.end(Stop::Memory(MemFault { addr, kind: Access::Store }))
                            },
                        }
                    }
                },
            }
        }
    }

    /// The machine after `n` instructions.
    pub open spec fn run(self, imem: Seq<u8>, n: nat) -> Machine
        decreases n,
    {
        if n == 0 {
            self
        } else {
            self.run(imem, (n - 1) as nat).step(imem)
        }
    }

    /// Executing one instruction and `n` more is executing `n + 1`.
    pub proof fn lemma_run_unfolds(self, imem: Seq<u8>, n: nat)
        ensures
            self.step(imem).run(imem, n) == self.run(imem, n + 1),
        decreases n,
    {
        if n == 0 {
            assert(self.run(imem, 0) == self);
            assert(self.run(imem, 1) == self.run(imem, 0).step(imem));
        } else {
            self.lemma_run_unfolds(imem, (n - 1) as nat);
            assert(self.step(imem).run(imem, n) == self.step(imem).run(imem, (n - 1) as nat).step(
                imem,
            ));
            assert(self.run(imem, n + 1) == self.run(imem, n).step(imem));
        }
    }

    /// A machine whose run has ended stays as it is, whatever it is asked
    /// to execute.
    pub proof fn lemma_ended_stays(self, imem: Seq<u8>, n: nat)
        requires
            self.stop is Some,
        ensures
            self.run(imem, n) == self,
        decreases n,
    {
        reveal(Machine::step);
        if n > 0 {
            self.lemma_ended_stays(imem, (n - 1) as nat);
        }
    }

    /// Executing `m` instructions and `n` more is executing `m + n`.
    pub proof fn lemma_run_adds(self, imem: Seq<u8>, m: nat, n: nat)
        ensures
            self.run(imem, m).run(imem, n) == self.run(imem, m + n),
        decreases n,
    {
        if n > 0 {
            self.lemma_run_adds(imem, m, (n - 1) as nat);
            assert(self.run(imem, m).run(imem, n) == self.run(imem, m).run(
                imem,
                (n - 1) as nat,
            ).step(imem));
            assert(self.run(imem, m + n) == self.run(imem, (m + n - 1) as nat).step(imem));
        }
    }

    /// A program has one end: two runs that have both ended have ended in
    /// the same state.
    pub proof fn lemma_same_end(self, imem: Seq<u8>, m: nat, n: nat)
        requires
            self.run(imem, m).stop is Some,
            self.run(imem, n).stop is Some,
        ensures
            self.run(imem, m) == self.run(imem, n),
    {
        if m <= n {
            self.lemma_run_adds(imem, m, (n - m) as nat);
            self.run(imem, m).lemma_ended_stays(imem, (n - m) as nat);
        } else {
            self.lemma_run_adds(imem, n, (m - n) as nat);
            self.run(imem, n).lemma_ended_stays(imem, (m - n) as nat);
        }
    }
}

} // verus!
