//! Cycle-level model of a pipelined scalar RV64I processor.
//!
//! Every storage element is a two-phase clocked register: within a cycle all
//! readers see the value committed by the previous clock edge, and all writes
//! become visible together at the next edge. On top of that stand a
//! byte-addressable memory with a registered output, the register file, and
//! the five stages of the pipeline.
//!
//! The processor is proved to execute its program: a run that has stopped
//! leaves in the registers and in the data memory what the program leaves
//! there when it is executed one instruction after the other, and a program
//! that ends does stop the processor.
pub mod cpu;

pub use cpu::CPU;
