pub mod traits;
pub mod reg;
pub mod mem;
pub mod regfile;
pub mod isa;
pub mod encode;
pub mod alu;
pub mod pipeline;
pub mod cpu;
pub mod debug;
pub mod arch;
pub mod refine;
pub mod progress;

pub use cpu::CPU;
