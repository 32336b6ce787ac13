pub mod alu;
pub mod exec;
pub mod interrupt;
pub mod regs;
