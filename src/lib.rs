pub mod instr;
pub mod cart;
pub mod cpu;
pub mod error;
pub mod mem;
pub mod other;
pub mod ppu;
pub mod sys;
pub mod time;
pub mod util;
