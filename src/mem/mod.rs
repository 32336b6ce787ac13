pub mod array;
pub mod sections;
pub mod cram;
pub mod io_regs;
pub mod vram;
pub mod wram;
pub mod mem;
