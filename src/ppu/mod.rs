pub mod attrs;
pub mod dma_oam;
pub mod dma_vram;
pub mod ppu;
pub mod render;
