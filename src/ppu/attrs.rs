use vstd::prelude::*;
use crate::sys::sys::Sys;
use crate::mem::vram::vram_index;
use crate::util::bits::{Bits, bit8, bits8};

verus! {

/// Interpretation of a background tile attributes byte (CGB mode only).
#[derive(Clone, Copy, Debug, PartialEq, Eq, Structural)]
pub struct BgAttrs {
    pub priority: u8,
    pub y_flip: bool,
    pub x_flip: bool,
    pub bank: usize,
    pub color_palette: u8,
}

impl BgAttrs {
    pub open spec fn spec_from_byte(data: u8) -> BgAttrs {
        BgAttrs {
            priority: bit8(data, 7),
            y_flip: bit8(data, 6) == 1,
            x_flip: bit8(data, 5) == 1,
            bank: bit8(data, 3) as usize,
            color_palette: bits8(data, 2, 0),
        }
    }

    /// Reads the fields of an attributes byte.
    pub fn from_byte(data: u8) -> (r: BgAttrs)
        ensures
            r == Self::spec_from_byte(data),
            r.bank <= 1,
            r.color_palette < 8,
    {
        assert((data >> 0u8) & (0xFFu8 >> (7 - (2u8 - 0u8)) as u8) < 8) by (bit_vector);
        BgAttrs {
            priority: data.bit(7),
            y_flip: data.bit(6) == 1,
            x_flip: data.bit(5) == 1,
            bank: data.bit(3) as usize,
            color_palette: data.bits(2, 0),
        }
    }

    /// The attributes of the tile-map entry at `addr`, from VRAM bank 1.
    pub fn new(sys: &Sys, addr: u16) -> (r: BgAttrs)
        requires
            sys.wf(),
            sys.mem.vram.spec_num_banks() == 2,
            0x8000 <= addr < 0xA000,
        ensures
            r == Self::spec_from_byte(sys.mem.vram@[vram_index(1, addr)]),
            r.bank <= 1,
            r.color_palette < 8,
    {
        let data = sys.mem.vram.get(1, addr);
        Self::from_byte(data)
    }
}

} // verus!
