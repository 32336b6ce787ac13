use vstd::prelude::*;
use crate::util::bits::{Bits, bit8};
use crate::util::math::{join_16, word};

verus! {

pub const COLOR_SIZE: usize = 2;
pub const PALETTE_LEN: usize = 4;
pub const PALETTES_PER_CRAM: usize = 8;
pub const CRAM_SIZE: usize = 64;

/// The index that follows `index` when auto-increment is on: bits 5..0 step
/// forward modulo 64, bit 7 stays.
pub open spec fn next_cram_index(index: u8) -> u8 {
    ((index & 0xC0) | (((index & 0x3F) + 1) % 64) as u8) as u8
}

/// Color RAM (palette RAM). It stores 8 palettes of 4 colors, each color in
/// little-endian RGB555.
pub struct Cram {
    index: u8,
    mem: Vec<u8>,
}

/// The contents of a color RAM.
pub struct CramView {
    /// The index register: bits 5..0 address a byte, bit 7 asks for
    /// auto-increment after each write.
    pub index: u8,
    /// The 64 palette bytes.
    pub mem: Seq<u8>,
}

impl CramView {
    /// The byte that the index register addresses.
    pub open spec fn read(self) -> u8 {
        self.mem[(self.index & 0x3F) as int]
    }

    /// The RGB555 value of color `color_id` of palette `palette_id`.
    pub open spec fn spec_color(self, palette_id: u8, color_id: u8) -> u16 {
        let idx = (palette_id * 4 + color_id) * 2;
        word(self.mem[idx + 1], self.mem[idx])
    }

    /// The effect of writing `data` through the index register.
    pub open spec fn write(self, data: u8) -> CramView {
        CramView {
            index: if bit8(self.index, 7) == 1 { next_cram_index(self.index) } else { self.index },
            mem: self.mem.update((self.index & 0x3F) as int, data),
        }
    }
}

impl View for Cram {
    type V = CramView;

    closed spec fn view(&self) -> CramView {
        CramView { index: self.index, mem: self.mem@ }
    }
}

impl Cram {
    pub open spec fn wf(&self) -> bool {
        self@.mem.len() == CRAM_SIZE
    }


    pub fn new() -> (r: Cram)
        ensures
            r.wf(),
            r@.index == 0,
            r@.mem == Seq::new(64, |_i: int| 0xFFu8),
    {
        Cram { index: 0, mem: crate::mem::array::filled(CRAM_SIZE, 0xFF) }
    }

    /// The whole index register.
    pub fn index_reg(&self) -> (r: u8)
        ensures
            r == self@.index,
    {
        self.index
    }

    /// Sets the whole index register.
    pub fn set_index_reg(&mut self, value: u8)
        ensures
            final(self)@ == (CramView { index: value, mem: old(self)@.mem }),
    {
        self.index = value;
    }

    /// The byte address held in the index register.
    pub fn index(&self) -> (r: u8)
        ensures
            r == self@.index & 0x3F,
            r < 64,
    {
        let r = self.index.bits(5, 0);
        let x = self.index;
        assert((x >> 0u8) & (0xFFu8 >> (7 - (5u8 - 0u8)) as u8) == x & 0x3F) by (bit_vector);
        assert(x & 0x3F < 64) by (bit_vector);
        r
    }

    /// Whether each write advances the index (bit 7 of the index register).
    pub fn auto_inc(&self) -> (r: u8)
        ensures
            r == bit8(self@.index, 7),
    {
        self.index.bit(7)
    }

    /// The RGB555 value of color `color_id` of palette `palette_id`.
    pub fn get(&self, palette_id: u8, color_id: u8) -> (r: u16)
        requires
            self.wf(),
            palette_id < 8,
            color_id < 4,
        ensures
            r == self@.spec_color(palette_id, color_id),
    {
        let idx = ((palette_id as usize * PALETTE_LEN) + color_id as usize) * COLOR_SIZE;
        let lo = self.mem[idx];
        let hi = self.mem[idx + 1];
        join_16(hi, lo)
    }

    /// Reads the byte that the index register addresses.
    pub fn read(&self) -> (r: u8)
        requires
            self.wf(),
        ensures
            r == self@.read(),
    {
        let i = self.index();
        self.mem[i as usize]
    }

    /// Writes the byte that the index register addresses, then advances the
    /// index if auto-increment is on.
    pub fn write(&mut self, data: u8)
        requires
            old(self).wf(),
        ensures
            final(self).wf(),
            final(self)@ == old(self)@.write(data),
    {
        let i = self.index();
        self.mem.set(i as usize, data);
        if self.auto_inc() == 1 {
            let next: u8 = (i + 1) % (CRAM_SIZE as u8);
            let x = self.index;
            self.index.set_bits(5, 0, next);
            assert(next == ((x & 0x3F) + 1) % 64);
            assert(((x & 0x3F) + 1) % 64 < 64);
            assert(next < 64 ==> ((x & !(((0xFFu8 >> (7 - (5u8 - 0u8)) as u8) << 0u8) as u8)) | (((next << 0u8) as u8) & (((0xFFu8 >> (7 - (5u8 - 0u8)) as u8) << 0u8) as u8))) == ((x & 0xC0) | next)) by (bit_vector);
        }
    }
}

} // verus!
