use vstd::prelude::*;
use crate::mem::array::filled;
use crate::mem::io_regs::{IoReg, IoRegs};
use crate::util::bits::{Bits, bits8};

verus! {

pub const WRAM_BANK_LEN: usize = 0x1000;
pub const DMG_WRAM_BANK_COUNT: usize = 2;
pub const CGB_WRAM_BANK_COUNT: usize = 8;

/// The WRAM bank that serves `addr`: bank 0 at 0xC000..0xCFFF; at
/// 0xD000..0xDFFF bank 1 on a DMG, and on a CGB the bank in SVBK bits 2..0,
/// with 0 standing for 1.
pub open spec fn wram_bank(num_banks: nat, svbk: u8, addr: u16) -> nat {
    if addr < 0xD000 {
        0
    } else if num_banks > 2 {
        if bits8(svbk, 2, 0) == 0 { 1 } else { bits8(svbk, 2, 0) as nat }
    } else {
        1
    }
}

/// The index of `addr` in the flat bank array.
pub open spec fn wram_index(num_banks: nat, svbk: u8, addr: u16) -> int {
    wram_bank(num_banks, svbk, addr) * 0x1000 + (addr % 0x1000)
}

/// Work RAM: 2 banks of 4 KiB (DMG) or 8 (CGB), mapped at 0xC000..0xDFFF,
/// stored bank after bank.
pub struct Wram {
    data: Vec<u8>,
}

impl View for Wram {
    type V = Seq<u8>;

    closed spec fn view(&self) -> Seq<u8> {
        self.data@
    }
}

impl Wram {
    pub open spec fn wf(&self) -> bool {
        self@.len() == 0x2000 || self@.len() == 0x8000
    }

    pub open spec fn spec_num_banks(&self) -> nat {
        self@.len() / 0x1000
    }

    pub fn new(is_cgb_mode: bool) -> (r: Wram)
        ensures
            r.wf(),
            r.spec_num_banks() == (if is_cgb_mode { 8nat } else { 2nat }),
            r@ == Seq::new(r@.len(), |_i: int| 0u8),
    {
        let bank_count = if is_cgb_mode { CGB_WRAM_BANK_COUNT } else { DMG_WRAM_BANK_COUNT };
        Wram { data: filled(bank_count * WRAM_BANK_LEN, 0) }
    }

    /// Reads `addr` (0xC000..0xDFFF) in the bank that serves it.
    pub fn read(&self, io_regs: &IoRegs, addr: u16) -> (r: u8)
        requires
            self.wf(),
            io_regs.wf(),
            0xC000 <= addr < 0xE000,
        ensures
            r == self@[wram_index(self.spec_num_banks(), io_regs@.get(IoReg::Svbk), addr)],
    {
        let b = self.get_bank(io_regs, addr);
        self.data[b * WRAM_BANK_LEN + (addr % 0x1000) as usize]
    }

    /// Writes `addr` (0xC000..0xDFFF) in the bank that serves it.
    pub fn write(&mut self, io_regs: &IoRegs, addr: u16, data: u8)
        requires
            old(self).wf(),
            io_regs.wf(),
            0xC000 <= addr < 0xE000,
        ensures
            final(self).wf(),
            final(self).spec_num_banks() == old(self).spec_num_banks(),
            final(self)@ == old(self)@.update(
                wram_index(old(self).spec_num_banks(), io_regs@.get(IoReg::Svbk), addr),
                data,
            ),
    {
        let b = self.get_bank(io_regs, addr);
        self.data.set(b * WRAM_BANK_LEN + (addr % 0x1000) as usize, data);
    }

    fn get_bank(&self, io_regs: &IoRegs, addr: u16) -> (r: usize)
        requires
            self.wf(),
            io_regs.wf(),
        ensures
            r == wram_bank(self.spec_num_banks(), io_regs@.get(IoReg::Svbk), addr),
            r < self.spec_num_banks(),
    {
        if addr < 0xD000 {
            return 0;
        }
        if self.data.len() > DMG_WRAM_BANK_COUNT * WRAM_BANK_LEN {
            let svbk = io_regs.get(IoReg::Svbk);
            let b = svbk.bits(2, 0);
            assert((svbk >> 0u8) & (0xFFu8 >> (7 - (2u8 - 0u8)) as u8) < 8) by (bit_vector);
            if b == 0 { 1 } else { b as usize }
        } else {
            1
        }
    }
}

} // verus!
