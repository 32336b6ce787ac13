use vstd::prelude::*;
use std::ops::Range;
use crate::mem::array::filled;
use crate::mem::io_regs::{IoReg, IoRegs};
use crate::util::bits::{Bits, bit8};

verus! {

pub const VRAM_BANK_LEN: usize = 0x2000;

/// The VRAM bank that a VBK value selects in a VRAM of `num_banks` banks.
pub open spec fn vram_bank(num_banks: nat, vbk: u8) -> nat {
    if num_banks > 1 { bit8(vbk, 0) as nat } else { 0 }
}

/// The index of address `addr` of bank `bank` in the flat bank array.
pub open spec fn vram_index(bank: nat, addr: u16) -> int {
    bank * 0x2000 + (addr - 0x8000)
}

/// The index of a VRAM address under any VBK lies within the banks.
pub proof fn lemma_vram_index_in_range(num_banks: nat, vbk: u8, addr: u16)
    requires
        num_banks == 1 || num_banks == 2,
        0x8000 <= addr < 0xA000,
    ensures
        0 <= vram_index(vram_bank(num_banks, vbk), addr) < num_banks * 0x2000,
{
    assert((vbk >> 0u8) & 1 <= 1) by (bit_vector);
}

/// Video RAM: one bank of 8 KiB (DMG) or two (CGB), mapped at 0x8000..0x9FFF,
/// stored bank after bank.
pub struct Vram {
    data: Vec<u8>,
}

impl View for Vram {
    type V = Seq<u8>;

    closed spec fn view(&self) -> Seq<u8> {
        self.data@
    }
}

impl Vram {
    pub open spec fn wf(&self) -> bool {
        self@.len() == 0x2000 || self@.len() == 0x4000
    }

    pub open spec fn spec_num_banks(&self) -> nat {
        self@.len() / 0x2000
    }

    pub fn new(is_cgb_mode: bool) -> (r: Vram)
        ensures
            r.wf(),
            r.spec_num_banks() == (if is_cgb_mode { 2nat } else { 1nat }),
            r@ == Seq::new(r@.len(), |_i: int| 0u8),
    {
        let n: usize = if is_cgb_mode { 2 * VRAM_BANK_LEN } else { VRAM_BANK_LEN };
        Vram { data: filled(n, 0) }
    }

    pub fn num_banks(&self) -> (r: usize)
        requires
            self.wf(),
        ensures
            r == self.spec_num_banks(),
    {
        self.data.len() / VRAM_BANK_LEN
    }

    /// The byte at `addr` (0x8000..0x9FFF) of bank `bank`.
    pub fn get(&self, bank: usize, addr: u16) -> (r: u8)
        requires
            self.wf(),
            bank < self.spec_num_banks(),
            0x8000 <= addr < 0xA000,
        ensures
            r == self@[vram_index(bank as nat, addr)],
    {
        self.data[bank * VRAM_BANK_LEN + (addr - 0x8000) as usize]
    }

    /// The bytes at offsets `range` of bank `bank`.
    pub fn get_range(&self, bank: usize, range: Range<usize>) -> (r: &[u8])
        requires
            self.wf(),
            bank < self.spec_num_banks(),
            range.start <= range.end <= VRAM_BANK_LEN,
        ensures
            r@ == self@.subrange(
                bank * 0x2000 + range.start,
                bank * 0x2000 + range.end,
            ),
    {
        let base = bank * VRAM_BANK_LEN;
        vstd::slice::slice_subrange(self.data.as_slice(), base + range.start, base + range.end)
    }

    /// Reads `addr` in the bank that VBK selects.
    pub fn read(&self, io_regs: &IoRegs, addr: u16) -> (r: u8)
        requires
            self.wf(),
            io_regs.wf(),
            0x8000 <= addr < 0xA000,
        ensures
            r == self@[vram_index(
                vram_bank(self.spec_num_banks(), io_regs@.get(IoReg::Vbk)),
                addr,
            )],
    {
        let bank = self.get_bank(io_regs);
        self.get(bank, addr)
    }

    /// Writes `addr` in the bank that VBK selects.
    pub fn write(&mut self, io_regs: &IoRegs, addr: u16, data: u8)
        requires
            old(self).wf(),
            io_regs.wf(),
            0x8000 <= addr < 0xA000,
        ensures
            final(self).wf(),
            final(self).spec_num_banks() == old(self).spec_num_banks(),
            final(self)@ == old(self)@.update(
                vram_index(vram_bank(old(self).spec_num_banks(), io_regs@.get(IoReg::Vbk)), addr),
                data,
            ),
    {
        let bank = self.get_bank(io_regs);
        self.data.set(bank * VRAM_BANK_LEN + (addr - 0x8000) as usize, data);
    }

    fn get_bank(&self, io_regs: &IoRegs) -> (r: usize)
        requires
            self.wf(),
            io_regs.wf(),
        ensures
            r == vram_bank(self.spec_num_banks(), io_regs@.get(IoReg::Vbk)),
            r < self.spec_num_banks(),
    {
        if self.data.len() > VRAM_BANK_LEN {
            let vbk = io_regs.get(IoReg::Vbk);
            vbk.bit(0) as usize
        } else {
            0
        }
    }
}

} // verus!
