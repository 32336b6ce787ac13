use vstd::prelude::*;
use crate::error::EmuError;
use crate::mem::array::filled;
use crate::util::bits::{Bits, bit8, bits8};

verus! {

pub const ROM_BANK_SIZE: usize = 0x4000;
pub const RAM_BANK_SIZE: usize = 0x2000;

/// The state of an MBC5 cartridge.
pub struct Mbc5View {
    pub rom: Seq<u8>,
    pub ram: Seq<u8>,
    pub ram_enable: bool,
    /// Low 8 bits of the ROM bank selector.
    pub rom_lo: u8,
    /// Bit 8 of the ROM bank selector.
    pub rom_hi: u8,
    /// The RAM bank selector.
    pub ram_bank: u8,
}

impl Mbc5View {
    /// The 9-bit ROM bank mapped at 0x4000..0x7FFF.
    pub open spec fn rom_bank(self) -> nat {
        self.rom_hi as nat * 256 + self.rom_lo as nat
    }

    /// The byte at `idx` of `s`, or 0 past its end.
    pub open spec fn byte_or_zero(s: Seq<u8>, idx: int) -> u8 {
        if 0 <= idx < s.len() { s[idx] } else { 0 }
    }

    /// What a read of `addr` returns.
    pub open spec fn read(self, addr: u16) -> Result<u8, EmuError> {
        if addr < 0x4000 {
            Ok(Self::byte_or_zero(self.rom, addr as int))
        } else if addr < 0x8000 {
            Ok(Self::byte_or_zero(self.rom, self.rom_bank() * 0x4000 + (addr - 0x4000)))
        } else if 0xA000 <= addr < 0xC000 {
            Ok(Self::byte_or_zero(self.ram, self.ram_bank * 0x2000 + (addr - 0xA000)))
        } else {
            Err(EmuError::InvalidAddress)
        }
    }

    /// The state after a write of `data` to `addr`.
    pub open spec fn write(self, addr: u16, data: u8) -> Result<Mbc5View, EmuError> {
        if addr < 0x2000 {
            Ok(
                Mbc5View {
                    ram_enable: if data == 0x0A {
                        true
                    } else if data == 0x00 {
                        false
                    } else {
                        self.ram_enable
                    },
                    ..self
                },
            )
        } else if addr < 0x3000 {
            Ok(Mbc5View { rom_lo: data, ..self })
        } else if addr < 0x4000 {
            Ok(Mbc5View { rom_hi: bit8(data, 0), ..self })
        } else if addr < 0x6000 {
            Ok(Mbc5View { ram_bank: bits8(data, 3, 0), ..self })
        } else if 0xA000 <= addr < 0xC000 {
            let idx = self.ram_bank * 0x2000 + (addr - 0xA000);
            if self.ram_enable && idx < self.ram.len() {
                Ok(Mbc5View { ram: self.ram.update(idx, data), ..self })
            } else {
                Ok(self)
            }
        } else {
            Err(EmuError::InvalidAddress)
        }
    }
}

/// MBC5 cartridge hardware: up to 8 MiB of ROM and 128 KiB of RAM.
pub struct HwMbc5 {
    rom: Vec<u8>,
    ram: Vec<u8>,
    ram_enable: bool,
    rom_bank_sel_lower_8: u8,
    rom_bank_sel_upper_1: u8,
    ram_bank_sel: u8,
}

impl View for HwMbc5 {
    type V = Mbc5View;

    closed spec fn view(&self) -> Mbc5View {
        Mbc5View {
            rom: self.rom@,
            ram: self.ram@,
            ram_enable: self.ram_enable,
            rom_lo: self.rom_bank_sel_lower_8,
            rom_hi: self.rom_bank_sel_upper_1,
            ram_bank: self.ram_bank_sel,
        }
    }
}

impl HwMbc5 {
    /// A cartridge with zero-filled ROM and RAM of the given bank counts.
    pub fn new(rom_banks: usize, ram_banks: usize) -> (r: HwMbc5)
        requires
            rom_banks * 0x4000 <= usize::MAX,
            ram_banks * 0x2000 <= usize::MAX,
        ensures
            r@.rom == Seq::new((rom_banks * 0x4000) as nat, |_i: int| 0u8),
            r@.ram == Seq::new((ram_banks * 0x2000) as nat, |_i: int| 0u8),
            !r@.ram_enable,
            r@.rom_lo == 0,
            r@.rom_hi == 0,
            r@.ram_bank == 0,
    {
        HwMbc5 {
            rom: filled(rom_banks * ROM_BANK_SIZE, 0),
            ram: filled(ram_banks * RAM_BANK_SIZE, 0),
            ram_enable: false,
            rom_bank_sel_lower_8: 0,
            rom_bank_sel_upper_1: 0,
            ram_bank_sel: 0,
        }
    }

    /// A cartridge holding the ROM image `rom` and zero-filled RAM.
    pub fn with_rom(rom: Vec<u8>, ram_banks: usize) -> (r: HwMbc5)
        requires
            ram_banks * 0x2000 <= usize::MAX,
        ensures
            r@.rom == rom@,
            r@.ram == Seq::new((ram_banks * 0x2000) as nat, |_i: int| 0u8),
            !r@.ram_enable,
            r@.rom_lo == 0,
            r@.rom_hi == 0,
            r@.ram_bank == 0,
    {
        HwMbc5 {
            rom,
            ram: filled(ram_banks * RAM_BANK_SIZE, 0),
            ram_enable: false,
            rom_bank_sel_lower_8: 0,
            rom_bank_sel_upper_1: 0,
            ram_bank_sel: 0,
        }
    }

    /// The 9-bit ROM bank selector.
    pub fn rom_bank_sel(&self) -> (r: u16)
        ensures
            self@.rom_hi <= 1 ==> r == self@.rom_bank(),
    {
        let lower = self.rom_bank_sel_lower_8 as u16;
        let upper = (self.rom_bank_sel_upper_1 & 1) as u16;
        let hi = self.rom_bank_sel_upper_1;
        assert(hi <= 1 ==> hi & 1 == hi) by (bit_vector);
        assert(upper <= 1 ==> ((upper << 8) | lower) == upper * 256 + lower) by (bit_vector)
            requires
                lower < 256,
        ;
        (upper << 8) | lower
    }

    pub fn ram_bank_sel(&self) -> (r: u8)
        ensures
            r == self@.ram_bank,
    {
        self.ram_bank_sel
    }

    /// The external RAM.
    pub fn ram(&self) -> (r: &[u8])
        ensures
            r@ == self@.ram,
    {
        self.ram.as_slice()
    }

    /// Reads a byte of ROM (0x0000..0x7FFF) or external RAM (0xA000..0xBFFF).
    pub fn read(&self, addr: u16) -> (r: Result<u8, EmuError>)
        requires
            self@.rom_hi <= 1,
        ensures
            r == self@.read(addr),
    {
        if addr < 0x4000 {
            let i = addr as usize;
            if i < self.rom.len() { Ok(self.rom[i]) } else { Ok(0) }
        } else if addr < 0x8000 {
            let bank = self.rom_bank_sel() as usize;
            let i = bank * ROM_BANK_SIZE + (addr - 0x4000) as usize;
            if i < self.rom.len() { Ok(self.rom[i]) } else { Ok(0) }
        } else if 0xA000 <= addr && addr < 0xC000 {
            let i = (self.ram_bank_sel as usize) * RAM_BANK_SIZE + (addr - 0xA000) as usize;
            if i < self.ram.len() { Ok(self.ram[i]) } else { Ok(0) }
        } else {
            Err(EmuError::InvalidAddress)
        }
    }

    /// Writes a control register (0x0000..0x5FFF) or external RAM
    /// (0xA000..0xBFFF).
    pub fn write(&mut self, addr: u16, data: u8) -> (r: Result<(), EmuError>)
        requires
            old(self)@.rom_hi <= 1,
        ensures
            final(self)@.rom_hi <= 1,
            old(self)@.write(addr, data) matches Ok(v) ==> r is Ok && final(self)@ == v,
            old(self)@.write(addr, data) is Err ==> r == Err::<(), EmuError>(
                EmuError::InvalidAddress,
            ) && final(self)@ == old(self)@,
    {
        if addr < 0x2000 {
            if data == 0x0A {
                self.ram_enable = true;
            }
            if data == 0x00 {
                self.ram_enable = false;
            }
            Ok(())
        } else if addr < 0x3000 {
            self.rom_bank_sel_lower_8 = data;
            Ok(())
        } else if addr < 0x4000 {
            self.rom_bank_sel_upper_1 = data.bit(0);
            Ok(())
        } else if addr < 0x6000 {
            self.ram_bank_sel = data.bits(3, 0);
            Ok(())
        } else if 0xA000 <= addr && addr < 0xC000 {
            if self.ram_enable {
                let i = (self.ram_bank_sel as usize) * RAM_BANK_SIZE + (addr - 0xA000) as usize;
                if i < self.ram.len() {
                    self.ram.set(i, data);
                }
            }
            Ok(())
        } else {
            Err(EmuError::InvalidAddress)
        }
    }
}

/// A read of the switchable ROM area returns the byte of the selected bank,
/// the 9-bit selector taken as it stands: bank 0 reads bank 0.
pub proof fn lemma_mbc5_banked_read(v: Mbc5View, offset: u16)
    requires
        offset < 0x4000,
        v.rom_bank() * 0x4000 + offset < v.rom.len(),
    ensures
        v.read((0x4000 + offset) as u16) == Ok::<u8, EmuError>(
            v.rom[v.rom_bank() * 0x4000 + offset],
        ),
{
}

/// After a write of `b` to 0x2000..0x2FFF, the low 8 bits of the selected
/// bank are `b` and bit 8 is kept.
pub proof fn lemma_mbc5_select_low(v: Mbc5View, addr: u16, b: u8)
    requires
        0x2000 <= addr < 0x3000,
    ensures
        v.write(addr, b) matches Ok(w) && w.rom_bank() == v.rom_hi as nat * 256 + b as nat,
{
}

} // verus!
