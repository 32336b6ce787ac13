use vstd::prelude::*;
use crate::mem::array::Array;

verus! {

/// The ten regions of the address space, in address order.
#[derive(Clone, Copy, Debug, PartialEq, Eq, Structural)]
pub enum MemSection {
    CartRom,
    Vram,
    ExtRam,
    Wram,
    EchoRam,
    Oam,
    UnusableMemory,
    IoRegs,
    Hram,
    IeReg,
}

impl MemSection {
    pub open spec fn spec_start(self) -> u16 {
        match self {
            MemSection::CartRom => 0x0000,
            MemSection::Vram => 0x8000,
            MemSection::ExtRam => 0xA000,
            MemSection::Wram => 0xC000,
            MemSection::EchoRam => 0xE000,
            MemSection::Oam => 0xFE00,
            MemSection::UnusableMemory => 0xFEA0,
            MemSection::IoRegs => 0xFF00,
            MemSection::Hram => 0xFF80,
            MemSection::IeReg => 0xFFFF,
        }
    }

    /// One past the last address of the section.
    pub open spec fn spec_end(self) -> int {
        match self {
            MemSection::CartRom => 0x8000,
            MemSection::Vram => 0xA000,
            MemSection::ExtRam => 0xC000,
            MemSection::Wram => 0xE000,
            MemSection::EchoRam => 0xFE00,
            MemSection::Oam => 0xFEA0,
            MemSection::UnusableMemory => 0xFF00,
            MemSection::IoRegs => 0xFF80,
            MemSection::Hram => 0xFFFF,
            MemSection::IeReg => 0x10000,
        }
    }

    /// Returns the starting address of the memory section.
    pub fn start_addr(self) -> (r: u16)
        ensures
            r == self.spec_start(),
    {
        match self {
            MemSection::CartRom => 0x0000,
            MemSection::Vram => 0x8000,
            MemSection::ExtRam => 0xA000,
            MemSection::Wram => 0xC000,
            MemSection::EchoRam => 0xE000,
            MemSection::Oam => 0xFE00,
            MemSection::UnusableMemory => 0xFEA0,
            MemSection::IoRegs => 0xFF00,
            MemSection::Hram => 0xFF80,
            MemSection::IeReg => 0xFFFF,
        }
    }

    /// The number of bytes in this section of memory.
    pub fn size(self) -> (r: u16)
        ensures
            r == self.spec_end() - self.spec_start(),
    {
        match self {
            MemSection::CartRom => 0x8000,
            MemSection::Vram => 0x2000,
            MemSection::ExtRam => 0x2000,
            MemSection::Wram => 0x2000,
            MemSection::EchoRam => 0x1E00,
            MemSection::Oam => 0xA0,
            MemSection::UnusableMemory => 0x60,
            MemSection::IoRegs => 0x80,
            MemSection::Hram => 0x7F,
            MemSection::IeReg => 1,
        }
    }

    /// Creates a zero-filled array that represents this section of memory.
    pub fn into_array(section: Self) -> (r: Array)
        ensures
            r.wf(),
            r.start == section.spec_start(),
            r.data@ == Seq::new((section.spec_end() - section.spec_start()) as nat, |_i: int| 0u8),
    {
        Array::new(section.start_addr(), section.size())
    }

    /// Returns the memory section that the address belongs to.
    pub fn from_abs_addr(addr: u16) -> (r: MemSection)
        ensures
            r.spec_start() <= addr < r.spec_end(),
    {
        if addr >= 0xFFFF {
            MemSection::IeReg
        } else if addr >= 0xFF80 {
            MemSection::Hram
        } else if addr >= 0xFF00 {
            MemSection::IoRegs
        } else if addr >= 0xFEA0 {
            MemSection::UnusableMemory
        } else if addr >= 0xFE00 {
            MemSection::Oam
        } else if addr >= 0xE000 {
            MemSection::EchoRam
        } else if addr >= 0xC000 {
            MemSection::Wram
        } else if addr >= 0xA000 {
            MemSection::ExtRam
        } else if addr >= 0x8000 {
            MemSection::Vram
        } else {
            MemSection::CartRom
        }
    }
}

} // verus!
