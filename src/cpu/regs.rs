use vstd::prelude::*;
use crate::util::math::{join_16, split_16, word, hi_byte, lo_byte};

verus! {

/// The 8-bit CPU registers.
#[derive(Clone, Copy, Debug, PartialEq, Eq, Structural)]
pub enum CpuReg8 {
    A,
    F,
    B,
    C,
    D,
    E,
    H,
    L,
}

/// The 16-bit CPU registers: four pairs, SP and PC.
#[derive(Clone, Copy, Debug, PartialEq, Eq, Structural)]
pub enum CpuReg16 {
    AF,
    BC,
    DE,
    HL,
    SP,
    PC,
}

/// The four flags held in bits 7..4 of F.
#[derive(Clone, Copy, Debug, PartialEq, Eq, Structural)]
pub struct Flags {
    pub z: bool,
    pub n: bool,
    pub h: bool,
    pub c: bool,
}

impl Flags {
    /// The F byte that holds these flags; its low four bits are zero.
    pub open spec fn spec_byte(self) -> u8 {
        ((if self.z { 0x80u8 } else { 0u8 }) + (if self.n { 0x40u8 } else { 0u8 }) + (if self.h {
            0x20u8
        } else {
            0u8
        }) + (if self.c { 0x10u8 } else { 0u8 })) as u8
    }

    pub open spec fn spec_from_byte(f: u8) -> Flags {
        Flags { z: f & 0x80 != 0, n: f & 0x40 != 0, h: f & 0x20 != 0, c: f & 0x10 != 0 }
    }

    pub fn to_byte(&self) -> (r: u8)
        ensures
            r == self.spec_byte(),
    {
        let z: u8 = if self.z { 0x80 } else { 0 };
        let n: u8 = if self.n { 0x40 } else { 0 };
        let h: u8 = if self.h { 0x20 } else { 0 };
        let c: u8 = if self.c { 0x10 } else { 0 };
        z + n + h + c
    }

    pub fn from_byte(f: u8) -> (r: Flags)
        ensures
            r == Self::spec_from_byte(f),
    {
        Flags { z: f & 0x80 != 0, n: f & 0x40 != 0, h: f & 0x20 != 0, c: f & 0x10 != 0 }
    }
}

/// The CPU register file. F keeps its low four bits at zero.
#[derive(Clone, Copy, Debug, PartialEq, Eq, Structural)]
pub struct CpuRegs {
    pub a: u8,
    pub f: u8,
    pub b: u8,
    pub c: u8,
    pub d: u8,
    pub e: u8,
    pub h: u8,
    pub l: u8,
    pub sp: u16,
    pub pc: u16,
}

impl CpuRegs {
    pub open spec fn spec_get_8(&self, reg: CpuReg8) -> u8 {
        match reg {
            CpuReg8::A => self.a,
            CpuReg8::F => self.f,
            CpuReg8::B => self.b,
            CpuReg8::C => self.c,
            CpuReg8::D => self.d,
            CpuReg8::E => self.e,
            CpuReg8::H => self.h,
            CpuReg8::L => self.l,
        }
    }

    /// The register file after setting an 8-bit register; F keeps only its
    /// top four bits.
    pub open spec fn spec_set_8(self, reg: CpuReg8, v: u8) -> CpuRegs {
        match reg {
            CpuReg8::A => CpuRegs { a: v, ..self },
            CpuReg8::F => CpuRegs { f: v & 0xF0, ..self },
            CpuReg8::B => CpuRegs { b: v, ..self },
            CpuReg8::C => CpuRegs { c: v, ..self },
            CpuReg8::D => CpuRegs { d: v, ..self },
            CpuReg8::E => CpuRegs { e: v, ..self },
            CpuReg8::H => CpuRegs { h: v, ..self },
            CpuReg8::L => CpuRegs { l: v, ..self },
        }
    }

    pub open spec fn spec_get_16(&self, reg: CpuReg16) -> u16 {
        match reg {
            CpuReg16::AF => word(self.a, self.f),
            CpuReg16::BC => word(self.b, self.c),
            CpuReg16::DE => word(self.d, self.e),
            CpuReg16::HL => word(self.h, self.l),
            CpuReg16::SP => self.sp,
            CpuReg16::PC => self.pc,
        }
    }

    pub open spec fn spec_set_16(self, reg: CpuReg16, v: u16) -> CpuRegs {
        match reg {
            CpuReg16::AF => CpuRegs { a: hi_byte(v), f: lo_byte(v) & 0xF0, ..self },
            CpuReg16::BC => CpuRegs { b: hi_byte(v), c: lo_byte(v), ..self },
            CpuReg16::DE => CpuRegs { d: hi_byte(v), e: lo_byte(v), ..self },
            CpuReg16::HL => CpuRegs { h: hi_byte(v), l: lo_byte(v), ..self },
            CpuReg16::SP => CpuRegs { sp: v, ..self },
            CpuReg16::PC => CpuRegs { pc: v, ..self },
        }
    }

    pub open spec fn spec_flags(&self) -> Flags {
        Flags::spec_from_byte(self.f)
    }

    /// All registers zero.
    pub fn new() -> (r: CpuRegs)
        ensures
            r == (CpuRegs { a: 0, f: 0, b: 0, c: 0, d: 0, e: 0, h: 0, l: 0, sp: 0, pc: 0 }),
    {
        CpuRegs { a: 0, f: 0, b: 0, c: 0, d: 0, e: 0, h: 0, l: 0, sp: 0, pc: 0 }
    }

    pub fn get_8(&self, reg: CpuReg8) -> (r: u8)
        ensures
            r == self.spec_get_8(reg),
    {
        match reg {
            CpuReg8::A => self.a,
            CpuReg8::F => self.f,
            CpuReg8::B => self.b,
            CpuReg8::C => self.c,
            CpuReg8::D => self.d,
            CpuReg8::E => self.e,
            CpuReg8::H => self.h,
            CpuReg8::L => self.l,
        }
    }

    pub fn set_8(&mut self, reg: CpuReg8, v: u8)
        ensures
            *final(self) == old(self).spec_set_8(reg, v),
    {
        match reg {
            CpuReg8::A => self.a = v,
            CpuReg8::F => self.f = v & 0xF0,
            CpuReg8::B => self.b = v,
            CpuReg8::C => self.c = v,
            CpuReg8::D => self.d = v,
            CpuReg8::E => self.e = v,
            CpuReg8::H => self.h = v,
            CpuReg8::L => self.l = v,
        }
    }

    pub fn get_16(&self, reg: CpuReg16) -> (r: u16)
        ensures
            r == self.spec_get_16(reg),
    {
        match reg {
            CpuReg16::AF => join_16(self.a, self.f),
            CpuReg16::BC => join_16(self.b, self.c),
            CpuReg16::DE => join_16(self.d, self.e),
            CpuReg16::HL => join_16(self.h, self.l),
            CpuReg16::SP => self.sp,
            CpuReg16::PC => self.pc,
        }
    }

    pub fn set_16(&mut self, reg: CpuReg16, v: u16)
        ensures
            *final(self) == old(self).spec_set_16(reg, v),
    {
        let (hi, lo) = split_16(v);
        match reg {
            CpuReg16::AF => {
                self.a = hi;
                self.f = lo & 0xF0;
            },
            CpuReg16::BC => {
                self.b = hi;
                self.c = lo;
            },
            CpuReg16::DE => {
                self.d = hi;
                self.e = lo;
            },
            CpuReg16::HL => {
                self.h = hi;
                self.l = lo;
            },
            CpuReg16::SP => self.sp = v,
            CpuReg16::PC => self.pc = v,
        }
    }

    pub fn flags(&self) -> (r: Flags)
        ensures
            r == self.spec_flags(),
    {
        Flags::from_byte(self.f)
    }

    pub fn set_flags(&mut self, flags: Flags)
        ensures
            *final(self) == (CpuRegs { f: flags.spec_byte(), ..*old(self) }),
    {
        self.f = flags.to_byte();
    }
}

} // verus!
