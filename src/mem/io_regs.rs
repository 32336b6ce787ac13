use vstd::prelude::*;
use crate::mem::cram::{Cram, CramView};
use crate::mem::array::filled;
use crate::util::bits::{Bits, masked8};

verus! {

/// The memory-mapped I/O registers that have a behavior of their own.
#[derive(Clone, Copy, Debug, PartialEq, Eq, Structural)]
pub enum IoReg {
    P1,
    Sb,
    Sc,
    Div,
    Tima,
    Tma,
    Tac,
    If,
    Lcdc,
    Stat,
    Scy,
    Scx,
    Ly,
    Lyc,
    Dma,
    Bgp,
    Obp0,
    Obp1,
    Wy,
    Wx,
    Key1,
    Vbk,
    Hdma1,
    Hdma2,
    Hdma3,
    Hdma4,
    Hdma5,
    Rp,
    Bcps,
    Bcpd,
    Ocps,
    Ocpd,
    Opri,
    Svbk,
    Pcm12,
    Pcm34,
    Ie,
}

impl IoReg {
    /// The address of the register.
    pub open spec fn spec_addr(self) -> u16 {
        match self {
            IoReg::P1 => 0xFF00,
            IoReg::Sb => 0xFF01,
            IoReg::Sc => 0xFF02,
            IoReg::Div => 0xFF04,
            IoReg::Tima => 0xFF05,
            IoReg::Tma => 0xFF06,
            IoReg::Tac => 0xFF07,
            IoReg::If => 0xFF0F,
            IoReg::Lcdc => 0xFF40,
            IoReg::Stat => 0xFF41,
            IoReg::Scy => 0xFF42,
            IoReg::Scx => 0xFF43,
            IoReg::Ly => 0xFF44,
            IoReg::Lyc => 0xFF45,
            IoReg::Dma => 0xFF46,
            IoReg::Bgp => 0xFF47,
            IoReg::Obp0 => 0xFF48,
            IoReg::Obp1 => 0xFF49,
            IoReg::Wy => 0xFF4A,
            IoReg::Wx => 0xFF4B,
            IoReg::Key1 => 0xFF4D,
            IoReg::Vbk => 0xFF4F,
            IoReg::Hdma1 => 0xFF51,
            IoReg::Hdma2 => 0xFF52,
            IoReg::Hdma3 => 0xFF53,
            IoReg::Hdma4 => 0xFF54,
            IoReg::Hdma5 => 0xFF55,
            IoReg::Rp => 0xFF56,
            IoReg::Bcps => 0xFF68,
            IoReg::Bcpd => 0xFF69,
            IoReg::Ocps => 0xFF6A,
            IoReg::Ocpd => 0xFF6B,
            IoReg::Opri => 0xFF6C,
            IoReg::Svbk => 0xFF70,
            IoReg::Pcm12 => 0xFF76,
            IoReg::Pcm34 => 0xFF77,
            IoReg::Ie => 0xFFFF,
        }
    }

    /// The register mapped at an address, if any.
    pub open spec fn spec_from_addr(addr: u16) -> Option<IoReg> {
        match addr {
            0xFF00 => Some(IoReg::P1),
            0xFF01 => Some(IoReg::Sb),
            0xFF02 => Some(IoReg::Sc),
            0xFF04 => Some(IoReg::Div),
            0xFF05 => Some(IoReg::Tima),
            0xFF06 => Some(IoReg::Tma),
            0xFF07 => Some(IoReg::Tac),
            0xFF0F => Some(IoReg::If),
            0xFF40 => Some(IoReg::Lcdc),
            0xFF41 => Some(IoReg::Stat),
            0xFF42 => Some(IoReg::Scy),
            0xFF43 => Some(IoReg::Scx),
            0xFF44 => Some(IoReg::Ly),
            0xFF45 => Some(IoReg::Lyc),
            0xFF46 => Some(IoReg::Dma),
            0xFF47 => Some(IoReg::Bgp),
            0xFF48 => Some(IoReg::Obp0),
            0xFF49 => Some(IoReg::Obp1),
            0xFF4A => Some(IoReg::Wy),
            0xFF4B => Some(IoReg::Wx),
            0xFF4D => Some(IoReg::Key1),
            0xFF4F => Some(IoReg::Vbk),
            0xFF51 => Some(IoReg::Hdma1),
            0xFF52 => Some(IoReg::Hdma2),
            0xFF53 => Some(IoReg::Hdma3),
            0xFF54 => Some(IoReg::Hdma4),
            0xFF55 => Some(IoReg::Hdma5),
            0xFF56 => Some(IoReg::Rp),
            0xFF68 => Some(IoReg::Bcps),
            0xFF69 => Some(IoReg::Bcpd),
            0xFF6A => Some(IoReg::Ocps),
            0xFF6B => Some(IoReg::Ocpd),
            0xFF6C => Some(IoReg::Opri),
            0xFF70 => Some(IoReg::Svbk),
            0xFF76 => Some(IoReg::Pcm12),
            0xFF77 => Some(IoReg::Pcm34),
            0xFFFF => Some(IoReg::Ie),
            _ => None,
        }
    }

    pub fn as_addr(self) -> (r: u16)
        ensures
            r == self.spec_addr(),
    {
        match self {
            IoReg::P1 => 0xFF00,
            IoReg::Sb => 0xFF01,
            IoReg::Sc => 0xFF02,
            IoReg::Div => 0xFF04,
            IoReg::Tima => 0xFF05,
            IoReg::Tma => 0xFF06,
            IoReg::Tac => 0xFF07,
            IoReg::If => 0xFF0F,
            IoReg::Lcdc => 0xFF40,
            IoReg::Stat => 0xFF41,
            IoReg::Scy => 0xFF42,
            IoReg::Scx => 0xFF43,
            IoReg::Ly => 0xFF44,
            IoReg::Lyc => 0xFF45,
            IoReg::Dma => 0xFF46,
            IoReg::Bgp => 0xFF47,
            IoReg::Obp0 => 0xFF48,
            IoReg::Obp1 => 0xFF49,
            IoReg::Wy => 0xFF4A,
            IoReg::Wx => 0xFF4B,
            IoReg::Key1 => 0xFF4D,
            IoReg::Vbk => 0xFF4F,
            IoReg::Hdma1 => 0xFF51,
            IoReg::Hdma2 => 0xFF52,
            IoReg::Hdma3 => 0xFF53,
            IoReg::Hdma4 => 0xFF54,
            IoReg::Hdma5 => 0xFF55,
            IoReg::Rp => 0xFF56,
            IoReg::Bcps => 0xFF68,
            IoReg::Bcpd => 0xFF69,
            IoReg::Ocps => 0xFF6A,
            IoReg::Ocpd => 0xFF6B,
            IoReg::Opri => 0xFF6C,
            IoReg::Svbk => 0xFF70,
            IoReg::Pcm12 => 0xFF76,
            IoReg::Pcm34 => 0xFF77,
            IoReg::Ie => 0xFFFF,
        }
    }

    /// The register mapped at an address, if any.
    pub fn from_u16(addr: u16) -> (r: Option<IoReg>)
        ensures
            r == Self::spec_from_addr(addr),
    {
        match addr {
            0xFF00 => Some(IoReg::P1),
            0xFF01 => Some(IoReg::Sb),
            0xFF02 => Some(IoReg::Sc),
            0xFF04 => Some(IoReg::Div),
            0xFF05 => Some(IoReg::Tima),
            0xFF06 => Some(IoReg::Tma),
            0xFF07 => Some(IoReg::Tac),
            0xFF0F => Some(IoReg::If),
            0xFF40 => Some(IoReg::Lcdc),
            0xFF41 => Some(IoReg::Stat),
            0xFF42 => Some(IoReg::Scy),
            0xFF43 => Some(IoReg::Scx),
            0xFF44 => Some(IoReg::Ly),
            0xFF45 => Some(IoReg::Lyc),
            0xFF46 => Some(IoReg::Dma),
            0xFF47 => Some(IoReg::Bgp),
            0xFF48 => Some(IoReg::Obp0),
            0xFF49 => Some(IoReg::Obp1),
            0xFF4A => Some(IoReg::Wy),
            0xFF4B => Some(IoReg::Wx),
            0xFF4D => Some(IoReg::Key1),
            0xFF4F => Some(IoReg::Vbk),
            0xFF51 => Some(IoReg::Hdma1),
            0xFF52 => Some(IoReg::Hdma2),
            0xFF53 => Some(IoReg::Hdma3),
            0xFF54 => Some(IoReg::Hdma4),
            0xFF55 => Some(IoReg::Hdma5),
            0xFF56 => Some(IoReg::Rp),
            0xFF68 => Some(IoReg::Bcps),
            0xFF69 => Some(IoReg::Bcpd),
            0xFF6A => Some(IoReg::Ocps),
            0xFF6B => Some(IoReg::Ocpd),
            0xFF6C => Some(IoReg::Opri),
            0xFF70 => Some(IoReg::Svbk),
            0xFF76 => Some(IoReg::Pcm12),
            0xFF77 => Some(IoReg::Pcm34),
            0xFFFF => Some(IoReg::Ie),
            _ => None,
        }
    }

    /// Bits that a user read sees.
    pub open spec fn spec_read_mask(self) -> u8 {
        match self {
            IoReg::If => 0b0001_1111,
            _ => 0xFF,
        }
    }

    /// Bits that a user write changes.
    pub open spec fn spec_write_mask(self) -> u8 {
        match self {
            IoReg::If => 0b0001_1111,
            IoReg::Stat => 0b1111_1000,
            IoReg::Ly => 0b0000_0000,
            IoReg::Key1 => 0b0111_1111,
            IoReg::Rp => 0b1111_1101,
            IoReg::Pcm12 => 0b0000_0000,
            IoReg::Pcm34 => 0b0000_0000,
            _ => 0xFF,
        }
    }

    /// What a user write sets off besides storing the value.
    pub open spec fn spec_effect(self) -> WriteEffect {
        match self {
            IoReg::Sc => WriteEffect::EmitSerial,
            IoReg::Dma => WriteEffect::RequestOamDma,
            IoReg::Hdma5 => WriteEffect::RequestHdma,
            IoReg::Div => WriteEffect::ResetDiv,
            _ => WriteEffect::Nothing,
        }
    }
}

/// A side effect of a user write to an I/O register.
#[derive(Clone, Copy, Debug, PartialEq, Eq, Structural)]
pub enum WriteEffect {
    Nothing,
    /// Starts an OAM DMA transfer.
    RequestOamDma,
    /// Starts a VRAM DMA transfer.
    RequestHdma,
    /// Clears the register whatever was written.
    ResetDiv,
    /// Publishes SB to the serial output when the value written is 0x81.
    EmitSerial,
}

/// Describes the special behavior of an I/O register.
pub struct IoRegData {
    pub read_mask: u8,
    pub write_mask: u8,
    pub effect: WriteEffect,
}

impl IoRegData {
    pub fn read_mask(&self) -> (r: u8)
        ensures
            r == self.read_mask,
    {
        self.read_mask
    }

    pub fn write_mask(&self) -> (r: u8)
        ensures
            r == self.write_mask,
    {
        self.write_mask
    }

    pub fn from_reg(reg: IoReg) -> (r: IoRegData)
        ensures
            r.read_mask == reg.spec_read_mask(),
            r.write_mask == reg.spec_write_mask(),
            r.effect == reg.spec_effect(),
    {
        let read_mask: u8 = match reg {
            IoReg::If => 0b0001_1111,
            _ => 0xFF,
        };
        let write_mask: u8 = match reg {
            IoReg::If => 0b0001_1111,
            IoReg::Stat => 0b1111_1000,
            IoReg::Ly => 0b0000_0000,
            IoReg::Key1 => 0b0111_1111,
            IoReg::Rp => 0b1111_1101,
            IoReg::Pcm12 => 0b0000_0000,
            IoReg::Pcm34 => 0b0000_0000,
            _ => 0xFF,
        };
        let effect = match reg {
            IoReg::Sc => WriteEffect::EmitSerial,
            IoReg::Dma => WriteEffect::RequestOamDma,
            IoReg::Hdma5 => WriteEffect::RequestHdma,
            IoReg::Div => WriteEffect::ResetDiv,
            _ => WriteEffect::Nothing,
        };
        IoRegData { read_mask, write_mask, effect }
    }
}

/// Whether an address belongs to the I/O register file (0xFF00..0xFF7F and IE).
pub open spec fn is_io_addr(addr: u16) -> bool {
    (0xFF00 <= addr && addr < 0xFF80) || addr == 0xFFFF
}

/// The contents of the I/O register file.
pub struct IoRegsView {
    /// The bytes at 0xFF00..0xFF7F.
    pub regs: Seq<u8>,
    /// The interrupt-enable register at 0xFFFF.
    pub ie: u8,
    pub bg: CramView,
    pub obj: CramView,
    /// Every byte published on the serial output, oldest first.
    pub serial: Seq<u8>,
    /// A write to DMA asked for an OAM DMA transfer that has not started.
    pub dma_requested: bool,
    /// A write to HDMA5 asked for a VRAM DMA transfer that has not started.
    pub hdma_requested: bool,
}

impl IoRegsView {
    /// The whole value of a register.
    pub open spec fn get(self, reg: IoReg) -> u8 {
        match reg {
            IoReg::Ie => self.ie,
            IoReg::Bcps => self.bg.index,
            IoReg::Bcpd => self.bg.read(),
            IoReg::Ocps => self.obj.index,
            IoReg::Ocpd => self.obj.read(),
            _ => self.regs[reg.spec_addr() - 0xFF00],
        }
    }

    /// The effect of setting the whole value of a register.
    pub open spec fn set(self, reg: IoReg, data: u8) -> IoRegsView {
        match reg {
            IoReg::Ie => IoRegsView { ie: data, ..self },
            IoReg::Bcps => IoRegsView { bg: CramView { index: data, mem: self.bg.mem }, ..self },
            IoReg::Bcpd => IoRegsView { bg: self.bg.write(data), ..self },
            IoReg::Ocps => IoRegsView { obj: CramView { index: data, mem: self.obj.mem }, ..self },
            IoReg::Ocpd => IoRegsView { obj: self.obj.write(data), ..self },
            _ => IoRegsView { regs: self.regs.update(reg.spec_addr() - 0xFF00, data), ..self },
        }
    }

    /// What a program reads at an I/O address.
    pub open spec fn user_read(self, addr: u16) -> u8 {
        match IoReg::spec_from_addr(addr) {
            Some(reg) => self.get(reg) & reg.spec_read_mask(),
            None => self.regs[addr - 0xFF00],
        }
    }

    /// The effect of a program writing `value` at an I/O address.
    pub open spec fn user_write(self, addr: u16, value: u8) -> IoRegsView {
        match IoReg::spec_from_addr(addr) {
            Some(reg) => {
                let v = if reg.spec_effect() == WriteEffect::ResetDiv { 0 } else { value };
                let s = if reg.spec_effect() == WriteEffect::EmitSerial && value == 0x81 {
                    IoRegsView { serial: self.serial.push(self.get(IoReg::Sb)), ..self }
                } else if reg.spec_effect() == WriteEffect::RequestOamDma {
                    IoRegsView { dma_requested: true, ..self }
                } else if reg.spec_effect() == WriteEffect::RequestHdma {
                    IoRegsView { hdma_requested: true, ..self }
                } else {
                    self
                };
                s.set(reg, masked8(self.get(reg), reg.spec_write_mask(), v))
            },
            None => IoRegsView { regs: self.regs.update(addr - 0xFF00, value), ..self },
        }
    }
}

/// A program cannot change LY, nor the mode bits STAT[1:0]: LY's write
/// mask is 0 and STAT's keeps its low three bits.
pub proof fn lemma_user_write_keeps_ppu_regs(v: IoRegsView, addr: u16, value: u8)
    requires
        v.regs.len() == 0x80,
        is_io_addr(addr),
    ensures
        v.user_write(addr, value).get(IoReg::Ly) == v.get(IoReg::Ly),
        v.user_write(addr, value).get(IoReg::Stat) & 3 == v.get(IoReg::Stat) & 3,
{
    let ly = v.get(IoReg::Ly);
    let stat = v.get(IoReg::Stat);
    assert(masked8(ly, 0, value) == ly) by (bit_vector);
    assert(masked8(stat, 0b1111_1000, value) & 3 == stat & 3) by (bit_vector);
}

/// The I/O register file, with the two color RAMs behind BCPS/BCPD and
/// OCPS/OCPD.
pub struct IoRegs {
    regs: Vec<u8>,
    ie: u8,
    dma_requested: bool,
    hdma_requested: bool,
    bg_cram: Cram,
    obj_cram: Cram,
    serial_out: Vec<u8>,
}

impl View for IoRegs {
    type V = IoRegsView;

    closed spec fn view(&self) -> IoRegsView {
        IoRegsView {
            regs: self.regs@,
            ie: self.ie,
            bg: self.bg_cram@,
            obj: self.obj_cram@,
            serial: self.serial_out@,
            dma_requested: self.dma_requested,
            hdma_requested: self.hdma_requested,
        }
    }
}

impl IoRegs {
    pub open spec fn wf(&self) -> bool {
        &&& self@.regs.len() == 0x80
        &&& self@.bg.mem.len() == 64
        &&& self@.obj.mem.len() == 64
    }

    pub fn new() -> (r: IoRegs)
        ensures
            r.wf(),
            r@.regs == Seq::new(0x80, |_i: int| 0u8),
            r@.ie == 0,
            r@.serial.len() == 0,
            r@.bg == (CramView { index: 0, mem: Seq::new(64, |_i: int| 0xFFu8) }),
            r@.obj == (CramView { index: 0, mem: Seq::new(64, |_i: int| 0xFFu8) }),
            !r@.dma_requested,
            !r@.hdma_requested,
    {
        IoRegs {
            regs: filled(0x80, 0),
            ie: 0,
            dma_requested: false,
            hdma_requested: false,
            bg_cram: Cram::new(),
            obj_cram: Cram::new(),
            serial_out: Vec::new(),
        }
    }

    pub fn bg_cram(&self) -> (r: &Cram)
        ensures
            r@ == self@.bg,
    {
        &self.bg_cram
    }

    pub fn obj_cram(&self) -> (r: &Cram)
        ensures
            r@ == self@.obj,
    {
        &self.obj_cram
    }

    /// Whether an OAM DMA transfer was asked for and has not started.
    pub fn dma_requested(&self) -> (r: bool)
        ensures
            r == self@.dma_requested,
    {
        self.dma_requested
    }

    /// Whether a VRAM DMA transfer was asked for and has not started.
    pub fn hdma_requested(&self) -> (r: bool)
        ensures
            r == self@.hdma_requested,
    {
        self.hdma_requested
    }

    /// Marks the pending OAM DMA request as taken.
    pub fn clear_dma_request(&mut self)
        ensures
            final(self)@ == (IoRegsView { dma_requested: false, ..old(self)@ }),
    {
        self.dma_requested = false;
    }

    /// Marks the pending VRAM DMA request as taken.
    pub fn clear_hdma_request(&mut self)
        ensures
            final(self)@ == (IoRegsView { hdma_requested: false, ..old(self)@ }),
    {
        self.hdma_requested = false;
    }

    /// Every byte published on the serial output so far.
    pub fn serial_output(&self) -> (r: &Vec<u8>)
        ensures
            r@ == self@.serial,
    {
        &self.serial_out
    }

    /// Reads the readable bits at an I/O address.
    pub fn user_read(&self, addr: u16) -> (r: u8)
        requires
            self.wf(),
            is_io_addr(addr),
        ensures
            r == self@.user_read(addr),
    {
        match IoReg::from_u16(addr) {
            Some(reg) => {
                let data = self.get(reg);
                data & IoRegData::from_reg(reg).read_mask()
            },
            None => self.regs[(addr - 0xFF00) as usize],
        }
    }

    /// Reads the whole register.
    pub fn get(&self, reg: IoReg) -> (r: u8)
        requires
            self.wf(),
        ensures
            r == self@.get(reg),
    {
        match reg {
            IoReg::Ie => self.ie,
            IoReg::Bcps => self.bg_cram.index_reg(),
            IoReg::Bcpd => self.bg_cram.read(),
            IoReg::Ocps => self.obj_cram.index_reg(),
            IoReg::Ocpd => self.obj_cram.read(),
            _ => self.regs[(reg.as_addr() - 0xFF00) as usize],
        }
    }

    /// Writes the writable bits at an I/O address, with the register's side
    /// effect.
    pub fn user_write(&mut self, addr: u16, value: u8)
        requires
            old(self).wf(),
            is_io_addr(addr),
        ensures
            final(self).wf(),
            final(self)@ == old(self)@.user_write(addr, value),
    {
        match IoReg::from_u16(addr) {
            None => {
                self.regs.set((addr - 0xFF00) as usize, value);
            },
            Some(reg) => {
                let reg_data = IoRegData::from_reg(reg);
                let mut value = value;
                match reg_data.effect {
                    WriteEffect::EmitSerial => {
                        if value == 0x81 {
                            let sb = self.get(IoReg::Sb);
                            self.serial_out.push(sb);
                        }
                    },
                    WriteEffect::RequestOamDma => {
                        self.dma_requested = true;
                    },
                    WriteEffect::RequestHdma => {
                        self.hdma_requested = true;
                    },
                    WriteEffect::ResetDiv => {
                        value = 0;
                    },
                    WriteEffect::Nothing => {},
                }
                let mut data = self.get(reg);
                data.set_bits_masked(reg_data.write_mask(), value);
                self.set(reg, data);
            },
        }
    }

    /// Sets the whole register.
    pub fn set(&mut self, reg: IoReg, data: u8)
        requires
            old(self).wf(),
        ensures
            final(self).wf(),
            final(self)@ == old(self)@.set(reg, data),
    {
        match reg {
            IoReg::Ie => self.ie = data,
            IoReg::Bcps => self.bg_cram.set_index_reg(data),
            IoReg::Bcpd => self.bg_cram.write(data),
            IoReg::Ocps => self.obj_cram.set_index_reg(data),
            IoReg::Ocpd => self.obj_cram.write(data),
            _ => {
                let i = (reg.as_addr() - 0xFF00) as usize;
                self.regs.set(i, data);
            },
        }
    }

    /// Replaces the whole register by `f` of its value, and returns the new
    /// value.
    pub fn mut_<F: Fn(u8) -> u8>(&mut self, reg: IoReg, f: F) -> (r: u8)
        requires
            old(self).wf(),
            f.requires((old(self)@.get(reg),)),
        ensures
            f.ensures((old(self)@.get(reg),), r),
            final(self).wf(),
            final(self)@ == old(self)@.set(reg, r),
    {
        let data = f(self.get(reg));
        self.set(reg, data);
        data
    }
}

} // verus!
