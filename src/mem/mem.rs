use vstd::prelude::*;
use crate::cart::cart::Cart;
use crate::cart::hw_mbc5::Mbc5View;
use crate::error::EmuError;
use crate::mem::array::Array;
use crate::mem::io_regs::{IoReg, IoRegs, IoRegsView, is_io_addr};
use crate::mem::sections::MemSection;
use crate::mem::vram::{Vram, vram_bank, vram_index};
use crate::mem::wram::{Wram, wram_index};

verus! {

/// Addresses that the cartridge serves: ROM and external RAM.
pub open spec fn is_cart_addr(addr: u16) -> bool {
    addr < 0x8000 || (0xA000 <= addr && addr < 0xC000)
}

pub open spec fn is_vram_addr(addr: u16) -> bool {
    0x8000 <= addr && addr < 0xA000
}

/// WRAM and its echo at 0xE000..0xFDFF.
pub open spec fn is_wram_addr(addr: u16) -> bool {
    0xC000 <= addr && addr < 0xFE00
}

pub open spec fn is_oam_addr(addr: u16) -> bool {
    0xFE00 <= addr && addr < 0xFEA0
}

pub open spec fn is_hram_addr(addr: u16) -> bool {
    0xFF80 <= addr && addr < 0xFFFF
}

/// Whether a CPU write to `addr` succeeds: all addresses but 0x6000..0x7FFF,
/// which the MBC5 controller does not map.
pub open spec fn writable(addr: u16) -> bool {
    !(0x6000 <= addr && addr < 0x8000)
}

/// The WRAM address that a WRAM or echo address stands for.
pub open spec fn unecho(addr: u16) -> u16 {
    if addr >= 0xE000 { (addr - 0x2000) as u16 } else { addr }
}

/// The cartridge state after a write, which an invalid write leaves as is.
pub open spec fn cart_after_write(v: Mbc5View, addr: u16, data: u8) -> Mbc5View {
    match v.write(addr, data) {
        Ok(w) => w,
        Err(_) => v,
    }
}

/// The whole address space: the façade that routes each address to the
/// region that owns it.
pub struct Mem {
    pub cart: Cart,
    pub vram: Vram,
    pub wram: Wram,
    pub oam: Array,
    pub hram: Array,
    pub io_regs: IoRegs,
}

impl Mem {
    pub open spec fn wf(&self) -> bool {
        &&& self.cart.wf()
        &&& self.vram.wf()
        &&& self.wram.wf()
        &&& self.oam.start == 0xFE00
        &&& self.oam.data@.len() == 0xA0
        &&& self.hram.start == 0xFF80
        &&& self.hram.data@.len() == 0x7F
        &&& self.io_regs.wf()
        &&& self.vram.spec_num_banks() == (if self.cart.header.compatibility_mode
            == crate::other::mode::CompatibilityMode::CgbOnly {
            2nat
        } else {
            1nat
        })
    }

    /// The index in VRAM that `addr` reaches under the current VBK.
    pub open spec fn vram_idx(&self, addr: u16) -> int {
        vram_index(vram_bank(self.vram.spec_num_banks(), self.io_regs@.get(IoReg::Vbk)), addr)
    }

    /// The index in WRAM that `addr` (or its echo) reaches under the current
    /// SVBK.
    pub open spec fn wram_idx(&self, addr: u16) -> int {
        wram_index(self.wram.spec_num_banks(), self.io_regs@.get(IoReg::Svbk), unecho(addr))
    }

    /// What a read of `addr` returns.
    pub open spec fn spec_read(&self, addr: u16) -> u8 {
        if is_cart_addr(addr) {
            match self.cart.hw@.read(addr) {
                Ok(b) => b,
                Err(_) => 0,
            }
        } else if is_vram_addr(addr) {
            self.vram@[self.vram_idx(addr)]
        } else if is_wram_addr(addr) {
            self.wram@[self.wram_idx(addr)]
        } else if is_oam_addr(addr) {
            self.oam.at(addr)
        } else if addr < 0xFF00 {
            0xFF
        } else if is_io_addr(addr) {
            self.io_regs@.user_read(addr)
        } else {
            self.hram.at(addr)
        }
    }

    /// Whether a write of `data` to `addr` succeeds: it fails only on a
    /// cartridge address that the controller does not map (0x6000..0x7FFF).
    pub open spec fn spec_write_ok(&self, addr: u16, data: u8) -> bool {
        writable(addr)
    }

    /// Whether `post` differs from `self` in the I/O registers alone, which
    /// are `io`.
    pub open spec fn with_io(&self, post: &Mem, io: IoRegsView) -> bool {
        &&& post.io_regs@ == io
        &&& post.cart == self.cart
        &&& post.vram@ == self.vram@
        &&& post.wram@ == self.wram@
        &&& post.oam == self.oam
        &&& post.hram == self.hram
    }

    /// Whether `post` is the memory after a write of `data` to `addr`.
    pub open spec fn spec_wrote(&self, post: &Mem, addr: u16, data: u8) -> bool {
        &&& post.cart.header == self.cart.header
        &&& post.cart.hw@ == (if is_cart_addr(addr) {
            cart_after_write(self.cart.hw@, addr, data)
        } else {
            self.cart.hw@
        })
        &&& post.vram@ == (if is_vram_addr(addr) {
            self.vram@.update(self.vram_idx(addr), data)
        } else {
            self.vram@
        })
        &&& post.wram@ == (if is_wram_addr(addr) {
            self.wram@.update(self.wram_idx(addr), data)
        } else {
            self.wram@
        })
        &&& post.oam.data@ == (if is_oam_addr(addr) {
            self.oam.data@.update(addr - 0xFE00, data)
        } else {
            self.oam.data@
        })
        &&& post.hram.data@ == (if is_hram_addr(addr) {
            self.hram.data@.update(addr - 0xFF80, data)
        } else {
            self.hram.data@
        })
        &&& post.io_regs@ == (if is_io_addr(addr) {
            self.io_regs@.user_write(addr, data)
        } else {
            self.io_regs@
        })
    }

    /// Memory for a cartridge, with banked RAM sized for CGB mode when the
    /// cartridge is CGB-only.
    pub fn new(cart: Cart) -> (r: Mem)
        requires
            cart.wf(),
        ensures
            r.wf(),
            r.cart == cart,
            r.vram.spec_num_banks() == (if cart.header.compatibility_mode
                == crate::other::mode::CompatibilityMode::CgbOnly {
                2nat
            } else {
                1nat
            }),
            r.wram.spec_num_banks() == (if cart.header.compatibility_mode
                == crate::other::mode::CompatibilityMode::CgbOnly {
                8nat
            } else {
                2nat
            }),
            r.io_regs@.regs == Seq::new(0x80, |_i: int| 0u8),
            r.io_regs@.ie == 0,
            r.io_regs@.serial.len() == 0,
            !r.io_regs@.dma_requested,
            !r.io_regs@.hdma_requested,
    {
        let is_cgb = cart.header.compatibility_mode().is_cgb_only();
        Mem {
            cart,
            vram: Vram::new(is_cgb),
            wram: Wram::new(is_cgb),
            oam: MemSection::into_array(MemSection::Oam),
            hram: MemSection::into_array(MemSection::Hram),
            io_regs: IoRegs::new(),
        }
    }

    /// Reads a byte as the CPU sees it.
    pub fn read(&self, addr: u16) -> (r: u8)
        requires
            self.wf(),
        ensures
            r == self.spec_read(addr),
    {
        if addr < 0x8000 || (0xA000 <= addr && addr < 0xC000) {
            match self.cart.read(addr) {
                Ok(b) => b,
                Err(_) => 0,
            }
        } else if addr < 0xA000 {
            self.vram.read(&self.io_regs, addr)
        } else if addr < 0xE000 {
            self.wram.read(&self.io_regs, addr)
        } else if addr < 0xFE00 {
            self.wram.read(&self.io_regs, addr - 0x2000)
        } else if addr < 0xFEA0 {
            self.oam.read(addr)
        } else if addr < 0xFF00 {
            0xFF
        } else if addr < 0xFF80 || addr == 0xFFFF {
            self.io_regs.user_read(addr)
        } else {
            self.hram.read(addr)
        }
    }

    /// Writes a byte as the CPU does. Fails only on a cartridge address that
    /// the controller does not map.
    pub fn write(&mut self, addr: u16, data: u8) -> (r: Result<(), EmuError>)
        requires
            old(self).wf(),
        ensures
            final(self).wf(),
            old(self).spec_wrote(final(self), addr, data),
            r is Err <==> !old(self).spec_write_ok(addr, data),
            r is Err ==> r == Err::<(), EmuError>(EmuError::InvalidAddress),
            final(self).io_regs@.get(IoReg::Ly) == old(self).io_regs@.get(IoReg::Ly),
            final(self).io_regs@.get(IoReg::Stat) & 3 == old(self).io_regs@.get(IoReg::Stat) & 3,
    {
        proof {
            if is_io_addr(addr) {
                crate::mem::io_regs::lemma_user_write_keeps_ppu_regs(self.io_regs@, addr, data);
            }
        }
        if addr < 0x8000 || (0xA000 <= addr && addr < 0xC000) {
            self.cart.write(addr, data)
        } else if addr < 0xA000 {
            self.vram.write(&self.io_regs, addr, data);
            Ok(())
        } else if addr < 0xE000 {
            self.wram.write(&self.io_regs, addr, data);
            Ok(())
        } else if addr < 0xFE00 {
            self.wram.write(&self.io_regs, addr - 0x2000, data);
            Ok(())
        } else if addr < 0xFEA0 {
            self.oam.write(addr, data);
            Ok(())
        } else if addr < 0xFF00 {
            Ok(())
        } else if addr < 0xFF80 || addr == 0xFFFF {
            self.io_regs.user_write(addr, data);
            Ok(())
        } else {
            self.hram.write(addr, data);
            Ok(())
        }
    }

    /// Reads the whole value of an I/O register.
    pub fn get(&self, reg: IoReg) -> (r: u8)
        requires
            self.wf(),
        ensures
            r == self.io_regs@.get(reg),
    {
        self.io_regs.get(reg)
    }

    /// Sets the whole value of an I/O register.
    pub fn set(&mut self, reg: IoReg, data: u8)
        requires
            old(self).wf(),
        ensures
            final(self).wf(),
            final(self).io_regs@ == old(self).io_regs@.set(reg, data),
            final(self).cart == old(self).cart,
            final(self).vram@ == old(self).vram@,
            final(self).wram@ == old(self).wram@,
            final(self).oam == old(self).oam,
            final(self).hram == old(self).hram,
    {
        self.io_regs.set(reg, data);
    }
}

} // verus!
