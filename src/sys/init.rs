use vstd::prelude::*;
use crate::cpu::regs::CpuRegs;
use crate::mem::io_regs::IoReg;
use crate::other::mode::CompatibilityMode;
use crate::sys::sys::Sys;

verus! {

/// Sets the CPU and I/O registers as the boot ROM leaves them.
pub fn init(sys: &mut Sys)
    requires
        old(sys).wf(),
    ensures
        final(sys).wf(),
        final(sys).regs.pc == 0x0100,
        final(sys).regs.sp == 0xFFFE,
        old(sys).mem.cart.header.compatibility_mode == CompatibilityMode::DmgOnly ==> final(sys).regs.a
            == 0x01 && final(sys).regs.f == 0xB0,
        old(sys).mem.cart.header.compatibility_mode != CompatibilityMode::DmgOnly ==> final(sys).regs.a
            == 0x11 && final(sys).regs.f == 0x80,
        final(sys).mem.io_regs@.get(IoReg::Ly) == 0,
        final(sys).mem.io_regs@.get(IoReg::If) == 0xE1,
        final(sys).mem.io_regs@.get(IoReg::Lcdc) == 0x91,
        final(sys).mem.io_regs@.get(IoReg::Stat) == 0x86,
        final(sys).mem.cart == old(sys).mem.cart,
        final(sys).ppu == old(sys).ppu,
        final(sys).options == old(sys).options,
        final(sys).hard_lock == old(sys).hard_lock,
        final(sys).failure == old(sys).failure,
{
    match sys.mem.cart.header().compatibility_mode() {
        CompatibilityMode::DmgOnly => init_cpu_dmg_only(sys),
        CompatibilityMode::CgbBackward => init_cpu_cgb_backward(sys),
        CompatibilityMode::CgbOnly => init_cpu_cgb_only(sys),
    }
    init_io_regs(sys);
}

/// CPU registers for DMG-only cartridges: AF = 0x01B0.
fn init_cpu_dmg_only(sys: &mut Sys)
    ensures
        final(sys).regs == (CpuRegs {
            a: 0x01, f: 0xB0, b: 0x00, c: 0x13, d: 0x00, e: 0xD8, h: 0x01, l: 0x48, sp: 0xFFFE, pc: 0x0100,
        }),
        final(sys).mem == old(sys).mem,
        final(sys).ppu == old(sys).ppu,
        final(sys).options == old(sys).options,
        final(sys).speed_ctrl == old(sys).speed_ctrl,
        final(sys).cpu_clock == old(sys).cpu_clock,
        final(sys).div_timer_clock == old(sys).div_timer_clock,
        final(sys).tima_timer_clock == old(sys).tima_timer_clock,
        final(sys).hard_lock == old(sys).hard_lock,
        final(sys).failure == old(sys).failure,
{
    sys.regs = CpuRegs { a: 0x01, f: 0xB0, b: 0x00, c: 0x13, d: 0x00, e: 0xD8, h: 0x01, l: 0x48, sp: 0xFFFE, pc: 0x0100 };
}

/// CPU registers for CGB-compatible cartridges: AF = 0x1180.
fn init_cpu_cgb_backward(sys: &mut Sys)
    ensures
        final(sys).regs == (CpuRegs {
            a: 0x11, f: 0x80, b: 0x00, c: 0x00, d: 0x00, e: 0x08, h: 0x00, l: 0x00, sp: 0xFFFE, pc: 0x0100,
        }),
        final(sys).mem == old(sys).mem,
        final(sys).ppu == old(sys).ppu,
        final(sys).options == old(sys).options,
        final(sys).speed_ctrl == old(sys).speed_ctrl,
        final(sys).cpu_clock == old(sys).cpu_clock,
        final(sys).div_timer_clock == old(sys).div_timer_clock,
        final(sys).tima_timer_clock == old(sys).tima_timer_clock,
        final(sys).hard_lock == old(sys).hard_lock,
        final(sys).failure == old(sys).failure,
{
    sys.regs = CpuRegs { a: 0x11, f: 0x80, b: 0x00, c: 0x00, d: 0x00, e: 0x08, h: 0x00, l: 0x00, sp: 0xFFFE, pc: 0x0100 };
}

/// CPU registers for CGB-only cartridges: AF = 0x1180.
fn init_cpu_cgb_only(sys: &mut Sys)
    ensures
        final(sys).regs == (CpuRegs {
            a: 0x11, f: 0x80, b: 0x00, c: 0x00, d: 0xFF, e: 0x56, h: 0x00, l: 0x0D, sp: 0xFFFE, pc: 0x0100,
        }),
        final(sys).mem == old(sys).mem,
        final(sys).ppu == old(sys).ppu,
        final(sys).options == old(sys).options,
        final(sys).speed_ctrl == old(sys).speed_ctrl,
        final(sys).cpu_clock == old(sys).cpu_clock,
        final(sys).div_timer_clock == old(sys).div_timer_clock,
        final(sys).tima_timer_clock == old(sys).tima_timer_clock,
        final(sys).hard_lock == old(sys).hard_lock,
        final(sys).failure == old(sys).failure,
{
    sys.regs = CpuRegs { a: 0x11, f: 0x80, b: 0x00, c: 0x00, d: 0xFF, e: 0x56, h: 0x00, l: 0x0D, sp: 0xFFFE, pc: 0x0100 };
}

/// I/O registers as the boot ROM leaves them, with STAT reporting the mode
/// that the PPU starts in (OAM scan at dot 0 of line 0) and LY == LYC; the CGB-only registers
/// (KEY1..SVBK) keep their power-on zero.
fn init_io_regs(sys: &mut Sys)
    requires
        old(sys).wf(),
    ensures
        final(sys).wf(),
        final(sys).mem.io_regs@.get(IoReg::Ly) == 0,
        final(sys).mem.io_regs@.get(IoReg::If) == 0xE1,
        final(sys).mem.io_regs@.get(IoReg::Lcdc) == 0x91,
        final(sys).mem.io_regs@.get(IoReg::Stat) == 0x86,
        final(sys).mem.cart == old(sys).mem.cart,
        final(sys).regs == old(sys).regs,
        final(sys).ppu == old(sys).ppu,
        final(sys).options == old(sys).options,
        final(sys).hard_lock == old(sys).hard_lock,
        final(sys).failure == old(sys).failure,
{
    sys.mem.set(IoReg::P1, 0xCF);
    sys.mem.set(IoReg::Sb, 0x00);
    sys.mem.set(IoReg::Sc, 0x7E);
    sys.mem.set(IoReg::Div, 0xAB);
    sys.mem.set(IoReg::Tima, 0x00);
    sys.mem.set(IoReg::Tma, 0x00);
    sys.mem.set(IoReg::Tac, 0xF8);
    sys.mem.set(IoReg::If, 0xE1);
    sys.mem.set(IoReg::Lcdc, 0x91);
    sys.mem.set(IoReg::Stat, 0x86);
    sys.mem.set(IoReg::Scy, 0x00);
    sys.mem.set(IoReg::Scx, 0x00);
    sys.mem.set(IoReg::Ly, 0x00);
    sys.mem.set(IoReg::Lyc, 0x00);
    sys.mem.set(IoReg::Dma, 0xFF);
    sys.mem.set(IoReg::Bgp, 0xFC);
    sys.mem.set(IoReg::Obp0, 0x00);
    sys.mem.set(IoReg::Obp1, 0x00);
    sys.mem.set(IoReg::Wy, 0x00);
    sys.mem.set(IoReg::Wx, 0x00);
    sys.mem.set(IoReg::Ie, 0x00);
}

} // verus!
