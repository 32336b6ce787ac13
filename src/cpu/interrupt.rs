use vstd::prelude::*;
use crate::error::EmuError;
use crate::mem::io_regs::IoReg;
use crate::mem::mem::{Mem, writable};
use crate::sys::sys::Sys;
use crate::util::bits::{Bits, with_bit8};
use crate::util::math::{split_16, hi_byte, lo_byte, wrap16};

verus! {

/// The interrupt sources, highest priority first; the position is the IF/IE
/// bit.
#[derive(Clone, Copy, Debug, PartialEq, Eq, Structural)]
pub enum InterruptType {
    VBlank,
    Stat,
    Timer,
    Serial,
    Joypad,
}

impl InterruptType {
    pub open spec fn spec_flag_idx(self) -> u8 {
        match self {
            InterruptType::VBlank => 0,
            InterruptType::Stat => 1,
            InterruptType::Timer => 2,
            InterruptType::Serial => 3,
            InterruptType::Joypad => 4,
        }
    }

    pub open spec fn spec_from_idx(idx: u8) -> InterruptType {
        match idx {
            0 => InterruptType::VBlank,
            1 => InterruptType::Stat,
            2 => InterruptType::Timer,
            3 => InterruptType::Serial,
            _ => InterruptType::Joypad,
        }
    }

    /// The vector that servicing the interrupt calls.
    pub fn jump_addr(self) -> (r: u16)
        ensures
            r == 0x40 + 8 * self.spec_flag_idx(),
    {
        match self {
            InterruptType::VBlank => 0x40,
            InterruptType::Stat => 0x48,
            InterruptType::Timer => 0x50,
            InterruptType::Serial => 0x58,
            InterruptType::Joypad => 0x60,
        }
    }

    /// The IF/IE bit of the interrupt.
    pub fn flag_idx(self) -> (r: u8)
        ensures
            r == self.spec_flag_idx(),
    {
        match self {
            InterruptType::VBlank => 0,
            InterruptType::Stat => 1,
            InterruptType::Timer => 2,
            InterruptType::Serial => 3,
            InterruptType::Joypad => 4,
        }
    }

    pub fn from_idx(idx: u8) -> (r: InterruptType)
        ensures
            r == Self::spec_from_idx(idx),
    {
        match idx {
            0 => InterruptType::VBlank,
            1 => InterruptType::Stat,
            2 => InterruptType::Timer,
            3 => InterruptType::Serial,
            _ => InterruptType::Joypad,
        }
    }
}

/// The bit of the highest-priority interrupt among `pending` (bits 4..0).
pub open spec fn first_pending(pending: u8) -> u8 {
    if pending & 1 != 0 {
        0
    } else if pending & 2 != 0 {
        1
    } else if pending & 4 != 0 {
        2
    } else if pending & 8 != 0 {
        3
    } else {
        4
    }
}

/// Interrupts that are both requested and enabled.
pub open spec fn pending_of(mem: &Mem) -> u8 {
    mem.io_regs@.get(IoReg::Ie) & mem.io_regs@.get(IoReg::If) & 0x1F
}

/// Sets the interrupt's bit in IF.
pub fn request_interrupt(sys: &mut Sys, type_: InterruptType)
    requires
        old(sys).wf(),
    ensures
        final(sys).wf(),
        final(sys).mem.io_regs@ == old(sys).mem.io_regs@.set(
            IoReg::If,
            with_bit8(old(sys).mem.io_regs@.get(IoReg::If), type_.spec_flag_idx(), 1),
        ),
        final(sys).mem.cart == old(sys).mem.cart,
        final(sys).mem.vram@ == old(sys).mem.vram@,
        final(sys).mem.wram@ == old(sys).mem.wram@,
        final(sys).mem.oam == old(sys).mem.oam,
        final(sys).mem.hram == old(sys).mem.hram,
        final(sys).ppu == old(sys).ppu,
        final(sys).regs == old(sys).regs,
        final(sys).speed_ctrl == old(sys).speed_ctrl,
        final(sys).is_render_pending == old(sys).is_render_pending,
        final(sys).interrupt_master_enable == old(sys).interrupt_master_enable,
        final(sys).div_timer_clock == old(sys).div_timer_clock,
        final(sys).tima_timer_clock == old(sys).tima_timer_clock,
        final(sys).cpu_clock == old(sys).cpu_clock,
        final(sys).hard_lock == old(sys).hard_lock,
        final(sys).halted == old(sys).halted,
        final(sys).cpu_delay_ticks == old(sys).cpu_delay_ticks,
        final(sys).options == old(sys).options,
        final(sys).failure == old(sys).failure,
        final(sys).joypad == old(sys).joypad,
        final(sys).nop_count == old(sys).nop_count,
        final(sys).cpu_enable == old(sys).cpu_enable,
{
    let mut v = sys.mem.get(IoReg::If);
    v.set_bit(type_.flag_idx(), 1);
    sys.mem.set(IoReg::If, v);
}

/// Whether both bytes of a push at stack pointer `sp` land on writable
/// addresses (SP − 1 and SP − 2).
pub open spec fn pushable(sp: u16) -> bool {
    writable(wrap16(sp + 0xFFFF)) && writable(wrap16(sp + 0xFFFE))
}

/// Whether `post` is `pre` after pushing `v` at stack pointer `sp`: the
/// high byte written at SP − 1, then the low byte at SP − 2.
pub open spec fn pushed_word(pre: &Mem, post: &Mem, sp: u16, v: u16) -> bool {
    exists|m: Mem|
        #[trigger] pre.spec_wrote(&m, wrap16(sp + 0xFFFF), hi_byte(v)) && m.spec_wrote(
            post,
            wrap16(sp + 0xFFFE),
            lo_byte(v),
        )
}

/// Pushes a byte: SP decreases by one, then the byte is written at SP.
pub fn push_byte(sys: &mut Sys, v: u8) -> (r: Result<(), EmuError>)
    requires
        old(sys).wf(),
    ensures
        final(sys).wf(),
        final(sys).regs == (crate::cpu::regs::CpuRegs { sp: wrap16(old(sys).regs.sp + 0xFFFF), ..old(sys).regs }),
        old(sys).mem.spec_wrote(&final(sys).mem, wrap16(old(sys).regs.sp + 0xFFFF), v),
        r is Err <==> !old(sys).mem.spec_write_ok(wrap16(old(sys).regs.sp + 0xFFFF), v),
        r is Err ==> r == Err::<(), EmuError>(EmuError::InvalidAddress),
        final(sys).ppu == old(sys).ppu,
        final(sys).interrupt_master_enable == old(sys).interrupt_master_enable,
        final(sys).halted == old(sys).halted,
        final(sys).speed_ctrl == old(sys).speed_ctrl,
        final(sys).mem.cart.header == old(sys).mem.cart.header,
        old(sys).same_cpu_side_but_regs_ime(final(sys)),
        final(sys).mem.io_regs@.get(IoReg::Ly) == old(sys).mem.io_regs@.get(IoReg::Ly),
        final(sys).mem.io_regs@.get(IoReg::Stat) & 3 == old(sys).mem.io_regs@.get(IoReg::Stat) & 3,
{
    let sp = sys.regs.sp.wrapping_sub(1);
    sys.regs.sp = sp;
    sys.mem.write(sp, v)
}

/// Calls `next_pc`: pushes the return address `prev_pc`, high byte first.
pub fn call(sys: &mut Sys, prev_pc: u16, next_pc: u16) -> (r: Result<(), EmuError>)
    requires
        old(sys).wf(),
    ensures
        final(sys).wf(),
        r is Err <==> !pushable(old(sys).regs.sp),
        r is Err ==> r == Err::<(), EmuError>(EmuError::InvalidAddress),
        r is Ok ==> final(sys).regs == (crate::cpu::regs::CpuRegs {
            sp: wrap16(old(sys).regs.sp + 0xFFFE),
            pc: next_pc,
            ..old(sys).regs
        }),
        r is Ok ==> pushed_word(&old(sys).mem, &final(sys).mem, old(sys).regs.sp, prev_pc),
        final(sys).ppu == old(sys).ppu,
        final(sys).interrupt_master_enable == old(sys).interrupt_master_enable,
        final(sys).halted == old(sys).halted,
        final(sys).speed_ctrl == old(sys).speed_ctrl,
        final(sys).mem.cart.header == old(sys).mem.cart.header,
        old(sys).same_cpu_side_but_regs_ime(final(sys)),
        final(sys).mem.io_regs@.get(IoReg::Ly) == old(sys).mem.io_regs@.get(IoReg::Ly),
        final(sys).mem.io_regs@.get(IoReg::Stat) & 3 == old(sys).mem.io_regs@.get(IoReg::Stat) & 3,
{
    let (hi, lo) = split_16(prev_pc);
    let ghost m0 = sys.mem;
    push_byte(sys, hi)?;
    let ghost m1 = sys.mem;
    push_byte(sys, lo)?;
    sys.regs.pc = next_pc;
    assert(m0.spec_wrote(&m1, wrap16(old(sys).regs.sp + 0xFFFF), hi) && m1.spec_wrote(
        &sys.mem,
        wrap16(old(sys).regs.sp + 0xFFFE),
        lo,
    ));
    assert(pushed_word(&m0, &sys.mem, old(sys).regs.sp, prev_pc));
    Ok(())
}

/// What servicing interrupts does. With IME clear or nothing requested and
/// enabled, nothing changes and the result is `Ok(false)`. Otherwise the
/// highest-priority pending interrupt is serviced: IME and HALT clear, its IF
/// bit clears, PC is pushed (high byte at SP − 1, low byte at SP − 2) and PC
/// jumps to its vector; this succeeds exactly when both stack bytes are
/// writable.
pub open spec fn spec_service(pre: &Sys, post: &Sys, r: Result<bool, EmuError>) -> bool {
    let pending = pending_of(&pre.mem);
    let sp = pre.regs.sp;
    &&& post.ppu == pre.ppu
    &&& post.speed_ctrl == pre.speed_ctrl
    &&& post.mem.cart.header == pre.mem.cart.header
    &&& pre.same_cpu_side_but_regs_ime(post)
    &&& post.mem.io_regs@.get(IoReg::Ly) == pre.mem.io_regs@.get(IoReg::Ly)
    &&& post.mem.io_regs@.get(IoReg::Stat) & 3 == pre.mem.io_regs@.get(IoReg::Stat) & 3
    &&& if !pre.interrupt_master_enable || pending == 0 {
        &&& r == Ok::<bool, EmuError>(false)
        &&& post.mem == pre.mem
        &&& post.regs == pre.regs
        &&& post.interrupt_master_enable == pre.interrupt_master_enable
        &&& post.halted == pre.halted
    } else {
        let idx = first_pending(pending);
        let io = pre.mem.io_regs@.set(IoReg::If, with_bit8(pre.mem.io_regs@.get(IoReg::If), idx, 0));
        &&& r == (if pushable(sp) {
            Ok::<bool, EmuError>(true)
        } else {
            Err::<bool, EmuError>(EmuError::InvalidAddress)
        })
        &&& !post.interrupt_master_enable
        &&& !post.halted
        &&& pushable(sp) ==> post.regs == (crate::cpu::regs::CpuRegs {
            sp: wrap16(sp + 0xFFFE),
            pc: (0x40 + 8 * idx) as u16,
            ..pre.regs
        })
        &&& pushable(sp) ==> exists|m: Mem|
            #[trigger] pre.mem.with_io(&m, io) && pushed_word(&m, &post.mem, sp, pre.regs.pc)
    }
}

/// Services the highest-priority interrupt that is requested and enabled,
/// if IME is set (see `spec_service`). Returns whether one was serviced.
pub fn try_handle_interrupts(sys: &mut Sys) -> (r: Result<bool, EmuError>)
    requires
        old(sys).wf(),
    ensures
        final(sys).wf(),
        spec_service(old(sys), final(sys), r),
{
    if !sys.interrupt_master_enable {
        return Ok(false);
    }
    let ie = sys.mem.get(IoReg::Ie);
    let if_ = sys.mem.get(IoReg::If);
    let pending = ie & if_ & 0x1F;
    if pending == 0 {
        return Ok(false);
    }
    // Only the highest-priority interrupt is serviced.
    let idx: u8 = if pending & 1 != 0 {
        0
    } else if pending & 2 != 0 {
        1
    } else if pending & 4 != 0 {
        2
    } else if pending & 8 != 0 {
        3
    } else {
        4
    };
    let type_ = InterruptType::from_idx(idx);
    match handle_interrupt(sys, type_) {
        Ok(()) => Ok(true),
        Err(e) => Err(e),
    }
}

fn handle_interrupt(sys: &mut Sys, type_: InterruptType) -> (r: Result<(), EmuError>)
    requires
        old(sys).wf(),
    ensures
        final(sys).wf(),
        !final(sys).interrupt_master_enable,
        !final(sys).halted,
        r is Err <==> !pushable(old(sys).regs.sp),
        r is Err ==> r == Err::<(), EmuError>(EmuError::InvalidAddress),
        r is Ok ==> final(sys).regs == (crate::cpu::regs::CpuRegs {
            sp: wrap16(old(sys).regs.sp + 0xFFFE),
            pc: (0x40 + 8 * type_.spec_flag_idx()) as u16,
            ..old(sys).regs
        }),
        r is Ok ==> exists|m: Mem|
            #[trigger] old(sys).mem.with_io(
                &m,
                old(sys).mem.io_regs@.set(
                    IoReg::If,
                    with_bit8(old(sys).mem.io_regs@.get(IoReg::If), type_.spec_flag_idx(), 0),
                ),
            ) && pushed_word(&m, &final(sys).mem, old(sys).regs.sp, old(sys).regs.pc),
        final(sys).ppu == old(sys).ppu,
        final(sys).speed_ctrl == old(sys).speed_ctrl,
        final(sys).mem.cart.header == old(sys).mem.cart.header,
        old(sys).same_cpu_side_but_regs_ime(final(sys)),
        final(sys).mem.io_regs@.get(IoReg::Ly) == old(sys).mem.io_regs@.get(IoReg::Ly),
        final(sys).mem.io_regs@.get(IoReg::Stat) & 3 == old(sys).mem.io_regs@.get(IoReg::Stat) & 3,
{
    sys.interrupt_master_enable = false;
    sys.halted = false;
    let mut v = sys.mem.get(IoReg::If);
    v.set_bit(type_.flag_idx(), 0);
    sys.mem.set(IoReg::If, v);
    let ghost m0 = sys.mem;
    let prev_pc = sys.regs.pc;
    let next_pc = type_.jump_addr();
    let r = call(sys, prev_pc, next_pc);
    if r.is_ok() {
        assert(old(sys).mem.with_io(
            &m0,
            old(sys).mem.io_regs@.set(
                IoReg::If,
                with_bit8(old(sys).mem.io_regs@.get(IoReg::If), type_.spec_flag_idx(), 0),
            ),
        ) && pushed_word(&m0, &sys.mem, old(sys).regs.sp, old(sys).regs.pc));
    }
    r
}

} // verus!
