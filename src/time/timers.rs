use vstd::prelude::*;
use crate::cpu::interrupt::{request_interrupt, InterruptType};
use crate::mem::io_regs::{IoReg, IoRegsView};
use crate::sys::sys::Sys;
use crate::time::clock::ClockView;
use crate::util::bits::{Bits, bit8, bits8, with_bit8};

verus! {

pub const CPU_PERIOD_MCYCLES: u32 = 1;
pub const DIV_PERIOD_MCYCLES: u32 = 64;
pub const TAC_CLK_0_PERIOD_MCYCLES: u32 = 256;
pub const TAC_CLK_1_PERIOD_MCYCLES: u32 = 4;
pub const TAC_CLK_2_PERIOD_MCYCLES: u32 = 16;
pub const TAC_CLK_3_PERIOD_MCYCLES: u32 = 64;

/// The TIMA period, in M-cycles, that TAC bits 1..0 select.
pub open spec fn tima_period(tac: u8) -> u32 {
    let sel = bits8(tac, 1, 0);
    if sel == 0 {
        256
    } else if sel == 1 {
        4
    } else if sel == 2 {
        16
    } else {
        64
    }
}

/// The registers after the timer clocks' ticks: DIV counts up, wrapping;
/// TIMA counts up and, past 0xFF, is reloaded from TMA with a timer
/// interrupt requested.
pub open spec fn timer_regs_after(io: IoRegsView, div_ticked: bool, tima_ticked: bool) -> IoRegsView {
    let io1 = if div_ticked {
        io.set(IoReg::Div, ((io.get(IoReg::Div) + 1) % 256) as u8)
    } else {
        io
    };
    if tima_ticked {
        if io1.get(IoReg::Tima) == 0xFF {
            io1.set(IoReg::Tima, io1.get(IoReg::Tma)).set(
                IoReg::If,
                with_bit8(io1.get(IoReg::If), 2, 1),
            )
        } else {
            io1.set(IoReg::Tima, (io1.get(IoReg::Tima) + 1) as u8)
        }
    } else {
        io1
    }
}

/// What one M-cycle does to DIV, TIMA and their clocks (see `update_timer_regs`).
pub open spec fn spec_timer_step(pre: &Sys, post: &Sys) -> bool {
    &&& pre.speed_ctrl.stop_mcycles_left > 0 ==> post.mem == pre.mem
        && post.div_timer_clock@ == pre.div_timer_clock@
        && post.tima_timer_clock@ == pre.tima_timer_clock@
    &&& pre.speed_ctrl.stop_mcycles_left == 0 ==> {
        let tac = pre.mem.io_regs@.get(IoReg::Tac);
        let (div_clock, div_ticked) = pre.div_timer_clock@.advance();
        let tima_clock0 = ClockView { period: tima_period(tac), ..pre.tima_timer_clock@ };
        let enable = bit8(tac, 2) == 1;
        let (tima_clock, tima_ticked) = if enable {
            tima_clock0.advance()
        } else {
            (tima_clock0, false)
        };
        &&& post.div_timer_clock@ == div_clock
        &&& post.tima_timer_clock@ == tima_clock
        &&& post.mem.io_regs@ == timer_regs_after(
            pre.mem.io_regs@,
            div_ticked,
            tima_ticked,
        )
    }
    &&& post.mem.cart == pre.mem.cart
    &&& post.mem.vram@ == pre.mem.vram@
    &&& post.mem.wram@ == pre.mem.wram@
    &&& post.mem.oam == pre.mem.oam
    &&& post.mem.hram == pre.mem.hram
    &&& post.ppu == pre.ppu
    &&& post.regs == pre.regs
    &&& post.speed_ctrl == pre.speed_ctrl
    &&& post.cpu_clock == pre.cpu_clock
    &&& post.hard_lock == pre.hard_lock
    &&& post.failure == pre.failure
    &&& post.cpu_delay_ticks == pre.cpu_delay_ticks
    &&& post.options == pre.options
    &&& post.nop_count == pre.nop_count
    &&& post.mem.io_regs@.get(IoReg::Ly) == pre.mem.io_regs@.get(IoReg::Ly)
    &&& post.mem.io_regs@.get(IoReg::Stat) == pre.mem.io_regs@.get(IoReg::Stat)
}

/// Advances DIV and TIMA by one M-cycle. Both are frozen during STOP; TIMA
/// runs only while TAC bit 2 is set.
pub fn update_timer_regs(sys: &mut Sys)
    requires
        old(sys).wf(),
    ensures
        final(sys).wf(),
        spec_timer_step(old(sys), final(sys)),
{
    if sys.speed_ctrl.is_stop_active() {
        return;
    }
    let div_ticked = sys.div_timer_clock.update_and_check();
    if div_ticked {
        let div = sys.mem.get(IoReg::Div);
        sys.mem.set(IoReg::Div, div.wrapping_add(1));
    }
    let tac = sys.mem.get(IoReg::Tac);
    let enable = tac.bit(2) == 1;
    let clock_sel = tac.bits(1, 0);
    let tima_clk_period = if clock_sel == 0 {
        TAC_CLK_0_PERIOD_MCYCLES
    } else if clock_sel == 1 {
        TAC_CLK_1_PERIOD_MCYCLES
    } else if clock_sel == 2 {
        TAC_CLK_2_PERIOD_MCYCLES
    } else {
        TAC_CLK_3_PERIOD_MCYCLES
    };
    sys.tima_timer_clock.set_period(tima_clk_period);
    if enable {
        let tima_ticked = sys.tima_timer_clock.update_and_check();
        if tima_ticked {
            let tima = sys.mem.get(IoReg::Tima);
            if tima == 0xFF {
                let tma = sys.mem.get(IoReg::Tma);
                sys.mem.set(IoReg::Tima, tma);
                request_interrupt(sys, InterruptType::Timer);
            } else {
                sys.mem.set(IoReg::Tima, tima + 1);
            }
        }
    }
}

} // verus!
