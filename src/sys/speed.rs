use vstd::prelude::*;
use crate::mem::io_regs::IoReg;
use crate::sys::sys::Sys;
use crate::util::bits::{Bits, bit8};

verus! {

/// M-cycles for which STOP freezes the CPU and the timers.
pub const STOP_MCYCLES: u32 = 2050;

/// Keeps track of STOP and of double-speed timing.
pub struct SpeedControl {
    /// M-cycles left of the STOP freeze.
    pub stop_mcycles_left: u32,
    /// 0 on a full M-cycle; in double-speed mode, 1 on the second of each
    /// pair.
    pub mcycle: u32,
}

impl SpeedControl {
    pub fn new() -> (r: SpeedControl)
        ensures
            r == (SpeedControl { stop_mcycles_left: 0, mcycle: 0 }),
    {
        SpeedControl { stop_mcycles_left: 0, mcycle: 0 }
    }

    pub fn is_stop_active(&self) -> (r: bool)
        ensures
            r == (self.stop_mcycles_left > 0),
    {
        self.stop_mcycles_left > 0
    }

    /// Starts the STOP freeze.
    pub fn stop(&mut self)
        ensures
            *final(self) == (SpeedControl { stop_mcycles_left: STOP_MCYCLES, ..*old(self) }),
    {
        self.stop_mcycles_left = STOP_MCYCLES;
    }
}

/// Whether KEY1 bit 7 reports double speed.
pub fn is_double_speed_mode_active(sys: &Sys) -> (r: bool)
    requires
        sys.wf(),
    ensures
        r == (bit8(sys.mem.io_regs@.get(IoReg::Key1), 7) == 1),
{
    let key1 = sys.mem.get(IoReg::Key1);
    key1.bit(7) == 1
}

/// Does everything in the system update during the current M-cycle?
pub fn is_full_mcycle(sys: &Sys) -> (r: bool)
    ensures
        r == (sys.speed_ctrl.mcycle == 0),
{
    sys.speed_ctrl.mcycle == 0
}

/// What one M-cycle does to the speed controller (see `update_speed_ctrl`).
pub open spec fn spec_speed_step(pre: &Sys, post: &Sys) -> bool {
    &&& post.speed_ctrl == (if pre.speed_ctrl.stop_mcycles_left > 0 {
        SpeedControl {
            stop_mcycles_left: (pre.speed_ctrl.stop_mcycles_left - 1) as u32,
            ..pre.speed_ctrl
        }
    } else {
        SpeedControl {
            mcycle: if bit8(pre.mem.io_regs@.get(IoReg::Key1), 7) == 1 {
                ((pre.speed_ctrl.mcycle + 1) % 2) as u32
            } else {
                0
            },
            ..pre.speed_ctrl
        }
    })
    &&& post.mem == pre.mem
    &&& post.ppu == pre.ppu
    &&& post.regs == pre.regs
    &&& post.hard_lock == pre.hard_lock
    &&& post.failure == pre.failure
    &&& post.options == pre.options
    &&& post.cpu_clock == pre.cpu_clock
    &&& post.div_timer_clock == pre.div_timer_clock
    &&& post.tima_timer_clock == pre.tima_timer_clock
    &&& post.joypad == pre.joypad
    &&& post.cpu_delay_ticks == pre.cpu_delay_ticks
}

/// Advances the speed controller by one M-cycle: the STOP freeze counts
/// down; otherwise the M-cycle phase steps, modulo 2 in double speed.
pub fn update_speed_ctrl(sys: &mut Sys)
    requires
        old(sys).wf(),
    ensures
        final(sys).wf(),
        spec_speed_step(old(sys), final(sys)),
{
    if sys.speed_ctrl.stop_mcycles_left > 0 {
        sys.speed_ctrl.stop_mcycles_left = sys.speed_ctrl.stop_mcycles_left - 1;
        return;
    }
    let cycle_len: u32 = if is_double_speed_mode_active(sys) { 2 } else { 1 };
    sys.speed_ctrl.mcycle = (sys.speed_ctrl.mcycle + 1) % cycle_len;
}

} // verus!
