use vstd::prelude::*;
use crate::cart::cart::Cart;
use crate::cpu::exec::{execute_next_instr, spec_next_instr};
use crate::cpu::interrupt::{pending_of, pushable, spec_service, try_handle_interrupts};
use crate::cpu::regs::CpuRegs;
use crate::error::EmuError;
use crate::mem::io_regs::IoReg;
use crate::mem::mem::Mem;
use crate::other::joypad::{handle_joypad_inputs, spec_joypad_step};
use crate::other::mode::CompatibilityMode;
use crate::ppu::ppu::{Ppu, ppu_synced, spec_ppu_step, update_ppu};
use crate::sys::init::init;
use crate::sys::speed::{SpeedControl, spec_speed_step, update_speed_ctrl};
use crate::time::clock::Clock;
use crate::time::timers::{
    spec_timer_step, update_timer_regs, CPU_PERIOD_MCYCLES, DIV_PERIOD_MCYCLES, TAC_CLK_0_PERIOD_MCYCLES,
};

verus! {

/// Debug guards: the core fails once one of them is exceeded.
#[derive(Clone, Copy, Debug, PartialEq, Eq, Structural)]
pub struct Options {
    pub kill_after_cpu_ticks: Option<u64>,
    pub kill_after_nop_count: Option<u64>,
}

/// The state of the emulated Game Boy.
pub struct Sys {
    pub options: Options,
    pub speed_ctrl: SpeedControl,
    pub mem: Mem,
    pub ppu: Ppu,
    pub regs: CpuRegs,
    pub cpu_clock: Clock,
    pub div_timer_clock: Clock,
    pub tima_timer_clock: Clock,
    /// M-cycles left of the instruction being executed.
    pub cpu_delay_ticks: u32,
    pub cpu_enable: bool,
    pub lcd_enable: bool,
    pub interrupt_master_enable: bool,
    /// HALT was executed and no interrupt is pending yet.
    pub halted: bool,
    /// A fatal failure happened: every later tick does nothing.
    pub hard_lock: bool,
    /// The PPU finished a frame that the host has not taken yet.
    pub is_render_pending: bool,
    pub failure: Option<EmuError>,
    /// The buttons held down, one bit per button.
    pub joypad: u8,
    /// NOPs executed so far.
    pub nop_count: u64,
}

/// The system after an instruction's result: its M-cycles become the CPU
/// delay, or its failure locks the system.
pub open spec fn spec_after_instr(s: Sys, r: Result<u32, EmuError>) -> Sys {
    match r {
        Ok(c) => Sys { cpu_delay_ticks: c, ..s },
        Err(e) => Sys { failure: Some(e), hard_lock: true, ..s },
    }
}

/// The CPU's part of an M-cycle. During STOP nothing happens. Otherwise the
/// CPU clock ticks and the instruction delay counts down; when it reaches 0,
/// a pending interrupt is serviced (`spec_service`), after which the delay
/// is 5, or else the next instruction runs (`spec_next_instr`) and its
/// M-cycles become the delay. A failure locks the system and records it.
pub open spec fn spec_cpu_step(pre: &Sys, post: &Sys) -> bool {
    if pre.speed_ctrl.stop_mcycles_left > 0 {
        *post == *pre
    } else {
        let d: u32 = if pre.cpu_delay_ticks > 0 { (pre.cpu_delay_ticks - 1) as u32 } else { 0 };
        let mid = Sys { cpu_clock: post.cpu_clock, cpu_delay_ticks: d, ..*pre };
        &&& post.cpu_clock@ == pre.cpu_clock@.advance().0
        &&& if d != 0 {
            *post == mid
        } else if mid.interrupt_master_enable && pending_of(&mid.mem) != 0 {
            if pushable(mid.regs.sp) {
                &&& post.cpu_delay_ticks == 5
                &&& spec_service(&mid, &Sys { cpu_delay_ticks: 0, ..*post }, Ok(true))
            } else {
                &&& post.hard_lock
                &&& post.failure == Some(EmuError::InvalidAddress)
                &&& spec_service(
                    &mid,
                    &Sys { failure: mid.failure, hard_lock: mid.hard_lock, ..*post },
                    Err(EmuError::InvalidAddress),
                )
            }
        } else if mid.cpu_enable {
            if !post.hard_lock {
                spec_next_instr(&mid, &Sys { cpu_delay_ticks: 0, ..*post }, Ok(post.cpu_delay_ticks))
            } else {
                post.failure matches Some(e) && spec_next_instr(
                    &mid,
                    &Sys { failure: mid.failure, hard_lock: mid.hard_lock, ..*post },
                    Err(e),
                )
            }
        } else {
            *post == mid
        }
    }
}

/// The debug guards: unless the system has already failed, it fails once
/// the NOP count or the CPU ticks reach their limit.
pub open spec fn spec_guard_step(pre: &Sys, post: &Sys) -> bool {
    let failed = Sys { failure: Some(EmuError::DebugBudgetExceeded), hard_lock: true, ..*pre };
    if pre.failure is Some {
        *post == *pre
    } else if pre.options.kill_after_nop_count matches Some(n) && pre.nop_count >= n {
        *post == failed
    } else if pre.options.kill_after_cpu_ticks matches Some(n) && pre.cpu_clock@.total_ticks >= n {
        *post == failed
    } else {
        *post == *pre
    }
}

/// One M-cycle as the composition of its steps, through the states between
/// them: the speed controller, the CPU, the PPU with the DMA engines, the
/// timers, the joypad, and the debug guards.
pub open spec fn spec_tick(pre: &Sys, s1: &Sys, s2: &Sys, s3: &Sys, s4: &Sys, s5: &Sys, post: &Sys) -> bool {
    &&& spec_speed_step(pre, s1)
    &&& spec_cpu_step(s1, s2)
    &&& spec_ppu_step(s2, s3)
    &&& spec_timer_step(s3, s4)
    &&& spec_joypad_step(s4, s5)
    &&& spec_guard_step(s5, post)
}

impl Sys {
    pub open spec fn wf(&self) -> bool {
        &&& self.mem.wf()
        &&& self.ppu.wf()
        &&& self.speed_ctrl.mcycle < 2
        &&& self.cpu_clock.wf()
        &&& self.cpu_clock@.period == CPU_PERIOD_MCYCLES
        &&& self.div_timer_clock.wf()
        &&& self.tima_timer_clock.wf()
        &&& (self.failure is Some ==> self.hard_lock)
    }

    /// All but the CPU registers, IME, HALT, memory and the PPU is the same
    /// in `post`.
    pub open spec fn same_cpu_side_but_regs_ime(&self, post: &Sys) -> bool {
        &&& post.speed_ctrl == self.speed_ctrl
        &&& post.cpu_clock == self.cpu_clock
        &&& post.div_timer_clock == self.div_timer_clock
        &&& post.tima_timer_clock == self.tima_timer_clock
        &&& post.hard_lock == self.hard_lock
        &&& post.options == self.options
        &&& post.cpu_delay_ticks == self.cpu_delay_ticks
        &&& post.failure == self.failure
        &&& post.joypad == self.joypad
        &&& post.nop_count == self.nop_count
        &&& post.cpu_enable == self.cpu_enable
        &&& post.lcd_enable == self.lcd_enable
        &&& post.is_render_pending == self.is_render_pending
    }

    /// The CPU, clocks, flags and options are the same in `post`: only
    /// memory and the PPU may differ.
    pub open spec fn same_cpu_side(&self, post: &Sys) -> bool {
        &&& post.regs == self.regs
        &&& post.speed_ctrl == self.speed_ctrl
        &&& post.cpu_clock == self.cpu_clock
        &&& post.div_timer_clock == self.div_timer_clock
        &&& post.tima_timer_clock == self.tima_timer_clock
        &&& post.hard_lock == self.hard_lock
        &&& post.interrupt_master_enable == self.interrupt_master_enable
        &&& post.options == self.options
        &&& post.cpu_delay_ticks == self.cpu_delay_ticks
        &&& post.halted == self.halted
        &&& post.failure == self.failure
        &&& post.joypad == self.joypad
        &&& post.nop_count == self.nop_count
        &&& post.cpu_enable == self.cpu_enable
        &&& post.lcd_enable == self.lcd_enable
        &&& post.is_render_pending == self.is_render_pending
    }

    /// A system running `cart`, with registers as the boot ROM leaves them.
    pub fn new(options: Options, cart: Cart) -> (r: Sys)
        requires
            cart.wf(),
        ensures
            r.wf(),
            r.options == options,
            r.mem.cart == cart,
            r.regs.pc == 0x0100,
            r.regs.sp == 0xFFFE,
            cart.header.compatibility_mode == CompatibilityMode::DmgOnly ==> r.regs.a == 0x01
                && r.regs.f == 0xB0,
            cart.header.compatibility_mode != CompatibilityMode::DmgOnly ==> r.regs.a == 0x11
                && r.regs.f == 0x80,
            r.mem.io_regs@.get(IoReg::Ly) == 0,
            r.mem.io_regs@.get(IoReg::If) == 0xE1,
            r.mem.io_regs@.get(IoReg::Lcdc) == 0x91,
            !r.hard_lock,
            r.failure is None,
            ppu_synced(&r),
    {
        let mut sys = Sys {
            options,
            speed_ctrl: SpeedControl::new(),
            mem: Mem::new(cart),
            ppu: Ppu::new(),
            regs: CpuRegs::new(),
            cpu_clock: Clock::new("CPU", CPU_PERIOD_MCYCLES),
            div_timer_clock: Clock::new("DIV", DIV_PERIOD_MCYCLES),
            tima_timer_clock: Clock::new("TIMA", TAC_CLK_0_PERIOD_MCYCLES),
            cpu_delay_ticks: 0,
            cpu_enable: true,
            lcd_enable: true,
            interrupt_master_enable: false,
            halted: false,
            hard_lock: false,
            is_render_pending: false,
            failure: None,
            joypad: 0,
            nop_count: 0,
        };
        init(&mut sys);
        assert(0x86u8 & 3 == 2) by (bit_vector);
        sys
    }

    pub fn is_cgb_mode(&self) -> (r: bool)
        ensures
            r == (self.mem.cart.header.compatibility_mode == CompatibilityMode::CgbOnly),
    {
        self.mem.cart.header().compatibility_mode().is_cgb_only()
    }

    /// Runs one M-cycle: the speed controller; then, unless STOP freezes
    /// it, the CPU (when its delay runs out: interrupt service, else the next
    /// instruction); then the PPU with the DMA engines, the timers and the
    /// joypad; then the debug guards. A failure sets `hard_lock`, after which
    /// this does nothing.
    pub fn run_one_m_cycle(&mut self)
        requires
            old(self).wf(),
        ensures
            final(self).wf(),
            old(self).hard_lock ==> final(self).hard_lock && final(self).mem == old(self).mem
                && final(self).regs == old(self).regs && final(self).ppu == old(self).ppu,
            final(self).failure is Some ==> final(self).hard_lock,
            old(self).failure is Some ==> final(self).failure == old(self).failure,
            final(self).mem.cart.header == old(self).mem.cart.header,
            ppu_synced(old(self)) ==> ppu_synced(final(self)),
            !old(self).hard_lock ==> exists|s1: Sys, s2: Sys, s3: Sys, s4: Sys, s5: Sys|
                #[trigger] spec_tick(old(self), &s1, &s2, &s3, &s4, &s5, final(self)),
            // STOP freezes the CPU and the timers.
            !old(self).hard_lock && old(self).speed_ctrl.stop_mcycles_left >= 2 ==> final(self).regs
                == old(self).regs && final(self).div_timer_clock@ == old(self).div_timer_clock@
                && final(self).tima_timer_clock@ == old(self).tima_timer_clock@
                && final(self).cpu_clock@ == old(self).cpu_clock@,
            // The CPU is charged one M-cycle of its instruction per M-cycle:
            // while the delay lasts, nothing executes.
            !old(self).hard_lock && old(self).speed_ctrl.stop_mcycles_left == 0
                && old(self).cpu_delay_ticks >= 2 ==> final(self).cpu_delay_ticks
                == old(self).cpu_delay_ticks - 1 && final(self).regs == old(self).regs,
            final(self).options == old(self).options,
            (final(self).options.kill_after_nop_count matches Some(n) && final(self).nop_count >= n)
                ==> final(self).hard_lock,
            (final(self).options.kill_after_cpu_ticks matches Some(n)
                && final(self).cpu_clock@.total_ticks >= n) ==> final(self).hard_lock,
    {
        if self.hard_lock {
            return;
        }
        update_speed_ctrl(self);
        let ghost s1 = *self;
        self.step_cpu();
        let ghost s2 = *self;
        update_ppu(self);
        let ghost s3 = *self;
        update_timer_regs(self);
        let ghost s4 = *self;
        handle_joypad_inputs(self);
        let ghost s5 = *self;
        self.check_debug_guards();
        assert(spec_tick(old(self), &s1, &s2, &s3, &s4, &s5, self));
    }

    /// The CPU's part of an M-cycle: unless STOP freezes it, the CPU clock
    /// ticks and the instruction delay counts down; when it runs out, a
    /// pending interrupt is serviced (five M-cycles) or else the next
    /// instruction runs and sets the delay.
    #[verifier::rlimit(100)]
    fn step_cpu(&mut self)
        requires
            old(self).wf(),
            !old(self).hard_lock,
        ensures
            final(self).wf(),
            spec_cpu_step(old(self), final(self)),
            final(self).ppu == old(self).ppu,
            final(self).speed_ctrl.mcycle == old(self).speed_ctrl.mcycle,
            final(self).div_timer_clock == old(self).div_timer_clock,
            final(self).tima_timer_clock == old(self).tima_timer_clock,
            final(self).options == old(self).options,
            final(self).joypad == old(self).joypad,
            final(self).mem.cart.header == old(self).mem.cart.header,
            final(self).mem.io_regs@.get(IoReg::Ly) == old(self).mem.io_regs@.get(IoReg::Ly),
            final(self).mem.io_regs@.get(IoReg::Stat) & 3 == old(self).mem.io_regs@.get(IoReg::Stat)
                & 3,
            old(self).speed_ctrl.stop_mcycles_left == 0 && old(self).cpu_delay_ticks >= 2
                ==> final(self).cpu_delay_ticks == old(self).cpu_delay_ticks - 1 && final(self).regs
                == old(self).regs && final(self).mem == old(self).mem && final(self).hard_lock
                == old(self).hard_lock,
            old(self).speed_ctrl.stop_mcycles_left > 0 ==> final(self).regs == old(self).regs
                && final(self).speed_ctrl == old(self).speed_ctrl
                && final(self).cpu_clock@ == old(self).cpu_clock@ && final(self).mem == old(self).mem
                && final(self).hard_lock == old(self).hard_lock,
    {
        if !self.speed_ctrl.is_stop_active() && self.cpu_clock.update_and_check() {
            self.cpu_delay_ticks = self.cpu_delay_ticks.saturating_sub(1);
            let ghost mid = *self;
            assert(mid == (Sys {
                cpu_clock: mid.cpu_clock,
                cpu_delay_ticks: mid.cpu_delay_ticks,
                ..*old(self)
            }));
            if self.cpu_delay_ticks == 0 {
                match try_handle_interrupts(self) {
                    Ok(true) => {
                        let ghost s = *self;
                        assert(s.cpu_clock == mid.cpu_clock);
                        // Two idle M-cycles and the three of the call.
                        self.cpu_delay_ticks = 5;
                        assert(spec_service(&mid, &s, Ok(true)) && *self == (Sys {
                            cpu_delay_ticks: 5,
                            ..s
                        }));
                        assert(self.cpu_clock@ == old(self).cpu_clock@.advance().0);
                        assert(mid == (Sys { cpu_clock: self.cpu_clock, cpu_delay_ticks: 0, ..*old(self) }));
                        assert(old(self).speed_ctrl.stop_mcycles_left == 0);
                        assert(mid.interrupt_master_enable && pending_of(&mid.mem) != 0);
                        assert(spec_cpu_step(old(self), self));
                    },
                    Ok(false) => {
                        assert(*self == mid);
                        if self.cpu_enable {
                            let r = execute_next_instr(self);
                            let ghost s = *self;
                            match r {
                                Ok(cycles) => {
                                    self.cpu_delay_ticks = cycles;
                                },
                                Err(e) => {
                                    self.fail(e);
                                },
                            }
                            assert(s.cpu_clock == mid.cpu_clock);
                            assert(spec_next_instr(&mid, &s, r) && *self == spec_after_instr(s, r));
                            assert(self.cpu_clock@ == old(self).cpu_clock@.advance().0);
                            assert(mid == (Sys { cpu_clock: self.cpu_clock, cpu_delay_ticks: 0, ..*old(self) }));
                            assert(old(self).speed_ctrl.stop_mcycles_left == 0);
                            assert(spec_cpu_step(old(self), self));
                        }
                    },
                    Err(e) => {
                        let ghost s = *self;
                        self.fail(e);
                        assert(spec_service(&mid, &s, Err(e)) && *self == (Sys {
                            failure: Some(e),
                            hard_lock: true,
                            ..s
                        }));
                        assert(self.cpu_clock@ == old(self).cpu_clock@.advance().0);
                        assert(mid == (Sys { cpu_clock: self.cpu_clock, cpu_delay_ticks: 0, ..*old(self) }));
                        assert(old(self).speed_ctrl.stop_mcycles_left == 0);
                        assert(spec_cpu_step(old(self), self));
                    },
                }
            }
        }
    }

    /// Fails once the NOP count or the CPU ticks reach a debug guard.
    fn check_debug_guards(&mut self)
        requires
            old(self).wf(),
        ensures
            final(self).wf(),
            spec_guard_step(old(self), final(self)),
            final(self).mem == old(self).mem,
            final(self).ppu == old(self).ppu,
            final(self).regs == old(self).regs,
            final(self).speed_ctrl == old(self).speed_ctrl,
            final(self).cpu_clock == old(self).cpu_clock,
            final(self).div_timer_clock == old(self).div_timer_clock,
            final(self).tima_timer_clock == old(self).tima_timer_clock,
            final(self).cpu_delay_ticks == old(self).cpu_delay_ticks,
            final(self).options == old(self).options,
            final(self).nop_count == old(self).nop_count,
            old(self).hard_lock ==> final(self).hard_lock,
            old(self).failure is Some ==> final(self).failure == old(self).failure,
            (old(self).options.kill_after_nop_count matches Some(n) && old(self).nop_count >= n)
                ==> final(self).hard_lock,
            (old(self).options.kill_after_cpu_ticks matches Some(n) && old(self).cpu_clock@.total_ticks
                >= n) ==> final(self).hard_lock,
    {
        if self.failure.is_some() {
            return;
        }
        if let Some(limit) = self.options.kill_after_nop_count {
            if self.nop_count >= limit {
                self.fail(EmuError::DebugBudgetExceeded);
                return;
            }
        }
        if let Some(limit) = self.options.kill_after_cpu_ticks {
            if self.cpu_clock.total_ticks() >= limit {
                self.fail(EmuError::DebugBudgetExceeded);
            }
        }
    }

    /// Records a fatal failure: every later tick does nothing.
    pub fn fail(&mut self, e: EmuError)
        ensures
            *final(self) == (Sys { failure: Some(e), hard_lock: true, ..*old(self) }),
            final(self).hard_lock,
            final(self).failure == Some(e),
            final(self).mem == old(self).mem,
            final(self).ppu == old(self).ppu,
            final(self).regs == old(self).regs,
            final(self).speed_ctrl == old(self).speed_ctrl,
            final(self).cpu_clock == old(self).cpu_clock,
            final(self).div_timer_clock == old(self).div_timer_clock,
            final(self).tima_timer_clock == old(self).tima_timer_clock,
            final(self).options == old(self).options,
            final(self).joypad == old(self).joypad,
            final(self).cpu_delay_ticks == old(self).cpu_delay_ticks,
            final(self).nop_count == old(self).nop_count,
    {
        self.failure = Some(e);
        self.hard_lock = true;
    }
}

} // verus!
