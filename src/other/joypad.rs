use vstd::prelude::*;
use crate::mem::io_regs::IoReg;
use crate::sys::sys::Sys;
use crate::util::bits::{Bits, bit8, with_bits8};

verus! {

/// A Game Boy button. Its position is its bit in the pressed-buttons mask.
#[derive(Clone, Copy, Debug, PartialEq, Eq, Structural)]
pub enum Button {
    Up,
    Right,
    Down,
    Left,
    B,
    A,
    Start,
    Select,
}

impl Button {
    pub open spec fn spec_idx(self) -> u8 {
        match self {
            Button::Up => 0,
            Button::Right => 1,
            Button::Down => 2,
            Button::Left => 3,
            Button::B => 4,
            Button::A => 5,
            Button::Start => 6,
            Button::Select => 7,
        }
    }

    /// The button's bit in the pressed-buttons mask.
    pub fn idx(self) -> (r: u8)
        ensures
            r == self.spec_idx(),
    {
        match self {
            Button::Up => 0,
            Button::Right => 1,
            Button::Down => 2,
            Button::Left => 3,
            Button::B => 4,
            Button::A => 5,
            Button::Start => 6,
            Button::Select => 7,
        }
    }
}

/// Whether `button` is down in the pressed-buttons mask.
pub open spec fn is_down(pressed: u8, button: Button) -> bool {
    bit8(pressed, button.spec_idx()) == 1
}

/// Bit `idx` of the P1 nibble: 0 when a selected row holds that line's
/// button down. Lines 0..3 are A/Right, B/Left, Select/Up, Start/Down.
pub open spec fn line_low(p1: u8, pressed: u8, btn: Button, dpad: Button) -> bool {
    (bit8(p1, 5) == 0 && is_down(pressed, btn)) || (bit8(p1, 4) == 0 && is_down(pressed, dpad))
}

/// The low nibble of P1 for a selection in P1 bits 5..4 and the buttons down.
pub open spec fn spec_joypad_nibble(p1: u8, pressed: u8) -> u8 {
    ((if line_low(p1, pressed, Button::A, Button::Right) { 0u8 } else { 1u8 }) + (if line_low(
        p1,
        pressed,
        Button::B,
        Button::Left,
    ) {
        0u8
    } else {
        2u8
    }) + (if line_low(p1, pressed, Button::Select, Button::Up) { 0u8 } else { 4u8 }) + (if line_low(
        p1,
        pressed,
        Button::Start,
        Button::Down,
    ) {
        0u8
    } else {
        8u8
    })) as u8
}

fn line_bit(p1: u8, pressed: u8, btn: Button, dpad: Button) -> (r: bool)
    ensures
        r == line_low(p1, pressed, btn, dpad),
{
    (p1.bit(5) == 0 && pressed.bit(btn.idx()) == 1) || (p1.bit(4) == 0 && pressed.bit(dpad.idx())
        == 1)
}

/// The low nibble of P1: a line reads 0 when a selected row (bit 5 low:
/// buttons, bit 4 low: d-pad) holds its button down.
pub fn joypad_nibble(p1: u8, pressed: u8) -> (r: u8)
    ensures
        r == spec_joypad_nibble(p1, pressed),
{
    let b0: u8 = if line_bit(p1, pressed, Button::A, Button::Right) { 0 } else { 1 };
    let b1: u8 = if line_bit(p1, pressed, Button::B, Button::Left) { 0 } else { 2 };
    let b2: u8 = if line_bit(p1, pressed, Button::Select, Button::Up) { 0 } else { 4 };
    let b3: u8 = if line_bit(p1, pressed, Button::Start, Button::Down) { 0 } else { 8 };
    b0 + b1 + b2 + b3
}

/// What sampling the joypad does (see `handle_joypad_inputs`).
pub open spec fn spec_joypad_step(pre: &Sys, post: &Sys) -> bool {
    &&& post.mem.io_regs@ == pre.mem.io_regs@.set(
        IoReg::P1,
        with_bits8(
            pre.mem.io_regs@.get(IoReg::P1),
            3,
            0,
            spec_joypad_nibble(pre.mem.io_regs@.get(IoReg::P1), pre.joypad),
        )
    )
    &&& post.mem.cart == pre.mem.cart
    &&& post.mem.vram@ == pre.mem.vram@
    &&& post.mem.wram@ == pre.mem.wram@
    &&& post.mem.oam == pre.mem.oam
    &&& post.mem.hram == pre.mem.hram
    &&& post.ppu == pre.ppu
    &&& post.regs == pre.regs
    &&& post.speed_ctrl == pre.speed_ctrl
    &&& post.cpu_clock == pre.cpu_clock
    &&& post.div_timer_clock == pre.div_timer_clock
    &&& post.tima_timer_clock == pre.tima_timer_clock
    &&& post.hard_lock == pre.hard_lock
    &&& post.failure == pre.failure
    &&& post.cpu_delay_ticks == pre.cpu_delay_ticks
    &&& post.nop_count == pre.nop_count
    &&& post.mem.io_regs@.get(IoReg::Ly) == pre.mem.io_regs@.get(IoReg::Ly)
    &&& post.mem.io_regs@.get(IoReg::Stat) == pre.mem.io_regs@.get(IoReg::Stat)
    &&& post.options == pre.options
}

/// Samples the joypad input vector into P1 bits 3..0.
pub fn handle_joypad_inputs(sys: &mut Sys)
    requires
        old(sys).wf(),
    ensures
        final(sys).wf(),
        spec_joypad_step(old(sys), final(sys)),
{
    let p1 = sys.mem.get(IoReg::P1);
    let lo_4 = joypad_nibble(p1, sys.joypad);
    let mut v = p1;
    v.set_bits(3, 0, lo_4);
    sys.mem.set(IoReg::P1, v);
}

} // verus!
