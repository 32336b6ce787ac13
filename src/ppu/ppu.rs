use vstd::prelude::*;
use crate::cpu::interrupt::{request_interrupt, InterruptType};
use crate::mem::io_regs::IoReg;
use crate::ppu::dma_oam::{dma_src, update_oam_dma, DmaOam, DMA_DURATION_M_CYCLES};
use crate::mem::io_regs::is_io_addr;
use crate::ppu::dma_vram::{update_vram_dma, DmaVram};
use crate::ppu::render::{only_row_changed_fb, render_scanline, spec_render_row};
use crate::sys::speed::is_full_mcycle;
use crate::sys::sys::Sys;
use crate::util::bits::{Bits, bit8, lemma_bit8_of_with_bit8, with_bit8};

verus! {

pub const DOTS_PER_SCANLINE: u32 = 456;
pub const SCANLINES_PER_FRAME: u8 = 154;
pub const SCREEN_WIDTH: usize = 160;
pub const SCREEN_HEIGHT: usize = 144;

/// The PPU modes, in the order of their STAT[1:0] values.
#[derive(Clone, Copy, Debug, PartialEq, Eq, Structural)]
pub enum PpuMode {
    HBlank,
    VBlank,
    OamScan,
    Draw,
}

impl PpuMode {
    /// The value of STAT[1:0] in this mode.
    pub open spec fn spec_ordinal(self) -> u8 {
        match self {
            PpuMode::HBlank => 0,
            PpuMode::VBlank => 1,
            PpuMode::OamScan => 2,
            PpuMode::Draw => 3,
        }
    }

    pub fn ordinal(self) -> (r: u8)
        ensures
            r == self.spec_ordinal(),
    {
        match self {
            PpuMode::HBlank => 0,
            PpuMode::VBlank => 1,
            PpuMode::OamScan => 2,
            PpuMode::Draw => 3,
        }
    }
}

/// The mode at a dot of a scanline: scanlines 144..153 are VBlank; on the
/// others dots 0..79 scan OAM, the next 172 draw, and the rest are HBlank.
pub open spec fn spec_mode(dot: u32, scanline: u8) -> PpuMode {
    if scanline >= 144 {
        PpuMode::VBlank
    } else if dot < 80 {
        PpuMode::OamScan
    } else if dot < 80 + 172 {
        PpuMode::Draw
    } else {
        PpuMode::HBlank
    }
}

/// The PPU state.
pub struct Ppu {
    /// The dot within the current scanline, 0..455.
    pub curr_scanline_dot: u32,
    /// The current scanline, 0..153; LY reports it.
    pub ly: u8,
    pub total_frames_drawn: u64,
    pub mode: PpuMode,
    pub dma: DmaOam,
    pub hdma: DmaVram,
    /// The window's own line counter.
    pub window_line: u8,
    /// 160 x 144 RGB555 pixels, row after row.
    pub framebuffer: Vec<u16>,
}

impl Ppu {
    pub open spec fn wf(&self) -> bool {
        &&& self.curr_scanline_dot < DOTS_PER_SCANLINE
        &&& self.ly < SCANLINES_PER_FRAME
        &&& self.dma.wf()
        &&& self.hdma.wf()
        &&& self.framebuffer@.len() == SCREEN_WIDTH * SCREEN_HEIGHT
    }

    pub fn new() -> (r: Ppu)
        ensures
            r.wf(),
            r.curr_scanline_dot == 0,
            r.ly == 0,
            r.total_frames_drawn == 0,
            r.mode == spec_mode(0, 0),
            !r.dma.is_active,
            !r.hdma.is_active,
    {
        Ppu {
            curr_scanline_dot: 0,
            ly: 0,
            total_frames_drawn: 0,
            mode: PpuMode::OamScan,
            dma: DmaOam::new(),
            hdma: DmaVram::new(),
            window_line: 0,
            framebuffer: filled_u16(SCREEN_WIDTH * SCREEN_HEIGHT, 0x7FFF),
        }
    }

    pub fn total_frames_drawn(&self) -> (r: u64)
        ensures
            r == self.total_frames_drawn,
    {
        self.total_frames_drawn
    }

    pub fn mode(&self) -> (r: PpuMode)
        ensures
            r == self.mode,
    {
        self.mode
    }

    pub fn oam_dma_mut(&mut self) -> (r: &mut DmaOam)
        ensures
            *r == old(self).dma,
            final(self).dma == *final(r),
            final(self).curr_scanline_dot == old(self).curr_scanline_dot,
            final(self).ly == old(self).ly,
            final(self).mode == old(self).mode,
            final(self).hdma == old(self).hdma,
            final(self).framebuffer == old(self).framebuffer,
    {
        &mut self.dma
    }

    pub fn vram_dma_mut(&mut self) -> (r: &mut DmaVram)
        ensures
            *r == old(self).hdma,
            final(self).hdma == *final(r),
            final(self).curr_scanline_dot == old(self).curr_scanline_dot,
            final(self).ly == old(self).ly,
            final(self).mode == old(self).mode,
            final(self).dma == old(self).dma,
            final(self).framebuffer == old(self).framebuffer,
    {
        &mut self.hdma
    }

    /// The RGB555 pixels of the frame, row after row.
    pub fn framebuffer(&self) -> (r: &Vec<u16>)
        ensures
            r@ == self.framebuffer@,
    {
        &self.framebuffer
    }
}

/// A vector of `n` copies of `v`.
pub fn filled_u16(n: usize, v: u16) -> (r: Vec<u16>)
    ensures
        r@ == Seq::new(n as nat, |_i: int| v),
{
    let mut r: Vec<u16> = Vec::with_capacity(n);
    let mut i: usize = 0;
    while i < n
        invariant
            i <= n,
            r@ == Seq::new(i as nat, |_i: int| v),
        decreases n - i,
    {
        r.push(v);
        i = i + 1;
    }
    r
}

/// The mode at a dot of a scanline.
pub fn get_mode(dot: u32, scanline: u8) -> (r: PpuMode)
    ensures
        r == spec_mode(dot, scanline),
{
    if scanline >= 144 {
        PpuMode::VBlank
    } else if dot < 80 {
        PpuMode::OamScan
    } else if dot - 80 < 172 {
        PpuMode::Draw
    } else {
        PpuMode::HBlank
    }
}

} // verus!

verus! {

/// The dot and scanline after one dot.
pub open spec fn dot_step(dot: u32, ly: u8) -> (u32, u8) {
    if dot + 1 >= DOTS_PER_SCANLINE {
        (0, if ly + 1 >= SCANLINES_PER_FRAME { 0 } else { (ly + 1) as u8 })
    } else {
        ((dot + 1) as u32, ly)
    }
}

/// The position of a dot within a frame.
pub open spec fn frame_pos(dot: u32, ly: u8) -> int {
    ly * 456 + dot
}

/// The PPU's registers agree with its state: LY reports the scanline and
/// STAT[1:0] the mode, which is the mode of the current dot.
pub open spec fn ppu_synced(sys: &Sys) -> bool {
    &&& sys.mem.io_regs@.get(IoReg::Ly) == sys.ppu.ly
    &&& sys.mem.io_regs@.get(IoReg::Stat) & 3 == sys.ppu.mode.spec_ordinal()
    &&& sys.ppu.mode == spec_mode(sys.ppu.curr_scanline_dot, sys.ppu.ly)
}

/// Everything outside the PPU, the I/O registers and the render flag is
/// the same in `post`.
pub open spec fn ppu_frame(pre: &Sys, post: &Sys) -> bool {
    &&& post.mem.cart == pre.mem.cart
    &&& post.mem.vram@ == pre.mem.vram@
    &&& post.mem.wram@ == pre.mem.wram@
    &&& post.mem.oam == pre.mem.oam
    &&& post.mem.hram == pre.mem.hram
    &&& post.regs == pre.regs
    &&& post.speed_ctrl == pre.speed_ctrl
    &&& post.cpu_clock == pre.cpu_clock
    &&& post.div_timer_clock == pre.div_timer_clock
    &&& post.tima_timer_clock == pre.tima_timer_clock
    &&& post.hard_lock == pre.hard_lock
    &&& post.interrupt_master_enable == pre.interrupt_master_enable
    &&& post.options == pre.options
    &&& post.cpu_delay_ticks == pre.cpu_delay_ticks
    &&& post.halted == pre.halted
    &&& post.failure == pre.failure
    &&& post.joypad == pre.joypad
    &&& post.nop_count == pre.nop_count
    &&& post.cpu_enable == pre.cpu_enable
}

/// The STAT bit that selects the STAT interrupt on entry to a mode (none
/// for Draw).
pub open spec fn mode_select_bit(mode: PpuMode) -> Option<u8> {
    match mode {
        PpuMode::HBlank => Some(3),
        PpuMode::VBlank => Some(4),
        PpuMode::OamScan => Some(5),
        PpuMode::Draw => None,
    }
}

/// IF after entering `mode` with STAT select bits `stat`: VBlank requests
/// the VBlank interrupt, and a mode whose select bit is set requests STAT.
pub open spec fn if_after_mode(if_: u8, stat: u8, mode: PpuMode) -> u8 {
    let if1 = if mode == PpuMode::VBlank { with_bit8(if_, 0, 1) } else { if_ };
    match mode_select_bit(mode) {
        Some(b) => if bit8(stat, b) == 1 { with_bit8(if1, 1, 1) } else { if1 },
        None => if1,
    }
}

/// Writes LY, updates the LY==LYC flag (STAT bit 2), and requests a STAT
/// interrupt when the flag is set and STAT bit 6 selects it.
fn enter_scanline(sys: &mut Sys, scanline: u8)
    requires
        old(sys).wf(),
    ensures
        final(sys).mem.io_regs@.get(IoReg::Dma) == old(sys).mem.io_regs@.get(IoReg::Dma),
        final(sys).mem.io_regs@.get(IoReg::Vbk) == old(sys).mem.io_regs@.get(IoReg::Vbk),
        final(sys).mem.io_regs@.get(IoReg::Svbk) == old(sys).mem.io_regs@.get(IoReg::Svbk),
        final(sys).mem.io_regs@.dma_requested == old(sys).mem.io_regs@.dma_requested,
        final(sys).wf(),
        ppu_frame(old(sys), final(sys)),
        final(sys).is_render_pending == old(sys).is_render_pending,
        final(sys).ppu.curr_scanline_dot == old(sys).ppu.curr_scanline_dot,
        final(sys).ppu.ly == old(sys).ppu.ly,
        final(sys).ppu.mode == old(sys).ppu.mode,
        final(sys).ppu.total_frames_drawn == old(sys).ppu.total_frames_drawn,
        final(sys).ppu.dma == old(sys).ppu.dma,
        final(sys).ppu.hdma == old(sys).ppu.hdma,
        final(sys).ppu.framebuffer == old(sys).ppu.framebuffer,
        final(sys).mem.io_regs@.get(IoReg::Ly) == scanline,
        bit8(final(sys).mem.io_regs@.get(IoReg::Stat), 2) == (if scanline == old(
            sys,
        ).mem.io_regs@.get(IoReg::Lyc) {
            1u8
        } else {
            0u8
        }),
        final(sys).mem.io_regs@.get(IoReg::Stat) & 3 == old(sys).mem.io_regs@.get(IoReg::Stat) & 3,
        final(sys).mem.io_regs@.get(IoReg::Stat) & 0xF8 == old(sys).mem.io_regs@.get(IoReg::Stat)
            & 0xF8,
        final(sys).mem.io_regs@.get(IoReg::Lyc) == old(sys).mem.io_regs@.get(IoReg::Lyc),
        final(sys).mem.io_regs@.get(IoReg::If) == (if bit8(old(sys).mem.io_regs@.get(IoReg::Stat), 6)
            == 1 && scanline == old(sys).mem.io_regs@.get(IoReg::Lyc) {
            with_bit8(old(sys).mem.io_regs@.get(IoReg::If), 1, 1)
        } else {
            old(sys).mem.io_regs@.get(IoReg::If)
        }),
{
    sys.mem.set(IoReg::Ly, scanline);
    let lyc = sys.mem.get(IoReg::Lyc);
    let mut stat = sys.mem.get(IoReg::Stat);
    let old_stat = stat;
    let lyc_ly: u8 = if lyc == scanline { 1 } else { 0 };
    stat.set_bit(2, lyc_ly);
    assert(with_bit8(old_stat, 2, lyc_ly) & 3 == old_stat & 3) by (bit_vector);
    assert(with_bit8(old_stat, 2, lyc_ly) & 0xF8 == old_stat & 0xF8) by (bit_vector);
    proof {
        lemma_bit8_of_with_bit8(old_stat, 2, lyc_ly, 0);
        lemma_bit8_of_with_bit8(old_stat, 2, lyc_ly, 6);
    }
    assert((lyc_ly == 0 || lyc_ly == 1) ==> lyc_ly & 1 == lyc_ly) by (bit_vector);
    sys.mem.set(IoReg::Stat, stat);
    if scanline == 0 {
        sys.ppu.window_line = 0;
    }
    if stat.bit(6) == 1 && lyc_ly == 1 {
        request_interrupt(sys, InterruptType::Stat);
    }
}

/// Enters a PPU mode: VBlank marks a frame ready and requests the VBlank
/// interrupt; Draw renders the scanline; STAT[1:0] takes the mode, and a
/// STAT interrupt is requested if the mode's select bit (3 HBlank, 4 VBlank,
/// 5 OAM scan) is set.
fn enter_mode(sys: &mut Sys, mode: PpuMode)
    requires
        old(sys).wf(),
        old(sys).ppu.ly < 144 || mode != PpuMode::Draw,
    ensures
        final(sys).mem.io_regs@.get(IoReg::Dma) == old(sys).mem.io_regs@.get(IoReg::Dma),
        final(sys).mem.io_regs@.get(IoReg::Vbk) == old(sys).mem.io_regs@.get(IoReg::Vbk),
        final(sys).mem.io_regs@.get(IoReg::Svbk) == old(sys).mem.io_regs@.get(IoReg::Svbk),
        final(sys).mem.io_regs@.dma_requested == old(sys).mem.io_regs@.dma_requested,
        final(sys).wf(),
        ppu_frame(old(sys), final(sys)),
        final(sys).ppu.curr_scanline_dot == old(sys).ppu.curr_scanline_dot,
        final(sys).ppu.ly == old(sys).ppu.ly,
        final(sys).ppu.mode == mode,
        final(sys).ppu.total_frames_drawn == old(sys).ppu.total_frames_drawn,
        final(sys).ppu.dma == old(sys).ppu.dma,
        final(sys).ppu.hdma == old(sys).ppu.hdma,
        final(sys).mem.io_regs@.get(IoReg::Ly) == old(sys).mem.io_regs@.get(IoReg::Ly),
        final(sys).mem.io_regs@.get(IoReg::Stat) & 3 == mode.spec_ordinal(),
        final(sys).mem.io_regs@.get(IoReg::Stat) == (old(sys).mem.io_regs@.get(IoReg::Stat)
            & 0b1111_1100) | mode.spec_ordinal(),
        mode != PpuMode::Draw ==> final(sys).ppu.framebuffer == old(sys).ppu.framebuffer,
        final(sys).mem.io_regs@.get(IoReg::Lyc) == old(sys).mem.io_regs@.get(IoReg::Lyc),
        final(sys).mem.io_regs@.get(IoReg::Stat) & 0xF8 == old(sys).mem.io_regs@.get(IoReg::Stat)
            & 0xF8,
        bit8(final(sys).mem.io_regs@.get(IoReg::Stat), 2) == bit8(
            old(sys).mem.io_regs@.get(IoReg::Stat),
            2,
        ),
        mode == PpuMode::Draw ==> only_row_changed_fb(old(sys), final(sys), old(sys).ppu.ly),
        mode == PpuMode::Draw ==> final(sys).ppu.framebuffer@ == spec_render_row(
            &old(sys).mem,
            old(sys).ppu.framebuffer@,
            old(sys).ppu.ly,
            old(sys).ppu.window_line,
        ),
        final(sys).is_render_pending == (old(sys).is_render_pending || mode == PpuMode::VBlank),
        final(sys).mem.io_regs@.get(IoReg::If) == if_after_mode(
            old(sys).mem.io_regs@.get(IoReg::If),
            old(sys).mem.io_regs@.get(IoReg::Stat),
            mode,
        ),
{
    sys.ppu.mode = mode;
    match mode {
        PpuMode::VBlank => {
            sys.is_render_pending = true;
            request_interrupt(sys, InterruptType::VBlank);
        },
        PpuMode::Draw => {
            let ly = sys.ppu.ly;
            render_scanline(sys, ly);
        },
        _ => {},
    }
    let old_stat = sys.mem.get(IoReg::Stat);
    let ord = mode.ordinal();
    let stat = (old_stat & 0b1111_1100) | ord;
    assert(ord < 4 ==> ((old_stat & 0b1111_1100) | ord) & 3 == ord) by (bit_vector);
    assert(ord < 4 ==> ((old_stat & 0b1111_1100) | ord) & 0xF8 == old_stat & 0xF8) by (bit_vector);
    assert(ord < 4 ==> bit8((old_stat & 0b1111_1100) | ord, 2) == bit8(old_stat, 2)) by (bit_vector);
    assert(forall|b: u8|
        ord < 4 && 3 <= b < 8 ==> #[trigger] bit8((old_stat & 0b1111_1100) | ord, b) == bit8(
            old_stat,
            b,
        )) by (bit_vector);
    sys.mem.set(IoReg::Stat, stat);
    let sel: u8 = match mode {
        PpuMode::HBlank => 3,
        PpuMode::VBlank => 4,
        PpuMode::OamScan => 5,
        PpuMode::Draw => {
            return;
        },
    };
    if stat.bit(sel) == 1 {
        request_interrupt(sys, InterruptType::Stat);
    }
}

/// IF after one dot from (`dot`, `ly`), with STAT select bits `stat` and
/// LYC `lyc`: entering a scanline equal to LYC with STAT bit 6 set requests
/// STAT; entering a mode requests as `if_after_mode` says.
pub open spec fn if_after_dot(if_: u8, stat: u8, lyc: u8, dot: u32, ly: u8) -> u8 {
    let (d, l) = dot_step(dot, ly);
    let if1 = if d == 0 && bit8(stat, 6) == 1 && l == lyc { with_bit8(if_, 1, 1) } else { if_ };
    if spec_mode(dot, ly) != spec_mode(d, l) {
        if_after_mode(if1, stat, spec_mode(d, l))
    } else {
        if1
    }
}

/// IF after `n` dots from (`dot`, `ly`).
pub open spec fn if_after_dots(if_: u8, stat: u8, lyc: u8, dot: u32, ly: u8, n: nat) -> u8
    decreases n,
{
    if n == 0 {
        if_
    } else {
        let (d, l) = dot_step(dot, ly);
        if_after_dots(if_after_dot(if_, stat, lyc, dot, ly), stat, lyc, d, l, (n - 1) as nat)
    }
}

/// `n + 1` dots of IF are `n` dots followed by one more.
pub proof fn lemma_if_after_dots_snoc(if_: u8, stat: u8, lyc: u8, dot: u32, ly: u8, n: nat)
    ensures
        if_after_dots(if_, stat, lyc, dot, ly, n + 1) == if_after_dot(
            if_after_dots(if_, stat, lyc, dot, ly, n),
            stat,
            lyc,
            run_dots(dot, ly, n).0,
            run_dots(dot, ly, n).1,
        ),
    decreases n,
{
    let (d, l) = dot_step(dot, ly);
    if n > 0 {
        lemma_if_after_dots_snoc(if_after_dot(if_, stat, lyc, dot, ly), stat, lyc, d, l, (n - 1) as nat);
        assert(if_after_dots(if_, stat, lyc, dot, ly, n + 1) == if_after_dots(
            if_after_dot(if_, stat, lyc, dot, ly),
            stat,
            lyc,
            d,
            l,
            n,
        ));
        assert(run_dots(dot, ly, n) == run_dots(d, l, (n - 1) as nat));
    } else {
        assert(if_after_dots(if_, stat, lyc, dot, ly, 1) == if_after_dots(
            if_after_dot(if_, stat, lyc, dot, ly),
            stat,
            lyc,
            d,
            l,
            0,
        ));
    }
}

/// Whether a frame is ready after one dot from (`dot`, `ly`): it was, or
/// the dot enters VBlank.
pub open spec fn pending_after_dot(p: bool, dot: u32, ly: u8) -> bool {
    let (d, l) = dot_step(dot, ly);
    p || (spec_mode(dot, ly) != PpuMode::VBlank && spec_mode(d, l) == PpuMode::VBlank)
}

/// Whether a frame is ready after `n` dots from (`dot`, `ly`).
pub open spec fn pending_after_dots(p: bool, dot: u32, ly: u8, n: nat) -> bool
    decreases n,
{
    if n == 0 {
        p
    } else {
        let (d, l) = dot_step(dot, ly);
        pending_after_dots(pending_after_dot(p, dot, ly), d, l, (n - 1) as nat)
    }
}

/// `n + 1` dots are `n` dots followed by one more.
pub proof fn lemma_pending_after_dots_snoc(p: bool, dot: u32, ly: u8, n: nat)
    ensures
        pending_after_dots(p, dot, ly, n + 1) == pending_after_dot(
            pending_after_dots(p, dot, ly, n),
            run_dots(dot, ly, n).0,
            run_dots(dot, ly, n).1,
        ),
    decreases n,
{
    let (d, l) = dot_step(dot, ly);
    if n > 0 {
        lemma_pending_after_dots_snoc(pending_after_dot(p, dot, ly), d, l, (n - 1) as nat);
        assert(pending_after_dots(p, dot, ly, n + 1) == pending_after_dots(
            pending_after_dot(p, dot, ly),
            d,
            l,
            n,
        ));
        assert(run_dots(dot, ly, n) == run_dots(d, l, (n - 1) as nat));
    } else {
        assert(pending_after_dots(p, dot, ly, 1) == pending_after_dots(
            pending_after_dot(p, dot, ly),
            d,
            l,
            0,
        ));
    }
}

/// STAT bit 2 reports whether LY equals LYC.
pub open spec fn lyc_flag_ok(sys: &Sys) -> bool {
    bit8(sys.mem.io_regs@.get(IoReg::Stat), 2) == (if sys.mem.io_regs@.get(IoReg::Ly)
        == sys.mem.io_regs@.get(IoReg::Lyc) {
        1u8
    } else {
        0u8
    })
}

/// Advances the PPU by one dot.
fn update(sys: &mut Sys)
    requires
        old(sys).wf(),
    ensures
        final(sys).mem.io_regs@.get(IoReg::Dma) == old(sys).mem.io_regs@.get(IoReg::Dma),
        final(sys).mem.io_regs@.get(IoReg::Vbk) == old(sys).mem.io_regs@.get(IoReg::Vbk),
        final(sys).mem.io_regs@.get(IoReg::Svbk) == old(sys).mem.io_regs@.get(IoReg::Svbk),
        final(sys).mem.io_regs@.dma_requested == old(sys).mem.io_regs@.dma_requested,
        final(sys).wf(),
        ppu_frame(old(sys), final(sys)),
        (final(sys).ppu.curr_scanline_dot, final(sys).ppu.ly) == dot_step(
            old(sys).ppu.curr_scanline_dot,
            old(sys).ppu.ly,
        ),
        final(sys).ppu.total_frames_drawn == (if frame_pos(
            old(sys).ppu.curr_scanline_dot,
            old(sys).ppu.ly,
        ) == 456 * 154 - 1 {
            ((old(sys).ppu.total_frames_drawn + 1) % 0x1_0000_0000_0000_0000int) as u64
        } else {
            old(sys).ppu.total_frames_drawn
        }),
        final(sys).ppu.dma == old(sys).ppu.dma,
        final(sys).ppu.hdma == old(sys).ppu.hdma,
        ppu_synced(old(sys)) ==> ppu_synced(final(sys)),
        final(sys).mem.io_regs@.get(IoReg::Stat) & 0xF8 == old(sys).mem.io_regs@.get(IoReg::Stat)
            & 0xF8,
        final(sys).mem.io_regs@.get(IoReg::Lyc) == old(sys).mem.io_regs@.get(IoReg::Lyc),
        lyc_flag_ok(old(sys)) ==> lyc_flag_ok(final(sys)),
        final(sys).is_render_pending == pending_after_dot(
            old(sys).is_render_pending,
            old(sys).ppu.curr_scanline_dot,
            old(sys).ppu.ly,
        ),
        final(sys).mem.io_regs@.get(IoReg::If) == if_after_dot(
            old(sys).mem.io_regs@.get(IoReg::If),
            old(sys).mem.io_regs@.get(IoReg::Stat),
            old(sys).mem.io_regs@.get(IoReg::Lyc),
            old(sys).ppu.curr_scanline_dot,
            old(sys).ppu.ly,
        ),
        spec_mode(old(sys).ppu.curr_scanline_dot, old(sys).ppu.ly) != spec_mode(
            final(sys).ppu.curr_scanline_dot,
            final(sys).ppu.ly,
        ) && old(sys).ppu.curr_scanline_dot + 1 >= DOTS_PER_SCANLINE ==> ppu_synced(final(sys)),
{
    let mut ly = sys.ppu.ly;
    let prev_mode = get_mode(sys.ppu.curr_scanline_dot, ly);
    sys.ppu.curr_scanline_dot = sys.ppu.curr_scanline_dot + 1;
    if sys.ppu.curr_scanline_dot >= DOTS_PER_SCANLINE {
        sys.ppu.curr_scanline_dot = 0;
        if ly + 1 >= SCANLINES_PER_FRAME {
            ly = 0;
            sys.ppu.total_frames_drawn = sys.ppu.total_frames_drawn.wrapping_add(1);
        } else {
            ly = ly + 1;
        }
        sys.ppu.ly = ly;
        enter_scanline(sys, ly);
    }
    let next_mode = get_mode(sys.ppu.curr_scanline_dot, ly);
    let ghost s0 = old(sys).mem.io_regs@.get(IoReg::Stat);
    let ghost s1 = sys.mem.io_regs@.get(IoReg::Stat);
    proof {
        assert(s1 & 0xF8 == s0 & 0xF8 ==> bit8(s1, 3) == bit8(s0, 3) && bit8(s1, 4) == bit8(s0, 4)
            && bit8(s1, 5) == bit8(s0, 5) && bit8(s1, 6) == bit8(s0, 6)) by (bit_vector);
    }
    if prev_mode != next_mode {
        enter_mode(sys, next_mode);
    }
}

/// What one M-cycle does to the PPU and the DMA engines (see `update_ppu`).
pub open spec fn spec_ppu_step(pre: &Sys, post: &Sys) -> bool {
    &&& post.regs == pre.regs
    &&& post.speed_ctrl == pre.speed_ctrl
    &&& post.cpu_clock == pre.cpu_clock
    &&& post.div_timer_clock == pre.div_timer_clock
    &&& post.tima_timer_clock == pre.tima_timer_clock
    &&& post.hard_lock == pre.hard_lock
    &&& post.interrupt_master_enable == pre.interrupt_master_enable
    &&& post.options == pre.options
    &&& post.cpu_delay_ticks == pre.cpu_delay_ticks
    &&& post.halted == pre.halted
    &&& post.failure == pre.failure
    &&& post.joypad == pre.joypad
    &&& post.nop_count == pre.nop_count
    &&& post.cpu_enable == pre.cpu_enable
    &&& post.mem.cart == pre.mem.cart
    &&& ppu_synced(pre) ==> ppu_synced(post)
    &&& post.mem.io_regs@.get(IoReg::Stat) & 0xF8 == pre.mem.io_regs@.get(IoReg::Stat) & 0xF8
    &&& post.mem.io_regs@.get(IoReg::Lyc) == pre.mem.io_regs@.get(IoReg::Lyc)
    &&& lyc_flag_ok(pre) ==> lyc_flag_ok(post)
    &&& ({
        // The OAM DMA step after the dots: the dots touch neither OAM, nor
        // the DMA state, nor DMA.
        let started = pre.mem.io_regs@.dma_requested;
        let idx: u16 = if started { 0 } else { pre.ppu.dma.next_idx };
        let src = dma_src(pre.mem.io_regs@, idx);
        &&& !post.mem.io_regs@.dma_requested
        &&& (started || pre.ppu.dma.is_active) ==> post.ppu.dma == (if idx + 1
            >= DMA_DURATION_M_CYCLES {
            DmaOam { is_active: false, next_idx: 0 }
        } else {
            DmaOam { is_active: true, next_idx: (idx + 1) as u16 }
        })
        &&& (started || pre.ppu.dma.is_active) && !is_io_addr(src) ==> post.mem.oam.data@
            == pre.mem.oam.data@.update(idx as int, pre.mem.spec_read(src))
        &&& !(started || pre.ppu.dma.is_active) ==> post.mem.oam == pre.mem.oam && post.ppu.dma
            == pre.ppu.dma
    })
    &&& post.is_render_pending == pending_after_dots(
        pre.is_render_pending,
        pre.ppu.curr_scanline_dot,
        pre.ppu.ly,
        if pre.speed_ctrl.mcycle == 0 { 4 } else { 0 },
    )
    &&& post.mem.io_regs@.get(IoReg::If) == if_after_dots(
        pre.mem.io_regs@.get(IoReg::If),
        pre.mem.io_regs@.get(IoReg::Stat),
        pre.mem.io_regs@.get(IoReg::Lyc),
        pre.ppu.curr_scanline_dot,
        pre.ppu.ly,
        if pre.speed_ctrl.mcycle == 0 { 4 } else { 0 },
    )
    &&& ({
        let n: nat = if pre.speed_ctrl.mcycle == 0 { 4 } else { 0 };
        let dot = pre.ppu.curr_scanline_dot;
        let ly = pre.ppu.ly;
        &&& (post.ppu.curr_scanline_dot, post.ppu.ly) == run_dots(dot, ly, n)
        &&& post.ppu.total_frames_drawn == (pre.ppu.total_frames_drawn + frames_in(
            dot,
            ly,
            n,
        )) % 0x1_0000_0000_0000_0000int
    })
}

/// Advances the PPU by one M-cycle: four dots on a full M-cycle, then one
/// step of OAM DMA, then, on a full M-cycle, one step of VRAM DMA.
pub fn update_ppu(sys: &mut Sys)
    requires
        old(sys).wf(),
    ensures
        final(sys).wf(),
        spec_ppu_step(old(sys), final(sys)),
{
    if is_full_mcycle(sys) {
        let mut i: u8 = 0;
        while i < 4
            invariant
                sys.wf(),
                ppu_frame(old(sys), sys),
                ppu_synced(old(sys)) ==> ppu_synced(sys),
                sys.mem.io_regs@.get(IoReg::Stat) & 0xF8 == old(sys).mem.io_regs@.get(IoReg::Stat)
                    & 0xF8,
                sys.mem.io_regs@.get(IoReg::Lyc) == old(sys).mem.io_regs@.get(IoReg::Lyc),
                sys.mem.io_regs@.get(IoReg::Dma) == old(sys).mem.io_regs@.get(IoReg::Dma),
                sys.mem.io_regs@.get(IoReg::Vbk) == old(sys).mem.io_regs@.get(IoReg::Vbk),
                sys.mem.io_regs@.get(IoReg::Svbk) == old(sys).mem.io_regs@.get(IoReg::Svbk),
                sys.mem.io_regs@.dma_requested == old(sys).mem.io_regs@.dma_requested,
                sys.ppu.dma == old(sys).ppu.dma,
                sys.is_render_pending == pending_after_dots(
                    old(sys).is_render_pending,
                    old(sys).ppu.curr_scanline_dot,
                    old(sys).ppu.ly,
                    i as nat,
                ),
                lyc_flag_ok(old(sys)) ==> lyc_flag_ok(sys),
                sys.mem.io_regs@.get(IoReg::If) == if_after_dots(
                    old(sys).mem.io_regs@.get(IoReg::If),
                    old(sys).mem.io_regs@.get(IoReg::Stat),
                    old(sys).mem.io_regs@.get(IoReg::Lyc),
                    old(sys).ppu.curr_scanline_dot,
                    old(sys).ppu.ly,
                    i as nat,
                ),
                i <= 4,
                (sys.ppu.curr_scanline_dot, sys.ppu.ly) == run_dots(
                    old(sys).ppu.curr_scanline_dot,
                    old(sys).ppu.ly,
                    i as nat,
                ),
                sys.ppu.total_frames_drawn == (old(sys).ppu.total_frames_drawn + frames_in(
                    old(sys).ppu.curr_scanline_dot,
                    old(sys).ppu.ly,
                    i as nat,
                )) % 0x1_0000_0000_0000_0000int,
            decreases 4 - i,
        {
            let ghost si = sys.mem.io_regs@.get(IoReg::Stat);
            let ghost s0 = old(sys).mem.io_regs@.get(IoReg::Stat);
            proof {
                assert(si & 0xF8 == s0 & 0xF8 ==> bit8(si, 3) == bit8(s0, 3) && bit8(si, 4) == bit8(
                    s0,
                    4,
                ) && bit8(si, 5) == bit8(s0, 5) && bit8(si, 6) == bit8(s0, 6)) by (bit_vector);
                lemma_run_dots_snoc(old(sys).ppu.curr_scanline_dot, old(sys).ppu.ly, i as nat);
                lemma_pending_after_dots_snoc(
                    old(sys).is_render_pending,
                    old(sys).ppu.curr_scanline_dot,
                    old(sys).ppu.ly,
                    i as nat,
                );
                lemma_if_after_dots_snoc(
                    old(sys).mem.io_regs@.get(IoReg::If),
                    old(sys).mem.io_regs@.get(IoReg::Stat),
                    old(sys).mem.io_regs@.get(IoReg::Lyc),
                    old(sys).ppu.curr_scanline_dot,
                    old(sys).ppu.ly,
                    i as nat,
                );
            }
            update(sys);
            i = i + 1;
        }
    }
    let ghost mid = *sys;
    update_oam_dma(sys);
    proof {
        let idx: u16 = if old(sys).mem.io_regs@.dma_requested { 0 } else { old(sys).ppu.dma.next_idx };
        let src = dma_src(old(sys).mem.io_regs@, idx);
        assert(mid.mem.io_regs@.get(IoReg::Dma) == old(sys).mem.io_regs@.get(IoReg::Dma));
        if !is_io_addr(src) {
            assert(mid.mem.spec_read(src) == old(sys).mem.spec_read(src));
        }
    }
    if is_full_mcycle(sys) {
        update_vram_dma(sys);
    }
}

} // verus!

verus! {

/// Dots in a frame: 456 per scanline × 154 scanlines.
pub open spec fn frame_dots() -> int {
    456int * 154int
}

/// The dot and scanline after `n` dots.
pub open spec fn run_dots(dot: u32, ly: u8, n: nat) -> (u32, u8)
    decreases n,
{
    if n == 0 {
        (dot, ly)
    } else {
        let (d, l) = dot_step(dot, ly);
        run_dots(d, l, (n - 1) as nat)
    }
}

/// How many times the frame counter advances in `n` dots: once per step
/// from the last dot of a frame.
pub open spec fn frames_in(dot: u32, ly: u8, n: nat) -> nat
    decreases n,
{
    if n == 0 {
        0
    } else {
        let (d, l) = dot_step(dot, ly);
        (if frame_pos(dot, ly) == frame_dots() - 1 { 1nat } else { 0nat }) + frames_in(
            d,
            l,
            (n - 1) as nat,
        )
    }
}

/// `n + 1` dots are `n` dots followed by one more.
pub proof fn lemma_run_dots_snoc(dot: u32, ly: u8, n: nat)
    ensures
        run_dots(dot, ly, n + 1) == dot_step(run_dots(dot, ly, n).0, run_dots(dot, ly, n).1),
        frames_in(dot, ly, n + 1) == frames_in(dot, ly, n) + (if frame_pos(
            run_dots(dot, ly, n).0,
            run_dots(dot, ly, n).1,
        ) == frame_dots() - 1 {
            1nat
        } else {
            0nat
        }),
    decreases n,
{
    let (d, l) = dot_step(dot, ly);
    assert(run_dots(dot, ly, n + 1) == run_dots(d, l, n));
    assert(frames_in(dot, ly, n + 1) == (if frame_pos(dot, ly) == frame_dots() - 1 {
        1nat
    } else {
        0nat
    }) + frames_in(d, l, n));
    if n > 0 {
        lemma_run_dots_snoc(d, l, (n - 1) as nat);
        assert(run_dots(dot, ly, n) == run_dots(d, l, (n - 1) as nat));
        assert(frames_in(dot, ly, n) == (if frame_pos(dot, ly) == frame_dots() - 1 {
            1nat
        } else {
            0nat
        }) + frames_in(d, l, (n - 1) as nat));
    } else {
        assert(run_dots(d, l, 0) == (d, l));
        assert(frames_in(d, l, 0) == 0);
    }
}

/// One dot moves one position forward in the frame, wrapping after the last.
pub proof fn lemma_dot_step_pos(dot: u32, ly: u8)
    requires
        dot < DOTS_PER_SCANLINE,
        ly < SCANLINES_PER_FRAME,
    ensures
        dot_step(dot, ly).0 < DOTS_PER_SCANLINE,
        dot_step(dot, ly).1 < SCANLINES_PER_FRAME,
        frame_pos(dot_step(dot, ly).0, dot_step(dot, ly).1) == (frame_pos(dot, ly) + 1)
            % frame_dots(),
{
    let p = frame_pos(dot, ly);
    assert(0 <= p < frame_dots()) by (nonlinear_arith)
        requires
            p == ly * 456 + dot,
            dot < 456,
            ly < 154,
    ;
    if dot + 1 >= 456 {
        if ly + 1 >= 154 {
            assert(p == frame_dots() - 1);
        } else {
            assert(frame_pos(0, (ly + 1) as u8) == p + 1);
        }
    }
}

/// Position and frame count after `n` dots from any position: the
/// position moves `n` forward modulo the frame, and the counter advances
/// once for each frame boundary crossed.
pub proof fn lemma_run_dots(dot: u32, ly: u8, n: nat)
    requires
        dot < DOTS_PER_SCANLINE,
        ly < SCANLINES_PER_FRAME,
    ensures
        run_dots(dot, ly, n).0 < DOTS_PER_SCANLINE,
        run_dots(dot, ly, n).1 < SCANLINES_PER_FRAME,
        frame_pos(run_dots(dot, ly, n).0, run_dots(dot, ly, n).1) == (frame_pos(dot, ly) + n)
            % frame_dots(),
        frames_in(dot, ly, n) == (frame_pos(dot, ly) + n) / frame_dots(),
    decreases n,
{
    let p = frame_pos(dot, ly);
    assert(0 <= p < frame_dots()) by (nonlinear_arith)
        requires
            p == ly * 456 + dot,
            dot < 456,
            ly < 154,
    ;
    if n > 0 {
        let (d, l) = dot_step(dot, ly);
        lemma_dot_step_pos(dot, ly);
        lemma_run_dots(d, l, (n - 1) as nat);
        let m = (n - 1) as int;
        if p == frame_dots() - 1 {
            assert(frame_pos(d, l) == 0);
            assert((p + n) == frame_dots() + m);
            assert((frame_dots() + m) % frame_dots() == m % frame_dots()) by (nonlinear_arith)
                requires
                    m >= 0,
            ;
            assert((frame_dots() + m) / frame_dots() == 1 + m / frame_dots()) by (
            nonlinear_arith)
                requires
                    m >= 0,
            ;
        } else {
            assert(frame_pos(d, l) == p + 1);
        }
    }
}

/// A frame lasts 456 × 154 dots: from the first dot of a frame, that many
/// dots bring the PPU back to the first dot with the frame counter advanced
/// exactly once.
pub proof fn lemma_frame_length()
    ensures
        run_dots(0, 0, frame_dots() as nat) == (0u32, 0u8),
        frames_in(0, 0, frame_dots() as nat) == 1,
{
    lemma_run_dots(0, 0, frame_dots() as nat);
    let (d, l) = run_dots(0, 0, frame_dots() as nat);
    assert(frame_pos(d, l) == 0);
    assert(l as int * 456 + d as int == 0);
}

} // verus!

verus! {

/// `a + b` dots are `a` dots then `b` more; the frame count adds up.
pub proof fn lemma_run_dots_add(dot: u32, ly: u8, a: nat, b: nat)
    ensures
        run_dots(dot, ly, a + b) == run_dots(run_dots(dot, ly, a).0, run_dots(dot, ly, a).1, b),
        frames_in(dot, ly, a + b) == frames_in(dot, ly, a) + frames_in(
            run_dots(dot, ly, a).0,
            run_dots(dot, ly, a).1,
            b,
        ),
    decreases a,
{
    if a > 0 {
        let (d, l) = dot_step(dot, ly);
        lemma_run_dots_add(d, l, (a - 1) as nat, b);
        assert((a - 1) as nat + b == (a + b - 1) as nat);
    }
}

/// A frame lasts 17556 single-speed M-cycles of the PPU: if each of
/// `states[i] → states[i + 1]` is an M-cycle of `update_ppu` on a full
/// M-cycle, starting at dot 0 of line 0, the PPU is back at dot 0 of line 0
/// after the last one with the frame counter advanced by one, and not
/// before.
pub proof fn lemma_frame_in_mcycles(states: Seq<Sys>)
    requires
        states.len() == 17557,
        states[0].ppu.curr_scanline_dot == 0,
        states[0].ppu.ly == 0,
        states[0].ppu.total_frames_drawn < u64::MAX,
        forall|i: int|
            0 <= i < 17556 ==> #[trigger] spec_ppu_step(&states[i], &states[i + 1])
                && states[i].speed_ctrl.mcycle == 0,
    ensures
        states[17556].ppu.curr_scanline_dot == 0,
        states[17556].ppu.ly == 0,
        states[17556].ppu.total_frames_drawn == states[0].ppu.total_frames_drawn + 1,
        forall|i: int|
            0 < i < 17556 ==> #[trigger] states[i].ppu.total_frames_drawn
                == states[0].ppu.total_frames_drawn,
{
    lemma_frame_prefix(states, 17556);
    lemma_run_dots(0, 0, 4 * 17556);
    let (d, l) = run_dots(0, 0, 4 * 17556);
    assert(frame_pos(0, 0) == 0);
    assert(4 * 17556 == frame_dots());
    assert((0int + 4 * 17556) % frame_dots() == 0);
    assert((0int + 4 * 17556) / frame_dots() == 1);
    assert(frame_pos(d, l) == 0);
    assert(l as int * 456 + d as int == 0);
    assert forall|i: int| 0 < i < 17556 implies #[trigger] states[i].ppu.total_frames_drawn
        == states[0].ppu.total_frames_drawn by {
        lemma_frame_prefix(states, i);
        lemma_run_dots(0, 0, (4 * i) as nat);
        assert((4 * i) / frame_dots() == 0);
    }
}

proof fn lemma_frame_prefix(states: Seq<Sys>, k: int)
    requires
        states.len() == 17557,
        states[0].ppu.curr_scanline_dot == 0,
        states[0].ppu.ly == 0,
        states[0].ppu.total_frames_drawn < u64::MAX,
        forall|i: int|
            0 <= i < 17556 ==> #[trigger] spec_ppu_step(&states[i], &states[i + 1])
                && states[i].speed_ctrl.mcycle == 0,
        0 <= k <= 17556,
    ensures
        (states[k].ppu.curr_scanline_dot, states[k].ppu.ly) == run_dots(0, 0, (4 * k) as nat),
        states[k].ppu.total_frames_drawn == states[0].ppu.total_frames_drawn + frames_in(
            0,
            0,
            (4 * k) as nat,
        ),
    decreases k,
{
    if k > 0 {
        lemma_frame_prefix(states, k - 1);
        assert(spec_ppu_step(&states[(k - 1)], &states[(k - 1) + 1]));
        let (d, l) = run_dots(0, 0, (4 * (k - 1)) as nat);
        lemma_run_dots_add(0, 0, (4 * (k - 1)) as nat, 4);
        assert((4 * (k - 1)) as nat + 4 == (4 * k) as nat);
        lemma_run_dots(0, 0, (4 * k) as nat);
        assert((4 * k) / frame_dots() <= 1);
    }
}

} // verus!

verus! {

/// Whether the dot from (`dot`, `ly`) requests the STAT interrupt, with STAT
/// select bits `stat` and LYC `lyc` (see `if_after_dot`).
pub open spec fn stat_request_at(stat: u8, lyc: u8, dot: u32, ly: u8) -> bool {
    let (d, l) = dot_step(dot, ly);
    let m = spec_mode(d, l);
    (d == 0 && bit8(stat, 6) == 1 && l == lyc) || (spec_mode(dot, ly) != m && match mode_select_bit(m) {
        Some(b) => bit8(stat, b) == 1,
        None => false,
    })
}

/// The number of STAT requests in `n` dots from (`dot`, `ly`).
pub open spec fn stat_requests(stat: u8, lyc: u8, dot: u32, ly: u8, n: nat) -> nat
    decreases n,
{
    if n == 0 {
        0
    } else {
        let (d, l) = dot_step(dot, ly);
        (if stat_request_at(stat, lyc, dot, ly) { 1nat } else { 0nat }) + stat_requests(
            stat,
            lyc,
            d,
            l,
            (n - 1) as nat,
        )
    }
}

proof fn lemma_requests_rest_of_line(stat: u8, lyc: u8, dot: u32, ly: u8)
    requires
        dot < 456,
        ly < 154,
        bit8(stat, 3) == 1,
        bit8(stat, 4) == 0,
        bit8(stat, 5) == 0,
        bit8(stat, 6) == 0,
    ensures
        stat_requests(stat, lyc, dot, ly, (456 - dot) as nat) == (if ly < 144 && dot <= 251 {
            1nat
        } else {
            0nat
        }),
        run_dots(dot, ly, (456 - dot) as nat) == (0u32, (if ly + 1 >= 154 { 0 } else { ly + 1 }) as u8),
    decreases 456 - dot,
{
    let (d, l) = dot_step(dot, ly);
    if dot < 455 {
        lemma_requests_rest_of_line(stat, lyc, d, l);
        assert((456 - dot) as nat - 1 == (456 - d) as nat);
    } else {
        assert(run_dots(d, l, 0) == (d, l));
        assert(stat_requests(stat, lyc, d, l, 0) == 0);
    }
}

proof fn lemma_requests_from_line(stat: u8, lyc: u8, ly: u8)
    requires
        ly < 154,
        bit8(stat, 3) == 1,
        bit8(stat, 4) == 0,
        bit8(stat, 5) == 0,
        bit8(stat, 6) == 0,
    ensures
        stat_requests(stat, lyc, 0, ly, ((154 - ly) * 456) as nat) == (if ly < 144 {
            (144 - ly) as nat
        } else {
            0nat
        }),
    decreases 154 - ly,
{
    lemma_requests_rest_of_line(stat, lyc, 0, ly);
    if ly < 153 {
        lemma_requests_from_line(stat, lyc, (ly + 1) as u8);
        lemma_requests_add(stat, lyc, 0, ly, 456, ((154 - ly - 1) * 456) as nat);
        assert(((154 - ly) * 456) as nat == 456 + ((154 - ly - 1) * 456) as nat) by (nonlinear_arith)
            requires
                ly < 153,
        ;
    }
}

/// `a + b` dots request as many times as `a` dots and then `b` more.
pub proof fn lemma_requests_add(stat: u8, lyc: u8, dot: u32, ly: u8, a: nat, b: nat)
    ensures
        stat_requests(stat, lyc, dot, ly, a + b) == stat_requests(stat, lyc, dot, ly, a)
            + stat_requests(stat, lyc, run_dots(dot, ly, a).0, run_dots(dot, ly, a).1, b),
    decreases a,
{
    if a > 0 {
        let (d, l) = dot_step(dot, ly);
        lemma_requests_add(stat, lyc, d, l, (a - 1) as nat, b);
        assert((a - 1) as nat + b == (a + b - 1) as nat);
    }
}

/// With only the HBlank source selected in STAT (bit 3 set, bits 4 to 6
/// clear), the PPU requests the STAT interrupt exactly 144 times in a frame:
/// once on entering HBlank on each visible line.
pub proof fn lemma_hblank_requests_per_frame(stat: u8, lyc: u8)
    requires
        bit8(stat, 3) == 1,
        bit8(stat, 4) == 0,
        bit8(stat, 5) == 0,
        bit8(stat, 6) == 0,
    ensures
        stat_requests(stat, lyc, 0, 0, frame_dots() as nat) == 144,
{
    lemma_requests_from_line(stat, lyc, 0);
}

} // verus!

verus! {

/// After a dot, IF bit 1 (STAT) is set exactly when it was set or the dot
/// requests the STAT interrupt: `stat_requests` counts what `update_ppu`
/// does to IF.
pub proof fn lemma_if_after_dot_stat_bit(if_: u8, stat: u8, lyc: u8, dot: u32, ly: u8)
    ensures
        bit8(if_after_dot(if_, stat, lyc, dot, ly), 1) == (if bit8(if_, 1) == 1 || stat_request_at(
            stat,
            lyc,
            dot,
            ly,
        ) {
            1u8
        } else {
            0u8
        }),
{
    let (d, l) = dot_step(dot, ly);
    let if1 = if d == 0 && bit8(stat, 6) == 1 && l == lyc { with_bit8(if_, 1, 1) } else { if_ };
    assert(bit8(with_bit8(if_, 1, 1), 1) == 1) by (bit_vector);
    assert(bit8(with_bit8(if1, 1, 1), 1) == 1) by (bit_vector);
    assert(bit8(with_bit8(if1, 0, 1), 1) == bit8(if1, 1)) by (bit_vector);
    let if2 = with_bit8(if1, 0, 1);
    assert(bit8(with_bit8(if2, 1, 1), 1) == 1) by (bit_vector);
    assert(bit8(if_, 1) == 1 || bit8(if_, 1) == 0) by (bit_vector);
}

} // verus!
