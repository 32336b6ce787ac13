use vstd::prelude::*;
use crate::mem::io_regs::{IoReg, IoRegsView};
use crate::sys::sys::Sys;

verus! {

/// M-cycles of an OAM DMA transfer, one byte each.
pub const DMA_DURATION_M_CYCLES: u16 = 160;

/// The OAM DMA transfer state.
#[derive(Clone, Copy, Debug, PartialEq, Eq, Structural)]
pub struct DmaOam {
    pub is_active: bool,
    /// The offset of the next byte to copy.
    pub next_idx: u16,
}

impl DmaOam {
    pub open spec fn wf(&self) -> bool {
        self.next_idx < DMA_DURATION_M_CYCLES
    }

    pub fn new() -> (r: DmaOam)
        ensures
            r == (DmaOam { is_active: false, next_idx: 0 }),
    {
        DmaOam { is_active: false, next_idx: 0 }
    }
}

/// The source address of byte `idx` of a transfer: DMA × 0x100 + idx.
pub open spec fn dma_src(io: IoRegsView, idx: u16) -> u16 {
    (io.get(IoReg::Dma) as u16 * 0x100 + idx) as u16
}

/// What one M-cycle does to the OAM DMA engine (see `update_oam_dma`).
pub open spec fn spec_oam_dma_step(pre: &Sys, post: &Sys) -> bool {
    &&& ({
        let started = pre.mem.io_regs@.dma_requested;
        let active = started || pre.ppu.dma.is_active;
        let idx: u16 = if started { 0 } else { pre.ppu.dma.next_idx };
        let io = if started {
            IoRegsView { dma_requested: false, ..pre.mem.io_regs@ }
        } else {
            pre.mem.io_regs@
        };
        &&& post.mem.io_regs@ == io
        &&& active ==> post.mem.oam.data@ == pre.mem.oam.data@.update(
            idx as int,
            pre.mem.spec_read(dma_src(io, idx)),
        )
        &&& active ==> post.ppu.dma == (if idx + 1 >= DMA_DURATION_M_CYCLES {
            DmaOam { is_active: false, next_idx: 0 }
        } else {
            DmaOam { is_active: true, next_idx: (idx + 1) as u16 }
        })
        &&& !active ==> post.mem.oam == pre.mem.oam && post.ppu.dma
            == pre.ppu.dma
    })
    &&& post.mem.cart == pre.mem.cart
    &&& post.mem.vram@ == pre.mem.vram@
    &&& post.mem.wram@ == pre.mem.wram@
    &&& post.mem.hram == pre.mem.hram
    &&& post.ppu.curr_scanline_dot == pre.ppu.curr_scanline_dot
    &&& post.ppu.ly == pre.ppu.ly
    &&& post.ppu.mode == pre.ppu.mode
    &&& post.ppu.total_frames_drawn == pre.ppu.total_frames_drawn
    &&& post.ppu.hdma == pre.ppu.hdma
    &&& post.ppu.framebuffer == pre.ppu.framebuffer
    &&& post.ppu.window_line == pre.ppu.window_line
    &&& post.regs == pre.regs
    &&& post.speed_ctrl == pre.speed_ctrl
    &&& post.cpu_clock == pre.cpu_clock
    &&& post.div_timer_clock == pre.div_timer_clock
    &&& post.tima_timer_clock == pre.tima_timer_clock
    &&& post.hard_lock == pre.hard_lock
    &&& post.interrupt_master_enable == pre.interrupt_master_enable
    &&& post.options == pre.options
    &&& post.cpu_delay_ticks == pre.cpu_delay_ticks
    &&& post.halted == pre.halted
    &&& post.failure == pre.failure
    &&& post.joypad == pre.joypad
    &&& post.nop_count == pre.nop_count
    &&& post.cpu_enable == pre.cpu_enable
    &&& post.is_render_pending == pre.is_render_pending
}

/// Advances the OAM DMA state by one M-cycle. A write to DMA (re)starts
/// the transfer at offset 0; an active transfer copies the byte at
/// DMA × 0x100 + offset to OAM at the same offset, and ends after 160
/// bytes.
pub fn update_oam_dma(sys: &mut Sys)
    requires
        old(sys).wf(),
    ensures
        final(sys).wf(),
        spec_oam_dma_step(old(sys), final(sys)),
{
    if sys.mem.io_regs.dma_requested() {
        sys.mem.io_regs.clear_dma_request();
        start_dma(sys);
    } else if !sys.ppu.dma.is_active {
        return;
    }
    transfer_one_byte(sys);
}

fn start_dma(sys: &mut Sys)
    ensures
        final(sys).ppu.dma == (DmaOam { is_active: true, next_idx: 0 }),
        final(sys).mem == old(sys).mem,
        final(sys).ppu.curr_scanline_dot == old(sys).ppu.curr_scanline_dot,
        final(sys).ppu.ly == old(sys).ppu.ly,
        final(sys).ppu.mode == old(sys).ppu.mode,
        final(sys).ppu.total_frames_drawn == old(sys).ppu.total_frames_drawn,
        final(sys).ppu.hdma == old(sys).ppu.hdma,
        final(sys).ppu.framebuffer == old(sys).ppu.framebuffer,
        final(sys).ppu.window_line == old(sys).ppu.window_line,
        final(sys).regs == old(sys).regs,
        final(sys).speed_ctrl == old(sys).speed_ctrl,
        final(sys).cpu_clock == old(sys).cpu_clock,
        final(sys).div_timer_clock == old(sys).div_timer_clock,
        final(sys).tima_timer_clock == old(sys).tima_timer_clock,
        final(sys).hard_lock == old(sys).hard_lock,
        final(sys).interrupt_master_enable == old(sys).interrupt_master_enable,
        final(sys).options == old(sys).options,
        final(sys).cpu_delay_ticks == old(sys).cpu_delay_ticks,
        final(sys).halted == old(sys).halted,
        final(sys).failure == old(sys).failure,
        final(sys).joypad == old(sys).joypad,
        final(sys).nop_count == old(sys).nop_count,
        final(sys).cpu_enable == old(sys).cpu_enable,
        final(sys).is_render_pending == old(sys).is_render_pending,
{
    sys.ppu.dma.is_active = true;
    sys.ppu.dma.next_idx = 0;
}

fn transfer_one_byte(sys: &mut Sys)
    requires
        old(sys).wf(),
    ensures
        final(sys).wf(),
        final(sys).mem.oam.data@ == old(sys).mem.oam.data@.update(
            old(sys).ppu.dma.next_idx as int,
            old(sys).mem.spec_read(dma_src(old(sys).mem.io_regs@, old(sys).ppu.dma.next_idx)),
        ),
        final(sys).ppu.dma == (if old(sys).ppu.dma.next_idx + 1 >= DMA_DURATION_M_CYCLES {
            DmaOam { is_active: false, next_idx: 0 }
        } else {
            DmaOam { is_active: true, next_idx: (old(sys).ppu.dma.next_idx + 1) as u16 }
        }),
        final(sys).mem.oam.start == old(sys).mem.oam.start,
        final(sys).mem.io_regs == old(sys).mem.io_regs,
        final(sys).mem.cart == old(sys).mem.cart,
        final(sys).mem.vram == old(sys).mem.vram,
        final(sys).mem.wram == old(sys).mem.wram,
        final(sys).mem.hram == old(sys).mem.hram,
        final(sys).ppu.curr_scanline_dot == old(sys).ppu.curr_scanline_dot,
        final(sys).ppu.ly == old(sys).ppu.ly,
        final(sys).ppu.mode == old(sys).ppu.mode,
        final(sys).ppu.total_frames_drawn == old(sys).ppu.total_frames_drawn,
        final(sys).ppu.hdma == old(sys).ppu.hdma,
        final(sys).ppu.framebuffer == old(sys).ppu.framebuffer,
        final(sys).ppu.window_line == old(sys).ppu.window_line,
        final(sys).regs == old(sys).regs,
        final(sys).speed_ctrl == old(sys).speed_ctrl,
        final(sys).cpu_clock == old(sys).cpu_clock,
        final(sys).div_timer_clock == old(sys).div_timer_clock,
        final(sys).tima_timer_clock == old(sys).tima_timer_clock,
        final(sys).hard_lock == old(sys).hard_lock,
        final(sys).interrupt_master_enable == old(sys).interrupt_master_enable,
        final(sys).options == old(sys).options,
        final(sys).cpu_delay_ticks == old(sys).cpu_delay_ticks,
        final(sys).halted == old(sys).halted,
        final(sys).failure == old(sys).failure,
        final(sys).joypad == old(sys).joypad,
        final(sys).nop_count == old(sys).nop_count,
        final(sys).cpu_enable == old(sys).cpu_enable,
        final(sys).is_render_pending == old(sys).is_render_pending,
{
    let idx = sys.ppu.dma.next_idx;
    let dma_val = sys.mem.get(IoReg::Dma) as u16;
    let src_addr = dma_val * 0x100 + idx;
    let data = sys.mem.read(src_addr);
    sys.mem.oam.write(0xFE00 + idx, data);
    if idx + 1 >= DMA_DURATION_M_CYCLES {
        sys.ppu.dma.is_active = false;
        sys.ppu.dma.next_idx = 0;
    } else {
        sys.ppu.dma.is_active = true;
        sys.ppu.dma.next_idx = idx + 1;
    }
}

} // verus!

verus! {

proof fn lemma_oam_dma_prefix(oams: Seq<Seq<u8>>, src: Seq<u8>, k: int)
    requires
        oams.len() == 161,
        src.len() == 160,
        oams[0].len() == 160,
        forall|i: int| 0 <= i < 160 ==> #[trigger] oams[i + 1] == oams[i].update(i, src[i]),
        0 <= k <= 160,
    ensures
        oams[k].len() == 160,
        forall|j: int| 0 <= j < k ==> #[trigger] oams[k][j] == src[j],
    decreases k,
{
    if k > 0 {
        lemma_oam_dma_prefix(oams, src, k - 1);
        assert(oams[(k - 1) + 1] == oams[k - 1].update(k - 1, src[k - 1]));
    }
}

/// A transfer copies exactly the 160 source bytes to OAM: if each of its
/// 160 steps writes source byte `i` at OAM offset `i` (what
/// `update_oam_dma` does at offset `i` while the source is not rewritten and
/// DMA is not written again), and nothing else writes OAM in between, OAM
/// ends equal to the source.
pub proof fn lemma_oam_dma_copies_source(oams: Seq<Seq<u8>>, src: Seq<u8>)
    requires
        oams.len() == 161,
        src.len() == 160,
        oams[0].len() == 160,
        forall|i: int| 0 <= i < 160 ==> #[trigger] oams[i + 1] == oams[i].update(i, src[i]),
    ensures
        oams[160] == src,
{
    lemma_oam_dma_prefix(oams, src, 160);
    assert(oams[160] =~= src);
}

} // verus!

verus! {

/// The source byte `j` of a transfer started with the registers `io`.
pub open spec fn dma_source_byte(s: &Sys, io: IoRegsView, j: int) -> u8 {
    s.mem.spec_read(dma_src(io, j as u16))
}

/// The conditions under which a transfer started at `pre[0]` runs for 160
/// M-cycles (`pre[i]` → `post[i]` by `update_oam_dma`), whatever else
/// happens between `post[i]` and `pre[i + 1]`, provided it does not write
/// DMA, OAM, the DMA state or the 160 source bytes.
pub open spec fn oam_dma_run(pre: Seq<Sys>, post: Seq<Sys>) -> bool {
    let io0 = pre[0].mem.io_regs@;
    &&& pre.len() == 160
    &&& post.len() == 160
    &&& io0.dma_requested
    &&& pre[0].mem.oam.data@.len() == 160
    &&& forall|i: int| 0 <= i < 160 ==> #[trigger] spec_oam_dma_step(&pre[i], &post[i])
    &&& forall|i: int|
        0 <= i < 159 ==> {
            &&& !(#[trigger] pre[i + 1]).mem.io_regs@.dma_requested
            &&& pre[i + 1].ppu.dma == post[i].ppu.dma
            &&& pre[i + 1].mem.oam == post[i].mem.oam
        }
    &&& forall|i: int|
        0 <= i < 160 ==> (#[trigger] pre[i]).mem.io_regs@.get(IoReg::Dma) == io0.get(IoReg::Dma)
    &&& forall|i: int, j: int|
        0 <= i < 160 && 0 <= j < 160 ==> #[trigger] dma_source_byte(&pre[i], io0, j)
            == dma_source_byte(&pre[0], io0, j)
}

proof fn lemma_oam_dma_run_prefix(pre: Seq<Sys>, post: Seq<Sys>, k: int)
    requires
        oam_dma_run(pre, post),
        0 <= k < 160,
    ensures
        post[k].mem.oam.data@.len() == 160,
        forall|j: int|
            0 <= j <= k ==> #[trigger] post[k].mem.oam.data@[j] == dma_source_byte(
                &pre[0],
                pre[0].mem.io_regs@,
                j,
            ),
        k < 159 ==> post[k].ppu.dma == (DmaOam { is_active: true, next_idx: (k + 1) as u16 }),
        k == 159 ==> !post[k].ppu.dma.is_active,
    decreases k,
{
    let io0 = pre[0].mem.io_regs@;
    assert(spec_oam_dma_step(&pre[k], &post[k]));
    assert(pre[k].mem.io_regs@.get(IoReg::Dma) == io0.get(IoReg::Dma));
    assert(dma_source_byte(&pre[k], io0, k) == dma_source_byte(&pre[0], io0, k));
    if k > 0 {
        lemma_oam_dma_run_prefix(pre, post, k - 1);
        assert(!pre[(k - 1) + 1].mem.io_regs@.dma_requested);
    }
}

/// An OAM DMA transfer copies exactly the 160 bytes at DMA × 0x100 .. +160
/// to OAM in 160 M-cycles, whatever else happens in between that does not
/// write DMA, OAM or the source (see `oam_dma_run`), and then stops.
pub proof fn lemma_oam_dma_over_mcycles(pre: Seq<Sys>, post: Seq<Sys>)
    requires
        oam_dma_run(pre, post),
    ensures
        forall|j: int|
            0 <= j < 160 ==> #[trigger] post[159].mem.oam.data@[j] == dma_source_byte(
                &pre[0],
                pre[0].mem.io_regs@,
                j,
            ),
        !post[159].ppu.dma.is_active,
{
    lemma_oam_dma_run_prefix(pre, post, 159);
}

} // verus!
