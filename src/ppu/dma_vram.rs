use vstd::prelude::*;
use crate::mem::io_regs::{IoReg, IoRegsView, is_io_addr};
use crate::mem::mem::{Mem, is_vram_addr};
use crate::ppu::ppu::PpuMode;
use crate::sys::sys::Sys;
use crate::util::bits::{Bits, bit8};

verus! {

/// How a VRAM DMA transfer is paced.
#[derive(Clone, Copy, Debug, PartialEq, Eq, Structural)]
pub enum TransferMode {
    /// One block of 16 bytes per full M-cycle.
    General,
    /// One block of 16 bytes per HBlank.
    HBlank,
}

/// The VRAM DMA transfer state (CGB only).
#[derive(Clone, Copy, Debug, PartialEq, Eq, Structural)]
pub struct DmaVram {
    pub is_active: bool,
    pub src_addr: u16,
    /// The destination as an offset into VRAM (0x0000..0x1FF0).
    pub dst_addr: u16,
    /// The length of the transfer in bytes, a multiple of 16 up to 0x800.
    pub data_len: u16,
    pub transfer_mode: TransferMode,
    /// A block was already copied in the current HBlank.
    pub hblank_done: bool,
    /// The offset of the next byte to copy.
    pub next_idx: u16,
}

impl DmaVram {
    pub open spec fn wf(&self) -> bool {
        &&& self.data_len <= 0x800
        &&& self.next_idx <= self.data_len
    }

    pub fn new() -> (r: DmaVram)
        ensures
            r.wf(),
            !r.is_active,
    {
        DmaVram {
            is_active: false,
            src_addr: 0,
            dst_addr: 0,
            data_len: 0,
            transfer_mode: TransferMode::General,
            hblank_done: false,
            next_idx: 0,
        }
    }
}

/// The transfer that HDMA1..HDMA5 describe: source (HDMA1:HDMA2) & 0xFFF0,
/// VRAM offset (HDMA3:HDMA4) & 0x1FF0, length ((HDMA5 & 0x7F) + 1) × 16,
/// and HDMA5 bit 7 for HBlank pacing.
pub open spec fn spec_hdma_start(io: IoRegsView) -> DmaVram {
    DmaVram {
        is_active: true,
        src_addr: ((io.get(IoReg::Hdma1) as u16 * 256 + io.get(IoReg::Hdma2)) as u16 & 0xFFF0) as u16,
        dst_addr: ((io.get(IoReg::Hdma3) as u16 * 256 + io.get(IoReg::Hdma4)) as u16 & 0x1FF0) as u16,
        data_len: (((io.get(IoReg::Hdma5) & 0x7F) + 1) * 16) as u16,
        transfer_mode: if bit8(io.get(IoReg::Hdma5), 7) == 0 {
            TransferMode::General
        } else {
            TransferMode::HBlank
        },
        hblank_done: false,
        next_idx: 0,
    }
}

/// The source address of byte `j` of the block that starts at `h`'s next
/// offset.
pub open spec fn hdma_src(h: DmaVram, j: int) -> u16 {
    ((h.src_addr + h.next_idx + j) % 0x10000) as u16
}

/// The VRAM address of byte `j` of the block that starts at `h`'s next
/// offset: 0x8000 plus the destination offset, within VRAM.
pub open spec fn hdma_dst(h: DmaVram, j: int) -> u16 {
    (0x8000 + ((h.dst_addr + h.next_idx + j) % 0x2000)) as u16
}

/// The offset after copying one block from `h`: 16 bytes on, or the end.
pub open spec fn hdma_next(h: DmaVram) -> int {
    if h.next_idx + 16 <= h.data_len { h.next_idx + 16 } else { h.data_len as int }
}

/// HDMA5 after a block: 0x7F (bit 7 clear) when the transfer is done, else
/// bit 7 set and bits 6..0 the blocks left less one.
pub open spec fn hdma5_after(h: DmaVram) -> u8 {
    let next = hdma_next(h);
    if next >= h.data_len {
        0x7F
    } else {
        (0x80 | ((((h.data_len - next + 15) / 16 - 1) as u8) & 0x7F)) as u8
    }
}

/// Whether `post` is `pre` after copying the block that starts at `h`'s
/// next offset: each byte whose source is neither VRAM nor an I/O register
/// holds the source byte in `pre`, at its VRAM address in the bank that VBK
/// selects; HDMA5 reports the progress.
pub open spec fn hdma_block_copied(pre: &Sys, post: &Sys, h: DmaVram) -> bool {
    &&& post.mem.io_regs@ == pre.mem.io_regs@.set(IoReg::Hdma5, hdma5_after(h))
    &&& post.mem.vram@.len() == pre.mem.vram@.len()
    &&& hdma_bytes_copied(&pre.mem, post, h)
}

/// Each byte of the block from `h` whose source is neither VRAM nor an I/O
/// register holds, in `post`, the source byte of `pre`, at its VRAM address
/// in the bank that VBK selects.
pub open spec fn hdma_bytes_copied(pre: &Mem, post: &Sys, h: DmaVram) -> bool {
    forall|j: int|
        0 <= j < hdma_next(h) - h.next_idx && !is_vram_addr(hdma_src(h, j)) && !is_io_addr(
            hdma_src(h, j),
        ) ==> #[trigger] post.mem.vram@[pre.vram_idx(hdma_dst(h, j))] == pre.spec_read(
            hdma_src(h, j),
        )
}

proof fn lemma_offsets_distinct(d: int, j: int, c: int)
    requires
        d >= 0,
        0 <= j < c < 0x2000,
    ensures
        (d + j) % 0x2000 != (d + c) % 0x2000,
{
    assert((d + j) % 0x2000 != (d + c) % 0x2000) by (nonlinear_arith)
        requires
            d >= 0,
            0 <= j < c < 0x2000,
    ;
}

/// Advances the VRAM DMA state by one full M-cycle (CGB cartridges only).
/// A write to HDMA5 starts a transfer, or, with bit 7 clear during an
/// HBlank transfer, cancels it. A general transfer copies one block of 16
/// bytes per call; an HBlank transfer copies one block on entry to each
/// HBlank.
pub fn update_vram_dma(sys: &mut Sys)
    requires
        old(sys).wf(),
    ensures
        final(sys).wf(),
        old(sys).same_cpu_side(final(sys)),
        final(sys).mem.cart == old(sys).mem.cart,
        final(sys).mem.wram@ == old(sys).mem.wram@,
        final(sys).mem.oam == old(sys).mem.oam,
        final(sys).mem.hram == old(sys).mem.hram,
        final(sys).ppu.curr_scanline_dot == old(sys).ppu.curr_scanline_dot,
        final(sys).ppu.ly == old(sys).ppu.ly,
        final(sys).ppu.mode == old(sys).ppu.mode,
        final(sys).ppu.total_frames_drawn == old(sys).ppu.total_frames_drawn,
        final(sys).ppu.dma == old(sys).ppu.dma,
        final(sys).ppu.framebuffer == old(sys).ppu.framebuffer,
        final(sys).ppu.window_line == old(sys).ppu.window_line,
        final(sys).mem.io_regs@.get(IoReg::Ly) == old(sys).mem.io_regs@.get(IoReg::Ly),
        final(sys).mem.io_regs@.get(IoReg::Stat) == old(sys).mem.io_regs@.get(IoReg::Stat),
        final(sys).mem.io_regs@.get(IoReg::Lyc) == old(sys).mem.io_regs@.get(IoReg::Lyc),
        final(sys).mem.io_regs@.get(IoReg::If) == old(sys).mem.io_regs@.get(IoReg::If),
        final(sys).mem.io_regs@.dma_requested == old(sys).mem.io_regs@.dma_requested,
        old(sys).mem.cart.header.compatibility_mode
            == crate::other::mode::CompatibilityMode::DmgOnly ==> final(sys).mem == old(sys).mem
            && final(sys).ppu == old(sys).ppu,
        old(sys).mem.cart.header.compatibility_mode
            != crate::other::mode::CompatibilityMode::DmgOnly && old(sys).mem.io_regs@.hdma_requested
            && !(old(sys).ppu.hdma.is_active && old(sys).ppu.hdma.transfer_mode
            == TransferMode::HBlank && bit8(old(sys).mem.io_regs@.get(IoReg::Hdma5), 7) == 0)
            ==> final(sys).ppu.hdma.src_addr == spec_hdma_start(old(sys).mem.io_regs@).src_addr
            && final(sys).ppu.hdma.dst_addr == spec_hdma_start(old(sys).mem.io_regs@).dst_addr
            && final(sys).ppu.hdma.data_len == spec_hdma_start(old(sys).mem.io_regs@).data_len
            && final(sys).ppu.hdma.transfer_mode == spec_hdma_start(
            old(sys).mem.io_regs@,
        ).transfer_mode,
        // A new general transfer copies its first block at once.
        ({
            let st = spec_hdma_start(old(sys).mem.io_regs@);
            old(sys).mem.cart.header.compatibility_mode
                != crate::other::mode::CompatibilityMode::DmgOnly && old(sys).mem.io_regs@.hdma_requested
                && !(old(sys).ppu.hdma.is_active && old(sys).ppu.hdma.transfer_mode
                == TransferMode::HBlank && bit8(old(sys).mem.io_regs@.get(IoReg::Hdma5), 7) == 0)
                && st.transfer_mode == TransferMode::General ==> final(sys).ppu.hdma.next_idx
                == hdma_next(st) && final(sys).mem.io_regs@.get(IoReg::Hdma5) == hdma5_after(st)
                && hdma_bytes_copied(&old(sys).mem, final(sys), st)
        }),
        // Without a new request: an idle engine stays idle; a general
        // transfer copies one block; an HBlank transfer copies one block on
        // the first call in each HBlank and none outside HBlank.
        ({
            let h = old(sys).ppu.hdma;
            let next = if h.next_idx + 16 <= h.data_len { h.next_idx + 16 } else { h.data_len as int };
            old(sys).mem.cart.header.compatibility_mode
                != crate::other::mode::CompatibilityMode::DmgOnly
                && !old(sys).mem.io_regs@.hdma_requested ==> {
                &&& !h.is_active ==> final(sys).mem == old(sys).mem && final(sys).ppu == old(sys).ppu
                &&& h.is_active && h.transfer_mode == TransferMode::General ==> final(sys).ppu.hdma.next_idx == next
                    && hdma_block_copied(old(sys), final(sys), h)
                &&& h.is_active && h.transfer_mode == TransferMode::HBlank && old(sys).ppu.mode
                    != PpuMode::HBlank ==> final(sys).mem == old(sys).mem && final(sys).ppu.hdma == (
                DmaVram { hblank_done: false, ..h })
                &&& h.is_active && h.transfer_mode == TransferMode::HBlank && old(sys).ppu.mode
                    == PpuMode::HBlank && h.hblank_done ==> final(sys).mem == old(sys).mem
                    && final(sys).ppu.hdma == h
                &&& h.is_active && h.transfer_mode == TransferMode::HBlank && old(sys).ppu.mode
                    == PpuMode::HBlank && !h.hblank_done ==> final(sys).ppu.hdma.next_idx == next
                    && final(sys).ppu.hdma.hblank_done && hdma_block_copied(old(sys), final(sys), h)
            }
        }),
{
    if !sys.mem.cart.header().compatibility_mode().is_cgb() {
        return;
    }
    if sys.mem.io_regs.hdma_requested() {
        sys.mem.io_regs.clear_hdma_request();
        let hdma5 = sys.mem.get(IoReg::Hdma5);
        if sys.ppu.hdma.is_active && sys.ppu.hdma.transfer_mode == TransferMode::HBlank
            && hdma5.bit(7) == 0 {
            // HDMA5 keeps the value written, whose bit 7 is clear: inactive.
            sys.ppu.hdma.is_active = false;
            return;
        }
        start_hdma(sys);
        if sys.ppu.hdma.transfer_mode == TransferMode::General {
            let ghost mid = *sys;
            transfer_0x10_bytes(sys);
            proof {
                let st = mid.ppu.hdma;
                assert(mid.mem.io_regs@.get(IoReg::Vbk) == old(sys).mem.io_regs@.get(IoReg::Vbk));
                assert forall|j: int|
                    0 <= j < hdma_next(st) - st.next_idx && !is_vram_addr(hdma_src(st, j))
                        && !is_io_addr(hdma_src(st, j)) implies #[trigger] sys.mem.vram@[old(
                        sys,
                    ).mem.vram_idx(hdma_dst(st, j))] == old(sys).mem.spec_read(hdma_src(st, j)) by {
                    assert(mid.mem.vram_idx(hdma_dst(st, j)) == old(sys).mem.vram_idx(
                        hdma_dst(st, j),
                    ));
                    assert(mid.mem.spec_read(hdma_src(st, j)) == old(sys).mem.spec_read(
                        hdma_src(st, j),
                    ));
                }
            }
            return;
        }
    }
    if !sys.ppu.hdma.is_active {
        return;
    }
    if sys.ppu.hdma.transfer_mode == TransferMode::HBlank {
        if sys.ppu.mode == PpuMode::HBlank {
            if !sys.ppu.hdma.hblank_done {
                transfer_0x10_bytes(sys);
                sys.ppu.hdma.hblank_done = true;
            }
        } else {
            sys.ppu.hdma.hblank_done = false;
        }
    } else {
        transfer_0x10_bytes(sys);
    }
}

/// Starts the transfer that HDMA1..HDMA5 describe and marks it active in
/// HDMA5 bit 7.
fn start_hdma(sys: &mut Sys)
    requires
        old(sys).wf(),
    ensures
        final(sys).wf(),
        old(sys).same_cpu_side(final(sys)),
        final(sys).ppu.hdma == spec_hdma_start(old(sys).mem.io_regs@),
        final(sys).mem.io_regs@ == old(sys).mem.io_regs@.set(
            IoReg::Hdma5,
            old(sys).mem.io_regs@.get(IoReg::Hdma5) | 0x80,
        ),
        final(sys).mem.cart == old(sys).mem.cart,
        final(sys).mem.vram@ == old(sys).mem.vram@,
        final(sys).mem.wram@ == old(sys).mem.wram@,
        final(sys).mem.oam == old(sys).mem.oam,
        final(sys).mem.hram == old(sys).mem.hram,
        final(sys).ppu.curr_scanline_dot == old(sys).ppu.curr_scanline_dot,
        final(sys).ppu.ly == old(sys).ppu.ly,
        final(sys).ppu.mode == old(sys).ppu.mode,
        final(sys).ppu.total_frames_drawn == old(sys).ppu.total_frames_drawn,
        final(sys).ppu.dma == old(sys).ppu.dma,
        final(sys).ppu.framebuffer == old(sys).ppu.framebuffer,
        final(sys).ppu.window_line == old(sys).ppu.window_line,
{
    let hdma1 = sys.mem.get(IoReg::Hdma1) as u16;
    let hdma2 = sys.mem.get(IoReg::Hdma2) as u16;
    let hdma3 = sys.mem.get(IoReg::Hdma3) as u16;
    let hdma4 = sys.mem.get(IoReg::Hdma4) as u16;
    let hdma5 = sys.mem.get(IoReg::Hdma5);
    let src_addr = (hdma1 * 256 + hdma2) & 0xFFF0;
    let dst_addr = (hdma3 * 256 + hdma4) & 0x1FF0;
    let transfer_mode = if hdma5.bit(7) == 0 {
        TransferMode::General
    } else {
        TransferMode::HBlank
    };
    let data_len: u16 = (((hdma5 & 0x7F) as u16) + 1) * 16;
    assert((hdma5 & 0x7F) < 128) by (bit_vector);
    sys.ppu.hdma = DmaVram {
        is_active: true,
        src_addr,
        dst_addr,
        data_len,
        transfer_mode,
        hblank_done: false,
        next_idx: 0,
    };
    sys.mem.set(IoReg::Hdma5, hdma5 | 0x80);
}

/// Copies the next block of 16 bytes (fewer if the transfer ends first),
/// then reports the blocks left, less one, in HDMA5 bits 6..0; bit 7 clears
/// when the transfer is done.
fn transfer_0x10_bytes(sys: &mut Sys)
    requires
        old(sys).wf(),
        old(sys).ppu.hdma.is_active,
    ensures
        final(sys).wf(),
        old(sys).same_cpu_side(final(sys)),
        final(sys).mem.cart == old(sys).mem.cart,
        final(sys).mem.wram@ == old(sys).mem.wram@,
        final(sys).mem.oam == old(sys).mem.oam,
        final(sys).mem.hram == old(sys).mem.hram,
        final(sys).ppu.curr_scanline_dot == old(sys).ppu.curr_scanline_dot,
        final(sys).ppu.ly == old(sys).ppu.ly,
        final(sys).ppu.mode == old(sys).ppu.mode,
        final(sys).ppu.total_frames_drawn == old(sys).ppu.total_frames_drawn,
        final(sys).ppu.dma == old(sys).ppu.dma,
        final(sys).ppu.framebuffer == old(sys).ppu.framebuffer,
        final(sys).ppu.window_line == old(sys).ppu.window_line,
        final(sys).ppu.hdma.transfer_mode == old(sys).ppu.hdma.transfer_mode,
        final(sys).ppu.hdma.hblank_done == old(sys).ppu.hdma.hblank_done,
        final(sys).ppu.hdma.src_addr == old(sys).ppu.hdma.src_addr,
        final(sys).ppu.hdma.dst_addr == old(sys).ppu.hdma.dst_addr,
        final(sys).ppu.hdma.data_len == old(sys).ppu.hdma.data_len,
        final(sys).ppu.hdma.next_idx == (if old(sys).ppu.hdma.next_idx + 16 <= old(sys).ppu.hdma.data_len {
            old(sys).ppu.hdma.next_idx + 16
        } else {
            old(sys).ppu.hdma.data_len as int
        }),
        final(sys).ppu.hdma.is_active == (final(sys).ppu.hdma.next_idx < final(sys).ppu.hdma.data_len),
        hdma_block_copied(old(sys), final(sys), old(sys).ppu.hdma),
        final(sys).mem.io_regs@.get(IoReg::Ly) == old(sys).mem.io_regs@.get(IoReg::Ly),
        final(sys).mem.io_regs@.get(IoReg::Stat) == old(sys).mem.io_regs@.get(IoReg::Stat),
        final(sys).mem.io_regs@.get(IoReg::Lyc) == old(sys).mem.io_regs@.get(IoReg::Lyc),
{
    let ghost h = old(sys).ppu.hdma;
    let mut i: u8 = 0;
    while i < 16 && sys.ppu.hdma.next_idx < sys.ppu.hdma.data_len
        invariant
            sys.wf(),
            old(sys).same_cpu_side(sys),
            sys.mem.cart == old(sys).mem.cart,
            sys.mem.wram@ == old(sys).mem.wram@,
            sys.mem.oam == old(sys).mem.oam,
            sys.mem.hram == old(sys).mem.hram,
            sys.mem.io_regs == old(sys).mem.io_regs,
            sys.mem.vram.spec_num_banks() == old(sys).mem.vram.spec_num_banks(),
            sys.ppu.curr_scanline_dot == old(sys).ppu.curr_scanline_dot,
            sys.ppu.ly == old(sys).ppu.ly,
            sys.ppu.mode == old(sys).ppu.mode,
            sys.ppu.total_frames_drawn == old(sys).ppu.total_frames_drawn,
            sys.ppu.dma == old(sys).ppu.dma,
            sys.ppu.framebuffer == old(sys).ppu.framebuffer,
            sys.ppu.window_line == old(sys).ppu.window_line,
            h == old(sys).ppu.hdma,
            sys.ppu.hdma == (DmaVram { next_idx: sys.ppu.hdma.next_idx, ..h }),
            i <= 16,
            sys.ppu.hdma.next_idx == (if h.next_idx + i <= h.data_len {
                h.next_idx + i
            } else {
                h.data_len as int
            }),
            forall|j: int|
                0 <= j < sys.ppu.hdma.next_idx - h.next_idx && !is_vram_addr(hdma_src(h, j))
                    && !is_io_addr(hdma_src(h, j)) ==> #[trigger] sys.mem.vram@[old(
                    sys,
                ).mem.vram_idx(hdma_dst(h, j))] == old(sys).mem.spec_read(hdma_src(h, j)),
        decreases 16 - i,
    {
        let ghost c = sys.ppu.hdma.next_idx - h.next_idx;
        let ghost pre = *sys;
        transfer_one_byte(sys);
        proof {
            assert(hdma_dst(h, c) == hdma_dst(pre.ppu.hdma, 0));
            assert(hdma_src(h, c) == hdma_src(pre.ppu.hdma, 0));
            assert forall|j: int|
                0 <= j < sys.ppu.hdma.next_idx - h.next_idx && !is_vram_addr(hdma_src(h, j))
                    && !is_io_addr(hdma_src(h, j)) implies #[trigger] sys.mem.vram@[old(
                    sys,
                ).mem.vram_idx(hdma_dst(h, j))] == old(sys).mem.spec_read(hdma_src(h, j)) by {
                let nb = old(sys).mem.vram.spec_num_banks();
                let vbk = old(sys).mem.io_regs@.get(IoReg::Vbk);
                crate::mem::vram::lemma_vram_index_in_range(nb, vbk, hdma_dst(h, j));
                crate::mem::vram::lemma_vram_index_in_range(nb, vbk, hdma_dst(h, c));
                if j < c {
                    lemma_offsets_distinct(h.dst_addr + h.next_idx, j, c);
                    assert(old(sys).mem.vram_idx(hdma_dst(h, j)) != old(sys).mem.vram_idx(
                        hdma_dst(h, c),
                    ));
                } else {
                    assert(pre.mem.spec_read(hdma_src(h, c)) == old(sys).mem.spec_read(
                        hdma_src(h, c),
                    ));
                }
            }
        }
        i = i + 1;
    }
    let hdma = sys.ppu.hdma;
    if hdma.next_idx >= hdma.data_len {
        sys.ppu.hdma.is_active = false;
        sys.mem.set(IoReg::Hdma5, 0x7F);
    } else {
        let remaining_blocks: u16 = (hdma.data_len - hdma.next_idx + 15) / 16;
        sys.mem.set(IoReg::Hdma5, 0x80 | ((remaining_blocks - 1) as u8 & 0x7F));
    }
}

/// Copies one byte from the source to VRAM, in the bank that VBK selects.
fn transfer_one_byte(sys: &mut Sys)
    requires
        old(sys).wf(),
        old(sys).ppu.hdma.next_idx < old(sys).ppu.hdma.data_len,
    ensures
        final(sys).wf(),
        old(sys).same_cpu_side(final(sys)),
        final(sys).mem.cart == old(sys).mem.cart,
        final(sys).mem.wram@ == old(sys).mem.wram@,
        final(sys).mem.oam == old(sys).mem.oam,
        final(sys).mem.hram == old(sys).mem.hram,
        final(sys).mem.io_regs == old(sys).mem.io_regs,
        final(sys).ppu.curr_scanline_dot == old(sys).ppu.curr_scanline_dot,
        final(sys).ppu.ly == old(sys).ppu.ly,
        final(sys).ppu.mode == old(sys).ppu.mode,
        final(sys).ppu.total_frames_drawn == old(sys).ppu.total_frames_drawn,
        final(sys).ppu.dma == old(sys).ppu.dma,
        final(sys).ppu.framebuffer == old(sys).ppu.framebuffer,
        final(sys).ppu.window_line == old(sys).ppu.window_line,
        final(sys).ppu.hdma == (DmaVram {
            next_idx: (old(sys).ppu.hdma.next_idx + 1) as u16,
            ..old(sys).ppu.hdma
        }),
        ({
            let h = old(sys).ppu.hdma;
            let dst = (0x8000 + ((h.dst_addr + h.next_idx) % 0x2000)) as u16;
            final(sys).mem.vram@ == old(sys).mem.vram@.update(
                old(sys).mem.vram_idx(dst),
                old(sys).mem.spec_read(((h.src_addr + h.next_idx) % 0x10000) as u16),
            )
        }),
{
    let idx = sys.ppu.hdma.next_idx;
    let src_addr = sys.ppu.hdma.src_addr.wrapping_add(idx);
    let dst_addr: u16 = 0x8000 + ((sys.ppu.hdma.dst_addr as u32 + idx as u32) % 0x2000) as u16;
    let data = sys.mem.read(src_addr);
    sys.mem.vram.write(&sys.mem.io_regs, dst_addr, data);
    sys.ppu.hdma.next_idx = idx + 1;
}

} // verus!
