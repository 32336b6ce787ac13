use vstd::prelude::*;
use crate::mem::io_regs::IoReg;
use crate::mem::mem::Mem;
use crate::mem::vram::vram_index;
use crate::ppu::attrs::BgAttrs;
use crate::ppu::ppu::SCREEN_WIDTH;
use crate::sys::sys::Sys;
use crate::util::bits::{Bits, bit8};

verus! {

/// The RGB555 gray of a DMG shade, 0 lightest to 3 darkest.
pub open spec fn spec_gray(shade: u8) -> u16 {
    if shade == 0 {
        0x7FFF
    } else if shade == 1 {
        0x56B5
    } else if shade == 2 {
        0x294A
    } else {
        0x0000
    }
}

/// The shade that a DMG palette register gives a color id.
pub open spec fn spec_shade(palette: u8, color_id: u8) -> u8 {
    (palette >> (2 * color_id) as u8) & 3
}

/// The address of a tile's data: 0x8000 + 16 × idx in unsigned mode;
/// otherwise 0x9000 + 16 × idx with idx signed.
pub open spec fn spec_tile_data_addr(idx: u8, data_8000: bool) -> u16 {
    if data_8000 {
        (0x8000 + idx * 16) as u16
    } else if idx < 128 {
        (0x9000 + idx * 16) as u16
    } else {
        (0x8800 + (idx - 128) * 16) as u16
    }
}

/// The address of the tile-map entry that covers pixel (x, y) of the
/// 256 × 256 map at 0x9800 or 0x9C00.
pub open spec fn spec_map_addr(x: u8, y: u8, map_9c00: bool) -> u16 {
    ((if map_9c00 { 0x9C00int } else { 0x9800int }) + (y / 8) * 32 + x / 8) as u16
}

/// The color id (hi << 1 | lo) of pixel `bit` of row `row` of the tile at
/// `data_addr` in VRAM bank `bank`.
pub open spec fn spec_tile_pixel(vram: Seq<u8>, bank: nat, data_addr: u16, row: int, bit: u8) -> u8 {
    let lo = bit8(vram[vram_index(bank, (data_addr + row * 2) as u16)], bit);
    let hi = bit8(vram[vram_index(bank, (data_addr + row * 2 + 1) as u16)], bit);
    (hi * 2 + lo) as u8
}

/// The color id and CGB palette of pixel (x, y) of a tile map. In CGB mode
/// the attributes in VRAM bank 1 give the palette, the tile data's bank and
/// the flips.
pub open spec fn spec_sample(mem: &Mem, cgb: bool, x: u8, y: u8, map_9c00: bool, data_8000: bool) -> (u8, u8) {
    let map_addr = spec_map_addr(x, y, map_9c00);
    let idx = mem.vram@[vram_index(0, map_addr)];
    let attrs = if cgb {
        BgAttrs::spec_from_byte(mem.vram@[vram_index(1, map_addr)])
    } else {
        BgAttrs { priority: 0, y_flip: false, x_flip: false, bank: 0, color_palette: 0 }
    };
    let bit: int = if attrs.x_flip { (x % 8) as int } else { 7 - x % 8 };
    let row: int = if attrs.y_flip { 7 - y % 8 } else { (y % 8) as int };
    (
        spec_tile_pixel(mem.vram@, attrs.bank as nat, spec_tile_data_addr(idx, data_8000), row, bit as u8),
        attrs.color_palette,
    )
}

/// The RGB555 color of a background or window pixel: through BGP and the
/// gray scale on a DMG, through background color RAM on a CGB.
pub open spec fn spec_bg_color(mem: &Mem, cgb: bool, color_id: u8, palette: u8) -> u16 {
    if cgb {
        mem.io_regs@.bg.spec_color(palette, color_id) & 0x7FFF
    } else {
        spec_gray(spec_shade(mem.io_regs@.get(IoReg::Bgp), color_id))
    }
}

/// The background color of pixel `x` of scanline `ly`, or the lightest
/// color with the layer off.
pub open spec fn spec_bg_pixel(mem: &Mem, ly: u8, x: int, enabled: bool) -> u16 {
    if enabled {
        let lcdc = mem.io_regs@.get(IoReg::Lcdc);
        let cgb = mem.vram.spec_num_banks() == 2;
        let (cid, pal) = spec_sample(
            mem,
            cgb,
            ((mem.io_regs@.get(IoReg::Scx) + x) % 256) as u8,
            ((mem.io_regs@.get(IoReg::Scy) + ly) % 256) as u8,
            bit8(lcdc, 3) == 1,
            bit8(lcdc, 4) == 1,
        );
        spec_bg_color(mem, cgb, cid, pal)
    } else {
        0x7FFFu16
    }
}

/// `fb` with row `ly` replaced by `f` of each x in 0..160.
pub open spec fn with_row(fb: Seq<u16>, ly: u8, f: spec_fn(int) -> u16) -> Seq<u16> {
    Seq::new(
        fb.len(),
        |k: int| if ly * 160 <= k < ly * 160 + 160 { f(k - ly * 160) } else { fb[k] },
    )
}

/// `fb` with the background of scanline `ly` drawn.
pub open spec fn row_with_bg(mem: &Mem, fb: Seq<u16>, ly: u8, enabled: bool) -> Seq<u16> {
    with_row(fb, ly, |x: int| spec_bg_pixel(mem, ly, x, enabled))
}

/// `fb` with the row of sprite `obj_idx` on scanline `ly` drawn.
pub open spec fn row_with_obj(mem: &Mem, fb: Seq<u16>, obj_idx: u8, ly: u8) -> Seq<u16> {
    match spec_obj_row(mem, obj_idx, ly) {
        None => fb,
        Some((x, lo, hi, a)) => with_row(
            fb,
            ly,
            |sx: int|
                {
                    let px = sx + 8 - x;
                    let cid = spec_row_color_id(lo, hi, px, bit8(a, 5) == 1);
                    if 0 <= px < 8 && cid != 0 {
                        spec_obj_color(mem, mem.vram.spec_num_banks() == 2, a, cid)
                    } else {
                        fb[ly * 160 + sx]
                    }
                },
        ),
    }
}

/// `fb` with sprites 0..n drawn on scanline `ly`, in that order.
pub open spec fn row_with_objs(mem: &Mem, fb: Seq<u16>, ly: u8, n: nat) -> Seq<u16>
    decreases n,
{
    if n == 0 {
        fb
    } else {
        row_with_obj(mem, row_with_objs(mem, fb, ly, (n - 1) as nat), (n - 1) as u8, ly)
    }
}

/// `fb` with the window drawn on scanline `ly` at window line `win_line`,
/// when WY ≤ ly and WX ≤ 166.
pub open spec fn row_with_window(mem: &Mem, fb: Seq<u16>, ly: u8, win_line: u8) -> Seq<u16> {
    let io = mem.io_regs@;
    let wx = io.get(IoReg::Wx);
    let lcdc = io.get(IoReg::Lcdc);
    let cgb = mem.vram.spec_num_banks() == 2;
    if io.get(IoReg::Wy) <= ly && wx <= 166 {
        with_row(
            fb,
            ly,
            |x: int|
                if x + 7 >= wx {
                    let (cid, pal) = spec_sample(
                        mem,
                        cgb,
                        (x + 7 - wx) as u8,
                        win_line,
                        bit8(lcdc, 6) == 1,
                        bit8(lcdc, 4) == 1,
                    );
                    spec_bg_color(mem, cgb, cid, pal)
                } else {
                    fb[ly * 160 + x]
                },
        )
    } else {
        fb
    }
}

/// Row `ly` as `render_scanline` composes it: the background (LCDC bit 0),
/// then sprites 0..39 in order (LCDC bit 1), then the window (LCDC bits 0
/// and 5).
pub open spec fn spec_render_row(mem: &Mem, fb: Seq<u16>, ly: u8, win_line: u8) -> Seq<u16> {
    let lcdc = mem.io_regs@.get(IoReg::Lcdc);
    let fb1 = row_with_bg(mem, fb, ly, bit8(lcdc, 0) == 1);
    let fb2 = if bit8(lcdc, 1) == 1 { row_with_objs(mem, fb1, ly, 40) } else { fb1 };
    if bit8(lcdc, 0) == 1 && bit8(lcdc, 5) == 1 { row_with_window(mem, fb2, ly, win_line) } else { fb2 }
}

/// The framebuffers of `pre` and `post` differ at most in row `ly`.
pub open spec fn only_row_changed_fb(pre: &Sys, post: &Sys, ly: u8) -> bool {
    &&& post.ppu.framebuffer@.len() == pre.ppu.framebuffer@.len()
    &&& forall|i: int|
        0 <= i < pre.ppu.framebuffer@.len() && !(ly * 160 <= i < ly * 160 + 160)
            ==> #[trigger] post.ppu.framebuffer@[i] == pre.ppu.framebuffer@[i]
}

/// Only row `ly` of the framebuffer may differ, and only the framebuffer
/// and the window line counter of the whole system.
pub open spec fn only_row_changed(pre: &Sys, post: &Sys, ly: u8) -> bool {
    &&& post.mem == pre.mem
    &&& pre.same_cpu_side(post)
    &&& post.ppu.curr_scanline_dot == pre.ppu.curr_scanline_dot
    &&& post.ppu.ly == pre.ppu.ly
    &&& post.ppu.mode == pre.ppu.mode
    &&& post.ppu.total_frames_drawn == pre.ppu.total_frames_drawn
    &&& post.ppu.dma == pre.ppu.dma
    &&& post.ppu.hdma == pre.ppu.hdma
    &&& post.ppu.framebuffer@.len() == pre.ppu.framebuffer@.len()
    &&& forall|i: int|
        0 <= i < pre.ppu.framebuffer@.len() && !(ly * 160 <= i < ly * 160 + 160)
            ==> #[trigger] post.ppu.framebuffer@[i] == pre.ppu.framebuffer@[i]
}

fn gray(shade: u8) -> (r: u16)
    ensures
        r == spec_gray(shade),
{
    if shade == 0 {
        0x7FFF
    } else if shade == 1 {
        0x56B5
    } else if shade == 2 {
        0x294A
    } else {
        0x0000
    }
}

fn shade(palette: u8, color_id: u8) -> (r: u8)
    requires
        color_id < 4,
    ensures
        r == spec_shade(palette, color_id),
{
    (palette >> (2 * color_id)) & 3
}

fn tile_data_idx_to_addr(idx: u8, data_8000: bool) -> (r: u16)
    ensures
        r == spec_tile_data_addr(idx, data_8000),
        0x8000 <= r <= 0x97F0,
{
    if data_8000 {
        0x8000 + idx as u16 * 16
    } else if idx < 128 {
        0x9000 + idx as u16 * 16
    } else {
        0x8800 + (idx as u16 - 128) * 16
    }
}

/// Samples the color id and CGB palette of pixel (x, y) of a tile map.
fn sample_pixel_from_tilemap(sys: &Sys, x: u8, y: u8, map_9c00: bool, data_8000: bool) -> (r: (
    u8,
    u8,
))
    requires
        sys.wf(),
    ensures
        r == spec_sample(&sys.mem, sys.mem.vram.spec_num_banks() == 2, x, y, map_9c00, data_8000),
        r.0 < 4,
        r.1 < 8,
{
    let cgb = sys.mem.vram.num_banks() == 2;
    let tile_map_start_addr: u16 = if map_9c00 { 0x9C00 } else { 0x9800 };
    let map_addr = tile_map_start_addr + (y / 8) as u16 * 32 + (x / 8) as u16;
    let attrs = if cgb {
        BgAttrs::new(sys, map_addr)
    } else {
        BgAttrs { priority: 0, y_flip: false, x_flip: false, bank: 0, color_palette: 0 }
    };
    let data_idx = sys.mem.vram.get(0, map_addr);
    let data_addr = tile_data_idx_to_addr(data_idx, data_8000);
    let pixel_x_bit = if attrs.x_flip { x % 8 } else { 7 - (x % 8) };
    let pixel_y = if attrs.y_flip { 7 - (y % 8) } else { y % 8 };
    let row_lowers_addr = data_addr + pixel_y as u16 * 2;
    let row_uppers_addr = row_lowers_addr + 1;
    let lo = sys.mem.vram.get(attrs.bank, row_lowers_addr).bit(pixel_x_bit);
    let hi = sys.mem.vram.get(attrs.bank, row_uppers_addr).bit(pixel_x_bit);
    assert(hi <= 1 && lo <= 1 ==> (hi << 1) | lo == hi * 2 + lo && hi * 2 + lo < 4) by (bit_vector);
    ((hi << 1) | lo, attrs.color_palette)
}

/// The RGB555 color of a background or window pixel.
fn bg_color(sys: &Sys, color_id: u8, palette: u8) -> (r: u16)
    requires
        sys.wf(),
        color_id < 4,
        palette < 8,
    ensures
        r == spec_bg_color(&sys.mem, sys.mem.vram.spec_num_banks() == 2, color_id, palette),
{
    if sys.mem.vram.num_banks() == 2 {
        sys.mem.io_regs.bg_cram().get(palette, color_id) & 0x7FFF
    } else {
        gray(shade(sys.mem.get(IoReg::Bgp), color_id))
    }
}

/// Renders scanline `ly`: background, then sprites, then the window.
pub fn render_scanline(sys: &mut Sys, ly: u8)
    requires
        old(sys).wf(),
        ly < 144,
    ensures
        final(sys).ppu.framebuffer@ == spec_render_row(
            &old(sys).mem,
            old(sys).ppu.framebuffer@,
            ly,
            old(sys).ppu.window_line,
        ),
        final(sys).wf(),
        only_row_changed(old(sys), final(sys), ly),
        ({
            let lcdc = old(sys).mem.io_regs@.get(IoReg::Lcdc);
            let cgb = old(sys).mem.vram.spec_num_banks() == 2;
            // With sprites and the window off, the row is the background.
            bit8(lcdc, 1) == 0 && bit8(lcdc, 5) == 0 ==> forall|x: int|
                0 <= x < 160 ==> #[trigger] final(sys).ppu.framebuffer@[ly * 160 + x] == (if bit8(
                    lcdc,
                    0,
                ) == 1 {
                    let (cid, pal) = spec_sample(
                        &old(sys).mem,
                        cgb,
                        ((old(sys).mem.io_regs@.get(IoReg::Scx) + x) % 256) as u8,
                        ((old(sys).mem.io_regs@.get(IoReg::Scy) + ly) % 256) as u8,
                        bit8(lcdc, 3) == 1,
                        bit8(lcdc, 4) == 1,
                    );
                    spec_bg_color(&old(sys).mem, cgb, cid, pal)
                } else {
                    0x7FFFu16
                })
        }),
{
    let lcdc = sys.mem.get(IoReg::Lcdc);
    render_bg_row(sys, ly, lcdc.bit(0) == 1);
    let ghost fb1 = sys.ppu.framebuffer@;
    if lcdc.bit(1) == 1 {
        let mut obj_idx: u8 = 0;
        while obj_idx < 40
            invariant
                sys.wf(),
                obj_idx <= 40,
                sys.ppu.window_line == old(sys).ppu.window_line,
                sys.ppu.framebuffer@ == row_with_objs(&old(sys).mem, fb1, ly, obj_idx as nat),
                only_row_changed(old(sys), sys, ly),
                ly < 144,
            decreases 40 - obj_idx,
        {
            try_draw_obj_row(sys, obj_idx, ly);
            obj_idx = obj_idx + 1;
        }
    }
    if lcdc.bit(0) == 1 && lcdc.bit(5) == 1 {
        render_window_row(sys, ly);
    }
}

/// Draws the background layer of scanline `ly`; with the layer off, the
/// row is the lightest color.
#[verifier::rlimit(100)]
fn render_bg_row(sys: &mut Sys, ly: u8, enabled: bool)
    requires
        old(sys).wf(),
        ly < 144,
    ensures
        final(sys).ppu.framebuffer@ == row_with_bg(
            &old(sys).mem,
            old(sys).ppu.framebuffer@,
            ly,
            enabled,
        ),
        final(sys).wf(),
        only_row_changed(old(sys), final(sys), ly),
        final(sys).ppu.window_line == old(sys).ppu.window_line,
        forall|x: int|
            0 <= x < 160 ==> #[trigger] final(sys).ppu.framebuffer@[ly * 160 + x] == (if enabled {
                let lcdc = old(sys).mem.io_regs@.get(IoReg::Lcdc);
                let cgb = old(sys).mem.vram.spec_num_banks() == 2;
                let (cid, pal) = spec_sample(
                    &old(sys).mem,
                    cgb,
                    ((old(sys).mem.io_regs@.get(IoReg::Scx) + x) % 256) as u8,
                    ((old(sys).mem.io_regs@.get(IoReg::Scy) + ly) % 256) as u8,
                    bit8(lcdc, 3) == 1,
                    bit8(lcdc, 4) == 1,
                );
                spec_bg_color(&old(sys).mem, cgb, cid, pal)
            } else {
                0x7FFFu16
            }),
{
    let lcdc = sys.mem.get(IoReg::Lcdc);
    let scx = sys.mem.get(IoReg::Scx);
    let scy = sys.mem.get(IoReg::Scy);
    let src_y = scy.wrapping_add(ly);
    let map_9c00 = lcdc.bit(3) == 1;
    let data_8000 = lcdc.bit(4) == 1;
    let row = ly as usize * SCREEN_WIDTH;
    let mut x: u8 = 0;
    while x < 160
        invariant
            sys.wf(),
            only_row_changed(old(sys), sys, ly),
            sys.ppu.window_line == old(sys).ppu.window_line,
            ly < 144,
            x <= 160,
            row == ly * 160,
            lcdc == old(sys).mem.io_regs@.get(IoReg::Lcdc),
            scx == old(sys).mem.io_regs@.get(IoReg::Scx),
            src_y == ((old(sys).mem.io_regs@.get(IoReg::Scy) + ly) % 256) as u8,
            map_9c00 == (bit8(lcdc, 3) == 1),
            data_8000 == (bit8(lcdc, 4) == 1),
            forall|j: int|
                0 <= j < x ==> #[trigger] sys.ppu.framebuffer@[ly * 160 + j] == (if enabled {
                    let cgb = old(sys).mem.vram.spec_num_banks() == 2;
                    let (cid, pal) = spec_sample(
                        &old(sys).mem,
                        cgb,
                        ((scx + j) % 256) as u8,
                        src_y,
                        map_9c00,
                        data_8000,
                    );
                    spec_bg_color(&old(sys).mem, cgb, cid, pal)
                } else {
                    0x7FFFu16
                }),
        decreases 160 - x,
    {
        let color = if enabled {
            let src_x = scx.wrapping_add(x);
            let (color_id, palette) = sample_pixel_from_tilemap(sys, src_x, src_y, map_9c00, data_8000);
            bg_color(sys, color_id, palette)
        } else {
            0x7FFF
        };
        sys.ppu.framebuffer.set(row + x as usize, color);
        x = x + 1;
    }
    proof {
        let fb = sys.ppu.framebuffer@;
        let want = row_with_bg(&old(sys).mem, old(sys).ppu.framebuffer@, ly, enabled);
        assert forall|k: int| 0 <= k < fb.len() implies fb[k] == want[k] by {
            if ly * 160 <= k < ly * 160 + 160 {
                let x = k - ly * 160;
                assert(fb[ly * 160 + x] == spec_bg_pixel(&old(sys).mem, ly, x, enabled));
            }
        }
        assert(fb =~= want);
    }
}

/// Draws the window over scanline `ly` when WY ≤ ly and WX ≤ 166: screen
/// pixel x shows window pixel x + 7 − WX of the window's own line, which
/// then advances.
#[verifier::rlimit(100)]
fn render_window_row(sys: &mut Sys, ly: u8)
    requires
        old(sys).wf(),
        ly < 144,
    ensures
        final(sys).ppu.framebuffer@ == row_with_window(
            &old(sys).mem,
            old(sys).ppu.framebuffer@,
            ly,
            old(sys).ppu.window_line,
        ),
        final(sys).wf(),
        only_row_changed(old(sys), final(sys), ly),
        ({
            let io = old(sys).mem.io_regs@;
            let wx = io.get(IoReg::Wx);
            let wy = io.get(IoReg::Wy);
            let lcdc = io.get(IoReg::Lcdc);
            let cgb = old(sys).mem.vram.spec_num_banks() == 2;
            if wy <= ly && wx <= 166 {
                &&& final(sys).ppu.window_line == ((old(sys).ppu.window_line + 1) % 256) as u8
                &&& forall|x: int|
                    0 <= x < 160 ==> #[trigger] final(sys).ppu.framebuffer@[ly * 160 + x] == (if x
                        + 7 >= wx {
                        let (cid, pal) = spec_sample(
                            &old(sys).mem,
                            cgb,
                            (x + 7 - wx) as u8,
                            old(sys).ppu.window_line,
                            bit8(lcdc, 6) == 1,
                            bit8(lcdc, 4) == 1,
                        );
                        spec_bg_color(&old(sys).mem, cgb, cid, pal)
                    } else {
                        old(sys).ppu.framebuffer@[ly * 160 + x]
                    })
            } else {
                final(sys).ppu == old(sys).ppu
            }
        }),
{
    let wx = sys.mem.get(IoReg::Wx);
    let wy = sys.mem.get(IoReg::Wy);
    if wy > ly || wx > 166 {
        return;
    }
    let lcdc = sys.mem.get(IoReg::Lcdc);
    let map_9c00 = lcdc.bit(6) == 1;
    let data_8000 = lcdc.bit(4) == 1;
    let win_y = sys.ppu.window_line;
    let row = ly as usize * SCREEN_WIDTH;
    let mut x: u8 = 0;
    while x < 160
        invariant
            sys.wf(),
            only_row_changed(old(sys), sys, ly),
            sys.ppu.window_line == old(sys).ppu.window_line,
            ly < 144,
            x <= 160,
            wx <= 166,
            wx == old(sys).mem.io_regs@.get(IoReg::Wx),
            win_y == old(sys).ppu.window_line,
            map_9c00 == (bit8(old(sys).mem.io_regs@.get(IoReg::Lcdc), 6) == 1),
            data_8000 == (bit8(old(sys).mem.io_regs@.get(IoReg::Lcdc), 4) == 1),
            row == ly * 160,
            forall|j: int|
                0 <= j < 160 ==> #[trigger] sys.ppu.framebuffer@[ly * 160 + j] == (if j < x && j
                    + 7 >= wx {
                    let cgb = old(sys).mem.vram.spec_num_banks() == 2;
                    let (cid, pal) = spec_sample(
                        &old(sys).mem,
                        cgb,
                        (j + 7 - wx) as u8,
                        win_y,
                        map_9c00,
                        data_8000,
                    );
                    spec_bg_color(&old(sys).mem, cgb, cid, pal)
                } else {
                    old(sys).ppu.framebuffer@[ly * 160 + j]
                }),
        decreases 160 - x,
    {
        if x as u16 + 7 >= wx as u16 {
            let win_x = (x as u16 + 7 - wx as u16) as u8;
            let (color_id, palette) = sample_pixel_from_tilemap(sys, win_x, win_y, map_9c00, data_8000);
            let color = bg_color(sys, color_id, palette);
            sys.ppu.framebuffer.set(row + x as usize, color);
        }
        x = x + 1;
    }
    proof {
        let fb = sys.ppu.framebuffer@;
        let want = row_with_window(&old(sys).mem, old(sys).ppu.framebuffer@, ly, win_y);
        assert forall|k: int| 0 <= k < fb.len() implies fb[k] == want[k] by {
            if ly * 160 <= k < ly * 160 + 160 {
                let x = k - ly * 160;
                assert(fb[ly * 160 + x] == fb[k]);
            }
        }
        assert(fb =~= want);
    }
    sys.ppu.window_line = sys.ppu.window_line.wrapping_add(1);
}

/// The color id of pixel `px` (0 leftmost) of a tile row given by its two
/// bytes, read mirrored when `x_flip`.
pub open spec fn spec_row_color_id(lo: u8, hi: u8, px: int, x_flip: bool) -> u8 {
    let b = (if x_flip { px } else { 7 - px }) as u8;
    (bit8(hi, b) * 2 + bit8(lo, b)) as u8
}

/// The RGB555 color of a sprite pixel: through OBP0 or OBP1 (attribute bit 4)
/// and the gray scale on a DMG, through object color RAM palette
/// (attribute bits 2..0) on a CGB.
pub open spec fn spec_obj_color(mem: &Mem, cgb: bool, attrs: u8, color_id: u8) -> u16 {
    if cgb {
        mem.io_regs@.obj.spec_color(attrs & 7, color_id) & 0x7FFF
    } else {
        let reg = if bit8(attrs, 4) == 0 { IoReg::Obp0 } else { IoReg::Obp1 };
        spec_gray(spec_shade(mem.io_regs@.get(reg), color_id))
    }
}

/// The part of sprite `obj_idx` that scanline `ly` crosses, as (x position,
/// low byte, high byte, attributes) of its tile row, or `None` when the
/// sprite is hidden or off the line. Sprites are 8 or 16 (LCDC bit 2) lines
/// high; attribute bit 6 flips them vertically; in 8x16 mode the upper tile
/// is the index with bit 0 clear and the lower one the next; on a CGB,
/// attribute bit 3 picks the VRAM bank.
pub open spec fn spec_obj_row(mem: &Mem, obj_idx: u8, ly: u8) -> Option<(u8, u8, u8, u8)> {
    let o = 4 * obj_idx as int;
    let y = mem.oam.data@[o];
    let x = mem.oam.data@[o + 1];
    let t = mem.oam.data@[o + 2];
    let a = mem.oam.data@[o + 3];
    let h: int = if bit8(mem.io_regs@.get(IoReg::Lcdc), 2) == 1 { 16 } else { 8 };
    if x == 0 || x >= 168 || y == 0 || y >= 160 {
        None
    } else if !(y <= ly + 16 < y + h) {
        None
    } else {
        let r0 = ly + 16 - y;
        let r = if bit8(a, 6) == 1 { h - 1 - r0 } else { r0 };
        let tile: int = if h == 16 { (t & 0xFE) + (if r >= 8 { 1int } else { 0int }) } else { t as int };
        let prow: int = if h == 16 && r >= 8 { r - 8 } else { r };
        let bank: nat = if mem.vram.spec_num_banks() == 2 && bit8(a, 3) == 1 { 1 } else { 0 };
        let addr = (0x8000 + tile * 16 + prow * 2) as u16;
        Some((x, mem.vram@[vram_index(bank, addr)], mem.vram@[vram_index(bank, (addr + 1) as u16)], a))
    }
}

/// Draws the row of sprite `obj_idx` that scanline `ly` crosses, if any.
/// Sprites at x = 0, x ≥ 168, y = 0 or y ≥ 160 are hidden; color id 0 is
/// transparent; the sprite's pixel `px` lands at screen x = x + px − 8.
fn try_draw_obj_row(sys: &mut Sys, obj_idx: u8, ly: u8)
    requires
        old(sys).wf(),
        obj_idx < 40,
        ly < 144,
    ensures
        final(sys).ppu.framebuffer@ == row_with_obj(
            &old(sys).mem,
            old(sys).ppu.framebuffer@,
            obj_idx,
            ly,
        ),
        final(sys).wf(),
        only_row_changed(old(sys), final(sys), ly),
        final(sys).ppu.window_line == old(sys).ppu.window_line,
        spec_obj_row(&old(sys).mem, obj_idx, ly) is None ==> final(sys).ppu == old(sys).ppu,
        spec_obj_row(&old(sys).mem, obj_idx, ly) matches Some((x, lo, hi, a)) ==> forall|sx: int|
            0 <= sx < 160 ==> #[trigger] final(sys).ppu.framebuffer@[ly * 160 + sx] == ({
                let px = sx + 8 - x;
                let cid = spec_row_color_id(lo, hi, px, bit8(a, 5) == 1);
                if 0 <= px < 8 && cid != 0 {
                    spec_obj_color(
                        &old(sys).mem,
                        old(sys).mem.vram.spec_num_banks() == 2,
                        a,
                        cid,
                    )
                } else {
                    old(sys).ppu.framebuffer@[ly * 160 + sx]
                }
            }),
{
    let lcdc = sys.mem.get(IoReg::Lcdc);
    let obj_addr: u16 = 0xFE00 + 4 * obj_idx as u16;
    let y_pos = sys.mem.oam.read(obj_addr);
    let x_pos = sys.mem.oam.read(obj_addr + 1);
    let tile_idx = sys.mem.oam.read(obj_addr + 2);
    let attrs = sys.mem.oam.read(obj_addr + 3);
    if x_pos == 0 || x_pos >= 168 || y_pos == 0 || y_pos >= 160 {
        return;
    }
    let obj_h: u8 = if lcdc.bit(2) == 1 { 16 } else { 8 };
    let line = ly as u16 + 16;
    if !(y_pos as u16 <= line && line < y_pos as u16 + obj_h as u16) {
        return;
    }
    let y_flip = attrs.bit(6) == 1;
    let mut pixel_y = (line - y_pos as u16) as u8;
    if y_flip {
        pixel_y = obj_h - 1 - pixel_y;
    }
    // In 8x16 mode the upper tile has bit 0 clear and the lower one set.
    let mut tile = tile_idx as u16;
    if obj_h == 16 {
        let base = tile_idx & 0xFE;
        assert(tile_idx & 0xFE <= 0xFE) by (bit_vector);
        tile = base as u16;
        if pixel_y >= 8 {
            tile = tile + 1;
            pixel_y = pixel_y - 8;
        }
    }
    let cgb = sys.mem.vram.num_banks() == 2;
    let bank: usize = if cgb && attrs.bit(3) == 1 { 1 } else { 0 };
    let row_lowers_addr = 0x8000 + tile * 16 + pixel_y as u16 * 2;
    let row_uppers_addr = row_lowers_addr + 1;
    let lo_byte = sys.mem.vram.get(bank, row_lowers_addr);
    let hi_byte = sys.mem.vram.get(bank, row_uppers_addr);
    draw_obj_pixels(sys, ly, x_pos, lo_byte, hi_byte, attrs);
    proof {
        let fb = sys.ppu.framebuffer@;
        let want = row_with_obj(&old(sys).mem, old(sys).ppu.framebuffer@, obj_idx, ly);
        assert forall|k: int| 0 <= k < fb.len() implies fb[k] == want[k] by {
            if ly * 160 <= k < ly * 160 + 160 {
                let sx = k - ly * 160;
                assert(fb[ly * 160 + sx] == fb[k]);
            }
        }
        assert(fb =~= want);
    }
}

/// Draws the eight pixels of a sprite's tile row on scanline `ly`.
fn draw_obj_pixels(sys: &mut Sys, ly: u8, x_pos: u8, lo: u8, hi: u8, attrs: u8)
    requires
        old(sys).wf(),
        ly < 144,
    ensures
        final(sys).wf(),
        only_row_changed(old(sys), final(sys), ly),
        final(sys).ppu.window_line == old(sys).ppu.window_line,
        forall|sx: int|
            0 <= sx < 160 ==> #[trigger] final(sys).ppu.framebuffer@[ly * 160 + sx] == ({
                let px = sx + 8 - x_pos;
                let cid = spec_row_color_id(lo, hi, px, bit8(attrs, 5) == 1);
                if 0 <= px < 8 && cid != 0 {
                    spec_obj_color(
                        &old(sys).mem,
                        old(sys).mem.vram.spec_num_banks() == 2,
                        attrs,
                        cid,
                    )
                } else {
                    old(sys).ppu.framebuffer@[ly * 160 + sx]
                }
            }),
{
    let x_flip = attrs.bit(5) == 1;
    let cgb = sys.mem.vram.num_banks() == 2;
    let palette_reg = if attrs.bit(4) == 0 { IoReg::Obp0 } else { IoReg::Obp1 };
    let palette = sys.mem.get(palette_reg);
    let cgb_palette = attrs & 7;
    assert(attrs & 7 < 8) by (bit_vector);
    let row = ly as usize * SCREEN_WIDTH;
    let mut x: u8 = 0;
    while x < 8
        invariant
            sys.wf(),
            only_row_changed(old(sys), sys, ly),
            sys.ppu.window_line == old(sys).ppu.window_line,
            sys.mem == old(sys).mem,
            ly < 144,
            x <= 8,
            row == ly * 160,
            cgb_palette == attrs & 7,
            cgb_palette < 8,
            x_flip == (bit8(attrs, 5) == 1),
            cgb == (old(sys).mem.vram.spec_num_banks() == 2),
            palette == old(sys).mem.io_regs@.get(
                if bit8(attrs, 4) == 0 { IoReg::Obp0 } else { IoReg::Obp1 },
            ),
            forall|sx: int|
                0 <= sx < 160 ==> #[trigger] sys.ppu.framebuffer@[ly * 160 + sx] == ({
                    let px = sx + 8 - x_pos;
                    let cid = spec_row_color_id(lo, hi, px, x_flip);
                    if 0 <= px < x && cid != 0 {
                        spec_obj_color(&old(sys).mem, cgb, attrs, cid)
                    } else {
                        old(sys).ppu.framebuffer@[ly * 160 + sx]
                    }
                }),
        decreases 8 - x,
    {
        let bit = if x_flip { x } else { 7 - x };
        let h = hi.bit(bit);
        let l = lo.bit(bit);
        let color_id = (h << 1) | l;
        assert(h <= 1 && l <= 1 ==> (h << 1) | l == h * 2 + l && h * 2 + l < 4) by (bit_vector);
        assert(color_id == spec_row_color_id(lo, hi, x as int, x_flip));
        let screen_x = x_pos as u16 + x as u16;
        if color_id != 0 && screen_x >= 8 && screen_x < 168 {
            let color = if cgb {
                sys.mem.io_regs.obj_cram().get(cgb_palette, color_id) & 0x7FFF
            } else {
                gray(shade(palette, color_id))
            };
            sys.ppu.framebuffer.set(row + (screen_x - 8) as usize, color);
        }
        x = x + 1;
    }
}

} // verus!
