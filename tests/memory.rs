use gb_emu::cart::cart::Cart;
use gb_emu::mem::cram::Cram;
use gb_emu::mem::io_regs::{IoReg, IoRegData, IoRegs};
use gb_emu::mem::sections::MemSection;
use gb_emu::mem::vram::Vram;
use gb_emu::mem::wram::Wram;
use gb_emu::other::joypad::joypad_nibble;
use gb_emu::other::mode::CompatibilityMode;
use gb_emu::ppu::dma_vram::update_vram_dma;
use gb_emu::ppu::ppu::PpuMode;
use gb_emu::ppu::render::render_scanline;
use gb_emu::sys::sys::{Options, Sys};
use gb_emu::time::clock::Clock;

fn sys_with_flag(flag: u8) -> Sys {
    let mut rom = vec![0u8; 0x8000];
    rom[0x143] = flag;
    rom[0x147] = 0x19;
    rom[0x149] = 2;
    for i in 0..0x4000usize {
        rom[0x4000 + i] = (i % 251) as u8;
    }
    let cart = Cart::from_rom(rom).unwrap();
    Sys::new(Options { kill_after_cpu_ticks: None, kill_after_nop_count: None }, cart)
}

#[test]
fn cram_auto_increment() {
    let mut cram = Cram::new();
    assert_eq!(cram.get(0, 0), 0xFFFF);
    cram.set_index_reg(0x80 | 0x3E);
    cram.write(0x34);
    cram.write(0x12);
    assert_eq!(cram.index(), 0);
    assert_eq!(cram.auto_inc(), 1);
    assert_eq!(cram.get(7, 3), 0x1234);
    cram.set_index_reg(0x05);
    cram.write(0x77);
    assert_eq!(cram.index(), 5);
    assert_eq!(cram.read(), 0x77);
}

#[test]
fn io_register_masks() {
    let mut io = IoRegs::new();
    io.set(IoReg::Stat, 0x85);
    io.user_write(0xFF41, 0x7A);
    assert_eq!(io.get(IoReg::Stat), 0x7D);
    io.set(IoReg::Ly, 0x42);
    io.user_write(0xFF44, 0x00);
    assert_eq!(io.user_read(0xFF44), 0x42);
    io.user_write(0xFF0F, 0xFF);
    assert_eq!(io.get(IoReg::If), 0x1F);
    io.set(IoReg::If, 0xE1);
    assert_eq!(io.user_read(0xFF0F), 0x01);
    io.user_write(0xFF4D, 0xFF);
    assert_eq!(io.get(IoReg::Key1), 0x7F);
    io.user_write(0xFF76, 0x12);
    assert_eq!(io.get(IoReg::Pcm12), 0);
    io.user_write(0xFF10, 0x3C);
    assert_eq!(io.user_read(0xFF10), 0x3C);
    io.user_write(0xFFFF, 0x1F);
    assert_eq!(io.get(IoReg::Ie), 0x1F);
    assert!(!io.dma_requested());
    io.user_write(0xFF46, 0xC0);
    assert!(io.dma_requested());
    io.user_write(0xFF55, 0x01);
    assert!(io.hdma_requested());
    assert_eq!(IoReg::Hdma5.as_addr(), 0xFF55);
    assert_eq!(IoReg::from_u16(0xFF47), Some(IoReg::Bgp));
    assert_eq!(IoReg::from_u16(0xFF03), None);
    assert_eq!(IoRegData::from_reg(IoReg::Rp).write_mask(), 0b1111_1101);
    assert_eq!(IoRegData::from_reg(IoReg::If).read_mask(), 0x1F);
}

#[test]
fn palette_data_through_io() {
    let mut io = IoRegs::new();
    io.user_write(0xFF68, 0x80 | 0x08);
    io.user_write(0xFF69, 0x1F);
    io.user_write(0xFF69, 0x00);
    assert_eq!(io.bg_cram().get(1, 0), 0x001F);
    assert_eq!(io.get(IoReg::Bcps), 0x80 | 0x0A);
    io.user_write(0xFF6A, 0x02);
    io.user_write(0xFF6B, 0xE0);
    assert_eq!(io.obj_cram().get(0, 1), 0xFFE0);
    assert_eq!(io.get(IoReg::Ocps), 0x02);
}

#[test]
fn sections_and_address_map() {
    assert_eq!(MemSection::from_abs_addr(0x0000), MemSection::CartRom);
    assert_eq!(MemSection::from_abs_addr(0x9FFF), MemSection::Vram);
    assert_eq!(MemSection::from_abs_addr(0xE123), MemSection::EchoRam);
    assert_eq!(MemSection::from_abs_addr(0xFEA0), MemSection::UnusableMemory);
    assert_eq!(MemSection::from_abs_addr(0xFF7F), MemSection::IoRegs);
    assert_eq!(MemSection::from_abs_addr(0xFFFE), MemSection::Hram);
    assert_eq!(MemSection::from_abs_addr(0xFFFF), MemSection::IeReg);
    assert_eq!(MemSection::Oam.size(), 0xA0);
    assert_eq!(MemSection::Hram.start_addr(), 0xFF80);
    let arr = MemSection::into_array(MemSection::Hram);
    assert_eq!(arr.data.len(), 0x7F);
    assert!(arr.contains_addr(0xFFFE));
    assert!(!arr.contains_addr(0xFFFF));
}

#[test]
fn memory_map_routing() {
    let mut sys = sys_with_flag(0x00);
    // The bank selector starts at 0, which maps bank 0.
    assert_eq!(sys.mem.read(0x4005), 0);
    sys.mem.write(0x2000, 1).unwrap();
    assert_eq!(sys.mem.read(0x4005), 5);
    sys.mem.write(0xC123, 0x42).unwrap();
    assert_eq!(sys.mem.read(0xE123), 0x42);
    sys.mem.write(0xE124, 0x43).unwrap();
    assert_eq!(sys.mem.read(0xC124), 0x43);
    assert_eq!(sys.mem.read(0xFEA5), 0xFF);
    sys.mem.write(0xFEA5, 0x00).unwrap();
    assert_eq!(sys.mem.read(0xFEA5), 0xFF);
    sys.mem.write(0xFF90, 0x99).unwrap();
    assert_eq!(sys.mem.read(0xFF90), 0x99);
    sys.mem.write(0x8010, 0x5A).unwrap();
    assert_eq!(sys.mem.read(0x8010), 0x5A);
    sys.mem.write(0x0000, 0x0A).unwrap();
    sys.mem.write(0xA000, 0x66).unwrap();
    assert_eq!(sys.mem.read(0xA000), 0x66);
    assert!(sys.mem.write(0x7000, 0x01).is_err());
}

#[test]
fn wram_banks() {
    let mut sys = sys_with_flag(0xC0);
    sys.mem.set(IoReg::Svbk, 0);
    sys.mem.write(0xD000, 1).unwrap();
    sys.mem.set(IoReg::Svbk, 3);
    sys.mem.write(0xD000, 3).unwrap();
    sys.mem.set(IoReg::Svbk, 1);
    assert_eq!(sys.mem.read(0xD000), 1);
    sys.mem.set(IoReg::Svbk, 3);
    assert_eq!(sys.mem.read(0xD000), 3);
    let wram = Wram::new(false);
    let io = IoRegs::new();
    assert_eq!(wram.read(&io, 0xDFFF), 0);
}

#[test]
fn vram_banks() {
    let mut sys = sys_with_flag(0xC0);
    sys.mem.write(0x8000, 0x11).unwrap();
    sys.mem.set(IoReg::Vbk, 1);
    sys.mem.write(0x8000, 0x22).unwrap();
    assert_eq!(sys.mem.vram.get(0, 0x8000), 0x11);
    assert_eq!(sys.mem.vram.get(1, 0x8000), 0x22);
    assert_eq!(sys.mem.vram.get_range(1, 0..2), &[0x22, 0x00]);
    let v = Vram::new(false);
    assert_eq!(v.num_banks(), 1);
    assert_eq!(Vram::new(true).num_banks(), 2);
}

#[test]
fn general_vram_dma_copies_blocks() {
    let mut sys = sys_with_flag(0xC0);
    sys.mem.write(0x2000, 1).unwrap();
    sys.mem.set(IoReg::Hdma1, 0x40);
    sys.mem.set(IoReg::Hdma2, 0x00);
    sys.mem.set(IoReg::Hdma3, 0x01);
    sys.mem.set(IoReg::Hdma4, 0x00);
    sys.mem.write(0xFF55, 0x01).unwrap();
    update_vram_dma(&mut sys);
    assert_eq!(sys.mem.vram.get(0, 0x8100), 0);
    assert_eq!(sys.mem.vram.get(0, 0x810F), 15);
    assert!(sys.ppu.hdma.is_active);
    assert_eq!(sys.mem.get(IoReg::Hdma5), 0x80);
    update_vram_dma(&mut sys);
    assert_eq!(sys.mem.vram.get(0, 0x811F), 31);
    assert!(!sys.ppu.hdma.is_active);
    assert_eq!(sys.mem.get(IoReg::Hdma5) & 0x80, 0);
}

#[test]
fn background_pixels_follow_tiles_and_palette() {
    let mut sys = sys_with_flag(0x00);
    // Tile 1: row 0 is color ids 3,2,1,0,0,0,0,0.
    sys.mem.write(0x8010, 0b1010_0000).unwrap();
    sys.mem.write(0x8011, 0b1100_0000).unwrap();
    // Map entry (0, 0) of the 0x9800 map selects tile 1.
    sys.mem.write(0x9800, 1).unwrap();
    sys.mem.set(IoReg::Lcdc, 0x91);
    sys.mem.set(IoReg::Bgp, 0b1110_0100);
    render_scanline(&mut sys, 0);
    let fb = sys.ppu.framebuffer();
    assert_eq!(fb[0], 0x0000);
    assert_eq!(fb[1], 0x294A);
    assert_eq!(fb[2], 0x56B5);
    assert_eq!(fb[3], 0x7FFF);
    // Scroll by one pixel.
    sys.mem.set(IoReg::Scx, 1);
    render_scanline(&mut sys, 5);
    assert_eq!(sys.ppu.framebuffer()[5 * 160], 0x7FFF);
    render_scanline(&mut sys, 0);
    assert_eq!(sys.ppu.framebuffer()[0], 0x294A);
}

#[test]
fn sprites_draw_over_background() {
    let mut sys = sys_with_flag(0x00);
    sys.mem.write(0x8020, 0xFF).unwrap();
    sys.mem.write(0x8021, 0x00).unwrap();
    // Sprite 0 at screen (0, 0): OAM y = 16, x = 8, tile 2.
    sys.mem.write(0xFE00, 16).unwrap();
    sys.mem.write(0xFE01, 8).unwrap();
    sys.mem.write(0xFE02, 2).unwrap();
    sys.mem.write(0xFE03, 0).unwrap();
    sys.mem.set(IoReg::Lcdc, 0x93);
    sys.mem.set(IoReg::Obp0, 0b0000_1100);
    render_scanline(&mut sys, 0);
    assert_eq!(sys.ppu.framebuffer()[0], 0x0000);
    assert_eq!(sys.ppu.framebuffer()[7], 0x0000);
    assert_eq!(sys.ppu.framebuffer()[8], 0x7FFF);
}

#[test]
fn joypad_nibble_values() {
    assert_eq!(joypad_nibble(0x30, 0xFF), 0x0F);
    assert_eq!(joypad_nibble(0x00, 0xFF), 0x00);
    assert_eq!(joypad_nibble(0x10, 0b1000_0000), 0b1011);
    assert_eq!(joypad_nibble(0x20, 0b0000_1000), 0b1101);
}

#[test]
fn clock_ticks_every_period() {
    let mut c = Clock::new("T", 3);
    assert!(!c.update_and_check());
    assert!(!c.update_and_check());
    assert!(c.update_and_check());
    assert_eq!(c.total_ticks(), 1);
    assert_eq!(c.count(), 0);
    c.set_period(1);
    assert!(c.update_and_check());
    assert_eq!(c.period(), 1);
    assert_eq!(c.name(), "T");
}

#[test]
fn compatibility_modes() {
    assert!(CompatibilityMode::CgbOnly.is_cgb_only());
    assert!(CompatibilityMode::CgbBackward.is_cgb());
    assert!(!CompatibilityMode::CgbBackward.is_cgb_only());
    assert!(!CompatibilityMode::DmgOnly.is_cgb());
    assert_eq!(CompatibilityMode::from_flag(0x80), CompatibilityMode::CgbBackward);
}

#[test]
fn window_covers_from_wx_minus_7() {
    let mut sys = sys_with_flag(0x00);
    // Tile 1 is solid color id 3; the window map at 0x9C00 uses it.
    for r in 0..8u16 {
        sys.mem.write(0x8010 + 2 * r, 0xFF).unwrap();
        sys.mem.write(0x8011 + 2 * r, 0xFF).unwrap();
    }
    for i in 0..32u16 {
        sys.mem.write(0x9C00 + i, 1).unwrap();
    }
    sys.mem.set(IoReg::Bgp, 0b1110_0100);
    sys.mem.set(IoReg::Lcdc, 0x91 | 0x20 | 0x40);
    sys.mem.set(IoReg::Wx, 7 + 10);
    sys.mem.set(IoReg::Wy, 0);
    render_scanline(&mut sys, 0);
    let fb = sys.ppu.framebuffer();
    assert_eq!(fb[9], 0x7FFF);
    assert_eq!(fb[10], 0x0000);
    assert_eq!(fb[159], 0x0000);
    assert_eq!(sys.ppu.window_line, 1);
    // Below WY nothing is drawn and the line counter stays.
    sys.mem.set(IoReg::Wy, 100);
    render_scanline(&mut sys, 1);
    assert_eq!(sys.ppu.framebuffer()[160 + 10], 0x7FFF);
    assert_eq!(sys.ppu.window_line, 1);
}

#[test]
fn tall_sprite_uses_next_tile_for_lower_half() {
    let mut sys = sys_with_flag(0x00);
    // Tile 4 row 0 is color id 1 everywhere, tile 5 row 0 color id 2.
    sys.mem.write(0x8040, 0xFF).unwrap();
    sys.mem.write(0x8051, 0xFF).unwrap();
    // 8x16 sprite at screen (0, 0) with tile index 5 (bit 0 is ignored).
    sys.mem.write(0xFE00, 16).unwrap();
    sys.mem.write(0xFE01, 8).unwrap();
    sys.mem.write(0xFE02, 5).unwrap();
    sys.mem.write(0xFE03, 0).unwrap();
    sys.mem.set(IoReg::Lcdc, 0x97);
    sys.mem.set(IoReg::Obp0, 0b1110_0100);
    render_scanline(&mut sys, 0);
    assert_eq!(sys.ppu.framebuffer()[0], 0x56B5);
    render_scanline(&mut sys, 8);
    assert_eq!(sys.ppu.framebuffer()[8 * 160], 0x294A);
    // Flipped vertically, line 0 shows the lower tile's last row (empty).
    sys.mem.write(0xFE03, 0x40).unwrap();
    render_scanline(&mut sys, 0);
    assert_eq!(sys.ppu.framebuffer()[0], 0x7FFF);
}

#[test]
fn hblank_vram_dma_copies_one_block_per_hblank() {
    let mut sys = sys_with_flag(0xC0);
    sys.mem.write(0x2000, 1).unwrap();
    sys.mem.set(IoReg::Hdma1, 0x40);
    sys.mem.set(IoReg::Hdma2, 0x00);
    sys.mem.set(IoReg::Hdma3, 0x00);
    sys.mem.set(IoReg::Hdma4, 0x00);
    sys.mem.write(0xFF55, 0x81).unwrap();
    sys.ppu.mode = PpuMode::Draw;
    update_vram_dma(&mut sys);
    assert_eq!(sys.ppu.hdma.next_idx, 0);
    sys.ppu.mode = PpuMode::HBlank;
    update_vram_dma(&mut sys);
    assert_eq!(sys.ppu.hdma.next_idx, 16);
    assert_eq!(sys.mem.get(IoReg::Hdma5), 0x80);
    update_vram_dma(&mut sys);
    assert_eq!(sys.ppu.hdma.next_idx, 16);
    sys.ppu.mode = PpuMode::OamScan;
    update_vram_dma(&mut sys);
    sys.ppu.mode = PpuMode::HBlank;
    update_vram_dma(&mut sys);
    assert_eq!(sys.ppu.hdma.next_idx, 32);
    assert!(!sys.ppu.hdma.is_active);
    assert_eq!(sys.mem.vram.get(0, 0x801F), 31);
    assert_eq!(sys.mem.get(IoReg::Hdma5) & 0x80, 0);
}

#[test]
fn hblank_vram_dma_can_be_cancelled() {
    let mut sys = sys_with_flag(0xC0);
    sys.mem.write(0xFF55, 0x83).unwrap();
    sys.ppu.mode = PpuMode::Draw;
    update_vram_dma(&mut sys);
    assert!(sys.ppu.hdma.is_active);
    sys.mem.write(0xFF55, 0x00).unwrap();
    update_vram_dma(&mut sys);
    assert!(!sys.ppu.hdma.is_active);
    assert_eq!(sys.mem.get(IoReg::Hdma5) & 0x80, 0);
}
