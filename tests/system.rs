use gb_emu::cart::cart::Cart;
use gb_emu::cart::hw_mbc5::HwMbc5;
use gb_emu::cpu::exec::execute_next_instr;
use gb_emu::cpu::regs::CpuReg16;
use gb_emu::error::EmuError;
use gb_emu::mem::io_regs::IoReg;
use gb_emu::ppu::dma_oam::update_oam_dma;
use gb_emu::sys::sys::{Options, Sys};
use gb_emu::time::timers::update_timer_regs;

fn rom_with(cgb_flag: u8, code: &[(usize, u8)]) -> Vec<u8> {
    let mut rom = vec![0u8; 0x8000];
    rom[0x143] = cgb_flag;
    rom[0x147] = 0x19;
    rom[0x148] = 0;
    rom[0x149] = 2;
    for &(addr, b) in code {
        rom[addr] = b;
    }
    rom
}

fn no_guards() -> Options {
    Options { kill_after_cpu_ticks: None, kill_after_nop_count: None }
}

fn sys_with(cgb_flag: u8, code: &[(usize, u8)]) -> Sys {
    let cart = Cart::from_rom(rom_with(cgb_flag, code)).unwrap();
    Sys::new(no_guards(), cart)
}

#[test]
fn reset_state_dmg() {
    let sys = sys_with(0x00, &[]);
    assert_eq!(sys.regs.get_16(CpuReg16::PC), 0x0100);
    assert_eq!(sys.regs.get_16(CpuReg16::SP), 0xFFFE);
    assert_eq!(sys.regs.get_16(CpuReg16::AF), 0x01B0);
    assert_eq!(sys.mem.get(IoReg::Ly), 0);
    assert_eq!(sys.mem.get(IoReg::If), 0xE1);
    assert_eq!(sys.mem.get(IoReg::Lcdc), 0x91);
}

#[test]
fn reset_state_cgb() {
    let sys = sys_with(0xC0, &[]);
    assert_eq!(sys.regs.get_16(CpuReg16::PC), 0x0100);
    assert_eq!(sys.regs.get_16(CpuReg16::SP), 0xFFFE);
    assert_eq!(sys.regs.get_16(CpuReg16::AF), 0x1180);
    assert_eq!(sys.mem.get(IoReg::Ly), 0);
    assert_eq!(sys.mem.get(IoReg::If), 0xE1);
    assert_eq!(sys.mem.get(IoReg::Lcdc), 0x91);
    assert!(sys.is_cgb_mode());
}

#[test]
fn timer_overflow_reloads_from_tma() {
    let mut sys = sys_with(0x00, &[]);
    sys.mem.set(IoReg::Tac, 0x05);
    sys.mem.set(IoReg::Tima, 0xFE);
    sys.mem.set(IoReg::Tma, 0xAB);
    sys.mem.set(IoReg::If, 0x00);
    for _ in 0..8 {
        update_timer_regs(&mut sys);
    }
    assert_eq!(sys.mem.get(IoReg::Tima), 0xAB);
    assert_eq!(sys.mem.get(IoReg::If) & 0b100, 0b100);
}

#[test]
fn timer_counts_every_period() {
    let mut sys = sys_with(0x00, &[]);
    sys.mem.set(IoReg::Tac, 0x06);
    sys.mem.set(IoReg::Tima, 0x10);
    for _ in 0..32 {
        update_timer_regs(&mut sys);
    }
    assert_eq!(sys.mem.get(IoReg::Tima), 0x12);
    // Disabled: TIMA stays.
    sys.mem.set(IoReg::Tac, 0x02);
    for _ in 0..64 {
        update_timer_regs(&mut sys);
    }
    assert_eq!(sys.mem.get(IoReg::Tima), 0x12);
}

#[test]
fn div_counts_every_64_cycles_and_resets_on_write() {
    let mut sys = sys_with(0x00, &[]);
    sys.mem.set(IoReg::Div, 0x00);
    for _ in 0..128 {
        update_timer_regs(&mut sys);
    }
    assert_eq!(sys.mem.get(IoReg::Div), 2);
    sys.mem.write(0xFF04, 0x55).unwrap();
    assert_eq!(sys.mem.get(IoReg::Div), 0);
}

#[test]
fn jr_minus_two_loops_on_itself() {
    let mut sys = sys_with(0x00, &[(0x100, 0x18), (0x101, 0xFE)]);
    assert_eq!(sys.regs.pc, 0x0100);
    let cycles = execute_next_instr(&mut sys).unwrap();
    assert_eq!(sys.regs.pc, 0x0100);
    assert_eq!(cycles, 3);
}

#[test]
fn jr_conditional_timing() {
    // JR NZ,+2 with Z set (DMG reset F = 0xB0): not taken.
    let mut sys = sys_with(0x00, &[(0x100, 0x20), (0x101, 0x02)]);
    assert_eq!(execute_next_instr(&mut sys).unwrap(), 2);
    assert_eq!(sys.regs.pc, 0x0102);
    // JR Z,+2: taken.
    let mut sys = sys_with(0x00, &[(0x100, 0x28), (0x101, 0x02)]);
    assert_eq!(execute_next_instr(&mut sys).unwrap(), 3);
    assert_eq!(sys.regs.pc, 0x0104);
}

#[test]
fn oam_dma_copies_160_bytes() {
    let mut sys = sys_with(0x00, &[]);
    for i in 0..0xA0u16 {
        sys.mem.write(0xC000 + i, i as u8).unwrap();
    }
    sys.mem.write(0xFF46, 0xC0).unwrap();
    for _ in 0..160 {
        sys.run_one_m_cycle();
    }
    for i in 0..0xA0u16 {
        assert_eq!(sys.mem.read(0xFE00 + i), i as u8);
    }
    assert!(!sys.ppu.dma.is_active);
}

#[test]
fn oam_dma_restarts_on_new_write() {
    let mut sys = sys_with(0x00, &[]);
    for i in 0..0xA0u16 {
        sys.mem.write(0xC000 + i, 1).unwrap();
        sys.mem.write(0xD000 + i, 2).unwrap();
    }
    sys.mem.write(0xFF46, 0xC0).unwrap();
    for _ in 0..10 {
        update_oam_dma(&mut sys);
    }
    sys.mem.write(0xFF46, 0xD0).unwrap();
    for _ in 0..160 {
        update_oam_dma(&mut sys);
    }
    for i in 0..0xA0u16 {
        assert_eq!(sys.mem.read(0xFE00 + i), 2);
    }
    assert!(!sys.ppu.dma.is_active);
}

#[test]
fn hblank_stat_interrupt_once_per_visible_line() {
    let mut sys = sys_with(0x00, &[]);
    let stat = sys.mem.get(IoReg::Stat);
    sys.mem.set(IoReg::Stat, stat | 0x08);
    let lcdc = sys.mem.get(IoReg::Lcdc);
    sys.mem.set(IoReg::Lcdc, lcdc | 0x80);
    sys.mem.set(IoReg::If, 0);
    let mut count = 0;
    for _ in 0..(456 * 154 / 4) {
        sys.run_one_m_cycle();
        let if_ = sys.mem.get(IoReg::If);
        if if_ & 0b10 != 0 {
            count += 1;
            sys.mem.set(IoReg::If, if_ & !0b10);
        }
    }
    assert_eq!(count, 144);
    assert_eq!(sys.ppu.total_frames_drawn(), 1);
    assert!(!sys.hard_lock);
}

#[test]
fn frame_takes_456_by_154_dots() {
    let mut sys = sys_with(0x00, &[]);
    for _ in 0..(456 * 154 / 4 - 1) {
        sys.run_one_m_cycle();
    }
    assert_eq!(sys.ppu.total_frames_drawn(), 0);
    sys.run_one_m_cycle();
    assert_eq!(sys.ppu.total_frames_drawn(), 1);
    assert_eq!(sys.ppu.ly, 0);
    assert_eq!(sys.ppu.curr_scanline_dot, 0);
    assert!(sys.is_render_pending);
}

#[test]
fn ppu_registers_track_mode_and_line() {
    let mut sys = sys_with(0x00, &[]);
    sys.mem.set(IoReg::Lyc, 3);
    // Run into scanline 3, dot 100 (Draw).
    for _ in 0..((3 * 456 + 100) / 4) {
        sys.run_one_m_cycle();
    }
    assert_eq!(sys.mem.get(IoReg::Ly), 3);
    assert_eq!(sys.mem.get(IoReg::Stat) & 3, 3);
    assert_eq!(sys.mem.get(IoReg::Stat) & 4, 4);
    for _ in 0..(200 / 4) {
        sys.run_one_m_cycle();
    }
    assert_eq!(sys.mem.get(IoReg::Stat) & 3, 0);
}

#[test]
fn mbc5_banking_selects_bank() {
    let mut rom = vec![0u8; 16 * 0x4000];
    for bank in 0..16usize {
        rom[bank * 0x4000] = bank as u8;
        rom[bank * 0x4000 + 1] = 0xA0 + bank as u8;
    }
    let expected = rom[0x05 * 0x4000];
    let mut hw = HwMbc5::with_rom(rom, 0);
    hw.write(0x2000, 0x05).unwrap();
    assert_eq!(hw.read(0x4000), Ok(expected));
    assert_eq!(hw.read(0x4001), Ok(0xA5));
    assert_eq!(hw.rom_bank_sel(), 5);
    hw.write(0x2000, 0x00).unwrap();
    assert_eq!(hw.read(0x4000), Ok(0));
    assert_eq!(hw.read(0x0001), Ok(0xA0));
    // Past the end of the ROM reads 0.
    hw.write(0x2000, 0x20).unwrap();
    assert_eq!(hw.read(0x4001), Ok(0));
    hw.write(0x3000, 0x01).unwrap();
    assert_eq!(hw.rom_bank_sel(), 0x120);
}

#[test]
fn mbc5_ram_enable_and_banks() {
    let mut hw = HwMbc5::new(2, 4);
    hw.write(0xA000, 0x11).unwrap();
    assert_eq!(hw.read(0xA000), Ok(0));
    hw.write(0x0000, 0x0A).unwrap();
    hw.write(0x4000, 0x02).unwrap();
    assert_eq!(hw.ram_bank_sel(), 2);
    hw.write(0xA003, 0x22).unwrap();
    assert_eq!(hw.read(0xA003), Ok(0x22));
    assert_eq!(hw.ram()[2 * 0x2000 + 3], 0x22);
    hw.write(0x4000, 0x00).unwrap();
    assert_eq!(hw.read(0xA003), Ok(0));
    hw.write(0x0000, 0x00).unwrap();
    hw.write(0xA003, 0x33).unwrap();
    assert_eq!(hw.read(0xA003), Ok(0));
}

#[test]
fn mbc5_invalid_addresses() {
    let mut hw = HwMbc5::new(2, 1);
    assert_eq!(hw.write(0x6000, 1), Err(EmuError::InvalidAddress));
    assert_eq!(hw.write(0xC000, 1), Err(EmuError::InvalidAddress));
    assert_eq!(hw.read(0x8000), Err(EmuError::InvalidAddress));
}

#[test]
fn bad_headers_are_refused() {
    assert!(matches!(Cart::from_rom(vec![0u8; 0x100]), Err(EmuError::BadHeader)));
    let mut rom = rom_with(0, &[]);
    rom[0x148] = 1;
    assert!(matches!(Cart::from_rom(rom), Err(EmuError::BadHeader)));
    let mut rom = rom_with(0, &[]);
    rom[0x148] = 9;
    assert!(matches!(Cart::from_rom(rom), Err(EmuError::BadHeader)));
}

#[test]
fn loader_sizes_buffers_from_header() {
    let mut rom = rom_with(0x80, &[]);
    rom.resize(0x10000 + 5, 7);
    rom[0x148] = 1;
    rom[0x149] = 3;
    let cart = Cart::from_rom(rom).unwrap();
    assert_eq!(cart.header.rom_size(), 0x10000);
    assert_eq!(cart.header.ram_banks(), 4);
    assert_eq!(cart.hw.ram().len(), 4 * 0x2000);
}

#[test]
fn invalid_cartridge_write_locks_the_system() {
    // LD (HL),A with HL = 0x6000: the MBC does not map that address.
    let mut sys = sys_with(0x00, &[(0x100, 0x77)]);
    sys.regs.h = 0x60;
    sys.regs.l = 0x00;
    for _ in 0..3 {
        sys.run_one_m_cycle();
    }
    assert!(sys.hard_lock);
    assert_eq!(sys.failure, Some(EmuError::InvalidAddress));
}

#[test]
fn undecoded_opcode_locks_the_system() {
    let mut sys = sys_with(0x00, &[(0x100, 0xCB)]);
    sys.run_one_m_cycle();
    assert!(sys.hard_lock);
    assert_eq!(sys.failure, Some(EmuError::UndecodedOpcode));
    let pc = sys.regs.pc;
    sys.run_one_m_cycle();
    assert_eq!(sys.regs.pc, pc);
}

#[test]
fn nop_budget_locks_the_system() {
    let cart = Cart::from_rom(rom_with(0x00, &[])).unwrap();
    let mut sys = Sys::new(Options { kill_after_cpu_ticks: None, kill_after_nop_count: Some(3) }, cart);
    for _ in 0..10 {
        sys.run_one_m_cycle();
    }
    assert!(sys.hard_lock);
    assert_eq!(sys.failure, Some(EmuError::DebugBudgetExceeded));
    assert_eq!(sys.nop_count, 3);
}

#[test]
fn tick_budget_locks_the_system() {
    let cart = Cart::from_rom(rom_with(0x00, &[])).unwrap();
    let mut sys = Sys::new(Options { kill_after_cpu_ticks: Some(5), kill_after_nop_count: None }, cart);
    for _ in 0..10 {
        sys.run_one_m_cycle();
    }
    assert!(sys.hard_lock);
    assert_eq!(sys.failure, Some(EmuError::DebugBudgetExceeded));
    assert_eq!(sys.cpu_clock.total_ticks(), 5);
}

#[test]
fn interrupt_service_calls_vector() {
    let mut sys = sys_with(0x00, &[]);
    sys.interrupt_master_enable = true;
    sys.mem.set(IoReg::Ie, 0b0000_0110);
    sys.mem.set(IoReg::If, 0b0000_0110);
    sys.run_one_m_cycle();
    assert_eq!(sys.regs.pc, 0x0048);
    assert_eq!(sys.regs.sp, 0xFFFC);
    assert!(!sys.interrupt_master_enable);
    assert_eq!(sys.mem.get(IoReg::If) & 0x1F, 0b0000_0100);
    assert_eq!(sys.mem.read(0xFFFD), 0x01);
    assert_eq!(sys.mem.read(0xFFFC), 0x00);
    assert_eq!(sys.cpu_delay_ticks, 5);
}

#[test]
fn halt_waits_for_pending_interrupt() {
    let mut sys = sys_with(0x00, &[(0x100, 0x76)]);
    sys.mem.set(IoReg::If, 0);
    sys.mem.set(IoReg::Ie, 0x04);
    assert_eq!(execute_next_instr(&mut sys).unwrap(), 1);
    assert!(sys.halted);
    assert_eq!(execute_next_instr(&mut sys).unwrap(), 1);
    assert_eq!(sys.regs.pc, 0x0101);
    sys.mem.set(IoReg::If, 0x04);
    assert_eq!(execute_next_instr(&mut sys).unwrap(), 1);
    assert!(!sys.halted);
    assert_eq!(sys.regs.pc, 0x0102);
}

#[test]
fn stop_toggles_speed_when_armed() {
    let mut sys = sys_with(0xC0, &[(0x100, 0x10)]);
    sys.mem.set(IoReg::Key1, 0x01);
    execute_next_instr(&mut sys).unwrap();
    assert_eq!(sys.mem.get(IoReg::Key1), 0x80);
    assert!(sys.speed_ctrl.is_stop_active());
    assert_eq!(sys.speed_ctrl.stop_mcycles_left, 2050);
}

#[test]
fn instruction_effects() {
    // LD B,0x12; LD C,B; LD HL,0xC000; LD (HL),C; INC (HL); LD A,(HL);
    // ADD A,B; LD (HL+),A; DEC HL; LD (0xC010),SP
    let code: Vec<(usize, u8)> = vec![
        (0x100, 0x06), (0x101, 0x12),
        (0x102, 0x48),
        (0x103, 0x21), (0x104, 0x00), (0x105, 0xC0),
        (0x106, 0x71),
        (0x107, 0x34),
        (0x108, 0x7E),
        (0x109, 0x80),
        (0x10A, 0x22),
        (0x10B, 0x2B),
        (0x10C, 0x08), (0x10D, 0x10), (0x10E, 0xC0),
    ];
    let mut sys = sys_with(0x00, &code);
    let cycles: Vec<u32> = (0..11).map(|_| execute_next_instr(&mut sys).unwrap()).collect();
    assert_eq!(cycles, vec![2, 1, 3, 2, 3, 2, 1, 2, 2, 5, 1]);
    assert_eq!(sys.regs.b, 0x12);
    assert_eq!(sys.regs.c, 0x12);
    assert_eq!(sys.regs.a, 0x25);
    assert_eq!(sys.mem.read(0xC000), 0x25);
    assert_eq!(sys.regs.get_16(CpuReg16::HL), 0xC000);
    assert_eq!(sys.mem.read(0xC010), 0xFE);
    assert_eq!(sys.mem.read(0xC011), 0xFF);
}

#[test]
fn serial_output_publishes_sb() {
    let mut sys = sys_with(0x00, &[]);
    sys.mem.write(0xFF01, b'H').unwrap();
    sys.mem.write(0xFF02, 0x81).unwrap();
    sys.mem.write(0xFF01, b'i').unwrap();
    sys.mem.write(0xFF02, 0x81).unwrap();
    sys.mem.write(0xFF02, 0x01).unwrap();
    assert_eq!(sys.mem.io_regs.serial_output().clone(), b"Hi".to_vec());
}

#[test]
fn joypad_rows_read_low_when_pressed() {
    let mut sys = sys_with(0x00, &[]);
    // A (bit 5) and Down (bit 2) held.
    sys.joypad = 0b0010_0100;
    sys.mem.set(IoReg::P1, 0x20);
    sys.run_one_m_cycle();
    assert_eq!(sys.mem.get(IoReg::P1) & 0x0F, 0b0111);
    sys.mem.set(IoReg::P1, 0x10);
    sys.run_one_m_cycle();
    assert_eq!(sys.mem.get(IoReg::P1) & 0x0F, 0b1110);
    sys.mem.set(IoReg::P1, 0x30);
    sys.run_one_m_cycle();
    assert_eq!(sys.mem.get(IoReg::P1) & 0x0F, 0b1111);
}

#[test]
fn serviced_interrupt_ends_halt() {
    let mut sys = sys_with(0x00, &[(0x100, 0x76)]);
    sys.mem.set(IoReg::If, 0);
    sys.mem.set(IoReg::Ie, 0x01);
    sys.run_one_m_cycle();
    assert!(sys.halted);
    sys.interrupt_master_enable = true;
    sys.mem.set(IoReg::If, 0x01);
    sys.run_one_m_cycle();
    assert!(!sys.halted);
    assert_eq!(sys.regs.pc, 0x0040);
    assert_eq!(sys.mem.read(0xFFFD), 0x01);
    assert_eq!(sys.mem.read(0xFFFC), 0x01);
}

#[test]
fn interrupt_service_fails_on_unmapped_stack() {
    let mut sys = sys_with(0x00, &[]);
    sys.interrupt_master_enable = true;
    sys.regs.sp = 0x7001;
    sys.mem.set(IoReg::Ie, 0x01);
    sys.mem.set(IoReg::If, 0x01);
    sys.run_one_m_cycle();
    assert!(sys.hard_lock);
    assert_eq!(sys.failure, Some(EmuError::InvalidAddress));
    assert!(!sys.interrupt_master_enable);
}

#[test]
fn reset_stat_reports_oam_scan() {
    let sys = sys_with(0x00, &[]);
    assert_eq!(sys.mem.get(IoReg::Stat) & 3, 2);
    assert_eq!(sys.mem.get(IoReg::Stat) & 4, 4);
}
