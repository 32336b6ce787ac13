use gb_emu::cpu::alu::{add16, add8, and8, dec8, inc8, or8, sub8, xor8};
use gb_emu::cpu::regs::{CpuReg16, CpuReg8, CpuRegs, Flags};
use gb_emu::error::EmuError;
use gb_emu::instr::{interpret, Asm, Cond, ImmType, R16, R16Mem, R16Stk, R8};
use gb_emu::cpu::interrupt::InterruptType;

#[test]
fn alu_flags_for_all_operand_pairs() {
    for a in 0..=255u16 {
        for b in 0..=255u16 {
            for carry in [false, true] {
                let ci = carry as u16;
                let (r, f) = add8(a as u8, b as u8, carry);
                let sum = a + b + ci;
                assert_eq!(r, (sum & 0xFF) as u8);
                assert_eq!(f, Flags { z: sum & 0xFF == 0, n: false, h: (a & 0xF) + (b & 0xF) + ci > 0xF, c: sum > 0xFF });

                let (r, f) = sub8(a as u8, b as u8, carry);
                let diff = (a as i32) - (b as i32) - (ci as i32);
                assert_eq!(r, diff.rem_euclid(256) as u8);
                assert_eq!(f, Flags { z: diff.rem_euclid(256) == 0, n: true, h: ((a & 0xF) as i32) < ((b & 0xF) + ci) as i32, c: diff < 0 });
            }
            let (x, y) = (a as u8, b as u8);
            assert_eq!(and8(x, y), (x & y, Flags { z: x & y == 0, n: false, h: true, c: false }));
            assert_eq!(or8(x, y), (x | y, Flags { z: x | y == 0, n: false, h: false, c: false }));
            assert_eq!(xor8(x, y), (x ^ y, Flags { z: x ^ y == 0, n: false, h: false, c: false }));
        }
    }
}

#[test]
fn alu_known_values() {
    assert_eq!(add8(0x3A, 0xC6, false), (0x00, Flags { z: true, n: false, h: true, c: true }));
    assert_eq!(add8(0x0F, 0x00, true), (0x10, Flags { z: false, n: false, h: true, c: false }));
    assert_eq!(sub8(0x3E, 0x3E, false), (0x00, Flags { z: true, n: true, h: false, c: false }));
    assert_eq!(sub8(0x3B, 0x4F, false), (0xEC, Flags { z: false, n: true, h: true, c: true }));
    assert_eq!(sub8(0x10, 0x0F, true), (0x00, Flags { z: true, n: true, h: true, c: false }));
}

#[test]
fn inc_dec_keep_carry() {
    let f = Flags { z: false, n: true, h: false, c: true };
    assert_eq!(inc8(0xFF, f), (0x00, Flags { z: true, n: false, h: true, c: true }));
    assert_eq!(inc8(0x41, f), (0x42, Flags { z: false, n: false, h: false, c: true }));
    assert_eq!(dec8(0x01, f), (0x00, Flags { z: true, n: true, h: false, c: true }));
    assert_eq!(dec8(0x10, f), (0x0F, Flags { z: false, n: true, h: true, c: true }));
    let g = Flags { z: false, n: false, h: false, c: false };
    assert_eq!(dec8(0x00, g), (0xFF, Flags { z: false, n: true, h: true, c: false }));
}

#[test]
fn add_hl_flags() {
    let f = Flags { z: true, n: true, h: false, c: false };
    assert_eq!(add16(0x8A23, 0x0605, f), (0x9028, Flags { z: true, n: false, h: true, c: false }));
    assert_eq!(add16(0x8A23, 0x8A23, f), (0x1446, Flags { z: true, n: false, h: true, c: true }));
    assert_eq!(add16(0x0001, 0x0001, f), (0x0002, Flags { z: true, n: false, h: false, c: false }));
}

#[test]
fn flags_byte_round_trip() {
    let f = Flags { z: true, n: false, h: true, c: true };
    assert_eq!(f.to_byte(), 0xB0);
    assert_eq!(Flags::from_byte(0xB0), f);
    assert_eq!(Flags::from_byte(0x0F), Flags { z: false, n: false, h: false, c: false });
}

#[test]
fn register_pairs() {
    let mut regs = CpuRegs::new();
    regs.set_16(CpuReg16::BC, 0x1234);
    assert_eq!(regs.get_8(CpuReg8::B), 0x12);
    assert_eq!(regs.get_8(CpuReg8::C), 0x34);
    regs.set_16(CpuReg16::AF, 0xABCD);
    assert_eq!(regs.get_16(CpuReg16::AF), 0xABC0);
    regs.set_8(CpuReg8::F, 0xFF);
    assert_eq!(regs.f, 0xF0);
    regs.set_8(CpuReg8::L, 0x99);
    regs.set_8(CpuReg8::H, 0x88);
    assert_eq!(regs.get_16(CpuReg16::HL), 0x8899);
}

#[test]
fn decoder_block_0() {
    assert_eq!(interpret(0x00), Ok(Asm::Nop));
    assert_eq!(interpret(0x10), Ok(Asm::Stop));
    assert_eq!(interpret(0x08), Ok(Asm::Ld_Imm16P_Sp));
    assert_eq!(interpret(0x18), Ok(Asm::Jr_Imm8));
    assert_eq!(interpret(0x20), Ok(Asm::Jr_Cond_Imm8 { cond: Cond::NZ }));
    assert_eq!(interpret(0x28), Ok(Asm::Jr_Cond_Imm8 { cond: Cond::Z }));
    assert_eq!(interpret(0x30), Ok(Asm::Jr_Cond_Imm8 { cond: Cond::NC }));
    assert_eq!(interpret(0x38), Ok(Asm::Jr_Cond_Imm8 { cond: Cond::C }));
    assert_eq!(interpret(0x01), Ok(Asm::Ld_R16_Imm16 { dst: R16::BC }));
    assert_eq!(interpret(0x31), Ok(Asm::Ld_R16_Imm16 { dst: R16::SP }));
    assert_eq!(interpret(0x22), Ok(Asm::Ld_R16MemP_A { dst: R16Mem::HlInc }));
    assert_eq!(interpret(0x3A), Ok(Asm::Ld_A_R16MemP { src: R16Mem::HlDec }));
    assert_eq!(interpret(0x13), Ok(Asm::Inc_R16 { operand: R16::DE }));
    assert_eq!(interpret(0x2B), Ok(Asm::Dec_R16 { operand: R16::HL }));
    assert_eq!(interpret(0x39), Ok(Asm::Add_Hl_R16 { operand: R16::SP }));
    assert_eq!(interpret(0x34), Ok(Asm::Inc_R8 { operand: R8::HlMem }));
    assert_eq!(interpret(0x3D), Ok(Asm::Dec_R8 { operand: R8::A }));
    assert_eq!(interpret(0x0E), Ok(Asm::Ld_R8_Imm8 { dst: R8::C }));
    assert_eq!(interpret(0x07), Err(EmuError::UndecodedOpcode));
    assert_eq!(interpret(0x2F), Err(EmuError::UndecodedOpcode));
}

#[test]
fn decoder_blocks_1_to_3() {
    assert_eq!(interpret(0x76), Ok(Asm::Halt));
    assert_eq!(interpret(0x41), Ok(Asm::Ld_R8_R8 { dst: R8::B, src: R8::C }));
    assert_eq!(interpret(0x7E), Ok(Asm::Ld_R8_R8 { dst: R8::A, src: R8::HlMem }));
    assert_eq!(interpret(0x80), Ok(Asm::Add_A_R8 { operand: R8::B }));
    assert_eq!(interpret(0x8E), Ok(Asm::Adc_A_R8 { operand: R8::HlMem }));
    assert_eq!(interpret(0x92), Ok(Asm::Sub_A_R8 { operand: R8::D }));
    assert_eq!(interpret(0x9B), Ok(Asm::Sbc_A_R8 { operand: R8::E }));
    assert_eq!(interpret(0xA4), Ok(Asm::And_A_R8 { operand: R8::H }));
    assert_eq!(interpret(0xAD), Ok(Asm::Xor_A_R8 { operand: R8::L }));
    assert_eq!(interpret(0xB7), Ok(Asm::Or_A_R8 { operand: R8::A }));
    assert_eq!(interpret(0xBF), Ok(Asm::Cp_A_R8 { operand: R8::A }));
    assert_eq!(interpret(0xCB), Err(EmuError::UndecodedOpcode));
    assert_eq!(interpret(0xC3), Err(EmuError::UndecodedOpcode));
    assert_eq!(interpret(0xFF), Err(EmuError::UndecodedOpcode));
}

#[test]
fn immediate_types() {
    assert_eq!(Asm::Ld_R16_Imm16 { dst: R16::HL }.imm_type(), ImmType::Imm16);
    assert_eq!(Asm::Ld_Imm16P_Sp.imm_type(), ImmType::Imm16);
    assert_eq!(Asm::Ld_R8_Imm8 { dst: R8::A }.imm_type(), ImmType::Imm8);
    assert_eq!(Asm::Jr_Imm8.imm_type(), ImmType::Imm8);
    assert_eq!(Asm::Halt.imm_type(), ImmType::Imm0);
}

#[test]
fn operand_registers() {
    assert_eq!(R8::from_u8(6).get_reg(), None);
    assert_eq!(R8::from_u8(7).get_reg(), Some(CpuReg8::A));
    assert_eq!(R16::from_u8(3).get_reg(), CpuReg16::SP);
    assert_eq!(R16Mem::from_u8(2).get_reg_inc(), (CpuReg16::HL, 1));
    assert_eq!(R16Mem::from_u8(3).get_reg_inc(), (CpuReg16::HL, -1));
    assert_eq!(R16Mem::from_u8(0).get_reg_inc(), (CpuReg16::BC, 0));
    assert_eq!(R16Stk::from_u8(3), R16Stk::AF);
    assert_eq!(Cond::from_u8(1), Cond::Z);
}

#[test]
fn interrupt_vectors() {
    assert_eq!(InterruptType::VBlank.jump_addr(), 0x40);
    assert_eq!(InterruptType::Stat.jump_addr(), 0x48);
    assert_eq!(InterruptType::Timer.jump_addr(), 0x50);
    assert_eq!(InterruptType::Serial.jump_addr(), 0x58);
    assert_eq!(InterruptType::Joypad.jump_addr(), 0x60);
    assert_eq!(InterruptType::Joypad.flag_idx(), 4);
}
