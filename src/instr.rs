use vstd::prelude::*;
use crate::cpu::regs::{CpuReg16, CpuReg8};
use crate::error::EmuError;

verus! {

/// Interpretation of a byte of instruction code.
#[allow(non_camel_case_types)]
#[allow(inconsistent_fields)]
#[derive(Clone, Copy, Debug, PartialEq, Eq, Structural)]
pub enum Asm {
    // Immediate values.
    Imm8(u8),
    Imm16Hi(u8),
    Imm16Lo(u8),
    // Block 0.
    Nop,
    Ld_R16_Imm16 { dst: R16 },
    Ld_R16MemP_A { dst: R16Mem },
    Ld_A_R16MemP { src: R16Mem },
    Ld_Imm16P_Sp,
    Inc_R16 { operand: R16 },
    Dec_R16 { operand: R16 },
    Add_Hl_R16 { operand: R16 },
    Inc_R8 { operand: R8 },
    Dec_R8 { operand: R8 },
    Ld_R8_Imm8 { dst: R8 },
    Jr_Imm8,
    Jr_Cond_Imm8 { cond: Cond },
    Stop,
    // Block 1: 8-bit register to register loads.
    Ld_R8_R8 { dst: R8, src: R8 },
    Halt,
    // Block 2: 8-bit arithmetic against A.
    Add_A_R8 { operand: R8 },
    Adc_A_R8 { operand: R8 },
    Sub_A_R8 { operand: R8 },
    Sbc_A_R8 { operand: R8 },
    And_A_R8 { operand: R8 },
    Xor_A_R8 { operand: R8 },
    Or_A_R8 { operand: R8 },
    Cp_A_R8 { operand: R8 },
}

/// The immediate operand that follows an opcode.
#[derive(Clone, Copy, Debug, PartialEq, Eq, Structural)]
pub enum ImmType {
    Imm0,
    Imm8,
    Imm16,
}

impl Asm {
    pub open spec fn spec_imm_type(self) -> ImmType {
        match self {
            Asm::Ld_R16_Imm16 { .. } => ImmType::Imm16,
            Asm::Ld_Imm16P_Sp => ImmType::Imm16,
            Asm::Ld_R8_Imm8 { .. } => ImmType::Imm8,
            Asm::Jr_Imm8 => ImmType::Imm8,
            Asm::Jr_Cond_Imm8 { .. } => ImmType::Imm8,
            _ => ImmType::Imm0,
        }
    }

    pub fn imm_type(&self) -> (r: ImmType)
        ensures
            r == self.spec_imm_type(),
    {
        match self {
            Asm::Ld_R16_Imm16 { .. } => ImmType::Imm16,
            Asm::Ld_Imm16P_Sp => ImmType::Imm16,
            Asm::Ld_R8_Imm8 { .. } => ImmType::Imm8,
            Asm::Jr_Imm8 => ImmType::Imm8,
            Asm::Jr_Cond_Imm8 { .. } => ImmType::Imm8,
            _ => ImmType::Imm0,
        }
    }
}

/// An 8-bit operand: a register, or the byte at HL.
#[derive(Clone, Copy, Debug, PartialEq, Eq, Structural)]
pub enum R8 {
    B,
    C,
    D,
    E,
    H,
    L,
    HlMem,
    A,
}

impl R8 {
    pub open spec fn spec_from(x: u8) -> R8 {
        match x {
            0 => R8::B,
            1 => R8::C,
            2 => R8::D,
            3 => R8::E,
            4 => R8::H,
            5 => R8::L,
            6 => R8::HlMem,
            _ => R8::A,
        }
    }

    /// The operand with encoding `x` (bits of an opcode).
    pub fn from_u8(x: u8) -> (r: R8)
        requires
            x < 8,
        ensures
            r == Self::spec_from(x),
    {
        match x {
            0 => R8::B,
            1 => R8::C,
            2 => R8::D,
            3 => R8::E,
            4 => R8::H,
            5 => R8::L,
            6 => R8::HlMem,
            _ => R8::A,
        }
    }

    pub open spec fn spec_reg(self) -> Option<CpuReg8> {
        match self {
            R8::B => Some(CpuReg8::B),
            R8::C => Some(CpuReg8::C),
            R8::D => Some(CpuReg8::D),
            R8::E => Some(CpuReg8::E),
            R8::H => Some(CpuReg8::H),
            R8::L => Some(CpuReg8::L),
            R8::HlMem => None,
            R8::A => Some(CpuReg8::A),
        }
    }

    /// The CPU register, or `None` for the byte at HL.
    pub fn get_reg(self) -> (r: Option<CpuReg8>)
        ensures
            r == self.spec_reg(),
    {
        match self {
            R8::B => Some(CpuReg8::B),
            R8::C => Some(CpuReg8::C),
            R8::D => Some(CpuReg8::D),
            R8::E => Some(CpuReg8::E),
            R8::H => Some(CpuReg8::H),
            R8::L => Some(CpuReg8::L),
            R8::HlMem => None,
            R8::A => Some(CpuReg8::A),
        }
    }
}

/// A 16-bit register operand.
#[derive(Clone, Copy, Debug, PartialEq, Eq, Structural)]
pub enum R16 {
    BC,
    DE,
    HL,
    SP,
}

impl R16 {
    pub open spec fn spec_from(x: u8) -> R16 {
        match x {
            0 => R16::BC,
            1 => R16::DE,
            2 => R16::HL,
            _ => R16::SP,
        }
    }

    pub fn from_u8(x: u8) -> (r: R16)
        requires
            x < 4,
        ensures
            r == Self::spec_from(x),
    {
        match x {
            0 => R16::BC,
            1 => R16::DE,
            2 => R16::HL,
            _ => R16::SP,
        }
    }

    pub open spec fn spec_reg(self) -> CpuReg16 {
        match self {
            R16::BC => CpuReg16::BC,
            R16::DE => CpuReg16::DE,
            R16::HL => CpuReg16::HL,
            R16::SP => CpuReg16::SP,
        }
    }

    pub fn get_reg(self) -> (r: CpuReg16)
        ensures
            r == self.spec_reg(),
    {
        match self {
            R16::BC => CpuReg16::BC,
            R16::DE => CpuReg16::DE,
            R16::HL => CpuReg16::HL,
            R16::SP => CpuReg16::SP,
        }
    }
}

/// A 16-bit register operand of the stack instructions.
#[derive(Clone, Copy, Debug, PartialEq, Eq, Structural)]
pub enum R16Stk {
    BC,
    DE,
    HL,
    AF,
}

impl R16Stk {
    pub fn from_u8(x: u8) -> (r: R16Stk)
        requires
            x < 4,
        ensures
            x == 0 ==> r == R16Stk::BC,
            x == 1 ==> r == R16Stk::DE,
            x == 2 ==> r == R16Stk::HL,
            x == 3 ==> r == R16Stk::AF,
    {
        match x {
            0 => R16Stk::BC,
            1 => R16Stk::DE,
            2 => R16Stk::HL,
            _ => R16Stk::AF,
        }
    }
}

/// An address operand: BC, DE, or HL followed by an increment or decrement.
#[derive(Clone, Copy, Debug, PartialEq, Eq, Structural)]
pub enum R16Mem {
    BC,
    DE,
    HlInc,
    HlDec,
}

impl R16Mem {
    pub open spec fn spec_from(x: u8) -> R16Mem {
        match x {
            0 => R16Mem::BC,
            1 => R16Mem::DE,
            2 => R16Mem::HlInc,
            _ => R16Mem::HlDec,
        }
    }

    pub fn from_u8(x: u8) -> (r: R16Mem)
        requires
            x < 4,
        ensures
            r == Self::spec_from(x),
    {
        match x {
            0 => R16Mem::BC,
            1 => R16Mem::DE,
            2 => R16Mem::HlInc,
            _ => R16Mem::HlDec,
        }
    }

    pub open spec fn spec_reg(self) -> CpuReg16 {
        match self {
            R16Mem::BC => CpuReg16::BC,
            R16Mem::DE => CpuReg16::DE,
            _ => CpuReg16::HL,
        }
    }

    pub open spec fn spec_inc(self) -> i16 {
        match self {
            R16Mem::HlInc => 1,
            R16Mem::HlDec => -1i16,
            _ => 0,
        }
    }

    /// The register that holds the address, and what is added to it after
    /// the access.
    pub fn get_reg_inc(self) -> (r: (CpuReg16, i16))
        ensures
            r == (self.spec_reg(), self.spec_inc()),
    {
        let reg = match self {
            R16Mem::BC => CpuReg16::BC,
            R16Mem::DE => CpuReg16::DE,
            R16Mem::HlInc => CpuReg16::HL,
            R16Mem::HlDec => CpuReg16::HL,
        };
        let inc: i16 = match self {
            R16Mem::HlInc => 1,
            R16Mem::HlDec => -1i16,
            _ => 0,
        };
        (reg, inc)
    }
}

/// A branch condition on the Z or C flag.
#[derive(Clone, Copy, Debug, PartialEq, Eq, Structural)]
pub enum Cond {
    NZ,
    Z,
    NC,
    C,
}

impl Cond {
    pub open spec fn spec_from(x: u8) -> Cond {
        match x {
            0 => Cond::NZ,
            1 => Cond::Z,
            2 => Cond::NC,
            _ => Cond::C,
        }
    }

    pub fn from_u8(x: u8) -> (r: Cond)
        requires
            x < 4,
        ensures
            r == Self::spec_from(x),
    {
        match x {
            0 => Cond::NZ,
            1 => Cond::Z,
            2 => Cond::NC,
            _ => Cond::C,
        }
    }
}

/// The instruction that an opcode encodes, following the usual split of an
/// opcode into fields x = bits 7..6, y = bits 5..3, z = bits 2..0,
/// p = bits 5..4, q = bit 3. Block 3 (x = 3, which holds the 0xCB prefix) and
/// the rotate/flag group of block 0 (x = 0, z = 7) are not decoded.
pub open spec fn spec_interpret(op: u8) -> Result<Asm, EmuError> {
    let x = op / 64;
    let y = (op / 8) % 8;
    let z = op % 8;
    let p = y / 2;
    let q = y % 2;
    if x == 0 {
        if z == 0 {
            if y == 0 {
                Ok(Asm::Nop)
            } else if y == 1 {
                Ok(Asm::Ld_Imm16P_Sp)
            } else if y == 2 {
                Ok(Asm::Stop)
            } else if y == 3 {
                Ok(Asm::Jr_Imm8)
            } else {
                Ok(Asm::Jr_Cond_Imm8 { cond: Cond::spec_from((y - 4) as u8) })
            }
        } else if z == 1 {
            if q == 0 {
                Ok(Asm::Ld_R16_Imm16 { dst: R16::spec_from(p as u8) })
            } else {
                Ok(Asm::Add_Hl_R16 { operand: R16::spec_from(p as u8) })
            }
        } else if z == 2 {
            if q == 0 {
                Ok(Asm::Ld_R16MemP_A { dst: R16Mem::spec_from(p as u8) })
            } else {
                Ok(Asm::Ld_A_R16MemP { src: R16Mem::spec_from(p as u8) })
            }
        } else if z == 3 {
            if q == 0 {
                Ok(Asm::Inc_R16 { operand: R16::spec_from(p as u8) })
            } else {
                Ok(Asm::Dec_R16 { operand: R16::spec_from(p as u8) })
            }
        } else if z == 4 {
            Ok(Asm::Inc_R8 { operand: R8::spec_from(y as u8) })
        } else if z == 5 {
            Ok(Asm::Dec_R8 { operand: R8::spec_from(y as u8) })
        } else if z == 6 {
            Ok(Asm::Ld_R8_Imm8 { dst: R8::spec_from(y as u8) })
        } else {
            Err(EmuError::UndecodedOpcode)
        }
    } else if x == 1 {
        if op == 0x76 {
            Ok(Asm::Halt)
        } else {
            Ok(Asm::Ld_R8_R8 { dst: R8::spec_from(y as u8), src: R8::spec_from(z as u8) })
        }
    } else if x == 2 {
        let operand = R8::spec_from(z as u8);
        Ok(
            match y {
                0 => Asm::Add_A_R8 { operand },
                1 => Asm::Adc_A_R8 { operand },
                2 => Asm::Sub_A_R8 { operand },
                3 => Asm::Sbc_A_R8 { operand },
                4 => Asm::And_A_R8 { operand },
                5 => Asm::Xor_A_R8 { operand },
                6 => Asm::Or_A_R8 { operand },
                _ => Asm::Cp_A_R8 { operand },
            },
        )
    } else {
        Err(EmuError::UndecodedOpcode)
    }
}

/// Decodes an opcode.
pub fn interpret(op: u8) -> (r: Result<Asm, EmuError>)
    ensures
        r == spec_interpret(op),
{
    if op == 0xCB {
        return Err(EmuError::UndecodedOpcode);
    }
    let block = op / 64;
    if block == 0 {
        interpret_block_0_opcode(op)
    } else if block == 1 {
        Ok(interpret_block_1_opcode(op))
    } else if block == 2 {
        Ok(interpret_block_2_opcode(op))
    } else {
        Err(EmuError::UndecodedOpcode)
    }
}

fn interpret_block_0_opcode(op: u8) -> (r: Result<Asm, EmuError>)
    requires
        op < 64,
    ensures
        r == spec_interpret(op),
{
    let y = (op / 8) % 8;
    let z = op % 8;
    let p = y / 2;
    let low4 = op % 16;
    if op == 0x00 {
        return Ok(Asm::Nop);
    }
    if op == 0x08 {
        return Ok(Asm::Ld_Imm16P_Sp);
    }
    if op == 0x10 {
        return Ok(Asm::Stop);
    }
    // JR
    if z == 0b000 {
        if y >= 4 {
            return Ok(Asm::Jr_Cond_Imm8 { cond: Cond::from_u8(y - 4) });
        } else {
            return Ok(Asm::Jr_Imm8);
        }
    }
    // RLCA, RRCA, RLA, RRA, DAA, CPL, SCF, CCF
    if z == 0b111 {
        return Err(EmuError::UndecodedOpcode);
    }
    if z == 0b110 {
        return Ok(Asm::Ld_R8_Imm8 { dst: R8::from_u8(y) });
    }
    if z == 0b100 {
        return Ok(Asm::Inc_R8 { operand: R8::from_u8(y) });
    } else if z == 0b101 {
        return Ok(Asm::Dec_R8 { operand: R8::from_u8(y) });
    }
    if low4 == 0b0011 {
        Ok(Asm::Inc_R16 { operand: R16::from_u8(p) })
    } else if low4 == 0b1011 {
        Ok(Asm::Dec_R16 { operand: R16::from_u8(p) })
    } else if low4 == 0b1001 {
        Ok(Asm::Add_Hl_R16 { operand: R16::from_u8(p) })
    } else if low4 == 0b0001 {
        Ok(Asm::Ld_R16_Imm16 { dst: R16::from_u8(p) })
    } else if low4 == 0b0010 {
        Ok(Asm::Ld_R16MemP_A { dst: R16Mem::from_u8(p) })
    } else {
        Ok(Asm::Ld_A_R16MemP { src: R16Mem::from_u8(p) })
    }
}

fn interpret_block_1_opcode(op: u8) -> (r: Asm)
    requires
        64 <= op < 128,
    ensures
        spec_interpret(op) == Ok::<Asm, EmuError>(r),
{
    if op == 0b0111_0110 {
        Asm::Halt
    } else {
        let dst = R8::from_u8((op / 8) % 8);
        let src = R8::from_u8(op % 8);
        Asm::Ld_R8_R8 { dst, src }
    }
}

fn interpret_block_2_opcode(op: u8) -> (r: Asm)
    requires
        128 <= op < 192,
    ensures
        spec_interpret(op) == Ok::<Asm, EmuError>(r),
{
    let operand = R8::from_u8(op % 8);
    match (op / 8) % 8 {
        0b000 => Asm::Add_A_R8 { operand },
        0b001 => Asm::Adc_A_R8 { operand },
        0b010 => Asm::Sub_A_R8 { operand },
        0b011 => Asm::Sbc_A_R8 { operand },
        0b100 => Asm::And_A_R8 { operand },
        0b101 => Asm::Xor_A_R8 { operand },
        0b110 => Asm::Or_A_R8 { operand },
        _ => Asm::Cp_A_R8 { operand },
    }
}

} // verus!
