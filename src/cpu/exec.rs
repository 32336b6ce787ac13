use vstd::prelude::*;
use crate::cpu::alu::{
    add16, add8, and8, dec8, inc8, or8, spec_add16, spec_add8, spec_and8, spec_dec8, spec_inc8,
    spec_or8, spec_sub8, spec_xor8, sub8, xor8,
};
use crate::cpu::interrupt::pending_of;
use crate::cpu::regs::{CpuReg16, CpuRegs, Flags};
use crate::error::EmuError;
use crate::instr::{interpret, spec_interpret, Asm, Cond, ImmType, R16Mem, R8, R16};
use crate::mem::io_regs::IoReg;
use crate::mem::mem::{Mem, writable};
use crate::sys::sys::Sys;
use crate::util::bits::{Bits, bit8};
use crate::util::math::{add16_ui, join_16, split_16, hi_byte, lo_byte, word, wrap16};

verus! {

/// The signed value of an 8-bit offset.
pub open spec fn sext8(b: u8) -> int {
    if b < 128 { b as int } else { b - 256 }
}

/// HL as a 16-bit value.
pub open spec fn spec_hl(regs: CpuRegs) -> u16 {
    regs.spec_get_16(CpuReg16::HL)
}

/// The value of an 8-bit operand: a register, or the byte at HL.
pub open spec fn spec_r8(sys: &Sys, r: R8) -> u8 {
    match r.spec_reg() {
        Some(reg) => sys.regs.spec_get_8(reg),
        None => sys.mem.spec_read(spec_hl(sys.regs)),
    }
}

pub open spec fn cond_holds(f: Flags, c: Cond) -> bool {
    match c {
        Cond::NZ => !f.z,
        Cond::Z => f.z,
        Cond::NC => !f.c,
        Cond::C => f.c,
    }
}

/// The M-cycles that an instruction takes; `taken` tells whether a
/// conditional branch is taken.
pub open spec fn spec_cycles(ins: Asm, taken: bool) -> u32 {
    match ins {
        Asm::Nop | Asm::Stop | Asm::Halt => 1,
        Asm::Jr_Imm8 => 3,
        Asm::Jr_Cond_Imm8 { .. } => if taken { 3 } else { 2 },
        Asm::Ld_R16_Imm16 { .. } => 3,
        Asm::Ld_R16MemP_A { .. } | Asm::Ld_A_R16MemP { .. } => 2,
        Asm::Ld_Imm16P_Sp => 5,
        Asm::Inc_R16 { .. } | Asm::Dec_R16 { .. } | Asm::Add_Hl_R16 { .. } => 2,
        Asm::Inc_R8 { operand } | Asm::Dec_R8 { operand } => if operand == R8::HlMem { 3 } else { 1 },
        Asm::Ld_R8_Imm8 { dst } => if dst == R8::HlMem { 3 } else { 2 },
        Asm::Ld_R8_R8 { dst, src } => if dst == R8::HlMem || src == R8::HlMem { 2 } else { 1 },
        Asm::Add_A_R8 { operand }
        | Asm::Adc_A_R8 { operand }
        | Asm::Sub_A_R8 { operand }
        | Asm::Sbc_A_R8 { operand }
        | Asm::And_A_R8 { operand }
        | Asm::Xor_A_R8 { operand }
        | Asm::Or_A_R8 { operand }
        | Asm::Cp_A_R8 { operand } => if operand == R8::HlMem { 2 } else { 1 },
        _ => 0,
    }
}

/// A and the flags after an 8-bit arithmetic instruction against A, or
/// `None` for any other instruction.
pub open spec fn spec_alu(ins: Asm, a: u8, v: u8, f: Flags) -> Option<(u8, Flags)> {
    match ins {
        Asm::Add_A_R8 { .. } => Some(spec_add8(a, v, false)),
        Asm::Adc_A_R8 { .. } => Some(spec_add8(a, v, f.c)),
        Asm::Sub_A_R8 { .. } => Some(spec_sub8(a, v, false)),
        Asm::Sbc_A_R8 { .. } => Some(spec_sub8(a, v, f.c)),
        Asm::And_A_R8 { .. } => Some(spec_and8(a, v)),
        Asm::Xor_A_R8 { .. } => Some(spec_xor8(a, v)),
        Asm::Or_A_R8 { .. } => Some(spec_or8(a, v)),
        Asm::Cp_A_R8 { .. } => Some((a, spec_sub8(a, v, false).1)),
        _ => None,
    }
}

/// Whether an instruction writes memory, which fails on a cartridge
/// address that the controller does not map.
pub open spec fn writes_memory(ins: Asm) -> bool {
    match ins {
        Asm::Ld_R16MemP_A { .. } | Asm::Ld_Imm16P_Sp => true,
        Asm::Inc_R8 { operand } | Asm::Dec_R8 { operand } => operand == R8::HlMem,
        Asm::Ld_R8_Imm8 { dst } | Asm::Ld_R8_R8 { dst, .. } => dst == R8::HlMem,
        _ => false,
    }
}

/// Whether an instruction belongs to block 0 (opcodes 0x00..0x3F).
pub open spec fn is_block_0(ins: Asm) -> bool {
    match ins {
        Asm::Nop | Asm::Stop | Asm::Jr_Imm8 | Asm::Jr_Cond_Imm8 { .. } | Asm::Ld_R16_Imm16 { .. }
        | Asm::Ld_R16MemP_A { .. } | Asm::Ld_A_R16MemP { .. } | Asm::Ld_Imm16P_Sp
        | Asm::Inc_R16 { .. } | Asm::Dec_R16 { .. } | Asm::Add_Hl_R16 { .. } | Asm::Inc_R8 { .. }
        | Asm::Dec_R8 { .. } | Asm::Ld_R8_Imm8 { .. } => true,
        _ => false,
    }
}

/// NOP, STOP, and the block-0 instructions that read or write memory or an
/// 8-bit operand.
pub open spec fn is_block_0_mem(ins: Asm) -> bool {
    match ins {
        Asm::Nop | Asm::Stop | Asm::Ld_R16MemP_A { .. } | Asm::Ld_A_R16MemP { .. }
        | Asm::Ld_Imm16P_Sp | Asm::Inc_R8 { .. } | Asm::Dec_R8 { .. } | Asm::Ld_R8_Imm8 { .. } => true,
        _ => false,
    }
}

/// Whether a value of `Asm` is an instruction rather than an immediate
/// operand.
pub open spec fn is_instruction(ins: Asm) -> bool {
    !(ins is Imm8 || ins is Imm16Hi || ins is Imm16Lo)
}

/// CPU state that no instruction of this family changes besides registers
/// and memory: IME, HALT, the NOP count and the speed controller.
pub open spec fn keeps_cpu_flags(pre: &Sys, post: &Sys) -> bool {
    &&& post.interrupt_master_enable == pre.interrupt_master_enable
    &&& post.halted == pre.halted
    &&& post.nop_count == pre.nop_count
    &&& post.speed_ctrl == pre.speed_ctrl
}

/// Registers and memory after writing `v` to an 8-bit operand: a register,
/// or memory at HL.
pub open spec fn spec_write_r8(pre: &Sys, post: &Sys, r: R8, v: u8) -> bool {
    match r.spec_reg() {
        Some(reg) => post.regs == pre.regs.spec_set_8(reg, v) && post.mem == pre.mem,
        None => post.regs == pre.regs && pre.mem.spec_wrote(&post.mem, spec_hl(pre.regs), v),
    }
}

/// Whether a conditional branch of `ins` is taken in state `pre`.
pub open spec fn branch_taken(pre: &Sys, ins: Asm) -> bool {
    match ins {
        Asm::Jr_Cond_Imm8 { cond } => cond_holds(pre.regs.spec_flags(), cond),
        _ => false,
    }
}

/// What executing instruction `ins` with immediate `imm` (PC already past
/// it) does to the system, and its result: the M-cycles it takes, or the
/// failure. A write to an address that the cartridge does not map fails
/// with `InvalidAddress`; a value of `Asm` that is no instruction fails with
/// `UndecodedOpcode`.
pub open spec fn spec_exec(pre: &Sys, post: &Sys, ins: Asm, imm: u16, r: Result<u32, EmuError>) -> bool {
    let regs = pre.regs;
    let f = regs.spec_flags();
    let jr_pc = wrap16(regs.pc + sext8((imm % 256) as u8) + 0x10000);
    &&& pre.cpu_frame(post)
    &&& r matches Ok(c) ==> c == spec_cycles(ins, branch_taken(pre, ins))
    &&& match ins {
        Asm::Nop => {
            &&& r == Ok::<u32, EmuError>(1)
            &&& post.regs == regs
            &&& post.mem == pre.mem
            &&& post.nop_count == (if pre.nop_count < u64::MAX { (pre.nop_count + 1) as u64 } else { pre.nop_count })
            &&& post.interrupt_master_enable == pre.interrupt_master_enable
            &&& post.halted == pre.halted
            &&& post.speed_ctrl == pre.speed_ctrl
        },
        Asm::Stop => {
            let io = pre.mem.io_regs@;
            &&& r == Ok::<u32, EmuError>(1)
            &&& post.regs == regs
            &&& post.speed_ctrl.stop_mcycles_left == crate::sys::speed::STOP_MCYCLES
            &&& post.mem.io_regs@ == (if bit8(io.get(IoReg::Key1), 0) == 1 {
                io.set(IoReg::Key1, (io.get(IoReg::Key1) ^ 0x80) & 0xFE)
            } else {
                io
            })
            &&& pre.mem.with_io(&post.mem, post.mem.io_regs@)
            &&& post.interrupt_master_enable == pre.interrupt_master_enable
            &&& post.halted == pre.halted
            &&& post.nop_count == pre.nop_count
        },
        Asm::Halt => {
            &&& r == Ok::<u32, EmuError>(1)
            &&& post.regs == regs
            &&& post.mem == pre.mem
            &&& post.halted
            &&& post.interrupt_master_enable == pre.interrupt_master_enable
            &&& post.nop_count == pre.nop_count
            &&& post.speed_ctrl == pre.speed_ctrl
        },
        Asm::Jr_Imm8 => r == Ok::<u32, EmuError>(3) && post.regs == (CpuRegs { pc: jr_pc, ..regs }) && post.mem == pre.mem
            && keeps_cpu_flags(pre, post),
        Asm::Jr_Cond_Imm8 { cond } => r == Ok::<u32, EmuError>(
            if cond_holds(f, cond) { 3 } else { 2 },
        ) && post.regs == (if cond_holds(f, cond) {
            CpuRegs { pc: jr_pc, ..regs }
        } else {
            regs
        }) && post.mem == pre.mem && keeps_cpu_flags(pre, post),
        Asm::Ld_R16_Imm16 { dst } => r == Ok::<u32, EmuError>(3) && post.regs == regs.spec_set_16(dst.spec_reg(), imm)
            && post.mem == pre.mem && keeps_cpu_flags(pre, post),
        Asm::Ld_R16MemP_A { dst } => {
            let addr = regs.spec_get_16(dst.spec_reg());
            &&& keeps_cpu_flags(pre, post)
            &&& pre.mem.spec_wrote(&post.mem, addr, regs.a)
            &&& r == (if writable(addr) {
                Ok::<u32, EmuError>(2)
            } else {
                Err::<u32, EmuError>(EmuError::InvalidAddress)
            })
            &&& r is Ok ==> post.regs == regs.spec_set_16(
                dst.spec_reg(),
                wrap16(addr + dst.spec_inc() + 0x10000),
            )
        },
        Asm::Ld_A_R16MemP { src } => {
            let addr = regs.spec_get_16(src.spec_reg());
            &&& r == Ok::<u32, EmuError>(2)
            &&& keeps_cpu_flags(pre, post)
            &&& post.mem == pre.mem
            &&& post.regs == (CpuRegs {
                a: pre.mem.spec_read(addr),
                ..regs.spec_set_16(src.spec_reg(), wrap16(addr + src.spec_inc() + 0x10000))
            })
        },
        Asm::Ld_Imm16P_Sp => {
            &&& keeps_cpu_flags(pre, post)
            &&& post.regs == regs
            &&& r == (if writable(imm) && writable(wrap16(imm + 1)) {
                Ok::<u32, EmuError>(5)
            } else {
                Err::<u32, EmuError>(EmuError::InvalidAddress)
            })
            &&& r is Ok ==> exists|m: Mem|
                #[trigger] pre.mem.spec_wrote(&m, imm, lo_byte(regs.sp)) && m.spec_wrote(
                    &post.mem,
                    wrap16(imm + 1),
                    hi_byte(regs.sp),
                )
        },
        Asm::Inc_R16 { operand } => r == Ok::<u32, EmuError>(2) && post.regs == regs.spec_set_16(
            operand.spec_reg(),
            wrap16(regs.spec_get_16(operand.spec_reg()) + 1),
        ) && post.mem == pre.mem && keeps_cpu_flags(pre, post),
        Asm::Dec_R16 { operand } => r == Ok::<u32, EmuError>(2) && post.regs == regs.spec_set_16(
            operand.spec_reg(),
            wrap16(regs.spec_get_16(operand.spec_reg()) + 0xFFFF),
        ) && post.mem == pre.mem && keeps_cpu_flags(pre, post),
        Asm::Add_Hl_R16 { operand } => {
            let (v, nf) = spec_add16(spec_hl(regs), regs.spec_get_16(operand.spec_reg()), f);
            &&& r == Ok::<u32, EmuError>(2)
            &&& post.regs == (CpuRegs { f: nf.spec_byte(), ..regs.spec_set_16(CpuReg16::HL, v) })
            &&& post.mem == pre.mem
            &&& keeps_cpu_flags(pre, post)
        },
        Asm::Inc_R8 { operand } | Asm::Dec_R8 { operand } => {
            let (v, nf) = if ins is Inc_R8 {
                spec_inc8(spec_r8(pre, operand), f)
            } else {
                spec_dec8(spec_r8(pre, operand), f)
            };
            &&& keeps_cpu_flags(pre, post)
            &&& operand.spec_reg() matches Some(reg) ==> r == Ok::<u32, EmuError>(1) && post.regs == (
            CpuRegs { f: nf.spec_byte(), ..regs.spec_set_8(reg, v) }) && post.mem == pre.mem
            &&& operand.spec_reg() is None ==> r == (if writable(spec_hl(regs)) {
                Ok::<u32, EmuError>(3)
            } else {
                Err::<u32, EmuError>(EmuError::InvalidAddress)
            })
                && pre.mem.spec_wrote(&post.mem, spec_hl(regs), v) && (r is Ok ==> post.regs == (
            CpuRegs { f: nf.spec_byte(), ..regs }))
        },
        Asm::Ld_R8_Imm8 { dst } => {
            &&& keeps_cpu_flags(pre, post)
            &&& spec_write_r8(pre, post, dst, (imm % 256) as u8)
            &&& dst.spec_reg() is Some ==> r == Ok::<u32, EmuError>(2)
            &&& dst.spec_reg() is None ==> r == (if writable(spec_hl(regs)) {
                Ok::<u32, EmuError>(3)
            } else {
                Err::<u32, EmuError>(EmuError::InvalidAddress)
            })
        },
        Asm::Ld_R8_R8 { dst, src } => {
            &&& keeps_cpu_flags(pre, post)
            &&& spec_write_r8(pre, post, dst, spec_r8(pre, src))
            &&& dst.spec_reg() is Some ==> r == Ok::<u32, EmuError>(
                if src == R8::HlMem { 2 } else { 1 },
            )
            &&& dst.spec_reg() is None ==> r == (if writable(spec_hl(regs)) {
                Ok::<u32, EmuError>(2)
            } else {
                Err::<u32, EmuError>(EmuError::InvalidAddress)
            })
        },
        Asm::Add_A_R8 { operand }
        | Asm::Adc_A_R8 { operand }
        | Asm::Sub_A_R8 { operand }
        | Asm::Sbc_A_R8 { operand }
        | Asm::And_A_R8 { operand }
        | Asm::Xor_A_R8 { operand }
        | Asm::Or_A_R8 { operand }
        | Asm::Cp_A_R8 { operand } => {
            &&& r == Ok::<u32, EmuError>(if operand == R8::HlMem { 2 } else { 1 })
            &&& keeps_cpu_flags(pre, post)
            &&& post.mem == pre.mem
            &&& spec_alu(ins, regs.a, spec_r8(pre, operand), f) matches Some((a, nf))
                && post.regs == (CpuRegs { a: a, f: nf.spec_byte(), ..regs })
        },
        _ => r == Err::<u32, EmuError>(EmuError::UndecodedOpcode),
    }
}

impl Sys {
    /// Everything but the CPU registers, memory, IME, HALT, the STOP state
    /// and the NOP count is the same in `post`.
    pub open spec fn cpu_frame(&self, post: &Sys) -> bool {
        &&& post.options == self.options
        &&& post.ppu == self.ppu
        &&& post.cpu_clock == self.cpu_clock
        &&& post.div_timer_clock == self.div_timer_clock
        &&& post.tima_timer_clock == self.tima_timer_clock
        &&& post.cpu_delay_ticks == self.cpu_delay_ticks
        &&& post.cpu_enable == self.cpu_enable
        &&& post.lcd_enable == self.lcd_enable
        &&& post.hard_lock == self.hard_lock
        &&& post.is_render_pending == self.is_render_pending
        &&& post.failure == self.failure
        &&& post.joypad == self.joypad
        &&& post.speed_ctrl.mcycle == self.speed_ctrl.mcycle
        &&& post.mem.cart.header == self.mem.cart.header
        &&& post.mem.io_regs@.get(IoReg::Ly) == self.mem.io_regs@.get(IoReg::Ly)
        &&& post.mem.io_regs@.get(IoReg::Stat) & 3 == self.mem.io_regs@.get(IoReg::Stat) & 3
    }
}

/// Reads the byte at PC and advances PC.
fn fetch_byte(sys: &mut Sys) -> (r: u8)
    requires
        old(sys).wf(),
    ensures
        final(sys).wf(),
        r == old(sys).mem.spec_read(old(sys).regs.pc),
        final(sys).regs == (CpuRegs { pc: wrap16(old(sys).regs.pc + 1), ..old(sys).regs }),
        final(sys).mem == old(sys).mem,
        old(sys).cpu_frame(final(sys)),
        final(sys).speed_ctrl == old(sys).speed_ctrl,
        final(sys).interrupt_master_enable == old(sys).interrupt_master_enable,
        final(sys).halted == old(sys).halted,
        final(sys).nop_count == old(sys).nop_count,
{
    let b = sys.mem.read(sys.regs.pc);
    sys.regs.pc = sys.regs.pc.wrapping_add(1);
    b
}

/// Reads an 8-bit operand.
fn read_r8(sys: &Sys, r: R8) -> (v: u8)
    requires
        sys.wf(),
    ensures
        v == spec_r8(sys, r),
{
    match r.get_reg() {
        Some(reg) => sys.regs.get_8(reg),
        None => sys.mem.read(sys.regs.get_16(CpuReg16::HL)),
    }
}

/// Writes an 8-bit operand.
fn write_r8(sys: &mut Sys, r: R8, v: u8) -> (res: Result<(), EmuError>)
    requires
        old(sys).wf(),
    ensures
        final(sys).wf(),
        old(sys).cpu_frame(final(sys)),
        final(sys).speed_ctrl == old(sys).speed_ctrl,
        final(sys).interrupt_master_enable == old(sys).interrupt_master_enable,
        final(sys).halted == old(sys).halted,
        final(sys).nop_count == old(sys).nop_count,
        r.spec_reg() matches Some(reg) ==> final(sys).regs == old(sys).regs.spec_set_8(reg, v)
            && final(sys).mem == old(sys).mem && res is Ok,
        r.spec_reg() is None ==> final(sys).regs == old(sys).regs && old(sys).mem.spec_wrote(
            &final(sys).mem,
            spec_hl(old(sys).regs),
            v,
        ) && (res is Err <==> !old(sys).mem.spec_write_ok(spec_hl(old(sys).regs), v)),
        res is Err ==> res == Err::<(), EmuError>(EmuError::InvalidAddress),
{
    match r.get_reg() {
        Some(reg) => {
            sys.regs.set_8(reg, v);
            Ok(())
        },
        None => {
            let hl = sys.regs.get_16(CpuReg16::HL);
            sys.mem.write(hl, v)
        },
    }
}

/// Executes an 8-bit arithmetic instruction against A.
fn exec_alu(sys: &mut Sys, ins: Asm, operand: R8) -> (r: u32)
    requires
        old(sys).wf(),
        spec_alu(ins, 0, 0, Flags { z: false, n: false, h: false, c: false }) is Some,
    ensures
        final(sys).wf(),
        old(sys).cpu_frame(final(sys)),
        final(sys).speed_ctrl == old(sys).speed_ctrl,
        final(sys).mem == old(sys).mem,
        final(sys).interrupt_master_enable == old(sys).interrupt_master_enable,
        final(sys).halted == old(sys).halted,
        final(sys).nop_count == old(sys).nop_count,
        spec_alu(ins, old(sys).regs.a, spec_r8(old(sys), operand), old(sys).regs.spec_flags())
            matches Some((a, f)) ==> final(sys).regs == (CpuRegs {
                a: a,
                f: f.spec_byte(),
                ..old(sys).regs
            }),
        r == (if operand == R8::HlMem { 2u32 } else { 1u32 }),
{
    let v = read_r8(sys, operand);
    let a = sys.regs.a;
    let f = sys.regs.flags();
    let (res, flags) = match ins {
        Asm::Add_A_R8 { .. } => add8(a, v, false),
        Asm::Adc_A_R8 { .. } => add8(a, v, f.c),
        Asm::Sub_A_R8 { .. } => sub8(a, v, false),
        Asm::Sbc_A_R8 { .. } => sub8(a, v, f.c),
        Asm::And_A_R8 { .. } => and8(a, v),
        Asm::Xor_A_R8 { .. } => xor8(a, v),
        Asm::Or_A_R8 { .. } => or8(a, v),
        _ => {
            let (_, flags) = sub8(a, v, false);
            (a, flags)
        },
    };
    sys.regs.a = res;
    sys.regs.set_flags(flags);
    if operand == R8::HlMem { 2 } else { 1 }
}

/// JR: adds the signed offset to PC, which already points past the
/// instruction.
fn exec_jr(sys: &mut Sys, imm: u8)
    ensures
        final(sys).regs == (CpuRegs { pc: wrap16(old(sys).regs.pc + sext8(imm) + 0x10000), ..old(sys).regs }),
        final(sys).mem == old(sys).mem,
        old(sys).cpu_frame(final(sys)),
        final(sys).speed_ctrl == old(sys).speed_ctrl,
        final(sys).interrupt_master_enable == old(sys).interrupt_master_enable,
        final(sys).halted == old(sys).halted,
        final(sys).nop_count == old(sys).nop_count,
{
    let offset: i16 = if imm < 128 { imm as i16 } else { imm as i16 - 256 };
    sys.regs.pc = add16_ui(sys.regs.pc, offset);
}

fn cond_true(f: Flags, c: Cond) -> (r: bool)
    ensures
        r == cond_holds(f, c),
{
    match c {
        Cond::NZ => !f.z,
        Cond::Z => f.z,
        Cond::NC => !f.c,
        Cond::C => f.c,
    }
}

/// LD (r16mem),A and LD A,(r16mem): the address register is incremented or
/// decremented afterwards for HL+ and HL-.
fn exec_ld_mem(sys: &mut Sys, rm: R16Mem, store: bool) -> (r: Result<(), EmuError>)
    requires
        old(sys).wf(),
    ensures
        final(sys).wf(),
        old(sys).cpu_frame(final(sys)),
        final(sys).speed_ctrl == old(sys).speed_ctrl,
        final(sys).interrupt_master_enable == old(sys).interrupt_master_enable,
        final(sys).halted == old(sys).halted,
        final(sys).nop_count == old(sys).nop_count,
        ({
            let addr = old(sys).regs.spec_get_16(rm.spec_reg());
            let regs1 = old(sys).regs.spec_set_16(rm.spec_reg(), wrap16(addr + rm.spec_inc() + 0x10000));
            if store {
                &&& old(sys).mem.spec_wrote(&final(sys).mem, addr, old(sys).regs.a)
                &&& (r is Err <==> !old(sys).mem.spec_write_ok(addr, old(sys).regs.a))
                &&& (r is Err ==> r == Err::<(), EmuError>(EmuError::InvalidAddress))
                &&& (r is Ok ==> final(sys).regs == regs1)
            } else {
                &&& final(sys).mem == old(sys).mem
                &&& r is Ok
                &&& final(sys).regs == (CpuRegs { a: old(sys).mem.spec_read(addr), ..regs1 })
            }
        }),
{
    let (reg, inc) = rm.get_reg_inc();
    let addr = sys.regs.get_16(reg);
    if store {
        let a = sys.regs.a;
        sys.mem.write(addr, a)?;
        sys.regs.set_16(reg, add16_ui(addr, inc));
    } else {
        let v = sys.mem.read(addr);
        sys.regs.set_16(reg, add16_ui(addr, inc));
        sys.regs.a = v;
    }
    Ok(())
}

/// STOP: starts the CPU freeze, and toggles double speed if KEY1 bit 0
/// armed it (clearing the arm bit).
fn exec_stop(sys: &mut Sys)
    requires
        old(sys).wf(),
    ensures
        final(sys).wf(),
        final(sys).speed_ctrl.stop_mcycles_left == crate::sys::speed::STOP_MCYCLES,
        final(sys).speed_ctrl.mcycle == old(sys).speed_ctrl.mcycle,
        final(sys).regs == old(sys).regs,
        old(sys).cpu_frame(final(sys)),
        final(sys).interrupt_master_enable == old(sys).interrupt_master_enable,
        final(sys).halted == old(sys).halted,
        final(sys).nop_count == old(sys).nop_count,
        final(sys).mem.io_regs@ == (if bit8(old(sys).mem.io_regs@.get(IoReg::Key1), 0) == 1 {
            old(sys).mem.io_regs@.set(
                IoReg::Key1,
                (old(sys).mem.io_regs@.get(IoReg::Key1) ^ 0x80) & 0xFE,
            )
        } else {
            old(sys).mem.io_regs@
        }),
        final(sys).mem.cart == old(sys).mem.cart,
        final(sys).mem.vram@ == old(sys).mem.vram@,
        final(sys).mem.wram@ == old(sys).mem.wram@,
        final(sys).mem.oam == old(sys).mem.oam,
        final(sys).mem.hram == old(sys).mem.hram,
{
    let key1 = sys.mem.get(IoReg::Key1);
    if key1.bit(0) == 1 {
        sys.mem.set(IoReg::Key1, (key1 ^ 0x80) & 0xFE);
    }
    sys.speed_ctrl.stop();
}

/// INC r8 and DEC r8: C is kept.
fn exec_inc_dec_r8(sys: &mut Sys, operand: R8, inc: bool) -> (r: Result<(), EmuError>)
    requires
        old(sys).wf(),
    ensures
        final(sys).wf(),
        old(sys).cpu_frame(final(sys)),
        final(sys).speed_ctrl == old(sys).speed_ctrl,
        final(sys).interrupt_master_enable == old(sys).interrupt_master_enable,
        final(sys).halted == old(sys).halted,
        final(sys).nop_count == old(sys).nop_count,
        r is Err ==> r == Err::<(), EmuError>(EmuError::InvalidAddress),
        operand.spec_reg() is Some ==> r is Ok,
        ({
            let (v, f) = if inc {
                spec_inc8(spec_r8(old(sys), operand), old(sys).regs.spec_flags())
            } else {
                spec_dec8(spec_r8(old(sys), operand), old(sys).regs.spec_flags())
            };
            &&& operand.spec_reg() matches Some(reg) ==> final(sys).regs == (CpuRegs {
                f: f.spec_byte(),
                ..old(sys).regs.spec_set_8(reg, v)
            }) && final(sys).mem == old(sys).mem
            &&& operand.spec_reg() is None ==> (r is Err <==> !writable(spec_hl(old(sys).regs)))
            &&& operand.spec_reg() is None ==> old(sys).mem.spec_wrote(
                &final(sys).mem,
                spec_hl(old(sys).regs),
                v,
            )
            &&& operand.spec_reg() is None && r is Ok ==> final(sys).regs == (CpuRegs {
                f: f.spec_byte(),
                ..old(sys).regs
            })
        }),
{
    let v = read_r8(sys, operand);
    let f = sys.regs.flags();
    let (res, flags) = if inc { inc8(v, f) } else { dec8(v, f) };
    write_r8(sys, operand, res)?;
    sys.regs.set_flags(flags);
    Ok(())
}

/// LD (imm16),SP: SP's low byte at `addr`, its high byte after it.
fn exec_ld_imm16p_sp(sys: &mut Sys, addr: u16) -> (r: Result<(), EmuError>)
    requires
        old(sys).wf(),
    ensures
        final(sys).wf(),
        old(sys).cpu_frame(final(sys)),
        final(sys).speed_ctrl == old(sys).speed_ctrl,
        final(sys).interrupt_master_enable == old(sys).interrupt_master_enable,
        final(sys).halted == old(sys).halted,
        final(sys).nop_count == old(sys).nop_count,
        final(sys).regs == old(sys).regs,
        r is Err ==> r == Err::<(), EmuError>(EmuError::InvalidAddress),
        r is Err <==> !(writable(addr) && writable(wrap16(addr + 1))),
        r is Ok ==> exists|m: Mem|
            #[trigger] old(sys).mem.spec_wrote(&m, addr, lo_byte(old(sys).regs.sp))
                && m.spec_wrote(&final(sys).mem, wrap16(addr + 1), hi_byte(old(sys).regs.sp)),
{
    let (hi, lo) = split_16(sys.regs.sp);
    let ghost m0 = sys.mem;
    sys.mem.write(addr, lo)?;
    let ghost m1 = sys.mem;
    sys.mem.write(addr.wrapping_add(1), hi)?;
    assert(m0.spec_wrote(&m1, addr, lo) && m1.spec_wrote(&sys.mem, wrap16(addr + 1), hi));
    Ok(())
}

/// ADD HL,r16.
fn exec_add_hl(sys: &mut Sys, operand: R16)
    requires
        old(sys).wf(),
    ensures
        final(sys).wf(),
        old(sys).cpu_frame(final(sys)),
        final(sys).speed_ctrl == old(sys).speed_ctrl,
        final(sys).interrupt_master_enable == old(sys).interrupt_master_enable,
        final(sys).halted == old(sys).halted,
        final(sys).nop_count == old(sys).nop_count,
        final(sys).mem == old(sys).mem,
        ({
            let (v, f) = spec_add16(
                spec_hl(old(sys).regs),
                old(sys).regs.spec_get_16(operand.spec_reg()),
                old(sys).regs.spec_flags(),
            );
            final(sys).regs == (CpuRegs {
                f: f.spec_byte(),
                ..old(sys).regs.spec_set_16(CpuReg16::HL, v)
            })
        }),
{
    let v = sys.regs.get_16(operand.get_reg());
    let hl = sys.regs.get_16(CpuReg16::HL);
    let f = sys.regs.flags();
    let (res, flags) = add16(hl, v, f);
    sys.regs.set_16(CpuReg16::HL, res);
    sys.regs.set_flags(flags);
}

/// Executes a block-0 instruction (see `execute`).
fn execute_block_0(sys: &mut Sys, ins: Asm, imm: u16) -> (r: Result<u32, EmuError>)
    requires
        old(sys).wf(),
        is_block_0(ins),
    ensures
        final(sys).wf(),
        spec_exec(old(sys), final(sys), ins, imm, r),
{
    match ins {
        Asm::Jr_Imm8 | Asm::Jr_Cond_Imm8 { .. } => execute_jr(sys, ins, imm),
        Asm::Ld_R16_Imm16 { .. } | Asm::Inc_R16 { .. } | Asm::Dec_R16 { .. } | Asm::Add_Hl_R16 {
            ..
        } => execute_r16(sys, ins, imm),
        _ => execute_block_0_mem(sys, ins, imm),
    }
}

/// Executes JR and JR cc (see `execute`).
fn execute_jr(sys: &mut Sys, ins: Asm, imm: u16) -> (r: Result<u32, EmuError>)
    requires
        old(sys).wf(),
        ins is Jr_Imm8 || ins is Jr_Cond_Imm8,
    ensures
        final(sys).wf(),
        spec_exec(old(sys), final(sys), ins, imm, r),
{
    match ins {
        Asm::Jr_Cond_Imm8 { cond } => {
            let f = sys.regs.flags();
            if cond_true(f, cond) {
                exec_jr(sys, (imm % 256) as u8);
                Ok(3)
            } else {
                Ok(2)
            }
        },
        _ => {
            exec_jr(sys, (imm % 256) as u8);
            Ok(3)
        },
    }
}

/// Executes LD r16,imm16, INC r16, DEC r16 and ADD HL,r16 (see `execute`).
fn execute_r16(sys: &mut Sys, ins: Asm, imm: u16) -> (r: Result<u32, EmuError>)
    requires
        old(sys).wf(),
        ins is Ld_R16_Imm16 || ins is Inc_R16 || ins is Dec_R16 || ins is Add_Hl_R16,
    ensures
        final(sys).wf(),
        spec_exec(old(sys), final(sys), ins, imm, r),
{
    match ins {
        Asm::Ld_R16_Imm16 { dst } => {
            sys.regs.set_16(dst.get_reg(), imm);
            Ok(3)
        },
        Asm::Inc_R16 { operand } => {
            let reg = operand.get_reg();
            let v = sys.regs.get_16(reg);
            sys.regs.set_16(reg, v.wrapping_add(1));
            Ok(2)
        },
        Asm::Dec_R16 { operand } => {
            let reg = operand.get_reg();
            let v = sys.regs.get_16(reg);
            sys.regs.set_16(reg, v.wrapping_sub(1));
            Ok(2)
        },
        Asm::Add_Hl_R16 { operand } => {
            exec_add_hl(sys, operand);
            Ok(2)
        },
        _ => Err(EmuError::UndecodedOpcode),
    }
}

/// Executes NOP, STOP, a block-0 instruction that reads or writes memory,
/// INC/DEC r8 or LD r8,imm8 (see `execute`).
#[verifier::rlimit(100)]
fn execute_block_0_mem(sys: &mut Sys, ins: Asm, imm: u16) -> (r: Result<u32, EmuError>)
    requires
        old(sys).wf(),
        is_block_0_mem(ins),
    ensures
        final(sys).wf(),
        spec_exec(old(sys), final(sys), ins, imm, r),
{
    match ins {
        Asm::Nop => {
            sys.nop_count = sys.nop_count.saturating_add(1);
            Ok(1)
        },
        Asm::Stop => {
            exec_stop(sys);
            Ok(1)
        },
        Asm::Ld_R16MemP_A { dst } => {
            exec_ld_mem(sys, dst, true)?;
            Ok(2)
        },
        Asm::Ld_A_R16MemP { src } => {
            exec_ld_mem(sys, src, false)?;
            Ok(2)
        },
        Asm::Ld_Imm16P_Sp => {
            exec_ld_imm16p_sp(sys, imm)?;
            Ok(5)
        },
        Asm::Inc_R8 { operand } => {
            exec_inc_dec_r8(sys, operand, true)?;
            Ok(if operand == R8::HlMem { 3 } else { 1 })
        },
        Asm::Dec_R8 { operand } => {
            exec_inc_dec_r8(sys, operand, false)?;
            Ok(if operand == R8::HlMem { 3 } else { 1 })
        },
        Asm::Ld_R8_Imm8 { dst } => {
            write_r8(sys, dst, (imm % 256) as u8)?;
            Ok(if dst == R8::HlMem { 3 } else { 2 })
        },
        _ => Err(EmuError::UndecodedOpcode),
    }
}

/// Executes a decoded instruction whose immediate operand, if any, is
/// `imm` (low byte first for 16 bits), with PC already past it. Returns the
/// M-cycles that it takes.
#[verifier::rlimit(100)]
pub fn execute(sys: &mut Sys, ins: Asm, imm: u16) -> (r: Result<u32, EmuError>)
    requires
        old(sys).wf(),
    ensures
        final(sys).wf(),
        spec_exec(old(sys), final(sys), ins, imm, r),
{
    match ins {
        Asm::Halt => {
            sys.halted = true;
            Ok(1)
        },
        Asm::Ld_R8_R8 { dst, src } => {
            let v = read_r8(sys, src);
            write_r8(sys, dst, v)?;
            Ok(if dst == R8::HlMem || src == R8::HlMem { 2 } else { 1 })
        },
        Asm::Add_A_R8 { operand }
        | Asm::Adc_A_R8 { operand }
        | Asm::Sub_A_R8 { operand }
        | Asm::Sbc_A_R8 { operand }
        | Asm::And_A_R8 { operand }
        | Asm::Xor_A_R8 { operand }
        | Asm::Or_A_R8 { operand }
        | Asm::Cp_A_R8 { operand } => Ok(exec_alu(sys, ins, operand)),
        Asm::Imm8(_) | Asm::Imm16Hi(_) | Asm::Imm16Lo(_) => Err(EmuError::UndecodedOpcode),
        _ => execute_block_0(sys, ins, imm),
    }
}

/// The number of immediate bytes after an opcode.
pub open spec fn imm_len(t: ImmType) -> int {
    match t {
        ImmType::Imm0 => 0,
        ImmType::Imm8 => 1,
        ImmType::Imm16 => 2,
    }
}

/// The immediate operand after the opcode at `pc`: one byte, or two bytes
/// low byte first.
pub open spec fn spec_fetch_imm(mem: &Mem, pc: u16, t: ImmType) -> u16 {
    match t {
        ImmType::Imm0 => 0,
        ImmType::Imm8 => mem.spec_read(wrap16(pc + 1)) as u16,
        ImmType::Imm16 => word(mem.spec_read(wrap16(pc + 2)), mem.spec_read(wrap16(pc + 1))),
    }
}

/// The system once the opcode of `ins` and its immediate bytes are fetched:
/// PC past them, out of HALT.
pub open spec fn spec_fetched(pre: &Sys, ins: Asm) -> Sys {
    Sys {
        regs: CpuRegs {
            pc: wrap16(pre.regs.pc + 1 + imm_len(ins.spec_imm_type())),
            ..pre.regs
        },
        halted: false,
        ..*pre
    }
}

/// What running the next instruction does. A halted CPU with no interrupt
/// requested and enabled waits one M-cycle and changes nothing. Otherwise
/// the opcode at PC is decoded: an undecoded one fails with PC past it;
/// a decoded one is executed (see `spec_exec`) with PC past the opcode and
/// its immediate bytes.
pub open spec fn spec_next_instr(pre: &Sys, post: &Sys, r: Result<u32, EmuError>) -> bool {
    if pre.halted && pending_of(&pre.mem) == 0 {
        r == Ok::<u32, EmuError>(1) && *post == *pre
    } else {
        let pc = pre.regs.pc;
        match spec_interpret(pre.mem.spec_read(pc)) {
            Err(_) => r == Err::<u32, EmuError>(EmuError::UndecodedOpcode) && *post == (Sys {
                regs: CpuRegs { pc: wrap16(pc + 1), ..pre.regs },
                halted: false,
                ..*pre
            }),
            Ok(ins) => spec_exec(
                &spec_fetched(pre, ins),
                post,
                ins,
                spec_fetch_imm(&pre.mem, pc, ins.spec_imm_type()),
                r,
            ),
        }
    }
}

/// Runs the next instruction (see `spec_next_instr`). Returns the M-cycles
/// that it takes.
pub fn execute_next_instr(sys: &mut Sys) -> (r: Result<u32, EmuError>)
    requires
        old(sys).wf(),
    ensures
        final(sys).wf(),
        spec_next_instr(old(sys), final(sys), r),
{
    if sys.halted {
        let ie = sys.mem.get(IoReg::Ie);
        let if_ = sys.mem.get(IoReg::If);
        if ie & if_ & 0x1F != 0 {
            sys.halted = false;
        } else {
            return Ok(1);
        }
    }
    let op = fetch_byte(sys);
    let ins = match interpret(op) {
        Ok(ins) => ins,
        Err(e) => {
            assert(*sys == (Sys {
                regs: CpuRegs { pc: wrap16(old(sys).regs.pc + 1), ..old(sys).regs },
                halted: false,
                ..*old(sys)
            }));
            return Err(e);
        },
    };
    let imm: u16 = match ins.imm_type() {
        ImmType::Imm0 => 0,
        ImmType::Imm8 => fetch_byte(sys) as u16,
        ImmType::Imm16 => {
            let lo = fetch_byte(sys);
            let hi = fetch_byte(sys);
            join_16(hi, lo)
        },
    };
    assert(*sys == spec_fetched(old(sys), ins));
    execute(sys, ins, imm)
}

} // verus!
