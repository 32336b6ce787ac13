use vstd::prelude::*;
use crate::cpu::regs::Flags;

verus! {

/// The result and flags of ADD (carry in 0) and ADC: Z from the result,
/// N = 0, H from the carry out of bit 3, C from the carry out of bit 7.
pub open spec fn spec_add8(a: u8, b: u8, carry: bool) -> (u8, Flags) {
    let ci: int = if carry { 1 } else { 0 };
    let sum = a + b + ci;
    (
        (sum % 256) as u8,
        Flags {
            z: sum % 256 == 0,
            n: false,
            h: (a % 16) + (b % 16) + ci > 15,
            c: sum > 255,
        },
    )
}

/// The result and flags of SUB (carry in 0), SBC and CP: Z from the result,
/// N = 1, H from the borrow out of bit 4, C from the borrow out of bit 8.
pub open spec fn spec_sub8(a: u8, b: u8, carry: bool) -> (u8, Flags) {
    let ci: int = if carry { 1 } else { 0 };
    let diff = a - b - ci;
    (
        ((diff + 512) % 256) as u8,
        Flags {
            z: (diff + 512) % 256 == 0,
            n: true,
            h: (a % 16) < (b % 16) + ci,
            c: diff < 0,
        },
    )
}

pub open spec fn spec_and8(a: u8, b: u8) -> (u8, Flags) {
    ((a & b), Flags { z: a & b == 0, n: false, h: true, c: false })
}

pub open spec fn spec_or8(a: u8, b: u8) -> (u8, Flags) {
    ((a | b), Flags { z: a | b == 0, n: false, h: false, c: false })
}

pub open spec fn spec_xor8(a: u8, b: u8) -> (u8, Flags) {
    ((a ^ b), Flags { z: a ^ b == 0, n: false, h: false, c: false })
}

/// INC r8: C is kept.
pub open spec fn spec_inc8(x: u8, f: Flags) -> (u8, Flags) {
    (((x + 1) % 256) as u8, Flags { z: (x + 1) % 256 == 0, n: false, h: x % 16 == 15, c: f.c })
}

/// DEC r8: C is kept.
pub open spec fn spec_dec8(x: u8, f: Flags) -> (u8, Flags) {
    (((x + 255) % 256) as u8, Flags { z: x == 1, n: true, h: x % 16 == 0, c: f.c })
}

/// ADD HL,r16: Z is kept, N = 0, H from the carry out of bit 11, C from the
/// carry out of bit 15.
pub open spec fn spec_add16(hl: u16, v: u16, f: Flags) -> (u16, Flags) {
    (
        ((hl + v) % 0x10000) as u16,
        Flags { z: f.z, n: false, h: (hl % 0x1000) + (v % 0x1000) > 0xFFF, c: hl + v > 0xFFFF },
    )
}

pub fn add8(a: u8, b: u8, carry: bool) -> (r: (u8, Flags))
    ensures
        r == spec_add8(a, b, carry),
{
    let ci: u16 = if carry { 1 } else { 0 };
    let sum: u16 = a as u16 + b as u16 + ci;
    let res = (sum % 256) as u8;
    (
        res,
        Flags {
            z: res == 0,
            n: false,
            h: (a % 16) as u16 + (b % 16) as u16 + ci > 15,
            c: sum > 255,
        },
    )
}

pub fn sub8(a: u8, b: u8, carry: bool) -> (r: (u8, Flags))
    ensures
        r == spec_sub8(a, b, carry),
{
    let ci: i16 = if carry { 1 } else { 0 };
    let diff: i16 = a as i16 - b as i16 - ci;
    let res = ((diff + 512) % 256) as u8;
    (
        res,
        Flags {
            z: res == 0,
            n: true,
            h: ((a % 16) as i16) < (b % 16) as i16 + ci,
            c: diff < 0,
        },
    )
}

pub fn and8(a: u8, b: u8) -> (r: (u8, Flags))
    ensures
        r == spec_and8(a, b),
{
    let v = a & b;
    (v, Flags { z: v == 0, n: false, h: true, c: false })
}

pub fn or8(a: u8, b: u8) -> (r: (u8, Flags))
    ensures
        r == spec_or8(a, b),
{
    let v = a | b;
    (v, Flags { z: v == 0, n: false, h: false, c: false })
}

pub fn xor8(a: u8, b: u8) -> (r: (u8, Flags))
    ensures
        r == spec_xor8(a, b),
{
    let v = a ^ b;
    (v, Flags { z: v == 0, n: false, h: false, c: false })
}

pub fn inc8(x: u8, f: Flags) -> (r: (u8, Flags))
    ensures
        r == spec_inc8(x, f),
{
    let v = x.wrapping_add(1);
    (v, Flags { z: v == 0, n: false, h: x % 16 == 15, c: f.c })
}

pub fn dec8(x: u8, f: Flags) -> (r: (u8, Flags))
    ensures
        r == spec_dec8(x, f),
{
    let v = x.wrapping_sub(1);
    (v, Flags { z: v == 0, n: true, h: x % 16 == 0, c: f.c })
}

pub fn add16(hl: u16, v: u16, f: Flags) -> (r: (u16, Flags))
    ensures
        r == spec_add16(hl, v, f),
{
    let sum: u32 = hl as u32 + v as u32;
    (
        (sum % 0x10000) as u16,
        Flags { z: f.z, n: false, h: (hl % 0x1000) + (v % 0x1000) > 0xFFF, c: sum > 0xFFFF },
    )
}

} // verus!
