use vstd::prelude::*;

verus! {

/// Bit `idx` of a byte, as 0 or 1.
pub open spec fn bit8(x: u8, idx: u8) -> u8 {
    (x >> idx) & 1
}

/// Bit `idx` of a 16-bit word, as 0 or 1.
pub open spec fn bit16(x: u16, idx: u8) -> u8 {
    ((x >> idx) & 1) as u8
}

/// `hi - lo + 1` one-bits at the bottom of a byte.
pub open spec fn mask8(hi: u8, lo: u8) -> u8 {
    0xFFu8 >> (7 - (hi - lo)) as u8
}

/// `hi - lo + 1` one-bits at the bottom of a 16-bit word.
pub open spec fn mask16(hi: u8, lo: u8) -> u16 {
    0xFFFFu16 >> (15 - (hi - lo)) as u16
}

/// The field of bits `hi..=lo` of a byte, shifted down to bit 0.
pub open spec fn bits8(x: u8, hi: u8, lo: u8) -> u8 {
    (x >> lo) & mask8(hi, lo)
}

/// The field of bits `hi..=lo` of a 16-bit word, shifted down to bit 0.
pub open spec fn bits16(x: u16, hi: u8, lo: u8) -> u16 {
    (x >> lo) & mask16(hi, lo)
}

/// `x` with the bits where `mask` is 1 taken from `value`.
pub open spec fn masked8(x: u8, mask: u8, value: u8) -> u8 {
    (x & !mask) | (value & mask)
}

/// `x` with the bits where `mask` is 1 taken from `value`.
pub open spec fn masked16(x: u16, mask: u16, value: u16) -> u16 {
    (x & !mask) | (value & mask)
}

/// `x` with bit `idx` set to the low bit of `value`.
pub open spec fn with_bit8(x: u8, idx: u8, value: u8) -> u8 {
    if value & 1 == 1 { x | (1u8 << idx) } else { x & !(1u8 << idx) }
}

/// `x` with bit `idx` set to the low bit of `value`.
pub open spec fn with_bit16(x: u16, idx: u8, value: u8) -> u16 {
    if value & 1 == 1 { x | (1u16 << idx) } else { x & !(1u16 << idx) }
}

/// `x` with the field `hi..=lo` replaced by the low bits of `value`.
pub open spec fn with_bits8(x: u8, hi: u8, lo: u8, value: u8) -> u8 {
    masked8(x, (mask8(hi, lo) << lo) as u8, (value << lo) as u8)
}

/// `x` with the field `hi..=lo` replaced by the low bits of `value`.
pub open spec fn with_bits16(x: u16, hi: u8, lo: u8, value: u16) -> u16 {
    masked16(x, (mask16(hi, lo) << lo) as u16, (value << lo) as u16)
}

/// Getting and setting bit fields of an unsigned integer.
pub trait Bits<T>: Sized {
    /// The number of bits in the integer.
    spec fn width() -> nat;

    /// The value (0 or 1) of the bit at `idx`.
    fn bit(&self, idx: u8) -> (r: u8)
        requires
            (idx as nat) < Self::width(),
        ensures
            r <= 1,
    ;

    /// The value of the bit field from `hi` down to `lo`.
    fn bits(&self, hi: u8, lo: u8) -> (r: T)
        requires
            lo <= hi,
            (hi as nat) < Self::width(),
    ;

    /// Sets the bit at `idx` to the low bit of `value`.
    fn set_bit(&mut self, idx: u8, value: u8)
        requires
            (idx as nat) < Self::width(),
    ;

    /// Sets the bit field from `hi` down to `lo` to the low bits of `value`.
    fn set_bits(&mut self, hi: u8, lo: u8, value: T)
        requires
            lo <= hi,
            (hi as nat) < Self::width(),
    ;

    /// Copies the bits of `value` into `self` wherever `mask` is 1.
    fn set_bits_masked(&mut self, mask: T, value: T);

    /// Flips the bit at `idx` and returns its new value.
    fn toggle_bit(&mut self, idx: u8) -> (r: u8)
        requires
            (idx as nat) < Self::width(),
        ensures
            r <= 1,
    {
        let next = 1 - self.bit(idx);
        self.set_bit(idx, next);
        next
    }
}

impl Bits<u8> for u8 {
    open spec fn width() -> nat {
        8
    }

    fn bit(&self, idx: u8) -> (r: u8)
        ensures
            r == bit8(*self, idx),
    {
        let x = *self;
        assert(((x >> idx) & 1) <= 1) by (bit_vector);
        (x >> idx) & 1
    }

    fn bits(&self, hi: u8, lo: u8) -> (r: u8)
        ensures
            r == bits8(*self, hi, lo),
    {
        let mask: u8 = 0xFF >> (7 - (hi - lo));
        (*self >> lo) & mask
    }

    fn set_bit(&mut self, idx: u8, value: u8)
        ensures
            *final(self) == with_bit8(*old(self), idx, value),
    {
        let mask: u8 = 1u8 << idx;
        if (value & 1) == 1 {
            *self = *self | mask;
        } else {
            *self = *self & !mask;
        }
    }

    fn set_bits(&mut self, hi: u8, lo: u8, value: u8)
        ensures
            *final(self) == with_bits8(*old(self), hi, lo, value),
    {
        let mask: u8 = (0xFFu8 >> (7 - (hi - lo))) << lo;
        let value: u8 = value << lo;
        self.set_bits_masked(mask, value);
    }

    fn set_bits_masked(&mut self, mask: u8, value: u8)
        ensures
            *final(self) == masked8(*old(self), mask, value),
    {
        *self = (*self & !mask) | (value & mask);
    }
}

impl Bits<u16> for u16 {
    open spec fn width() -> nat {
        16
    }

    fn bit(&self, idx: u8) -> (r: u8)
        ensures
            r == bit16(*self, idx),
    {
        let x = *self;
        assert(((x >> idx) & 1) <= 1) by (bit_vector);
        ((x >> idx) & 1) as u8
    }

    fn bits(&self, hi: u8, lo: u8) -> (r: u16)
        ensures
            r == bits16(*self, hi, lo),
    {
        let mask: u16 = 0xFFFF >> (15 - (hi - lo));
        (*self >> lo) & mask
    }

    fn set_bit(&mut self, idx: u8, value: u8)
        ensures
            *final(self) == with_bit16(*old(self), idx, value),
    {
        let mask: u16 = 1u16 << idx;
        if (value & 1) == 1 {
            *self = *self | mask;
        } else {
            *self = *self & !mask;
        }
    }

    fn set_bits(&mut self, hi: u8, lo: u8, value: u16)
        ensures
            *final(self) == with_bits16(*old(self), hi, lo, value),
    {
        let mask: u16 = (0xFFFFu16 >> (15 - (hi - lo))) << lo;
        let value: u16 = value << lo;
        self.set_bits_masked(mask, value);
    }

    fn set_bits_masked(&mut self, mask: u16, value: u16)
        ensures
            *final(self) == masked16(*old(self), mask, value),
    {
        *self = (*self & !mask) | (value & mask);
    }
}

/// Reading back a field just written gives the written value, cut to the
/// field's width.
pub proof fn lemma_bits8_of_with_bits8(x: u8, hi: u8, lo: u8, v: u8)
    requires
        lo <= hi < 8,
    ensures
        bits8(with_bits8(x, hi, lo, v), hi, lo) == v & mask8(hi, lo),
{
    assert(lo <= hi < 8 ==> ((((x & !(((0xFFu8 >> (7 - (hi - lo)) as u8) << lo) as u8)) | ((((v
        << lo) as u8) & (((0xFFu8 >> (7 - (hi - lo)) as u8) << lo) as u8)))) >> lo) & (0xFFu8 >> (7
        - (hi - lo)) as u8)) == v & (0xFFu8 >> (7 - (hi - lo)) as u8)) by (bit_vector);
}

/// Setting a bit and reading it back gives the low bit of the value written,
/// and every other bit keeps its value.
pub proof fn lemma_bit8_of_with_bit8(x: u8, idx: u8, v: u8, other: u8)
    requires
        idx < 8,
        other < 8,
        other != idx,
    ensures
        bit8(with_bit8(x, idx, v), idx) == v & 1,
        bit8(with_bit8(x, idx, v), other) == bit8(x, other),
{
    assert(idx < 8 ==> (((x | (1u8 << idx)) >> idx) & 1) == 1) by (bit_vector);
    assert(idx < 8 ==> (((x & !(1u8 << idx)) >> idx) & 1) == 0) by (bit_vector);
    assert(idx < 8 && other < 8 && other != idx ==> (((x | (1u8 << idx)) >> other) & 1) == ((x
        >> other) & 1)) by (bit_vector);
    assert(idx < 8 && other < 8 && other != idx ==> (((x & !(1u8 << idx)) >> other) & 1) == ((x
        >> other) & 1)) by (bit_vector);
    assert((v & 1) == 1 || (v & 1) == 0) by (bit_vector);
}

} // verus!
