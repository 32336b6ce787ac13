use vstd::prelude::*;

verus! {

/// The byte at bits 15..8 of a 16-bit word.
pub open spec fn hi_byte(x: u16) -> u8 {
    (x / 256) as u8
}

/// The byte at bits 7..0 of a 16-bit word.
pub open spec fn lo_byte(x: u16) -> u8 {
    (x % 256) as u8
}

/// The 16-bit word whose high byte is `hi` and low byte is `lo`.
pub open spec fn word(hi: u8, lo: u8) -> u16 {
    (hi * 256 + lo) as u16
}

/// A non-negative `x` modulo 2^16.
pub open spec fn wrap16(x: int) -> u16 {
    (x % 0x10000) as u16
}

/// Splits a 16-bit word into its (high, low) bytes.
pub fn split_16(data: u16) -> (r: (u8, u8))
    ensures
        r.0 == hi_byte(data),
        r.1 == lo_byte(data),
{
    let hi = ((data & 0xFF00) >> 8) as u8;
    let lo = (data & 0x00FF) as u8;
    assert(((data & 0xFF00) >> 8) as u8 == (data / 256) as u8) by (bit_vector);
    assert((data & 0x00FF) as u8 == (data % 256) as u8) by (bit_vector);
    (hi, lo)
}

/// Joins a high and a low byte into a 16-bit word.
pub fn join_16(hi: u8, lo: u8) -> (r: u16)
    ensures
        r == word(hi, lo),
        r as int == hi as int * 256 + lo as int,
{
    let h = (hi as u16) << 8;
    let l = lo as u16;
    assert(((hi as u16) << 8) | (lo as u16) == (hi * 256 + lo) as u16) by (bit_vector);
    assert(hi * 256 + lo < 0x10000) by (nonlinear_arith)
        requires
            hi < 256,
            lo < 256,
    ;
    h | l
}

/// Adds a signed offset to an address, wrapping around 16 bits.
pub fn add16_ui(a: u16, b: i16) -> (r: u16)
    ensures
        r == wrap16(a + b + 0x10000),
{
    if b >= 0 {
        a.wrapping_add(b as u16)
    } else {
        let m = (-(b as i32)) as u16;
        a.wrapping_sub(m)
    }
}

/// Adds two 16-bit words, wrapping around 16 bits.
pub fn add16_uu(a: u16, b: u16) -> (r: u16)
    ensures
        r == wrap16(a + b),
{
    a.wrapping_add(b)
}

/// Joining the halves of a split word gives the word back.
pub proof fn lemma_join_split(x: u16)
    ensures
        word(hi_byte(x), lo_byte(x)) == x,
{
}

/// Splitting a joined word gives back the two bytes.
pub proof fn lemma_split_join(hi: u8, lo: u8)
    ensures
        hi_byte(word(hi, lo)) == hi,
        lo_byte(word(hi, lo)) == lo,
{
    assert(hi * 256 + lo < 0x10000) by (nonlinear_arith)
        requires
            hi < 256,
            lo < 256,
    ;
}

} // verus!
