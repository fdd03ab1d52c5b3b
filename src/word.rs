use vstd::prelude::*;

verus! {

/// `v` reduced into 16 bits.
pub open spec fn wrap16(v: int) -> u16 {
    (v % 0x10000) as u16
}

/// `v` reduced into 8 bits.
pub open spec fn wrap8(v: int) -> u8 {
    (v % 0x100) as u8
}

/// The 16-bit word with high byte `hi` and low byte `lo`.
pub open spec fn word(hi: u8, lo: u8) -> u16 {
    (hi as int * 0x100 + lo as int) as u16
}

pub open spec fn lo_byte(v: u16) -> u8 {
    (v % 0x100) as u8
}

pub open spec fn hi_byte(v: u16) -> u8 {
    (v / 0x100) as u8
}

/// An 8-bit value read as two's complement.
pub open spec fn signed8(v: u8) -> int {
    if v >= 0x80 {
        v - 0x100
    } else {
        v as int
    }
}

/// A 16-bit value read as two's complement.
pub open spec fn signed16(v: u16) -> int {
    if v >= 0x8000 {
        v - 0x10000
    } else {
        v as int
    }
}

pub fn add16(a: u16, b: u16) -> (r: u16)
    ensures
        r == wrap16(a + b),
{
    let s: u32 = a as u32 + b as u32;
    if s >= 0x10000 {
        (s - 0x10000) as u16
    } else {
        s as u16
    }
}

pub fn sub16(a: u16, b: u16) -> (r: u16)
    ensures
        r == wrap16(a - b),
{
    if a >= b {
        a - b
    } else {
        (0x10000u32 - b as u32 + a as u32) as u16
    }
}

pub fn add8(a: u8, b: u8) -> (r: u8)
    ensures
        r == wrap8(a + b),
{
    let s: u16 = a as u16 + b as u16;
    if s >= 0x100 {
        (s - 0x100) as u8
    } else {
        s as u8
    }
}

pub fn sub8(a: u8, b: u8) -> (r: u8)
    ensures
        r == wrap8(a - b),
{
    if a >= b {
        a - b
    } else {
        (0x100u16 - b as u16 + a as u16) as u8
    }
}

pub fn make_word(hi: u8, lo: u8) -> (r: u16)
    ensures
        r == word(hi, lo),
{
    hi as u16 * 0x100 + lo as u16
}

pub fn low(v: u16) -> (r: u8)
    ensures
        r == lo_byte(v),
{
    (v % 0x100) as u8
}

pub fn high(v: u16) -> (r: u8)
    ensures
        r == hi_byte(v),
{
    (v / 0x100) as u8
}

/// Reducing a summand first does not change a 16-bit sum.
pub proof fn lemma_wrap16_add(a: int, b: int)
    ensures
        wrap16(wrap16(a) + b) == wrap16(a + b),
        wrap16(a + 0x10000) == wrap16(a),
{
    vstd::arithmetic::div_mod::lemma_mod_twice(a, 0x10000);
    vstd::arithmetic::div_mod::lemma_add_mod_noop(a % 0x10000, b, 0x10000);
    vstd::arithmetic::div_mod::lemma_add_mod_noop(a, b, 0x10000);
    vstd::arithmetic::div_mod::lemma_mod_add_multiples_vanish(a, 0x10000);
}

/// Reducing a summand first does not change an 8-bit sum.
pub proof fn lemma_wrap8_add(a: int, b: int)
    ensures
        wrap8(wrap8(a) + b) == wrap8(a + b),
{
    vstd::arithmetic::div_mod::lemma_mod_twice(a, 0x100);
    vstd::arithmetic::div_mod::lemma_add_mod_noop(a % 0x100, b, 0x100);
    vstd::arithmetic::div_mod::lemma_add_mod_noop(a, b, 0x100);
}

/// Splitting a word into its bytes and joining them gives it back.
pub proof fn lemma_word_bytes(v: u16)
    ensures
        word(hi_byte(v), lo_byte(v)) == v,
        hi_byte(word(hi_byte(v), lo_byte(v))) == hi_byte(v),
        lo_byte(word(hi_byte(v), lo_byte(v))) == lo_byte(v),
{
}

/// Joining two bytes and splitting the word gives them back.
pub proof fn lemma_bytes_word(hi: u8, lo: u8)
    ensures
        hi_byte(word(hi, lo)) == hi,
        lo_byte(word(hi, lo)) == lo,
{
}

} // verus!
