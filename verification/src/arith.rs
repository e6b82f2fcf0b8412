//! Two's-complement interpretation and modulo-2^32 wraparound arithmetic.
//!
//! All instruction-pointer arithmetic in the emulator is defined modulo 2^32;
//! displacement bytes are reinterpreted as signed two's-complement values.
//! These spec functions give those notions a single, explicit definition, and
//! the lemmas below relate them to the executable wrapping operations.

use vstd::arithmetic::div_mod::{lemma_mod_add_multiples_vanish, lemma_small_mod};
use vstd::prelude::*;

verus! {

/// 2^32, the size of the 32-bit value space.
pub const WORD_SPACE: u64 = 0x1_0000_0000;

/// Reduce a mathematical integer modulo 2^32 (always in `[0, 2^32)`).
pub open spec fn wrap32(v: int) -> int {
    v % (WORD_SPACE as int)
}

/// The value of a byte reinterpreted as a signed two's-complement 8-bit
/// integer: `b` itself below 0x80, `b - 256` from 0x80 upward.
pub open spec fn as_signed8(b: u8) -> int {
    if b < 0x80 {
        b as int
    } else {
        b - 0x100
    }
}

/// The value of a 32-bit word reinterpreted as a signed two's-complement
/// integer: `v` itself below 2^31, `v - 2^32` from 2^31 upward.
pub open spec fn as_signed32(v: u32) -> int {
    if v < 0x8000_0000 {
        v as int
    } else {
        v - 0x1_0000_0000
    }
}

/// A byte sign-extended to a 32-bit word: the unique 32-bit word congruent
/// to `as_signed8(b)` modulo 2^32.
pub open spec fn sign_ext8_u32(b: u8) -> u32 {
    wrap32(as_signed8(b)) as u32
}

pub proof fn lemma_wrap32_small(v: int)
    requires
        0 <= v < WORD_SPACE,
    ensures
        wrap32(v) == v,
{
    lemma_small_mod(v as nat, WORD_SPACE as nat);
}

/// Adding or removing whole multiples of 2^32 does not change the residue.
pub proof fn lemma_wrap32_multiples_vanish(v: int)
    ensures
        wrap32(v + WORD_SPACE) == wrap32(v),
        wrap32(v - WORD_SPACE) == wrap32(v),
{
    lemma_mod_add_multiples_vanish(v, WORD_SPACE as int);
    lemma_mod_add_multiples_vanish(v - WORD_SPACE, WORD_SPACE as int);
}

/// A residue already taken modulo 2^32 can be folded into a larger sum.
pub proof fn lemma_wrap32_add_inner(a: int, b: int)
    ensures
        wrap32(wrap32(a) + b) == wrap32(a + b),
{
    vstd::arithmetic::div_mod::lemma_add_mod_noop(a, b, WORD_SPACE as int);
    vstd::arithmetic::div_mod::lemma_add_mod_noop(wrap32(a), b, WORD_SPACE as int);
    vstd::arithmetic::div_mod::lemma_mod_twice(a, WORD_SPACE as int);
}

/// `u32::wrapping_add` computes exactly the modulo-2^32 sum.
pub proof fn lemma_wrapping_add_is_wrap32(a: u32, b: u32)
    ensures
        u32::wrapping_add(a, b) == wrap32(a + b),
{
    if a + b > u32::MAX {
        lemma_wrap32_multiples_vanish(a + b - WORD_SPACE);
        lemma_wrap32_small(a + b - WORD_SPACE);
    } else {
        lemma_wrap32_small(a + b);
    }
}

/// `u32::wrapping_add_signed` adds a signed displacement modulo 2^32.
pub proof fn lemma_wrapping_add_signed_is_wrap32(a: u32, b: i32)
    ensures
        u32::wrapping_add_signed(a, b) == wrap32(a + b),
{
    if a + b > u32::MAX {
        lemma_wrap32_multiples_vanish(a + b - WORD_SPACE);
        lemma_wrap32_small(a + b - WORD_SPACE);
    } else if a + b < 0 {
        lemma_wrap32_multiples_vanish(a + b);
        lemma_wrap32_small(a + b + WORD_SPACE);
    } else {
        lemma_wrap32_small(a + b);
    }
}

/// Sign-extend a byte to a 32-bit word.
pub fn sign_ext8(b: u8) -> (r: u32)
    ensures
        r == sign_ext8_u32(b),
{
    if b < 0x80 {
        proof {
            lemma_wrap32_small(b as int);
        }
        b as u32
    } else {
        proof {
            lemma_wrap32_multiples_vanish(b - 0x100);
            lemma_wrap32_small(b - 0x100 + WORD_SPACE);
        }
        (b as u32) + 0xffff_ff00
    }
}

/// Reinterpret a byte as a signed two's-complement 8-bit value.
pub fn to_signed8(b: u8) -> (r: i8)
    ensures
        r as int == as_signed8(b),
{
    if b < 0x80 {
        b as i8
    } else {
        (b as i16 - 0x100) as i8
    }
}

/// Reinterpret a 32-bit word as a signed two's-complement 32-bit value.
pub fn to_signed32(v: u32) -> (r: i32)
    ensures
        r as int == as_signed32(v),
{
    if v < 0x8000_0000 {
        v as i32
    } else {
        (v as i64 - 0x1_0000_0000) as i32
    }
}

} // verus!
