//! Instruction fetch: reads relative to the current instruction pointer.
//!
//! Every fetch reads memory at `instruction pointer + offset` and is
//! re-evaluated on each use; nothing is cached.  The signed variants
//! reinterpret the same bit pattern as a two's-complement value.  Callers
//! establish that the fetched bytes are in bounds; the handlers perform that
//! check at run time and fail fatally when it does not hold.

use crate::arith::{as_signed32, as_signed8, to_signed32, to_signed8};
use crate::emulator::{u32_le_at, Emulator};
use vstd::prelude::*;

verus! {

/// The opcode-relative byte at `instruction pointer + offset`.
pub fn get_code8(emu: &Emulator, offset: usize) -> (r: u8)
    requires
        emu.eip + offset < emu.memory@.len(),
    ensures
        r == emu.memory@[emu.eip + offset],
{
    let n = emu.memory.len();
    assert(emu.eip as usize + offset < n);
    emu.memory.byte_at(emu.eip as usize + offset)
}

/// The byte at `instruction pointer + offset`, reinterpreted as a signed
/// two's-complement 8-bit value.
pub fn get_sign_code8(emu: &Emulator, offset: usize) -> (r: i8)
    requires
        emu.eip + offset < emu.memory@.len(),
    ensures
        r as int == as_signed8(emu.memory@[emu.eip + offset]),
{
    to_signed8(get_code8(emu, offset))
}

/// The little-endian 32-bit value of the four bytes starting at
/// `instruction pointer + offset`.
pub fn get_code32(emu: &Emulator, offset: usize) -> (r: u32)
    requires
        emu.eip + offset + 4 <= emu.memory@.len(),
    ensures
        r == u32_le_at(emu.memory@, emu.eip + offset),
{
    let n = emu.memory.len();
    assert(emu.eip as usize + offset + 4 <= n);
    emu.memory.word_at(emu.eip as usize + offset)
}

/// The four bytes starting at `instruction pointer + offset`, reinterpreted
/// as a signed two's-complement 32-bit value.
pub fn get_sign_code32(emu: &Emulator, offset: usize) -> (r: i32)
    requires
        emu.eip + offset + 4 <= emu.memory@.len(),
    ensures
        r as int == as_signed32(u32_le_at(emu.memory@, emu.eip + offset)),
{
    to_signed32(get_code32(emu, offset))
}

} // verus!
