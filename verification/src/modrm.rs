//! The ModRM addressing-mode decoder.
//!
//! A ModRM byte follows certain opcodes and selects the instruction's
//! register-or-memory operand.  Its top two bits (`mod`) choose between
//! register-direct addressing (`mod = 11`) and a memory operand whose
//! address is the base register named by the low three bits (`rm`) plus a
//! signed displacement: none for `mod = 00`, one sign-extended byte for
//! `mod = 01`, a 32-bit dword for `mod = 10`.  Decoding advances the
//! instruction pointer past the ModRM byte and any displacement it consumed.

use crate::arith::{
    lemma_wrapping_add_is_wrap32, sign_ext8, sign_ext8_u32, wrap32,
};
use crate::emulator::{store_u32_le, u32_le_at, EmuError, Emulator};
use vstd::prelude::*;

verus! {

/// A decoded ModRM byte: the three bit fields, and the displacement
/// sign-extended to 32 bits (zero when `mod` consumes none).
#[derive(Clone, Copy, Debug, PartialEq, Eq, Structural)]
pub struct ModRM {
    /// The addressing mode: the ModRM byte's top two bits.
    pub mod_bits: u8,
    /// The middle three bits: a register number or an opcode extension.
    pub reg_bits: u8,
    /// The low three bits: the target register, or the base register of a
    /// memory operand.
    pub rm: u8,
    /// The displacement, sign-extended to 32 bits; zero if none was consumed.
    pub disp: u32,
}

/// How many displacement bytes the ModRM byte `b` consumes.
pub open spec fn modrm_disp_size(b: u8) -> int {
    if b >> 6 == 1 {
        1
    } else if b >> 6 == 2 {
        4
    } else {
        0
    }
}

/// Total bytes the ModRM byte `b` occupies: itself plus its displacement.
pub open spec fn modrm_len(b: u8) -> int {
    1 + modrm_disp_size(b)
}

/// The ModRM value decoded from `mem` at position `p`.
pub open spec fn decoded_modrm(mem: Seq<u8>, p: int) -> ModRM {
    let b = mem[p];
    ModRM {
        mod_bits: b >> 6,
        reg_bits: (b >> 3) & 7,
        rm: b & 7,
        disp: if b >> 6 == 1 {
            sign_ext8_u32(mem[p + 1])
        } else if b >> 6 == 2 {
            u32_le_at(mem, p + 1)
        } else {
            0
        },
    }
}

/// The memory address a non-register-direct ModRM operand resolves to: the
/// base register plus the signed displacement, modulo 2^32.
pub open spec fn rm_mem_addr(emu: Emulator, m: ModRM) -> int {
    wrap32(emu.registers@[m.rm as int] + m.disp)
}

/// Decode the ModRM byte at the current instruction pointer and advance the
/// pointer past it and its displacement.  Fails fatally (leaving the state
/// untouched) if the ModRM byte or its displacement lies outside memory.
pub fn parse_modrm(emu: &mut Emulator) -> (r: Result<ModRM, EmuError>)
    ensures
        ({
            let pre = *old(emu);
            let p = pre.eip as int;
            let mem = pre.memory@;
            if p < mem.len() && p + modrm_len(mem[p]) <= mem.len() {
                &&& r == Result::<ModRM, EmuError>::Ok(decoded_modrm(mem, p))
                &&& decoded_modrm(mem, p).rm < 8
                &&& decoded_modrm(mem, p).mod_bits <= 3
                &&& final(emu).eip == wrap32(p + modrm_len(mem[p]))
                &&& final(emu).registers@ == pre.registers@
                &&& final(emu).eflags == pre.eflags
                &&& final(emu).memory@ == pre.memory@
            } else {
                &&& r == Result::<ModRM, EmuError>::Err(EmuError::OutOfBounds)
                &&& *final(emu) == pre
            }
        }),
{
    let n = emu.memory.len();
    let addr = emu.eip as usize;
    let b = match emu.memory.read_byte(addr) {
        Ok(b) => b,
        Err(e) => {
            return Err(e);
        },
    };
    assert(addr < n);
    let mod_bits = b >> 6;
    let reg_bits = (b >> 3) & 7;
    let rm = b & 7;
    proof {
        assert(b >> 6 <= 3 && (b >> 3) & 7 < 8 && b & 7 < 8) by (bit_vector);
    }
    if mod_bits == 1 {
        let d = match emu.memory.read_byte(addr + 1) {
            Ok(d) => d,
            Err(e) => {
                return Err(e);
            },
        };
        let m = ModRM { mod_bits, reg_bits, rm, disp: sign_ext8(d) };
        proof {
            lemma_wrapping_add_is_wrap32(emu.eip, 2);
        }
        emu.eip = emu.eip.wrapping_add(2);
        Ok(m)
    } else if mod_bits == 2 {
        let d = match emu.memory.read_u32_le(addr + 1) {
            Ok(d) => d,
            Err(e) => {
                return Err(e);
            },
        };
        let m = ModRM { mod_bits, reg_bits, rm, disp: d };
        proof {
            lemma_wrapping_add_is_wrap32(emu.eip, 5);
        }
        emu.eip = emu.eip.wrapping_add(5);
        Ok(m)
    } else {
        let m = ModRM { mod_bits, reg_bits, rm, disp: 0 };
        proof {
            lemma_wrapping_add_is_wrap32(emu.eip, 1);
        }
        emu.eip = emu.eip.wrapping_add(1);
        Ok(m)
    }
}

/// Read the 32-bit value a decoded ModRM operand designates: the register
/// named by `rm` under register-direct addressing, otherwise the four
/// little-endian bytes at the base-plus-displacement address.  A memory
/// operand outside the capacity fails fatally.
pub fn read_rm32(emu: &Emulator, m: &ModRM) -> (r: Result<u32, EmuError>)
    requires
        m.rm < 8,
    ensures
        r == (if m.mod_bits == 3 {
            Result::<u32, EmuError>::Ok(emu.registers@[m.rm as int])
        } else if rm_mem_addr(*emu, *m) + 4 <= emu.memory@.len() {
            Result::<u32, EmuError>::Ok(u32_le_at(emu.memory@, rm_mem_addr(*emu, *m)))
        } else {
            Result::<u32, EmuError>::Err(EmuError::OutOfBounds)
        }),
{
    if m.mod_bits == 3 {
        Ok(emu.registers[m.rm as usize])
    } else {
        let base = emu.registers[m.rm as usize];
        proof {
            lemma_wrapping_add_is_wrap32(base, m.disp);
        }
        let addr = base.wrapping_add(m.disp);
        emu.memory.read_u32_le(addr as usize)
    }
}

/// Write a 32-bit value to the operand a decoded ModRM designates: the
/// register named by `rm` under register-direct addressing, otherwise the
/// four little-endian bytes at the base-plus-displacement address.  A memory
/// operand outside the capacity fails fatally and changes nothing.
pub fn write_rm32(emu: &mut Emulator, m: &ModRM, value: u32) -> (r: Result<(), EmuError>)
    requires
        m.rm < 8,
    ensures
        ({
            let pre = *old(emu);
            if m.mod_bits == 3 {
                &&& r == Result::<(), EmuError>::Ok(())
                &&& final(emu).registers@ == pre.registers@.update(m.rm as int, value)
                &&& final(emu).eflags == pre.eflags
                &&& final(emu).eip == pre.eip
                &&& final(emu).memory@ == pre.memory@
            } else if rm_mem_addr(pre, *m) + 4 <= pre.memory@.len() {
                &&& r == Result::<(), EmuError>::Ok(())
                &&& final(emu).registers@ == pre.registers@
                &&& final(emu).eflags == pre.eflags
                &&& final(emu).eip == pre.eip
                &&& final(emu).memory@ == store_u32_le(pre.memory@, rm_mem_addr(pre, *m), value)
            } else {
                &&& r == Result::<(), EmuError>::Err(EmuError::OutOfBounds)
                &&& final(emu).registers@ == pre.registers@
                &&& final(emu).eflags == pre.eflags
                &&& final(emu).eip == pre.eip
                &&& final(emu).memory@ == pre.memory@
            }
        }),
{
    if m.mod_bits == 3 {
        emu.registers[m.rm as usize] = value;
        Ok(())
    } else {
        let base = emu.registers[m.rm as usize];
        proof {
            lemma_wrapping_add_is_wrap32(base, m.disp);
        }
        let addr = base.wrapping_add(m.disp);
        match emu.memory.write_u32_le(addr as usize, value) {
            Ok(()) => Ok(()),
            Err(e) => Err(e),
        }
    }
}

} // verus!
