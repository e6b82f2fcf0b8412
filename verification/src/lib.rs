//! A verified emulator core for a small subset of 32-bit x86 machine code.
//!
//! The crate models a CPU register file, a flat byte-addressable memory and a
//! fetch-decode-dispatch-execute cycle.  Supported instructions are the
//! 32-bit immediate moves (`0xB8`-`0xBF` into a register, `0xC7` into a
//! register-or-memory operand selected by a ModRM byte) and the relative
//! jumps (`0xEB` short, `0xE9` near).  Execution halts gracefully on an
//! opcode with no bound handler, or when the instruction pointer reaches the
//! sentinel value 0.

pub mod arith;
pub mod emulator;
pub mod function;
pub mod instruction;
pub mod modrm;
