//! Opcode dispatch and the instruction handlers.
//!
//! The dispatch table has 256 slots, one per opcode byte; an empty slot
//! marks the opcode as unimplemented.  Each handler interprets its own
//! operand bytes, applies its effect and advances the instruction pointer by
//! exactly the number of bytes the instruction occupied; all instruction-
//! pointer arithmetic is modulo 2^32.  `step` performs one fetch-dispatch-
//! execute cycle; the machine halts on an opcode with no bound handler, on
//! the instruction-pointer-zero sentinel, or fatally on an out-of-bounds
//! access.

use crate::arith::{
    as_signed32, as_signed8, lemma_wrap32_add_inner, lemma_wrapping_add_is_wrap32,
    lemma_wrapping_add_signed_is_wrap32, wrap32,
};
use crate::emulator::{store_u32_le, u32_le_at, EmuError, Emulator};
use crate::function::{get_code32, get_code8, get_sign_code32, get_sign_code8};
use crate::modrm::{decoded_modrm, modrm_len, parse_modrm, rm_mem_addr, write_rm32, ModRM};
use vstd::prelude::*;

verus! {

/// Number of slots in the opcode dispatch table.
pub const INSTRUCTIONS_COUNT: usize = 256;

/// The instructions the emulator implements.  A dispatch-table slot holding
/// one of these binds the slot's opcode byte to that instruction's handler.
#[derive(Clone, Copy, Debug, PartialEq, Eq, Structural)]
pub enum Opcode {
    /// `0xB8`-`0xBF`: move a 32-bit immediate into the register selected by
    /// `opcode - 0xB8`.
    MovR32Imm32,
    /// `0xC7`: move a 32-bit immediate into the register-or-memory operand
    /// selected by a ModRM byte.
    MovRm32Imm32,
    /// `0xEB`: jump by a sign-extended 8-bit displacement.
    ShortJump,
    /// `0xE9`: jump by a 32-bit displacement.
    NearJump,
}

/// The handler the standard registration binds to opcode byte `code`, if
/// any.
pub open spec fn registered_opcode(code: int) -> Option<Opcode> {
    if 0xb8 <= code <= 0xbf {
        Some(Opcode::MovR32Imm32)
    } else if code == 0xc7 {
        Some(Opcode::MovRm32Imm32)
    } else if code == 0xe9 {
        Some(Opcode::NearJump)
    } else if code == 0xeb {
        Some(Opcode::ShortJump)
    } else {
        None
    }
}

/// A dispatch table the execution engine can run: 256 slots, and the
/// move-immediate-to-register handler only on the opcode bytes it decodes
/// its target register from.
pub open spec fn instructions_wf(t: Seq<Option<Opcode>>) -> bool {
    &&& t.len() == INSTRUCTIONS_COUNT
    &&& forall|i: int|
        0 <= i < t.len() && t[i] == Some(Opcode::MovR32Imm32) ==> 0xb8 <= i <= 0xbf
}

/// Bind the standard handler set into a dispatch table: `0xB8`-`0xBF` to
/// move-immediate-to-register, `0xC7` to move-immediate-to-r/m32, `0xE9` to
/// near jump and `0xEB` to short jump.  Every other slot keeps its previous
/// binding.
pub fn init_instructions(instructions: &mut Vec<Option<Opcode>>)
    requires
        old(instructions)@.len() == INSTRUCTIONS_COUNT,
    ensures
        final(instructions)@.len() == INSTRUCTIONS_COUNT,
        forall|i: int|
            0 <= i < INSTRUCTIONS_COUNT ==> final(instructions)@[i] == (if registered_opcode(i)
                is Some {
                registered_opcode(i)
            } else {
                old(instructions)@[i]
            }),
{
    let mut i: usize = 0;
    while i < 8
        invariant
            0 <= i <= 8,
            instructions@.len() == INSTRUCTIONS_COUNT,
            forall|j: int|
                0xb8 <= j < 0xb8 + i ==> instructions@[j] == Some(Opcode::MovR32Imm32),
            forall|j: int|
                0 <= j < INSTRUCTIONS_COUNT && !(0xb8 <= j < 0xb8 + i) ==> instructions@[j] == old(
                    instructions,
                )@[j],
        decreases 8 - i,
    {
        instructions[0xb8 + i] = Some(Opcode::MovR32Imm32);
        i = i + 1;
    }
    instructions[0xc7] = Some(Opcode::MovRm32Imm32);
    instructions[0xe9] = Some(Opcode::NearJump);
    instructions[0xeb] = Some(Opcode::ShortJump);
}

/// Whether the move-immediate-to-register instruction at the instruction
/// pointer has its four immediate bytes in bounds.
pub open spec fn mov_r32_imm32_fits(pre: Emulator) -> bool {
    pre.eip + 5 <= pre.memory@.len()
}

/// Effect of `0xB8 + reg`: the register selected by `opcode - 0xB8` receives
/// the little-endian 32-bit immediate that follows the opcode, and the
/// instruction pointer advances by 5, modulo 2^32.
pub open spec fn mov_r32_imm32_post(pre: Emulator, post: Emulator) -> bool {
    let reg = pre.memory@[pre.eip as int] - 0xb8;
    &&& post.registers@ == pre.registers@.update(reg as int, u32_le_at(pre.memory@, pre.eip + 1))
    &&& post.eflags == pre.eflags
    &&& post.eip == wrap32(pre.eip + 5)
    &&& post.memory@ == pre.memory@
}

/// Move a 32-bit immediate into the register selected by the opcode byte
/// itself.  Fails fatally (leaving the state untouched) if the immediate
/// lies outside memory.
pub fn mov_r32_imm32(emu: &mut Emulator) -> (r: Result<(), EmuError>)
    requires
        old(emu).eip < old(emu).memory@.len(),
        0xb8 <= old(emu).memory@[old(emu).eip as int] <= 0xbf,
    ensures
        r is Ok <==> mov_r32_imm32_fits(*old(emu)),
        r is Ok ==> mov_r32_imm32_post(*old(emu), *final(emu)),
        r is Err ==> *final(emu) == *old(emu) && r == Result::<(), EmuError>::Err(
            EmuError::OutOfBounds,
        ),
{
    let n = emu.memory.len();
    if !(emu.eip as u64 + 5 <= n as u64) {
        return Err(EmuError::OutOfBounds);
    }
    let reg = get_code8(emu, 0) - 0xb8;
    let imm = get_code32(emu, 1);
    proof {
        lemma_wrapping_add_is_wrap32(emu.eip, 5);
    }
    emu.registers[reg as usize] = imm;
    emu.eip = emu.eip.wrapping_add(5);
    Ok(())
}

/// Whether the short jump at the instruction pointer has its displacement
/// byte in bounds.
pub open spec fn short_jump_fits(pre: Emulator) -> bool {
    pre.eip + 2 <= pre.memory@.len()
}

/// Effect of `0xEB d`: the instruction pointer becomes
/// `old + sign_extend8(d) + 2`, modulo 2^32; nothing else changes.
pub open spec fn short_jump_post(pre: Emulator, post: Emulator) -> bool {
    &&& post.registers@ == pre.registers@
    &&& post.eflags == pre.eflags
    &&& post.eip == wrap32(pre.eip + as_signed8(pre.memory@[pre.eip + 1]) + 2)
    &&& post.memory@ == pre.memory@
}

/// Jump by the sign-extended 8-bit displacement that follows the opcode.
/// Fails fatally (leaving the state untouched) if the displacement byte lies
/// outside memory.
pub fn short_jump(emu: &mut Emulator) -> (r: Result<(), EmuError>)
    ensures
        r is Ok <==> short_jump_fits(*old(emu)),
        r is Ok ==> short_jump_post(*old(emu), *final(emu)),
        r is Err ==> *final(emu) == *old(emu) && r == Result::<(), EmuError>::Err(
            EmuError::OutOfBounds,
        ),
{
    let n = emu.memory.len();
    if !(emu.eip as u64 + 2 <= n as u64) {
        return Err(EmuError::OutOfBounds);
    }
    let diff = get_sign_code8(emu, 1);
    proof {
        lemma_wrapping_add_signed_is_wrap32(emu.eip, diff as i32);
        lemma_wrapping_add_is_wrap32(
            (wrap32(emu.eip + diff as i32)) as u32,
            2,
        );
        lemma_wrap32_add_inner(emu.eip + diff as i32, 2);
    }
    emu.eip = emu.eip.wrapping_add_signed(diff as i32).wrapping_add(2);
    Ok(())
}

/// Whether the near jump at the instruction pointer has its displacement
/// dword in bounds.
pub open spec fn near_jump_fits(pre: Emulator) -> bool {
    pre.eip + 5 <= pre.memory@.len()
}

/// Effect of `0xE9 d` (32-bit little-endian `d`): the instruction pointer
/// becomes `old + sign_extend32(d) + 5`, modulo 2^32; nothing else changes.
pub open spec fn near_jump_post(pre: Emulator, post: Emulator) -> bool {
    &&& post.registers@ == pre.registers@
    &&& post.eflags == pre.eflags
    &&& post.eip == wrap32(pre.eip + as_signed32(u32_le_at(pre.memory@, pre.eip + 1)) + 5)
    &&& post.memory@ == pre.memory@
}

/// Jump by the 32-bit displacement that follows the opcode.  Fails fatally
/// (leaving the state untouched) if the displacement lies outside memory.
pub fn near_jump(emu: &mut Emulator) -> (r: Result<(), EmuError>)
    ensures
        r is Ok <==> near_jump_fits(*old(emu)),
        r is Ok ==> near_jump_post(*old(emu), *final(emu)),
        r is Err ==> *final(emu) == *old(emu) && r == Result::<(), EmuError>::Err(
            EmuError::OutOfBounds,
        ),
{
    let n = emu.memory.len();
    if !(emu.eip as u64 + 5 <= n as u64) {
        return Err(EmuError::OutOfBounds);
    }
    let diff = get_sign_code32(emu, 1);
    proof {
        lemma_wrapping_add_signed_is_wrap32(emu.eip, diff);
        lemma_wrapping_add_is_wrap32((wrap32(emu.eip + diff)) as u32, 5);
        lemma_wrap32_add_inner(emu.eip + diff, 5);
    }
    emu.eip = emu.eip.wrapping_add_signed(diff).wrapping_add(5);
    Ok(())
}

/// Position of the ModRM byte of the move-immediate-to-r/m32 instruction at
/// the instruction pointer: right after the opcode, modulo 2^32.
pub open spec fn mov_rm32_modrm_pos(pre: Emulator) -> int {
    wrap32(pre.eip + 1)
}

/// The decoded ModRM operand of the instruction.
pub open spec fn mov_rm32_modrm(pre: Emulator) -> ModRM {
    decoded_modrm(pre.memory@, mov_rm32_modrm_pos(pre))
}

/// Position of the instruction's 32-bit immediate: right after the ModRM
/// byte and its displacement, modulo 2^32.
pub open spec fn mov_rm32_imm_pos(pre: Emulator) -> int {
    wrap32(mov_rm32_modrm_pos(pre) + modrm_len(pre.memory@[mov_rm32_modrm_pos(pre)]))
}

/// Whether every byte the instruction touches is in bounds: the ModRM byte,
/// its displacement, the immediate, and - for a memory operand - the four
/// destination bytes.
pub open spec fn mov_rm32_imm32_fits(pre: Emulator) -> bool {
    let p = mov_rm32_modrm_pos(pre);
    let mem = pre.memory@;
    &&& p < mem.len()
    &&& p + modrm_len(mem[p]) <= mem.len()
    &&& mov_rm32_imm_pos(pre) + 4 <= mem.len()
    &&& (mov_rm32_modrm(pre).mod_bits != 3 ==> rm_mem_addr(pre, mov_rm32_modrm(pre)) + 4
        <= mem.len())
}

/// Effect of `0xC7`: the ModRM operand (a register, or four little-endian
/// memory bytes) receives the immediate, and the instruction pointer ends up
/// past the whole instruction, modulo 2^32.
pub open spec fn mov_rm32_imm32_post(pre: Emulator, post: Emulator) -> bool {
    let m = mov_rm32_modrm(pre);
    let imm = u32_le_at(pre.memory@, mov_rm32_imm_pos(pre));
    &&& post.eflags == pre.eflags
    &&& post.eip == wrap32(mov_rm32_imm_pos(pre) + 4)
    &&& if m.mod_bits == 3 {
        post.registers@ == pre.registers@.update(m.rm as int, imm) && post.memory@ == pre.memory@
    } else {
        post.registers@ == pre.registers@ && post.memory@ == store_u32_le(
            pre.memory@,
            rm_mem_addr(pre, m),
            imm,
        )
    }
}

/// Where the instruction pointer stops when the instruction fails fatally:
/// past the bytes that were consumed before the out-of-bounds access.
pub open spec fn mov_rm32_imm32_err_eip(pre: Emulator) -> int {
    let p = mov_rm32_modrm_pos(pre);
    let mem = pre.memory@;
    if p >= mem.len() || p + modrm_len(mem[p]) > mem.len() {
        p
    } else if mov_rm32_imm_pos(pre) + 4 > mem.len() {
        mov_rm32_imm_pos(pre)
    } else {
        wrap32(mov_rm32_imm_pos(pre) + 4)
    }
}

/// Move a 32-bit immediate into the register-or-memory operand selected by
/// the ModRM byte that follows the opcode.  Fails fatally if any byte it
/// touches lies outside memory; registers, memory and flags are then
/// untouched, though the instruction pointer stays past the bytes already
/// consumed.
pub fn mov_rm32_imm32(emu: &mut Emulator) -> (r: Result<(), EmuError>)
    ensures
        r is Ok <==> mov_rm32_imm32_fits(*old(emu)),
        r is Ok ==> mov_rm32_imm32_post(*old(emu), *final(emu)),
        r is Err ==> ({
            &&& r == Result::<(), EmuError>::Err(EmuError::OutOfBounds)
            &&& final(emu).registers@ == old(emu).registers@
            &&& final(emu).eflags == old(emu).eflags
            &&& final(emu).memory@ == old(emu).memory@
            &&& final(emu).eip == mov_rm32_imm32_err_eip(*old(emu))
        }),
{
    proof {
        lemma_wrapping_add_is_wrap32(emu.eip, 1);
    }
    emu.eip = emu.eip.wrapping_add(1);
    let m = match parse_modrm(emu) {
        Ok(m) => m,
        Err(e) => {
            return Err(e);
        },
    };
    let imm = match emu.memory.read_u32_le(emu.eip as usize) {
        Ok(v) => v,
        Err(e) => {
            return Err(e);
        },
    };
    proof {
        lemma_wrapping_add_is_wrap32(emu.eip, 4);
    }
    emu.eip = emu.eip.wrapping_add(4);
    write_rm32(emu, &m, imm)
}

/// What one fetch-dispatch-execute cycle did.
#[derive(Clone, Copy, Debug, PartialEq, Eq, Structural)]
pub enum StepResult {
    /// A handler ran; the machine keeps running.
    Executed(u8),
    /// A handler ran and left the instruction pointer at the sentinel value
    /// 0: the program is over.
    EndOfProgram(u8),
    /// The opcode byte has no bound handler; the state is untouched.
    Unimplemented(u8),
    /// A memory access went out of bounds: a fatal, non-recoverable error.
    Fault(EmuError),
}

/// Whether the instruction `op` at the instruction pointer has every byte it
/// touches in bounds.
pub open spec fn handler_fits(op: Opcode, pre: Emulator) -> bool {
    match op {
        Opcode::MovR32Imm32 => mov_r32_imm32_fits(pre),
        Opcode::MovRm32Imm32 => mov_rm32_imm32_fits(pre),
        Opcode::ShortJump => short_jump_fits(pre),
        Opcode::NearJump => near_jump_fits(pre),
    }
}

/// The effect of executing the instruction `op` in state `pre`, relating it
/// to the state `post` it leaves behind.
pub open spec fn handler_post(op: Opcode, pre: Emulator, post: Emulator) -> bool {
    match op {
        Opcode::MovR32Imm32 => mov_r32_imm32_post(pre, post),
        Opcode::MovRm32Imm32 => mov_rm32_imm32_post(pre, post),
        Opcode::ShortJump => short_jump_post(pre, post),
        Opcode::NearJump => near_jump_post(pre, post),
    }
}

/// The state a handler leaves behind when it fails fatally: registers,
/// memory and flags untouched; only the move-immediate-to-r/m32 handler may
/// have moved the instruction pointer past already-consumed bytes.
pub open spec fn handler_err_state(op: Opcode, pre: Emulator, post: Emulator) -> bool {
    match op {
        Opcode::MovRm32Imm32 => {
            &&& post.registers@ == pre.registers@
            &&& post.eflags == pre.eflags
            &&& post.memory@ == pre.memory@
            &&& post.eip == mov_rm32_imm32_err_eip(pre)
        },
        _ => post == pre,
    }
}

/// What `step` guarantees: its result and the state it leaves behind, as a
/// function of the state it started from and the dispatch table.
pub open spec fn step_spec(
    pre: Emulator,
    table: Seq<Option<Opcode>>,
    post: Emulator,
    r: StepResult,
) -> bool {
    if pre.eip >= pre.memory@.len() {
        r == StepResult::Fault(EmuError::OutOfBounds) && post == pre
    } else {
        let code = pre.memory@[pre.eip as int];
        match table[code as int] {
            None => r == StepResult::Unimplemented(code) && post == pre,
            Some(op) => if handler_fits(op, pre) {
                handler_post(op, pre, post) && r == (if post.eip == 0 {
                    StepResult::EndOfProgram(code)
                } else {
                    StepResult::Executed(code)
                })
            } else {
                r == StepResult::Fault(EmuError::OutOfBounds) && handler_err_state(op, pre, post)
            },
        }
    }
}

/// One fetch-dispatch-execute cycle: read the opcode byte at the instruction
/// pointer, look it up in the dispatch table, and run the bound handler.  An
/// unbound opcode halts the machine with the state untouched; after a
/// handler runs, an instruction pointer of 0 signals the end of the program;
/// an out-of-bounds access is a fatal fault.
pub fn step(emu: &mut Emulator, instructions: &Vec<Option<Opcode>>) -> (r: StepResult)
    requires
        instructions_wf(instructions@),
    ensures
        step_spec(*old(emu), instructions@, *final(emu), r),
{
    let code = match emu.memory.read_byte(emu.eip as usize) {
        Ok(c) => c,
        Err(e) => {
            return StepResult::Fault(e);
        },
    };
    let entry = instructions[code as usize];
    match entry {
        None => StepResult::Unimplemented(code),
        Some(op) => {
            let res = match op {
                Opcode::MovR32Imm32 => mov_r32_imm32(emu),
                Opcode::MovRm32Imm32 => mov_rm32_imm32(emu),
                Opcode::ShortJump => short_jump(emu),
                Opcode::NearJump => near_jump(emu),
            };
            match res {
                Ok(()) => if emu.eip == 0 {
                    StepResult::EndOfProgram(code)
                } else {
                    StepResult::Executed(code)
                },
                Err(e) => StepResult::Fault(e),
            }
        },
    }
}

/// Law of the move-immediate-to-register opcodes: for every opcode byte in
/// `0xB8..=0xBF` whose slot is bound to that handler, one step with the
/// immediate in bounds leaves the register selected by `opcode - 0xB8`
/// holding the little-endian 32-bit value of the four bytes following the
/// opcode, every other register untouched, and the instruction pointer
/// advanced by exactly 5, modulo 2^32.
pub proof fn lemma_step_mov_r32_imm32(
    pre: Emulator,
    table: Seq<Option<Opcode>>,
    post: Emulator,
    r: StepResult,
    code: u8,
)
    requires
        step_spec(pre, table, post, r),
        code == pre.memory@[pre.eip as int],
        0xb8 <= code <= 0xbf,
        table[code as int] == Some(Opcode::MovR32Imm32),
        pre.eip + 5 <= pre.memory@.len(),
    ensures
        post.registers@[code - 0xb8] == u32_le_at(pre.memory@, pre.eip + 1),
        forall|i: int|
            0 <= i < pre.registers@.len() && i != code - 0xb8 ==> post.registers@[i]
                == pre.registers@[i],
        post.eip == wrap32(pre.eip + 5),
        post.memory@ == pre.memory@,
        post.eflags == pre.eflags,
{
}

/// Law of the short jump: one step on opcode `0xEB` (bound to the short-jump
/// handler) with displacement byte `d` in bounds sets the new instruction
/// pointer to `old + sign_extend8(d) + 2`, modulo 2^32, and changes nothing
/// else.
pub proof fn lemma_step_short_jump(
    pre: Emulator,
    table: Seq<Option<Opcode>>,
    post: Emulator,
    r: StepResult,
    d: u8,
)
    requires
        step_spec(pre, table, post, r),
        pre.memory@[pre.eip as int] == 0xeb,
        table[0xeb] == Some(Opcode::ShortJump),
        d == pre.memory@[pre.eip + 1],
        pre.eip + 2 <= pre.memory@.len(),
    ensures
        post.eip == wrap32(pre.eip + as_signed8(d) + 2),
        post.registers@ == pre.registers@,
        post.memory@ == pre.memory@,
        post.eflags == pre.eflags,
{
}

/// Law of the near jump: one step on opcode `0xE9` (bound to the near-jump
/// handler) with displacement dword `d` in bounds sets the new instruction
/// pointer to `old + sign_extend32(d) + 5`, modulo 2^32, and changes nothing
/// else.
pub proof fn lemma_step_near_jump(
    pre: Emulator,
    table: Seq<Option<Opcode>>,
    post: Emulator,
    r: StepResult,
    d: u32,
)
    requires
        step_spec(pre, table, post, r),
        pre.memory@[pre.eip as int] == 0xe9,
        table[0xe9] == Some(Opcode::NearJump),
        d == u32_le_at(pre.memory@, pre.eip + 1),
        pre.eip + 5 <= pre.memory@.len(),
    ensures
        post.eip == wrap32(pre.eip + as_signed32(d) + 5),
        post.registers@ == pre.registers@,
        post.memory@ == pre.memory@,
        post.eflags == pre.eflags,
{
}

} // verus!
