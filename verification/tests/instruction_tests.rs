use x86_emu::emulator::{create_emu, EmuError, Emulator, Register};
use x86_emu::function::{get_code32, get_code8, get_sign_code32, get_sign_code8};
use x86_emu::instruction::{
    init_instructions, mov_r32_imm32, mov_rm32_imm32, near_jump, short_jump, step, Opcode,
    StepResult, INSTRUCTIONS_COUNT,
};

fn standard_table() -> Vec<Option<Opcode>> {
    let mut instructions: Vec<Option<Opcode>> = vec![None; INSTRUCTIONS_COUNT];
    init_instructions(&mut instructions);
    instructions
}

fn flat_emu(image: &[u8]) -> Emulator {
    let mut emu = create_emu(1024, 0, 0);
    emu.memory.load(0, image).unwrap();
    emu
}

#[test]
fn init_instructions_binds_exactly_the_standard_opcodes() {
    let table = standard_table();
    assert_eq!(table.len(), 256);
    for code in 0..256 {
        let expected = if (0xb8..=0xbf).contains(&code) {
            Some(Opcode::MovR32Imm32)
        } else if code == 0xc7 {
            Some(Opcode::MovRm32Imm32)
        } else if code == 0xe9 {
            Some(Opcode::NearJump)
        } else if code == 0xeb {
            Some(Opcode::ShortJump)
        } else {
            None
        };
        assert_eq!(table[code], expected);
    }
}

#[test]
fn init_instructions_keeps_foreign_bindings() {
    let mut table: Vec<Option<Opcode>> = vec![Some(Opcode::ShortJump); INSTRUCTIONS_COUNT];
    init_instructions(&mut table);
    assert_eq!(table[0x00], Some(Opcode::ShortJump));
    assert_eq!(table[0xb8], Some(Opcode::MovR32Imm32));
    assert_eq!(table[0xc7], Some(Opcode::MovRm32Imm32));
}

#[test]
fn fetchers_read_relative_to_the_instruction_pointer() {
    let mut emu = flat_emu(&[0x11, 0x22, 0xff, 0x80, 0x01, 0x02, 0x03, 0x84]);
    emu.eip = 2;
    assert_eq!(get_code8(&emu, 0), 0xff);
    assert_eq!(get_code8(&emu, 1), 0x80);
    assert_eq!(get_sign_code8(&emu, 0), -1);
    assert_eq!(get_sign_code8(&emu, 1), -128);
    assert_eq!(get_code32(&emu, 2), 0x8403_0201);
    assert_eq!(get_sign_code32(&emu, 2), -2_080_177_663);
    assert_eq!(get_sign_code32(&emu, 1) as i64, 0x0302_0180);
}

#[test]
fn every_mov_r32_opcode_targets_its_own_register() {
    for reg in 0..8u8 {
        let mut emu = flat_emu(&[0xb8 + reg, 0x78, 0x56, 0x34, 0x12]);
        let table = standard_table();
        let r = step(&mut emu, &table);
        assert_eq!(r, StepResult::Executed(0xb8 + reg));
        for i in 0..8 {
            if i == reg as usize {
                assert_eq!(emu.registers[i], 0x1234_5678);
            } else {
                assert_eq!(emu.registers[i], 0);
            }
        }
        assert_eq!(emu.eip, 5);
    }
}

#[test]
fn mov_r32_imm32_fails_when_the_immediate_is_cut_off() {
    let mut emu = create_emu(3, 0, 0);
    emu.memory.load(0, &[0xb8, 0x01, 0x02]).unwrap();
    assert_eq!(mov_r32_imm32(&mut emu), Err(EmuError::OutOfBounds));
    assert_eq!(emu.eip, 0);
    assert_eq!(emu.registers, [0; 8]);
}

#[test]
fn short_jump_adds_the_sign_extended_displacement_plus_two() {
    let mut emu = flat_emu(&[0xeb, 0x10]);
    assert_eq!(short_jump(&mut emu), Ok(()));
    assert_eq!(emu.eip, 0x12);

    // 2 + (-5) + 2 == -1 wraps to the top of the address space.
    let mut emu = flat_emu(&[0x90, 0x90, 0xeb, 0xfb]);
    emu.eip = 2;
    assert_eq!(short_jump(&mut emu), Ok(()));
    assert_eq!(emu.eip, u32::MAX);

    // A backward jump past address 0 wraps modulo 2^32.
    let mut emu = flat_emu(&[0xeb, 0xf0]);
    assert_eq!(short_jump(&mut emu), Ok(()));
    assert_eq!(emu.eip, 0u32.wrapping_add_signed(-16 + 2));
}

#[test]
fn near_jump_adds_the_signed_dword_displacement_plus_five() {
    let mut emu = flat_emu(&[0xe9, 0x00, 0x01, 0x00, 0x00]);
    assert_eq!(near_jump(&mut emu), Ok(()));
    assert_eq!(emu.eip, 0x100 + 5);

    let mut emu = flat_emu(&[0x90, 0xe9, 0xf0, 0xff, 0xff, 0xff]);
    emu.eip = 1;
    assert_eq!(near_jump(&mut emu), Ok(()));
    assert_eq!(emu.eip, 1u32.wrapping_add_signed(-16).wrapping_add(5));
}

#[test]
fn jumps_fail_when_the_displacement_is_cut_off() {
    let mut emu = create_emu(1, 0, 0);
    emu.memory.load(0, &[0xeb]).unwrap();
    assert_eq!(short_jump(&mut emu), Err(EmuError::OutOfBounds));
    assert_eq!(emu.eip, 0);

    let mut emu = create_emu(3, 0, 0);
    emu.memory.load(0, &[0xe9, 0x01, 0x02]).unwrap();
    assert_eq!(near_jump(&mut emu), Err(EmuError::OutOfBounds));
    assert_eq!(emu.eip, 0);
}

#[test]
fn mov_rm32_imm32_register_direct_writes_the_named_register() {
    // C7 /0 with mod=11, rm=EBX: ModRM byte 0xC3.
    let mut emu = flat_emu(&[0xc7, 0xc3, 0x78, 0x56, 0x34, 0x12]);
    assert_eq!(mov_rm32_imm32(&mut emu), Ok(()));
    assert_eq!(emu.get(Register::EBX), 0x1234_5678);
    assert_eq!(emu.eip, 6);
}

#[test]
fn mov_rm32_imm32_memory_operand_uses_base_plus_displacement() {
    // ModRM 0x41: mod=01 (disp8), rm=ECX; displacement +4.
    let mut emu = flat_emu(&[0xc7, 0x41, 0x04, 0xaa, 0xbb, 0xcc, 0xdd]);
    emu.set(Register::ECX, 0x20);
    assert_eq!(mov_rm32_imm32(&mut emu), Ok(()));
    assert_eq!(emu.eip, 7);
    assert_eq!(emu.memory.read_u32_le(0x24), Ok(0xddcc_bbaa));
}

#[test]
fn mov_rm32_imm32_memory_operand_with_negative_disp8() {
    // ModRM 0x42: mod=01 (disp8), rm=EDX; displacement -8.
    let mut emu = flat_emu(&[0xc7, 0x42, 0xf8, 0x01, 0x00, 0x00, 0x00]);
    emu.set(Register::EDX, 0x30);
    assert_eq!(mov_rm32_imm32(&mut emu), Ok(()));
    assert_eq!(emu.memory.read_u32_le(0x28), Ok(1));
}

#[test]
fn mov_rm32_imm32_memory_operand_with_disp32() {
    // ModRM 0x86: mod=10 (disp32), rm=ESI; displacement 0x100.
    let mut emu = flat_emu(&[0xc7, 0x86, 0x00, 0x01, 0x00, 0x00, 0x2a, 0x00, 0x00, 0x00]);
    emu.set(Register::ESI, 0x10);
    assert_eq!(mov_rm32_imm32(&mut emu), Ok(()));
    assert_eq!(emu.eip, 10);
    assert_eq!(emu.memory.read_u32_le(0x110), Ok(42));
}

#[test]
fn mov_rm32_imm32_no_displacement_uses_the_bare_base() {
    // ModRM 0x07: mod=00 (no displacement), rm=EDI.
    let mut emu = flat_emu(&[0xc7, 0x07, 0x2a, 0x00, 0x00, 0x00]);
    emu.set(Register::EDI, 0x40);
    assert_eq!(mov_rm32_imm32(&mut emu), Ok(()));
    assert_eq!(emu.eip, 6);
    assert_eq!(emu.memory.read_u32_le(0x40), Ok(42));
}

#[test]
fn mov_rm32_imm32_fails_on_an_unmapped_destination() {
    let mut emu = flat_emu(&[0xc7, 0x01, 0x2a, 0x00, 0x00, 0x00]);
    emu.set(Register::ECX, 0xffff_0000);
    assert_eq!(mov_rm32_imm32(&mut emu), Err(EmuError::OutOfBounds));
    // Registers and memory are untouched by the failed write.
    assert_eq!(emu.get(Register::ECX), 0xffff_0000);
    assert_eq!(emu.memory.read_byte(0x40), Ok(0));
}

#[test]
fn scenario_boot_sector_mov_eax() {
    let mut emu = create_emu(1024 * 1024, 0x7c00, 0x7c00);
    emu.memory
        .load(0x7c00, &[0xb8, 0x78, 0x56, 0x34, 0x12])
        .unwrap();
    let table = standard_table();
    let r = step(&mut emu, &table);
    assert_eq!(r, StepResult::Executed(0xb8));
    assert_eq!(emu.get(Register::EAX), 0x1234_5678);
    assert_eq!(emu.eip, 0x7c05);
}

#[test]
fn scenario_self_jump_to_zero_halts() {
    let mut emu = flat_emu(&[0xeb, 0xfe]);
    let table = standard_table();
    let r = step(&mut emu, &table);
    assert_eq!(r, StepResult::EndOfProgram(0xeb));
    assert_eq!(emu.eip, 0);
    assert_eq!(emu.registers, [0; 8]);
}

#[test]
fn scenario_unbound_opcode_halts_with_state_untouched() {
    let mut emu = flat_emu(&[0xff, 0x01, 0x02]);
    emu.set(Register::EAX, 7);
    let table = standard_table();
    let r = step(&mut emu, &table);
    assert_eq!(r, StepResult::Unimplemented(0xff));
    assert_eq!(emu.eip, 0);
    assert_eq!(emu.registers, [7, 0, 0, 0, 0, 0, 0, 0]);
    assert_eq!(emu.memory.read_byte(0), Ok(0xff));
    assert_eq!(emu.memory.read_byte(1), Ok(0x01));
    assert_eq!(emu.memory.read_byte(2), Ok(0x02));
}

#[test]
fn step_faults_when_the_instruction_pointer_leaves_memory() {
    let mut emu = create_emu(4, 4, 0);
    let table = standard_table();
    let r = step(&mut emu, &table);
    assert_eq!(r, StepResult::Fault(EmuError::OutOfBounds));
    assert_eq!(emu.eip, 4);
    assert_eq!(emu.registers, [0; 8]);
}

#[test]
fn stepping_until_halt_runs_a_small_program() {
    // Set EAX, jump over an unused byte, set ECX, then hit an unbound opcode.
    let image = [
        0xb8, 0x01, 0x00, 0x00, 0x00, // mov eax, 1
        0xeb, 0x01, // jmp +1 (over the 0x90 byte)
        0x90, // never executed, unbound
        0xb9, 0x02, 0x00, 0x00, 0x00, // mov ecx, 2
        0xf4, // unbound: halts the loop
    ];
    let mut emu = flat_emu(&image);
    let table = standard_table();
    let mut steps = 0;
    let halt = loop {
        match step(&mut emu, &table) {
            StepResult::Executed(_) => {
                steps += 1;
                assert!(steps < 100);
            }
            other => break other,
        }
    };
    assert_eq!(halt, StepResult::Unimplemented(0xf4));
    assert_eq!(steps, 3);
    assert_eq!(emu.get(Register::EAX), 1);
    assert_eq!(emu.get(Register::ECX), 2);
    assert_eq!(emu.eip, 13);
}
