use chip8::chip8_machine::{Chip8MachineState, SCREEN_HEIGHT, SCREEN_WIDTH};
use chip8::chip8_state::{Chip8State, RomTooLarge, MEMORY_SIZE};
use chip8::disassembly::{decrypt_chip8_instruction, DisassemblyOutput};
use chip8::instruction::{decode_instruction, Instruction};
use chip8::machine_spec::Chip8Error;

fn machine_with(program: &[u8]) -> Chip8MachineState {
    let mut chip8 = Chip8MachineState::with_seed(7);
    chip8.state.load_rom(program, 0x200).unwrap();
    chip8
}

#[test]
fn add_register_carry_examples() {
    let mut chip8 = machine_with(&[0x81, 0x24]);
    chip8.state.v[1] = 0xFF;
    chip8.state.v[2] = 0xFF;
    chip8.execute_cycle().unwrap();
    assert_eq!(chip8.state.v[1], 0xFE);
    assert_eq!(chip8.state.v[0xF], 1);

    let mut chip8 = machine_with(&[0x81, 0x24]);
    chip8.state.v[1] = 0x01;
    chip8.state.v[2] = 0x01;
    chip8.execute_cycle().unwrap();
    assert_eq!(chip8.state.v[1], 0x02);
    assert_eq!(chip8.state.v[0xF], 0);
}

#[test]
fn sub_register_borrow_examples() {
    let mut chip8 = machine_with(&[0x81, 0x25]);
    chip8.state.v[1] = 0x0E;
    chip8.state.v[2] = 0x0F;
    chip8.execute_cycle().unwrap();
    assert_eq!(chip8.state.v[1], 0xFF);
    assert_eq!(chip8.state.v[0xF], 0);

    let mut chip8 = machine_with(&[0x81, 0x25]);
    chip8.state.v[1] = 0x0F;
    chip8.state.v[2] = 0x0E;
    chip8.execute_cycle().unwrap();
    assert_eq!(chip8.state.v[1], 0x01);
    assert_eq!(chip8.state.v[0xF], 1);
}

#[test]
fn add_byte_wraps_without_touching_flag() {
    let mut chip8 = machine_with(&[0x73, 0x02]);
    chip8.state.v[3] = 0xFF;
    chip8.state.v[0xF] = 0x55;
    chip8.execute_cycle().unwrap();
    assert_eq!(chip8.state.v[3], 0x01);
    assert_eq!(chip8.state.v[0xF], 0x55);
}

#[test]
fn shift_left_ignores_vy() {
    let mut chip8 = machine_with(&[0x81, 0x2E]);
    chip8.state.v[1] = 0x84;
    chip8.state.v[2] = 0x01;
    chip8.execute_cycle().unwrap();
    assert_eq!(chip8.state.v[1], 0x08);
    assert_eq!(chip8.state.v[0xF], 1);
    assert_eq!(chip8.state.v[2], 0x01);
}

#[test]
fn draw_three_rows_sets_rectangle_exactly() {
    let mut chip8 = machine_with(&[0xD0, 0x13]);
    chip8.state.memory[0x300..0x303].copy_from_slice(&[0xFF, 0xFF, 0xFF]);
    chip8.state.i = 0x300;
    chip8.execute_cycle().unwrap();
    for y in 0..SCREEN_HEIGHT {
        for x in 0..SCREEN_WIDTH {
            assert_eq!(chip8.get_pixel(x, y), y < 3 && x < 8, "cell ({x}, {y})");
        }
    }
    assert_eq!(chip8.state.v[0xF], 0);
}

#[test]
fn draw_twice_erases_and_reports_collision() {
    let mut chip8 = machine_with(&[0xD0, 0x12, 0xD0, 0x12]);
    chip8.state.memory[0x300..0x302].copy_from_slice(&[0x81, 0x18]);
    chip8.state.i = 0x300;
    chip8.execute_cycle().unwrap();
    assert!(chip8.get_pixel(0, 0));
    assert!(chip8.get_pixel(7, 0));
    assert!(chip8.get_pixel(3, 1));
    assert!(!chip8.get_pixel(1, 0));
    assert_eq!(chip8.state.v[0xF], 0);
    chip8.execute_cycle().unwrap();
    assert!(chip8.display.iter().all(|row| row.iter().all(|&cell| !cell)));
    assert_eq!(chip8.state.v[0xF], 1);
}

#[test]
fn draw_wraps_at_screen_edges() {
    let mut chip8 = machine_with(&[0xD1, 0x22]);
    chip8.state.memory[0x300..0x302].copy_from_slice(&[0xC0, 0x80]);
    chip8.state.i = 0x300;
    chip8.state.v[1] = 63;
    chip8.state.v[2] = 31;
    chip8.execute_cycle().unwrap();
    assert!(chip8.get_pixel(63, 31));
    assert!(chip8.get_pixel(0, 31));
    assert!(chip8.get_pixel(63, 0));
    assert!(!chip8.get_pixel(0, 0));
    assert_eq!(chip8.state.v[0xF], 0);
}

#[test]
fn random_byte_is_reproducible_for_a_seed() {
    let mut first = Chip8MachineState::with_seed(2);
    first.state.load_rom(&[0xC3, 0xFF], 0x200).unwrap();
    first.execute_cycle().unwrap();
    assert_eq!(first.state.v[3], 0xC5);

    let mut masked = Chip8MachineState::with_seed(2);
    masked.state.load_rom(&[0xC3, 0x0F], 0x200).unwrap();
    masked.execute_cycle().unwrap();
    assert_eq!(masked.state.v[3], 0x05);
}

#[test]
fn random_instruction_uses_the_given_byte() {
    let mut chip8 = machine_with(&[0xC3, 0x3C]);
    chip8.execute_cycle_with_random(0xA5).unwrap();
    assert_eq!(chip8.state.v[3], 0x24);
}

#[test]
fn store_then_load_restores_registers() {
    let mut chip8 = machine_with(&[0xFF, 0x55, 0x60, 0x00, 0x6E, 0x00, 0xFF, 0x65]);
    let original: [u8; 16] = [1, 2, 3, 4, 5, 6, 7, 8, 9, 10, 11, 12, 13, 14, 15, 16];
    chip8.state.v = original;
    chip8.state.i = 0x400;
    chip8.execute_cycle().unwrap();
    assert_eq!(&chip8.state.memory[0x400..0x410], &original[..]);
    chip8.execute_cycle().unwrap();
    chip8.execute_cycle().unwrap();
    assert_eq!(chip8.state.v[0], 0);
    assert_eq!(chip8.state.v[0xE], 0);
    chip8.execute_cycle().unwrap();
    assert_eq!(chip8.state.v, original);
    assert_eq!(chip8.state.i, 0x400);
}

#[test]
fn bcd_stores_three_digits() {
    let mut chip8 = machine_with(&[0xF4, 0x33]);
    chip8.state.v[4] = 254;
    chip8.state.i = 0x500;
    chip8.execute_cycle().unwrap();
    assert_eq!(&chip8.state.memory[0x500..0x503], &[2, 5, 4]);
}

#[test]
fn font_address_and_index_add() {
    let mut chip8 = machine_with(&[0xF1, 0x29, 0xF2, 0x1E]);
    chip8.state.v[1] = 0xA;
    chip8.state.v[2] = 0x10;
    chip8.execute_cycle().unwrap();
    assert_eq!(chip8.state.i, 50);
    chip8.execute_cycle().unwrap();
    assert_eq!(chip8.state.i, 66);
}

#[test]
fn timers_load_and_count_down() {
    let mut chip8 = machine_with(&[0xF1, 0x15, 0xF2, 0x18, 0xF3, 0x07]);
    chip8.state.v[1] = 2;
    chip8.state.v[2] = 1;
    chip8.execute_cycle().unwrap();
    chip8.execute_cycle().unwrap();
    assert_eq!(chip8.state.delay_timer, 2);
    assert_eq!(chip8.state.sound_timer, 1);
    chip8.decrement_timers();
    chip8.decrement_timers();
    assert_eq!(chip8.state.delay_timer, 0);
    assert_eq!(chip8.state.sound_timer, 0);
    chip8.state.delay_timer = 9;
    chip8.execute_cycle().unwrap();
    assert_eq!(chip8.state.v[3], 9);
}

#[test]
fn key_wait_repeats_until_a_key_is_down() {
    let mut chip8 = machine_with(&[0xF5, 0x0A]);
    chip8.execute_cycle().unwrap();
    assert_eq!(chip8.state.pc, 0x200);
    chip8.execute_cycle().unwrap();
    assert_eq!(chip8.state.pc, 0x200);
    chip8.set_key(0xC, true);
    chip8.set_key(0x9, true);
    chip8.execute_cycle().unwrap();
    assert_eq!(chip8.state.pc, 0x202);
    assert_eq!(chip8.state.v[5], 0x9);
    assert_eq!(chip8.cycles, 3);
}

#[test]
fn key_skips_follow_the_latch() {
    let mut chip8 = machine_with(&[0xE1, 0x9E, 0xE1, 0xA1]);
    chip8.state.v[1] = 0x7;
    chip8.set_key(0x7, true);
    chip8.execute_cycle().unwrap();
    assert_eq!(chip8.state.pc, 0x204);
    chip8.state.pc = 0x202;
    chip8.execute_cycle().unwrap();
    assert_eq!(chip8.state.pc, 0x204);
    chip8.set_key(0x7, false);
    chip8.state.pc = 0x202;
    chip8.execute_cycle().unwrap();
    assert_eq!(chip8.state.pc, 0x206);
}

#[test]
fn fetch_wraps_second_byte_to_address_zero() {
    let mut chip8 = Chip8MachineState::with_seed(1);
    chip8.state.memory[MEMORY_SIZE - 1] = 0x6A;
    chip8.state.memory[0] = 0x42;
    chip8.state.pc = (MEMORY_SIZE - 1) as u16;
    chip8.execute_cycle().unwrap();
    assert_eq!(chip8.state.v[0xA], 0x42);
    assert_eq!(chip8.state.pc, MEMORY_SIZE as u16 + 1);
    assert_eq!(
        chip8.execute_cycle(),
        Err(Chip8Error::ProgramCounterOutOfBounds { address: MEMORY_SIZE as u16 + 1 })
    );
}

#[test]
fn unknown_instruction_is_reported_and_state_kept() {
    let mut chip8 = machine_with(&[0xFA, 0x81]);
    assert_eq!(
        chip8.execute_cycle(),
        Err(Chip8Error::UnknownInstruction { address: 0x200, opcode: 0xFA81 })
    );
    assert_eq!(chip8.state.pc, 0x200);
    assert_eq!(chip8.cycles, 0);
}

#[test]
fn call_with_full_stack_overflows() {
    let mut chip8 = machine_with(&[0x23, 0x00]);
    chip8.state.sp = 16;
    assert_eq!(chip8.execute_cycle(), Err(Chip8Error::StackOverflow { address: 0x200 }));
    assert_eq!(chip8.state.pc, 0x200);
    assert_eq!(chip8.state.sp, 16);
}

#[test]
fn return_with_empty_stack_underflows() {
    let mut chip8 = machine_with(&[0x00, 0xEE]);
    assert_eq!(chip8.execute_cycle(), Err(Chip8Error::StackUnderflow { address: 0x200 }));
    assert_eq!(chip8.state.sp, 0);
}

#[test]
fn memory_access_past_the_end_is_refused() {
    let mut chip8 = machine_with(&[0xF0, 0x33]);
    chip8.state.i = (MEMORY_SIZE - 2) as u16;
    assert_eq!(chip8.execute_cycle(), Err(Chip8Error::MemoryOutOfBounds { address: 0x200 }));
    assert_eq!(chip8.state.memory[MEMORY_SIZE - 2], 0);
}

#[test]
fn key_test_on_a_register_beyond_the_keys_is_refused() {
    let mut chip8 = machine_with(&[0xE2, 0x9E]);
    chip8.state.v[2] = 16;
    assert_eq!(chip8.execute_cycle(), Err(Chip8Error::InvalidKey { address: 0x200 }));
    assert_eq!(chip8.state.pc, 0x200);
}

#[test]
fn sys_behaves_as_call() {
    let mut chip8 = machine_with(&[0x03, 0x00]);
    chip8.execute_cycle().unwrap();
    assert_eq!(chip8.state.sp, 1);
    assert_eq!(chip8.state.stack[0], 0x202);
    assert_eq!(chip8.state.pc, 0x300);
}

#[test]
fn rom_fitting_exactly_loads() {
    let mut state = Chip8State::new();
    let rom = vec![0xAB; MEMORY_SIZE - 0x200];
    assert_eq!(state.load_rom(&rom, 0x200), Ok(()));
    assert_eq!(state.memory[0x200], 0xAB);
    assert_eq!(state.memory[MEMORY_SIZE - 1], 0xAB);
    assert_eq!(state.memory[0x1FF], 0);
}

#[test]
fn rom_too_large_is_refused_and_memory_kept() {
    let mut state = Chip8State::new();
    let rom = vec![0xAB; MEMORY_SIZE - 0x200 + 1];
    assert_eq!(
        state.load_rom(&rom, 0x200),
        Err(RomTooLarge { address: 0x200, length: MEMORY_SIZE - 0x200 + 1 })
    );
    assert!(state.memory.iter().all(|&b| b == 0));
}

#[test]
fn new_machine_starts_at_program_start() {
    let chip8 = Chip8MachineState::new();
    assert_eq!(chip8.state.pc, 0x200);
    assert_eq!(chip8.state.sp, 0);
    assert_eq!(chip8.cycles, 0);
    assert!(chip8.keyboard.iter().all(|&k| !k));
}

#[test]
fn decoder_recognises_opcodes() {
    assert_eq!(decode_instruction(0x00, 0xE0), Some(Instruction::Cls));
    assert_eq!(decode_instruction(0xD1, 0x23), Some(Instruction::Drw(1, 2, 3)));
    assert_eq!(decode_instruction(0xBA, 0xAA), Some(Instruction::JpV0(0xAAA)));
    assert_eq!(decode_instruction(0x51, 0x21), None);
    assert_eq!(decode_instruction(0xFA, 0x81), None);
}

#[test]
fn disassembles_every_opcode() {
    let cpu = Chip8State::with_all_instructions();
    let expected = [
        "0x200: 00E0 -> CLS",
        "0x202: 00EE -> RET",
        "0x204: 0111 -> SYS 0x111",
        "0x206: 1222 -> JP 0x222",
        "0x208: 2333 -> CALL 0x333",
        "0x20A: 3EAA -> SE VE, 0xAA",
        "0x20C: 4FBB -> SNE VF, 0xBB",
        "0x20E: 5120 -> SE V1, V2",
        "0x210: 6F10 -> LD VF, 0x10",
        "0x212: 7001 -> ADD V0, 0x01",
        "0x214: 8110 -> LD V1, V1",
        "0x216: 8221 -> OR V2, V2",
        "0x218: 8332 -> AND V3, V3",
        "0x21A: 8443 -> XOR V4, V4",
        "0x21C: 8554 -> ADD V5, V5",
        "0x21E: 8665 -> SUB V6, V6",
        "0x220: 8776 -> SHR V7",
        "0x222: 8887 -> SUBN V8, V8",
        "0x224: 899E -> SHL V9",
        "0x226: 9880 -> SNE V8, V8",
        "0x228: A999 -> LD I, 0x999",
        "0x22A: BAAA -> JP V0, 0xAAA",
        "0x22C: CFBB -> RND VF, BB",
        "0x22E: D123 -> DRW V1, V2, 0x3",
        "0x230: E09E -> SKP V0",
        "0x232: E0A1 -> SKNP V0",
        "0x234: F107 -> LD V1, DT",
        "0x236: F20A -> LD V2, K",
        "0x238: F315 -> LD DT, V3",
        "0x23A: F418 -> LD ST, V4",
        "0x23C: F51E -> ADD I, V5",
        "0x23E: F629 -> LD F, V6",
        "0x240: F733 -> LD B, V7",
        "0x242: F855 -> LD [I], V8",
        "0x244: F965 -> LD V9, [I]",
        "0x246: FA81 -> Unknown instruction",
    ];
    for (k, text) in expected.iter().enumerate() {
        assert_eq!(cpu.disassemble(0x200 + 2 * k), *text);
    }
}

#[test]
fn disassembles_low_addresses_and_small_operands() {
    let cpu = Chip8State::new();
    assert_eq!(cpu.disassemble(0), "0x00: 0000 -> SYS 0x000");
    assert_eq!(decrypt_chip8_instruction(&[0xC1, 0x05]), "RND V1, 5");
    assert_eq!(decrypt_chip8_instruction(&[0x3A, 0x0B]), "SE VA, 0x0B");
    assert_eq!(decrypt_chip8_instruction(&[0x1F, 0xFF]), "JP 0xFFF");
}
