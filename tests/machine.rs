use chip8::drivers::keypad::{keypad_index, keypad_state};
use chip8::drivers::rom_reader::RomReader;
use chip8::vm::graphics::{Display, FontSet, VRam};
use chip8::vm::instructions::{execute_cxnn, execute_cxnn_with, execute_fx33};
use chip8::vm::keyboard::KeyBoard;
use chip8::vm::memory::Memory;
use chip8::vm::operator::{Instruction, Operator};
use chip8::vm::registers::Registers;
use chip8::vm::stack::Stack;
use chip8::vm::timers::Timers;
use chip8::vm::{Machine, MachineError};

const FONT: [u8; 80] = [
    0xF0, 0x90, 0x90, 0x90, 0xF0, 0x20, 0x60, 0x20, 0x20, 0x70, 0xF0, 0x10, 0xF0, 0x80, 0xF0,
    0xF0, 0x10, 0xF0, 0x10, 0xF0, 0x90, 0x90, 0xF0, 0x10, 0x10, 0xF0, 0x80, 0xF0, 0x10, 0xF0,
    0xF0, 0x80, 0xF0, 0x90, 0xF0, 0xF0, 0x10, 0x20, 0x40, 0x40, 0xF0, 0x90, 0xF0, 0x90, 0xF0,
    0xF0, 0x90, 0xF0, 0x10, 0xF0, 0xF0, 0x90, 0xF0, 0x90, 0x90, 0xE0, 0x90, 0xE0, 0x90, 0xE0,
    0xF0, 0x80, 0x80, 0x80, 0xF0, 0xE0, 0x90, 0x90, 0x90, 0xE0, 0xF0, 0x80, 0xF0, 0x80, 0xF0,
    0xF0, 0x80, 0xF0, 0x80, 0x80,
];

fn machine_with(program: &[u8]) -> Machine {
    let mut m = Machine::new();
    m.memory.load_data(program);
    m
}

fn no_keys() -> Vec<bool> {
    vec![false; 16]
}

fn step(m: &mut Machine) {
    m.emulate_cycle(0).unwrap();
}

#[test]
fn font_loaded_after_construction() {
    let m = Machine::new();
    assert_eq!(m.memory.cells.len(), 4096);
    assert_eq!(&m.memory.cells[0..80], &FONT[..]);
    assert!(m.memory.cells[80..].iter().all(|&b| b == 0));
    assert_eq!(FontSet::new().fonts, FONT.to_vec());
}

#[test]
fn new_machine_is_blank() {
    let m = Machine::new();
    assert_eq!(m.pc, 0x200);
    assert_eq!(m.i, 0);
    assert_eq!(m.registers.v, vec![0; 16]);
    assert!(m.stack.cells.is_empty());
    assert_eq!((m.timers.dt, m.timers.st), (0, 0));
    assert_eq!(m.vram.cells.len(), 32);
    assert!(m.vram.cells.iter().all(|row| row.len() == 64 && row.iter().all(|&p| p == 0)));
    assert!(!m.vram.state_changed);
    assert!(!m.keyboard.keypress_awaited);
}

#[test]
fn bcd_of_234() {
    let mut m = machine_with(&[0xF2, 0x33]);
    m.registers.v[2] = 234;
    m.i = 0x300;
    step(&mut m);
    assert_eq!(&m.memory.cells[0x300..0x303], &[2, 3, 4]);
    assert_eq!(m.i, 0x300);
    assert_eq!(m.pc, 0x202);
}

#[test]
fn bcd_handler_called_directly() {
    let mut m = machine_with(&[0xF5, 0x33]);
    m.registers.v[5] = 7;
    m.i = 0x400;
    let op = m.get_operators();
    assert_eq!(execute_fx33(&mut m, &op), Ok(()));
    assert_eq!(&m.memory.cells[0x400..0x403], &[0, 0, 7]);
}

#[test]
fn bcd_past_end_of_memory_faults() {
    let mut m = machine_with(&[0xF0, 0x33]);
    m.i = 0xFFE;
    assert_eq!(m.emulate_cycle(0), Err(MachineError::AddressOutOfRange));
    assert_eq!(m.pc, 0x200);
}

#[test]
fn key_wait_scenario() {
    // F30A: wait for a key into V3; 6005: V0 := 5.
    let mut m = machine_with(&[0xF3, 0x0A, 0x60, 0x05]);
    assert!(m.process_keys_with(no_keys(), 0).is_ok());
    assert!(m.keyboard.keypress_awaited);
    assert_eq!(m.keyboard.key_register, 3);
    assert_eq!(m.pc, 0x202);

    // No key down: no cycle runs and the latch stays.
    assert!(m.process_keys_with(no_keys(), 0).is_ok());
    assert!(m.keyboard.keypress_awaited);
    assert_eq!(m.pc, 0x202);
    assert_eq!(m.registers.v[0], 0);

    // Key 7 down: V3 := 7, latch cleared, still no cycle.
    let mut keys = no_keys();
    keys[7] = true;
    assert!(m.process_keys_with(keys, 0).is_ok());
    assert!(!m.keyboard.keypress_awaited);
    assert_eq!(m.registers.v[3], 7);
    assert_eq!(m.pc, 0x202);
    assert_eq!(m.registers.v[0], 0);

    // The next frame runs the instruction after F30A.
    assert!(m.process_keys_with(no_keys(), 0).is_ok());
    assert_eq!(m.registers.v[0], 5);
    assert_eq!(m.pc, 0x204);
}

#[test]
fn key_wait_takes_lowest_key() {
    let mut m = machine_with(&[0xF1, 0x0A]);
    step(&mut m);
    let mut keys = no_keys();
    keys[9] = true;
    keys[4] = true;
    assert!(m.process_keys_with(keys, 0).is_ok());
    assert_eq!(m.registers.v[1], 4);
}

#[test]
fn add_with_carry() {
    let mut m = machine_with(&[0x81, 0x24, 0x83, 0x44]);
    m.registers.v[1] = 200;
    m.registers.v[2] = 100;
    m.registers.v[3] = 10;
    m.registers.v[4] = 20;
    step(&mut m);
    assert_eq!(m.registers.v[1], 44);
    assert_eq!(m.registers.v[15], 1);
    step(&mut m);
    assert_eq!(m.registers.v[3], 30);
    assert_eq!(m.registers.v[15], 0);
    assert_eq!(m.pc, 0x204);
}

#[test]
fn add_exactly_256_carries() {
    let mut m = machine_with(&[0x81, 0x24]);
    m.registers.v[1] = 128;
    m.registers.v[2] = 128;
    step(&mut m);
    assert_eq!(m.registers.v[1], 0);
    assert_eq!(m.registers.v[15], 1);
}

#[test]
fn subtract_sets_no_borrow_flag() {
    let mut m = machine_with(&[0x81, 0x25, 0x83, 0x45, 0x85, 0x65]);
    m.registers.v[1] = 10;
    m.registers.v[2] = 20;
    m.registers.v[3] = 20;
    m.registers.v[4] = 10;
    m.registers.v[5] = 9;
    m.registers.v[6] = 9;
    step(&mut m);
    assert_eq!(m.registers.v[1], 246);
    assert_eq!(m.registers.v[15], 0);
    step(&mut m);
    assert_eq!(m.registers.v[3], 10);
    assert_eq!(m.registers.v[15], 1);
    step(&mut m);
    assert_eq!(m.registers.v[5], 0);
    assert_eq!(m.registers.v[15], 1);
}

#[test]
fn subtract_reversed() {
    let mut m = machine_with(&[0x81, 0x27]);
    m.registers.v[1] = 30;
    m.registers.v[2] = 10;
    step(&mut m);
    assert_eq!(m.registers.v[1], 236);
    assert_eq!(m.registers.v[15], 0);
}

#[test]
fn shifts_store_the_lost_bit() {
    let mut m = machine_with(&[0x81, 0x06, 0x82, 0x0E]);
    m.registers.v[1] = 0b0000_0101;
    m.registers.v[2] = 0b1000_0001;
    step(&mut m);
    assert_eq!(m.registers.v[1], 0b0000_0010);
    assert_eq!(m.registers.v[15], 1);
    step(&mut m);
    assert_eq!(m.registers.v[2], 0b0000_0010);
    assert_eq!(m.registers.v[15], 1);
}

#[test]
fn bitwise_and_assign() {
    let mut m = machine_with(&[0x81, 0x21, 0x83, 0x22, 0x85, 0x23, 0x87, 0x20]);
    m.registers.v[1] = 0b1100;
    m.registers.v[2] = 0b1010;
    m.registers.v[3] = 0b1100;
    m.registers.v[5] = 0b1100;
    m.registers.v[7] = 99;
    step(&mut m);
    assert_eq!(m.registers.v[1], 0b1110);
    m.registers.v[2] = 0b1010;
    step(&mut m);
    assert_eq!(m.registers.v[3], 0b1000);
    step(&mut m);
    assert_eq!(m.registers.v[5], 0b0110);
    step(&mut m);
    assert_eq!(m.registers.v[7], 0b1010);
}

#[test]
fn add_immediate_wraps_without_flag() {
    let mut m = machine_with(&[0x61, 0xFF, 0x71, 0x02]);
    m.registers.v[15] = 9;
    step(&mut m);
    step(&mut m);
    assert_eq!(m.registers.v[1], 1);
    assert_eq!(m.registers.v[15], 9);
}

#[test]
fn skip_if_equal_immediate() {
    let mut m = machine_with(&[0x31, 0x42]);
    m.registers.v[1] = 0x42;
    step(&mut m);
    assert_eq!(m.pc, 0x204);
    let mut m = machine_with(&[0x31, 0x42]);
    m.registers.v[1] = 0x41;
    step(&mut m);
    assert_eq!(m.pc, 0x202);
}

#[test]
fn skip_if_not_equal_immediate() {
    let mut m = machine_with(&[0x41, 0x42]);
    m.registers.v[1] = 0x42;
    step(&mut m);
    assert_eq!(m.pc, 0x202);
    let mut m = machine_with(&[0x41, 0x42]);
    m.registers.v[1] = 0x41;
    step(&mut m);
    assert_eq!(m.pc, 0x204);
}

#[test]
fn skip_on_registers() {
    let mut m = machine_with(&[0x51, 0x20, 0x00, 0x00, 0x91, 0x20]);
    m.registers.v[1] = 3;
    m.registers.v[2] = 3;
    step(&mut m);
    assert_eq!(m.pc, 0x204);
    step(&mut m);
    assert_eq!(m.pc, 0x206);
}

#[test]
fn call_then_return() {
    let mut program = vec![0u8; 0x102];
    program[0] = 0x23;
    program[1] = 0x00;
    program[0x100] = 0x00;
    program[0x101] = 0xEE;
    let mut m = machine_with(&program);
    step(&mut m);
    assert_eq!(m.pc, 0x300);
    assert_eq!(m.stack.cells, vec![0x202]);
    step(&mut m);
    assert_eq!(m.pc, 0x202);
    assert!(m.stack.cells.is_empty());
}

#[test]
fn return_with_empty_stack_faults() {
    let mut m = machine_with(&[0x00, 0xEE]);
    assert_eq!(m.emulate_cycle(0), Err(MachineError::StackUnderflow));
    assert_eq!(m.pc, 0x200);
}

#[test]
fn call_with_full_stack_faults() {
    let mut m = machine_with(&[0x22, 0x00]);
    for _ in 0..16 {
        step(&mut m);
        assert_eq!(m.pc, 0x200);
    }
    assert_eq!(m.stack.cells.len(), 16);
    assert_eq!(m.emulate_cycle(0), Err(MachineError::StackOverflow));
    assert_eq!(m.stack.cells.len(), 16);
}

#[test]
fn jumps() {
    let mut m = machine_with(&[0x13, 0x45]);
    step(&mut m);
    assert_eq!(m.pc, 0x345);
    let mut m = machine_with(&[0xB3, 0x00]);
    m.registers.v[0] = 0x10;
    step(&mut m);
    assert_eq!(m.pc, 0x310);
}

#[test]
fn pc_at_end_of_memory_faults() {
    let mut m = Machine::new();
    m.pc = 0xFFF;
    assert_eq!(m.emulate_cycle(0), Err(MachineError::PcOutOfRange));
}

#[test]
fn unknown_opcode_changes_nothing() {
    let mut m = machine_with(&[0x01, 0x23]);
    step(&mut m);
    assert_eq!(m.pc, 0x200);
    assert_eq!(m.registers.v, vec![0; 16]);
    let mut m = machine_with(&[0x51, 0x21]);
    step(&mut m);
    assert_eq!(m.pc, 0x200);
}

#[test]
fn draw_twice_restores_screen() {
    // A000: I := 0 (glyph 0); D015 twice at (V0, V1) = (0, 0).
    let mut m = machine_with(&[0xA0, 0x00, 0xD0, 0x15, 0xD0, 0x15]);
    step(&mut m);
    step(&mut m);
    assert!(m.vram.state_changed);
    assert_eq!(m.registers.v[15], 0);
    assert_eq!(&m.vram.cells[0][0..8], &[1, 1, 1, 1, 0, 0, 0, 0]);
    assert_eq!(&m.vram.cells[1][0..8], &[1, 0, 0, 1, 0, 0, 0, 0]);
    assert_eq!(m.vram.cells[5][0], 0);
    step(&mut m);
    assert_eq!(m.registers.v[15], 1);
    assert!(m.vram.cells.iter().all(|row| row.iter().all(|&p| p == 0)));
    assert_eq!(m.pc, 0x206);
}

#[test]
fn draw_wraps_around_edges() {
    // Glyph 0 at (62, 30): columns 62, 63, 0, 1; rows 30, 31, 0, 1, 2.
    let mut m = machine_with(&[0xA0, 0x00, 0xD1, 0x25]);
    m.registers.v[1] = 62;
    m.registers.v[2] = 30;
    step(&mut m);
    step(&mut m);
    assert_eq!(m.vram.cells[30][62], 1);
    assert_eq!(m.vram.cells[30][63], 1);
    assert_eq!(m.vram.cells[30][0], 1);
    assert_eq!(m.vram.cells[30][1], 1);
    assert_eq!(m.vram.cells[30][2], 0);
    assert_eq!(m.vram.cells[31][62], 1);
    assert_eq!(m.vram.cells[31][63], 0);
    assert_eq!(m.vram.cells[31][1], 1);
    assert_eq!(m.vram.cells[2][62], 1);
    assert_eq!(m.vram.cells[3][62], 0);
}

#[test]
fn draw_of_zero_rows_changes_no_pixel() {
    let mut m = machine_with(&[0xD0, 0x00]);
    m.registers.v[15] = 1;
    step(&mut m);
    assert_eq!(m.registers.v[15], 0);
    assert!(m.vram.state_changed);
    assert!(m.vram.cells.iter().all(|row| row.iter().all(|&p| p == 0)));
}

#[test]
fn draw_past_end_of_memory_faults() {
    let mut m = machine_with(&[0xD0, 0x05]);
    m.i = 0xFFE;
    assert_eq!(m.emulate_cycle(0), Err(MachineError::AddressOutOfRange));
}

#[test]
fn clear_screen() {
    let mut m = machine_with(&[0xA0, 0x00, 0xD0, 0x05, 0x00, 0xE0]);
    step(&mut m);
    step(&mut m);
    m.vram.state_changed = false;
    step(&mut m);
    assert!(m.vram.state_changed);
    assert!(m.vram.cells.iter().all(|row| row.iter().all(|&p| p == 0)));
    assert_eq!(m.pc, 0x206);
}

#[test]
fn index_instructions() {
    let mut m = machine_with(&[0xA1, 0x23, 0xF0, 0x29, 0xF1, 0x1E]);
    step(&mut m);
    assert_eq!(m.i, 0x123);
    m.registers.v[0] = 0xA;
    step(&mut m);
    assert_eq!(m.i, 50);
    m.i = 0xFFFF;
    m.registers.v[1] = 2;
    step(&mut m);
    assert_eq!(m.i, 1);
    assert_eq!(m.registers.v[15], 1);
}

#[test]
fn add_to_index_without_overflow() {
    let mut m = machine_with(&[0xF1, 0x1E]);
    m.i = 0x100;
    m.registers.v[1] = 5;
    m.registers.v[15] = 1;
    step(&mut m);
    assert_eq!(m.i, 0x105);
    assert_eq!(m.registers.v[15], 0);
}

#[test]
fn store_and_load_registers() {
    let mut m = machine_with(&[0xF2, 0x55, 0xF2, 0x65]);
    m.registers.v[0] = 1;
    m.registers.v[1] = 2;
    m.registers.v[2] = 3;
    m.registers.v[3] = 4;
    m.i = 0x500;
    step(&mut m);
    assert_eq!(&m.memory.cells[0x500..0x504], &[1, 2, 3, 0]);
    assert_eq!(m.i, 0x500);
    m.registers.v[0] = 0;
    m.registers.v[1] = 0;
    m.registers.v[2] = 0;
    step(&mut m);
    assert_eq!(&m.registers.v[0..4], &[1, 2, 3, 4]);
}

#[test]
fn store_registers_past_end_faults() {
    let mut m = machine_with(&[0xF3, 0x55]);
    m.i = 0xFFD;
    assert_eq!(m.emulate_cycle(0), Err(MachineError::AddressOutOfRange));
    let mut m = machine_with(&[0xF3, 0x65]);
    m.i = 0xFFD;
    assert_eq!(m.emulate_cycle(0), Err(MachineError::AddressOutOfRange));
}

#[test]
fn key_skips() {
    let mut m = machine_with(&[0xE1, 0x9E, 0xE1, 0xA1]);
    m.registers.v[1] = 5;
    m.keyboard.key_down(5);
    step(&mut m);
    assert_eq!(m.pc, 0x204);
    m.pc = 0x202;
    step(&mut m);
    assert_eq!(m.pc, 0x204);
    m.keyboard.key_up(5);
    m.pc = 0x202;
    step(&mut m);
    assert_eq!(m.pc, 0x206);
}

#[test]
fn key_skip_on_missing_key_faults() {
    let mut m = machine_with(&[0xE1, 0x9E]);
    m.registers.v[1] = 16;
    assert_eq!(m.emulate_cycle(0), Err(MachineError::InvalidKey));
}

#[test]
fn timers_and_sound() {
    // V1 := 3; DT := V1; ST := V1; V2 := DT.
    let mut m = machine_with(&[0x61, 0x03, 0xF1, 0x15, 0xF1, 0x18, 0xF2, 0x07]);
    for _ in 0..3 {
        assert!(m.process_keys_with(no_keys(), 0).is_ok());
    }
    // The delay timer was set in the second frame and ticked in the third.
    assert_eq!(m.timers.dt, 2);
    assert_eq!(m.timers.st, 3);
    let out = m.process_keys_with(no_keys(), 0).unwrap();
    assert!(out.play_sound);
    assert!(!out.vram.state_changed);
    assert_eq!(m.timers.st, 2);
    assert_eq!(m.registers.v[2], 1);
}

#[test]
fn timers_stop_at_zero() {
    let mut m = machine_with(&[0x12, 0x00]);
    m.timers.st = 1;
    m.timers.dt = 0;
    let out = m.process_keys_with(no_keys(), 0).unwrap();
    assert!(!out.play_sound);
    assert_eq!((m.timers.dt, m.timers.st), (0, 0));
}

#[test]
fn frame_reports_drawing() {
    let mut m = machine_with(&[0xD0, 0x01]);
    let out = m.process_keys_with(no_keys(), 0).unwrap();
    assert!(out.vram.state_changed);
    assert_eq!(out.vram.cells[0][0], 1);
}

#[test]
fn frame_with_fault_reports_it() {
    let mut m = machine_with(&[0x00, 0xEE]);
    m.timers.dt = 5;
    assert!(matches!(m.process_keys_with(no_keys(), 0), Err(MachineError::StackUnderflow)));
    assert_eq!(m.timers.dt, 4);
}

#[test]
fn random_and_uses_the_given_byte() {
    let mut m = machine_with(&[0xC3, 0x0F]);
    let op = m.get_operators();
    execute_cxnn_with(&mut m, &op, 0xAB);
    assert_eq!(m.registers.v[3], 0x0B);
    assert_eq!(m.pc, 0x202);
    let mut m = machine_with(&[0xC3, 0x0F]);
    step(&mut m);
    assert_eq!(m.registers.v[3], 0);
}

#[test]
fn random_and_stays_within_mask() {
    for _ in 0..50 {
        let mut m = machine_with(&[0xC3, 0x0F]);
        let op = m.get_operators();
        execute_cxnn(&mut m, &op);
        assert_eq!(m.registers.v[3] & 0xF0, 0);
        assert_eq!(m.pc, 0x202);
    }
}

#[test]
fn process_keys_runs_a_cycle() {
    let mut m = machine_with(&[0x6A, 0x07]);
    assert!(m.process_keys(no_keys()).is_ok());
    assert_eq!(m.registers.v[10], 7);
    assert_eq!(m.keyboard.keys, no_keys());
}

#[test]
fn operator_fields() {
    let m = machine_with(&[0xD1, 0x23]);
    let mut m = m;
    m.registers.v[1] = 11;
    m.registers.v[2] = 22;
    let op = Operator::get_operators(&m);
    assert_eq!(op.opcode, 0xD123);
    assert_eq!(op.nnn_address, 0x123);
    assert_eq!(op.nn_const, 0x23);
    assert_eq!(op.n_const, 3);
    assert_eq!((op.x, op.y), (1, 2));
    assert_eq!((op.vx, op.vy), (11, 22));
    assert_eq!((op.nibble_1, op.nibble_2, op.nibble_3, op.nibble_4), (0xD, 1, 2, 3));
    assert_eq!(Instruction::decode(&op), Instruction::Draw);
}

#[test]
fn decode_names_instructions() {
    let cases: [(u16, Instruction); 8] = [
        (0x00E0, Instruction::ClearScreen),
        (0x00EE, Instruction::Return),
        (0x8AB6, Instruction::ShiftRight),
        (0x8ABE, Instruction::ShiftLeft),
        (0xE3A1, Instruction::SkipIfNotKey),
        (0xF465, Instruction::LoadRegisters),
        (0x8AB8, Instruction::Unknown),
        (0xF4FF, Instruction::Unknown),
    ];
    for (opcode, expected) in cases {
        let m = machine_with(&[(opcode >> 8) as u8, opcode as u8]);
        assert_eq!(Instruction::decode(&m.get_operators()), expected);
    }
}

#[test]
fn load_data_places_program() {
    let mut mem = Memory::new();
    mem.load_data(&[1, 2, 3]);
    assert_eq!(&mem.cells[0x200..0x204], &[1, 2, 3, 0]);
    assert_eq!(mem.cells[0x1FF], 0);
    let big = vec![7u8; 5000];
    mem.load_data(&big);
    assert!(mem.cells[0x200..].iter().all(|&b| b == 7));
    assert_eq!(mem.cells.len(), 4096);
    assert_eq!(&mem.cells[0..80], &FONT[..]);
}

#[test]
fn rom_reader_keeps_what_fits() {
    let mut r = RomReader::new();
    assert_eq!(r.size, 0);
    r.store(&[9, 8, 7]);
    assert_eq!(r.size, 3);
    assert_eq!(r.program(), &[9, 8, 7]);
    let big = vec![1u8; 4000];
    r.store(&big);
    assert_eq!(r.size, 3584);
    assert!(r.rom.iter().all(|&b| b == 1));
}

#[test]
fn keyboard_keys() {
    let mut k = KeyBoard::new();
    assert!(!k.is_key_down(3));
    k.key_down(3);
    assert!(k.is_key_down(3));
    k.key_up(3);
    assert!(!k.is_key_down(3));
    assert_eq!(k.keys.len(), 16);
}

#[test]
fn containers_start_empty() {
    assert_eq!(Registers::new().v, vec![0; 16]);
    assert!(Stack::new().cells.is_empty());
    let t = Timers::new();
    assert_eq!((t.dt, t.st), (0, 0));
    assert_eq!(Display::new().cells, vec![0; 2048]);
    let v = VRam::new(3, 2);
    assert_eq!(v.cells, vec![vec![0; 3]; 2]);
    assert!(!v.state_changed);
}

#[test]
fn keypad_layout() {
    let host = "1234qwerasdfzxcv";
    let keypad: [u8; 16] = [0x1, 0x2, 0x3, 0xC, 0x4, 0x5, 0x6, 0xD, 0x7, 0x8, 0x9, 0xE, 0xA, 0x0, 0xB, 0xF];
    for (c, k) in host.chars().zip(keypad.iter()) {
        assert_eq!(keypad_index(c), Some(*k));
    }
    assert_eq!(keypad_index('5'), None);
    assert_eq!(keypad_index('Q'), None);
}

#[test]
fn keypad_state_from_pressed_keys() {
    let keys = keypad_state(&vec!['x', 'v', 'p', 'x']);
    let mut expected = vec![false; 16];
    expected[0x0] = true;
    expected[0xF] = true;
    assert_eq!(keys, expected);
    assert_eq!(keypad_state(&vec![]), vec![false; 16]);
}
