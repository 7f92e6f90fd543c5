//! The operator decoder: splits the 16-bit opcode at the program counter into
//! its fields, and names the instruction that the opcode encodes.

use vstd::prelude::*;
use crate::vm::{fetchable, Machine};

verus! {

/// A decoded instruction word.
#[derive(Clone, Copy, Debug, PartialEq, Eq, Structural)]
pub struct Operator {
    /// The whole 16-bit opcode.
    pub opcode: u16,
    /// The low 12 bits: an address.
    pub nnn_address: u16,
    /// The low 8 bits: an immediate byte.
    pub nn_const: u8,
    /// The low 4 bits: a count.
    pub n_const: u8,
    /// Bits 8 to 11: the first register index.
    pub x: usize,
    /// Bits 4 to 7: the second register index.
    pub y: usize,
    /// The value of register `x` when the opcode was fetched.
    pub vx: u8,
    /// The value of register `y` when the opcode was fetched.
    pub vy: u8,
    /// The four nibbles, most significant first.
    pub nibble_1: u8,
    pub nibble_2: u8,
    pub nibble_3: u8,
    pub nibble_4: u8,
}

/// The big-endian opcode stored at `pc` and `pc + 1`.
pub open spec fn opcode_at(memory: Seq<u8>, pc: u16) -> u16 {
    (memory[pc as int] * 0x100 + memory[pc + 1]) as u16
}

/// The fields of `opcode`, with register values read from `v`.
pub open spec fn operator_of(opcode: u16, v: Seq<u8>) -> Operator {
    let x = ((opcode as int / 0x100) % 0x10) as usize;
    let y = ((opcode as int / 0x10) % 0x10) as usize;
    Operator {
        opcode,
        nnn_address: (opcode as int % 0x1000) as u16,
        nn_const: (opcode as int % 0x100) as u8,
        n_const: (opcode as int % 0x10) as u8,
        x,
        y,
        vx: v[x as int],
        vy: v[y as int],
        nibble_1: (opcode as int / 0x1000) as u8,
        nibble_2: x as u8,
        nibble_3: y as u8,
        nibble_4: (opcode as int % 0x10) as u8,
    }
}

proof fn lemma_fields(opcode: u16)
    by (bit_vector)
    ensures
        (opcode & 0x0FFF) == opcode % 0x1000,
        (opcode & 0x00FF) as u8 == opcode % 0x100,
        (opcode & 0x000F) as u8 == opcode % 0x10,
        ((opcode & 0x0F00) >> 8) == (opcode / 0x100) % 0x10,
        ((opcode & 0x00F0) >> 4) == (opcode / 0x10) % 0x10,
        ((opcode & 0xF000) >> 12) == opcode / 0x1000,
{
}

proof fn lemma_join(hi: u8, lo: u8)
    by (bit_vector)
    ensures
        ((hi as u16) << 8u16 | lo as u16) == hi * 0x100 + lo,
{
}

/// The opcode at the program counter.
fn extract_opcode(machine: &Machine) -> (opcode: u16)
    requires
        machine.wf(),
        fetchable(machine.pc),
    ensures
        opcode == opcode_at(machine@.memory, machine.pc),
{
    let hi = machine.memory.cells[machine.pc as usize];
    let lo = machine.memory.cells[machine.pc as usize + 1];
    proof {
        lemma_join(hi, lo);
    }
    (hi as u16) << 8u16 | lo as u16
}

impl Operator {
    /// Fetches and decodes the opcode at the machine's program counter.
    pub fn get_operators(machine: &Machine) -> (op: Operator)
        requires
            machine.wf(),
            fetchable(machine.pc),
        ensures
            op == operator_of(opcode_at(machine@.memory, machine.pc), machine@.v),
    {
        let opcode = extract_opcode(machine);
        proof {
            lemma_fields(opcode);
        }
        let x = ((opcode & 0x0F00) >> 8) as usize;
        let y = ((opcode & 0x00F0) >> 4) as usize;
        Operator {
            opcode,
            nnn_address: opcode & 0x0FFF,
            nn_const: (opcode & 0x00FF) as u8,
            n_const: (opcode & 0x000F) as u8,
            x,
            y,
            vx: machine.registers.v[x],
            vy: machine.registers.v[y],
            nibble_1: ((opcode & 0xF000) >> 12) as u8,
            nibble_2: x as u8,
            nibble_3: y as u8,
            nibble_4: (opcode & 0x000F) as u8,
        }
    }

    /// Whether this operator is the decoding of its opcode, with register
    /// values read from `v`.
    pub open spec fn reads(&self, v: Seq<u8>) -> bool {
        *self == operator_of(self.opcode, v)
    }
}

/// The instructions of the machine, and `Unknown` for every other opcode.
#[derive(Clone, Copy, Debug, PartialEq, Eq, Structural)]
pub enum Instruction {
    /// 00E0: clear the screen.
    ClearScreen,
    /// 00EE: return from a subroutine.
    Return,
    /// 1nnn: jump to nnn.
    Jump,
    /// 2nnn: call the subroutine at nnn.
    Call,
    /// 3xnn: skip if VX == nn.
    SkipIfEqual,
    /// 4xnn: skip if VX != nn.
    SkipIfNotEqual,
    /// 5xy0: skip if VX == VY.
    SkipIfRegistersEqual,
    /// 6xnn: VX := nn.
    Load,
    /// 7xnn: VX := VX + nn, wrapping, VF untouched.
    AddImmediate,
    /// 8xy0: VX := VY.
    Assign,
    /// 8xy1: VX := VX | VY.
    Or,
    /// 8xy2: VX := VX & VY.
    And,
    /// 8xy3: VX := VX ^ VY.
    Xor,
    /// 8xy4: VX := VX + VY, VF := carry.
    Add,
    /// 8xy5: VX := VX - VY, VF := no borrow.
    Subtract,
    /// 8xy6: VF := lowest bit of VX, VX := VX >> 1.
    ShiftRight,
    /// 8xy7: VX := VY - VX, VF := no borrow.
    SubtractReversed,
    /// 8xyE: VF := highest bit of VX, VX := VX << 1.
    ShiftLeft,
    /// 9xy0: skip if VX != VY.
    SkipIfRegistersNotEqual,
    /// Annn: I := nnn.
    SetIndex,
    /// Bnnn: jump to nnn + V0.
    JumpOffset,
    /// Cxnn: VX := random byte & nn.
    Random,
    /// Dxyn: draw n rows of sprite from I at (VX, VY).
    Draw,
    /// Ex9E: skip if key VX is down.
    SkipIfKey,
    /// ExA1: skip if key VX is up.
    SkipIfNotKey,
    /// Fx07: VX := delay timer.
    ReadDelay,
    /// Fx0A: wait for a key and store it in VX.
    WaitKey,
    /// Fx15: delay timer := VX.
    SetDelay,
    /// Fx18: sound timer := VX.
    SetSound,
    /// Fx1E: I := I + VX, wrapping at 16 bits, VF := carry.
    AddIndex,
    /// Fx29: I := address of the glyph of digit VX.
    FontSprite,
    /// Fx33: decimal digits of VX at I, I + 1, I + 2.
    StoreBcd,
    /// Fx55: V0 to VX into memory from I.
    StoreRegisters,
    /// Fx65: V0 to VX from memory from I.
    LoadRegisters,
    /// Any other opcode: does nothing.
    Unknown,
}

/// The instruction named by the four nibbles of an opcode.
pub open spec fn instruction_of(n1: u8, n2: u8, n3: u8, n4: u8) -> Instruction {
    match (n1, n2, n3, n4) {
        (0x0, 0x0, 0xE, 0x0) => Instruction::ClearScreen,
        (0x0, 0x0, 0xE, 0xE) => Instruction::Return,
        (0x1, _, _, _) => Instruction::Jump,
        (0x2, _, _, _) => Instruction::Call,
        (0x3, _, _, _) => Instruction::SkipIfEqual,
        (0x4, _, _, _) => Instruction::SkipIfNotEqual,
        (0x5, _, _, 0x0) => Instruction::SkipIfRegistersEqual,
        (0x6, _, _, _) => Instruction::Load,
        (0x7, _, _, _) => Instruction::AddImmediate,
        (0x8, _, _, 0x0) => Instruction::Assign,
        (0x8, _, _, 0x1) => Instruction::Or,
        (0x8, _, _, 0x2) => Instruction::And,
        (0x8, _, _, 0x3) => Instruction::Xor,
        (0x8, _, _, 0x4) => Instruction::Add,
        (0x8, _, _, 0x5) => Instruction::Subtract,
        (0x8, _, _, 0x6) => Instruction::ShiftRight,
        (0x8, _, _, 0x7) => Instruction::SubtractReversed,
        (0x8, _, _, 0xE) => Instruction::ShiftLeft,
        (0x9, _, _, 0x0) => Instruction::SkipIfRegistersNotEqual,
        (0xA, _, _, _) => Instruction::SetIndex,
        (0xB, _, _, _) => Instruction::JumpOffset,
        (0xC, _, _, _) => Instruction::Random,
        (0xD, _, _, _) => Instruction::Draw,
        (0xE, _, 0x9, 0xE) => Instruction::SkipIfKey,
        (0xE, _, 0xA, 0x1) => Instruction::SkipIfNotKey,
        (0xF, _, 0x0, 0x7) => Instruction::ReadDelay,
        (0xF, _, 0x0, 0xA) => Instruction::WaitKey,
        (0xF, _, 0x1, 0x5) => Instruction::SetDelay,
        (0xF, _, 0x1, 0x8) => Instruction::SetSound,
        (0xF, _, 0x1, 0xE) => Instruction::AddIndex,
        (0xF, _, 0x2, 0x9) => Instruction::FontSprite,
        (0xF, _, 0x3, 0x3) => Instruction::StoreBcd,
        (0xF, _, 0x5, 0x5) => Instruction::StoreRegisters,
        (0xF, _, 0x6, 0x5) => Instruction::LoadRegisters,
        _ => Instruction::Unknown,
    }
}

impl Instruction {
    /// The instruction that a decoded opcode encodes.
    pub fn decode(op: &Operator) -> (ins: Instruction)
        ensures
            ins == instruction_of(op.nibble_1, op.nibble_2, op.nibble_3, op.nibble_4),
    {
        match (op.nibble_1, op.nibble_2, op.nibble_3, op.nibble_4) {
            (0x0, 0x0, 0xE, 0x0) => Instruction::ClearScreen,
            (0x0, 0x0, 0xE, 0xE) => Instruction::Return,
            (0x1, _, _, _) => Instruction::Jump,
            (0x2, _, _, _) => Instruction::Call,
            (0x3, _, _, _) => Instruction::SkipIfEqual,
            (0x4, _, _, _) => Instruction::SkipIfNotEqual,
            (0x5, _, _, 0x0) => Instruction::SkipIfRegistersEqual,
            (0x6, _, _, _) => Instruction::Load,
            (0x7, _, _, _) => Instruction::AddImmediate,
            (0x8, _, _, 0x0) => Instruction::Assign,
            (0x8, _, _, 0x1) => Instruction::Or,
            (0x8, _, _, 0x2) => Instruction::And,
            (0x8, _, _, 0x3) => Instruction::Xor,
            (0x8, _, _, 0x4) => Instruction::Add,
            (0x8, _, _, 0x5) => Instruction::Subtract,
            (0x8, _, _, 0x6) => Instruction::ShiftRight,
            (0x8, _, _, 0x7) => Instruction::SubtractReversed,
            (0x8, _, _, 0xE) => Instruction::ShiftLeft,
            (0x9, _, _, 0x0) => Instruction::SkipIfRegistersNotEqual,
            (0xA, _, _, _) => Instruction::SetIndex,
            (0xB, _, _, _) => Instruction::JumpOffset,
            (0xC, _, _, _) => Instruction::Random,
            (0xD, _, _, _) => Instruction::Draw,
            (0xE, _, 0x9, 0xE) => Instruction::SkipIfKey,
            (0xE, _, 0xA, 0x1) => Instruction::SkipIfNotKey,
            (0xF, _, 0x0, 0x7) => Instruction::ReadDelay,
            (0xF, _, 0x0, 0xA) => Instruction::WaitKey,
            (0xF, _, 0x1, 0x5) => Instruction::SetDelay,
            (0xF, _, 0x1, 0x8) => Instruction::SetSound,
            (0xF, _, 0x1, 0xE) => Instruction::AddIndex,
            (0xF, _, 0x2, 0x9) => Instruction::FontSprite,
            (0xF, _, 0x3, 0x3) => Instruction::StoreBcd,
            (0xF, _, 0x5, 0x5) => Instruction::StoreRegisters,
            (0xF, _, 0x6, 0x5) => Instruction::LoadRegisters,
            _ => Instruction::Unknown,
        }
    }
}

} // verus!
