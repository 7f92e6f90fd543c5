//! The instruction handlers. Each one is stated as a function from machine
//! state to machine state (or to a fault), and each handler is proved to
//! perform exactly that function.

use vstd::prelude::*;
use vstd::arithmetic::div_mod::{lemma_fundamental_div_mod, lemma_mod_multiples_vanish, lemma_small_mod};
use crate::vm::graphics::{blank, VRAM_HEIGHT, VRAM_WIDTH, GLYPH_SIZE};
use crate::vm::keyboard::KEY_COUNT;
use crate::vm::memory::MEMORY_SIZE;
use crate::vm::operator::{instruction_of, Instruction, Operator};
use crate::vm::registers::FLAG;
use crate::vm::stack::STACK_CAPACITY;
use crate::vm::{fetchable, performs, Machine, MachineError, MachineState};

verus! {

// ---------------------------------------------------------------------------
// What each instruction does, on machine states.

/// The program counter moved on to the next instruction.
pub open spec fn advance(m: MachineState) -> MachineState {
    MachineState { pc: (m.pc + 2) as u16, ..m }
}

/// The program counter moved past the next instruction if `cond` holds, and
/// to it otherwise.
pub open spec fn skip_if(m: MachineState, cond: bool) -> MachineState {
    MachineState { pc: (m.pc + if cond { 4int } else { 2int }) as u16, ..m }
}

/// Register `x` set to `value`.
pub open spec fn set_v(m: MachineState, x: int, value: u8) -> MachineState {
    MachineState { v: m.v.update(x, value), ..m }
}

/// 00E0: every pixel off.
pub open spec fn clear_screen(m: MachineState) -> MachineState {
    advance(
        MachineState {
            pixels: blank(VRAM_WIDTH as nat, VRAM_HEIGHT as nat),
            changed: true,
            ..m
        },
    )
}

/// 00EE: the program counter popped off the stack.
pub open spec fn return_from_subroutine(m: MachineState) -> Result<MachineState, MachineError> {
    if m.stack.len() == 0 {
        Err(MachineError::StackUnderflow)
    } else {
        Ok(MachineState { pc: m.stack.last(), stack: m.stack.drop_last(), ..m })
    }
}

/// 1nnn: a jump to `nnn`.
pub open spec fn jump(m: MachineState, nnn: u16) -> MachineState {
    MachineState { pc: nnn, ..m }
}

/// 2nnn: the address of the next instruction pushed, and a jump to `nnn`.
pub open spec fn call(m: MachineState, nnn: u16) -> Result<MachineState, MachineError> {
    if m.stack.len() >= STACK_CAPACITY {
        Err(MachineError::StackOverflow)
    } else {
        Ok(MachineState { pc: nnn, stack: m.stack.push((m.pc + 2) as u16), ..m })
    }
}

/// 6xnn: VX := nn.
pub open spec fn load(m: MachineState, x: int, nn: u8) -> MachineState {
    advance(set_v(m, x, nn))
}

/// 7xnn: VX := (VX + nn) mod 256; VF untouched.
pub open spec fn add_immediate(m: MachineState, x: int, nn: u8) -> MachineState {
    advance(set_v(m, x, ((m.v[x] + nn) % 256) as u8))
}

/// 8xy0: VX := VY.
pub open spec fn assign(m: MachineState, x: int, y: int) -> MachineState {
    advance(set_v(m, x, m.v[y]))
}

/// 8xy1: VX := VX | VY.
pub open spec fn or_registers(m: MachineState, x: int, y: int) -> MachineState {
    advance(set_v(m, x, m.v[x] | m.v[y]))
}

/// 8xy2: VX := VX & VY.
pub open spec fn and_registers(m: MachineState, x: int, y: int) -> MachineState {
    advance(set_v(m, x, m.v[x] & m.v[y]))
}

/// 8xy3: VX := VX ^ VY.
pub open spec fn xor_registers(m: MachineState, x: int, y: int) -> MachineState {
    advance(set_v(m, x, m.v[x] ^ m.v[y]))
}

/// 8xy4: VF := 1 if VX + VY overflows a byte, else 0; then
/// VX := (VX + VY) mod 256.
pub open spec fn add_with_carry(m: MachineState, x: int, y: int) -> MachineState {
    let sum = m.v[x] + m.v[y];
    advance(set_v(set_v(m, FLAG as int, if sum >= 256 { 1 } else { 0 }), x, (sum % 256) as u8))
}

/// 8xy5: VF := 1 if VX >= VY (no borrow), else 0; then
/// VX := (VX - VY) mod 256.
pub open spec fn subtract(m: MachineState, x: int, y: int) -> MachineState {
    advance(
        set_v(
            set_v(m, FLAG as int, if m.v[x] >= m.v[y] { 1 } else { 0 }),
            x,
            ((m.v[x] - m.v[y]) % 256) as u8,
        ),
    )
}

/// 8xy7: VF := 1 if VY >= VX (no borrow), else 0; then
/// VX := (VY - VX) mod 256.
pub open spec fn subtract_reversed(m: MachineState, x: int, y: int) -> MachineState {
    advance(
        set_v(
            set_v(m, FLAG as int, if m.v[y] >= m.v[x] { 1 } else { 0 }),
            x,
            ((m.v[y] - m.v[x]) % 256) as u8,
        ),
    )
}

/// 8xy6: VF := the lowest bit of VX; then VX := VX / 2 (of VX as it is
/// after the flag is written).
pub open spec fn shift_right(m: MachineState, x: int) -> MachineState {
    let m1 = set_v(m, FLAG as int, m.v[x] % 2);
    advance(set_v(m1, x, m1.v[x] / 2))
}

/// 8xyE: VF := the highest bit of VX; then VX := (VX * 2) mod 256 (of VX as
/// it is after the flag is written).
pub open spec fn shift_left(m: MachineState, x: int) -> MachineState {
    let m1 = set_v(m, FLAG as int, m.v[x] / 128);
    advance(set_v(m1, x, ((m1.v[x] * 2) % 256) as u8))
}

/// Annn: I := nnn.
pub open spec fn set_index(m: MachineState, nnn: u16) -> MachineState {
    advance(MachineState { i: nnn, ..m })
}

/// Bnnn: a jump to nnn + V0.
pub open spec fn jump_offset(m: MachineState, nnn: u16) -> MachineState {
    MachineState { pc: (nnn + m.v[0]) as u16, ..m }
}

/// Cxnn: VX := `byte` & nn, where `byte` is drawn at random.
pub open spec fn random_and(m: MachineState, x: int, nn: u8, byte: u8) -> MachineState {
    advance(set_v(m, x, byte & nn))
}

/// Bit `b` of a sprite row, counting from the most significant bit (`b` = 0).
pub open spec fn sprite_bit(row: u8, b: int) -> u8 {
    (row >> ((7 - b) as u8)) & 1u8
}

/// The sprite pixel that a draw of `n` rows from I at (`vx`, `vy`) puts on
/// screen pixel (`r`, `c`). Coordinates wrap around the screen's edges, so
/// the pixel comes from sprite row (`r` - `vy`) mod 32 and bit
/// (`c` - `vx`) mod 64, if there is such a row and bit; else it is 0.
pub open spec fn sprite_pixel(m: MachineState, vx: u8, vy: u8, n: u8, r: int, c: int) -> u8 {
    let k = (r - vy) % (VRAM_HEIGHT as int);
    let b = (c - vx) % (VRAM_WIDTH as int);
    if k < n && b < 8 {
        sprite_bit(m.memory[m.i + k], b)
    } else {
        0
    }
}

/// The screen after the sprite is XORed onto it.
pub open spec fn drawn_pixels(m: MachineState, vx: u8, vy: u8, n: u8) -> Seq<Seq<u8>> {
    Seq::new(
        VRAM_HEIGHT as nat,
        |r: int|
            Seq::new(VRAM_WIDTH as nat, |c: int| m.pixels[r][c] ^ sprite_pixel(m, vx, vy, n, r, c)),
    )
}

/// Whether the sprite turns off some pixel that is on.
pub open spec fn collides(m: MachineState, vx: u8, vy: u8, n: u8) -> bool {
    exists|r: int, c: int|
        0 <= r < VRAM_HEIGHT && 0 <= c < VRAM_WIDTH && #[trigger] sprite_pixel(m, vx, vy, n, r, c)
            == 1 && m.pixels[r][c] == 1
}

/// Dxyn: the `n`-row sprite at I XORed onto the screen at (`vx`, `vy`); VF
/// := 1 if that turned a pixel off, else 0. A fault if the sprite runs past
/// the end of memory.
pub open spec fn draw(m: MachineState, vx: u8, vy: u8, n: u8) -> Result<MachineState, MachineError> {
    if n > 0 && m.i + n > MEMORY_SIZE {
        Err(MachineError::AddressOutOfRange)
    } else {
        Ok(
            advance(
                MachineState {
                    pixels: drawn_pixels(m, vx, vy, n),
                    v: m.v.update(FLAG as int, if collides(m, vx, vy, n) { 1 } else { 0 }),
                    changed: true,
                    ..m
                },
            ),
        )
    }
}

/// Ex9E (`down`) and ExA1 (`!down`): skip if key VX is `down`. A fault if
/// VX names no key.
pub open spec fn skip_on_key(m: MachineState, x: int, down: bool) -> Result<
    MachineState,
    MachineError,
> {
    if m.v[x] >= KEY_COUNT {
        Err(MachineError::InvalidKey)
    } else {
        Ok(skip_if(m, m.keys[m.v[x] as int] == down))
    }
}

/// Fx07: VX := the delay timer.
pub open spec fn read_delay(m: MachineState, x: int) -> MachineState {
    advance(set_v(m, x, m.dt))
}

/// Fx0A: the key-wait latch set for register `x`.
pub open spec fn wait_key(m: MachineState, x: usize) -> MachineState {
    advance(MachineState { keypress_awaited: true, key_register: x, ..m })
}

/// Fx15: delay timer := VX.
pub open spec fn set_delay(m: MachineState, x: int) -> MachineState {
    advance(MachineState { dt: m.v[x], ..m })
}

/// Fx18: sound timer := VX.
pub open spec fn set_sound(m: MachineState, x: int) -> MachineState {
    advance(MachineState { st: m.v[x], ..m })
}

/// Fx1E: VF := 1 if I + VX overflows 16 bits, else 0; I := (I + VX) mod 2^16.
pub open spec fn add_to_index(m: MachineState, x: int) -> MachineState {
    let sum = m.i + m.v[x];
    advance(
        MachineState {
            i: (sum % 0x10000) as u16,
            ..set_v(m, FLAG as int, if sum >= 0x10000 { 1 } else { 0 })
        },
    )
}

/// Fx29: I := the address of the glyph of digit VX.
pub open spec fn font_sprite(m: MachineState, x: int) -> MachineState {
    advance(MachineState { i: (m.v[x] * GLYPH_SIZE) as u16, ..m })
}

/// Fx33: the hundreds, tens and ones digits of VX at I, I + 1 and I + 2.
pub open spec fn store_bcd(m: MachineState, x: int) -> Result<MachineState, MachineError> {
    if m.i + 2 >= MEMORY_SIZE {
        Err(MachineError::AddressOutOfRange)
    } else {
        let vx = m.v[x];
        Ok(
            advance(
                MachineState {
                    memory: m.memory.update(m.i as int, vx / 100).update(
                        m.i + 1,
                        (vx % 100) / 10,
                    ).update(m.i + 2, vx % 10),
                    ..m
                },
            ),
        )
    }
}

/// Fx55: V0 to VX written to memory from I on; I unchanged.
pub open spec fn store_registers(m: MachineState, x: int) -> Result<MachineState, MachineError> {
    if m.i + x >= MEMORY_SIZE {
        Err(MachineError::AddressOutOfRange)
    } else {
        Ok(
            advance(
                MachineState {
                    memory: Seq::new(
                        m.memory.len(),
                        |k: int|
                            if m.i <= k <= m.i + x {
                                m.v[k - m.i]
                            } else {
                                m.memory[k]
                            },
                    ),
                    ..m
                },
            ),
        )
    }
}

/// Fx65: V0 to VX read from memory from I on; I unchanged.
pub open spec fn load_registers(m: MachineState, x: int) -> Result<MachineState, MachineError> {
    if m.i + x >= MEMORY_SIZE {
        Err(MachineError::AddressOutOfRange)
    } else {
        Ok(
            advance(
                MachineState {
                    v: Seq::new(
                        m.v.len(),
                        |k: int|
                            if k <= x {
                                m.memory[m.i + k]
                            } else {
                                m.v[k]
                            },
                    ),
                    ..m
                },
            ),
        )
    }
}

/// What the instruction decoded as `op` does to `m`; `byte` is the random
/// byte that Cxnn uses.
pub open spec fn execute(m: MachineState, op: Operator, byte: u8) -> Result<MachineState, MachineError> {
    let x = op.x as int;
    let y = op.y as int;
    match instruction_of(op.nibble_1, op.nibble_2, op.nibble_3, op.nibble_4) {
        Instruction::ClearScreen => Ok(clear_screen(m)),
        Instruction::Return => return_from_subroutine(m),
        Instruction::Jump => Ok(jump(m, op.nnn_address)),
        Instruction::Call => call(m, op.nnn_address),
        Instruction::SkipIfEqual => Ok(skip_if(m, m.v[x] == op.nn_const)),
        Instruction::SkipIfNotEqual => Ok(skip_if(m, m.v[x] != op.nn_const)),
        Instruction::SkipIfRegistersEqual => Ok(skip_if(m, m.v[x] == m.v[y])),
        Instruction::Load => Ok(load(m, x, op.nn_const)),
        Instruction::AddImmediate => Ok(add_immediate(m, x, op.nn_const)),
        Instruction::Assign => Ok(assign(m, x, y)),
        Instruction::Or => Ok(or_registers(m, x, y)),
        Instruction::And => Ok(and_registers(m, x, y)),
        Instruction::Xor => Ok(xor_registers(m, x, y)),
        Instruction::Add => Ok(add_with_carry(m, x, y)),
        Instruction::Subtract => Ok(subtract(m, x, y)),
        Instruction::ShiftRight => Ok(shift_right(m, x)),
        Instruction::SubtractReversed => Ok(subtract_reversed(m, x, y)),
        Instruction::ShiftLeft => Ok(shift_left(m, x)),
        Instruction::SkipIfRegistersNotEqual => Ok(skip_if(m, m.v[x] != m.v[y])),
        Instruction::SetIndex => Ok(set_index(m, op.nnn_address)),
        Instruction::JumpOffset => Ok(jump_offset(m, op.nnn_address)),
        Instruction::Random => Ok(random_and(m, x, op.nn_const, byte)),
        Instruction::Draw => draw(m, op.vx, op.vy, op.n_const),
        Instruction::SkipIfKey => skip_on_key(m, x, true),
        Instruction::SkipIfNotKey => skip_on_key(m, x, false),
        Instruction::ReadDelay => Ok(read_delay(m, x)),
        Instruction::WaitKey => Ok(wait_key(m, op.x)),
        Instruction::SetDelay => Ok(set_delay(m, x)),
        Instruction::SetSound => Ok(set_sound(m, x)),
        Instruction::AddIndex => Ok(add_to_index(m, x)),
        Instruction::FontSprite => Ok(font_sprite(m, x)),
        Instruction::StoreBcd => store_bcd(m, x),
        Instruction::StoreRegisters => store_registers(m, x),
        Instruction::LoadRegisters => load_registers(m, x),
        Instruction::Unknown => Ok(m),
    }
}

// ---------------------------------------------------------------------------
// The handlers.

/// What every handler needs: a well-formed machine, an operator decoded
/// against its registers, and a program counter from which it was fetched.
pub open spec fn can_execute(machine: &Machine, operator: &Operator) -> bool {
    &&& machine.wf()
    &&& operator.reads(machine@.v)
    &&& fetchable(machine.pc)
}

/// 00E0: clears the screen.
pub fn execute_00e0(machine: &mut Machine)
    requires
        old(machine).wf(),
        fetchable(old(machine).pc),
    ensures
        final(machine).wf(),
        final(machine)@ == clear_screen(old(machine)@),
{
    let mut h: usize = 0;
    while h < VRAM_HEIGHT
        invariant
            h <= VRAM_HEIGHT,
            machine.wf(),
            machine.memory == old(machine).memory,
            machine.registers == old(machine).registers,
            machine.stack == old(machine).stack,
            machine.keyboard == old(machine).keyboard,
            machine.timers == old(machine).timers,
            machine.i == old(machine).i,
            machine.pc == old(machine).pc,
            machine.vram.state_changed == old(machine).vram.state_changed,
            forall|r: int, c: int|
                0 <= r < h && 0 <= c < VRAM_WIDTH ==> #[trigger] machine.vram.cells@[r]@[c] == 0,
        decreases VRAM_HEIGHT - h,
    {
        let mut w: usize = 0;
        while w < VRAM_WIDTH
            invariant
                h < VRAM_HEIGHT,
                w <= VRAM_WIDTH,
                machine.wf(),
                machine.memory == old(machine).memory,
                machine.registers == old(machine).registers,
                machine.stack == old(machine).stack,
                machine.keyboard == old(machine).keyboard,
                machine.timers == old(machine).timers,
                machine.i == old(machine).i,
                machine.pc == old(machine).pc,
                machine.vram.state_changed == old(machine).vram.state_changed,
                forall|r: int, c: int|
                    0 <= r < h && 0 <= c < VRAM_WIDTH ==> #[trigger] machine.vram.cells@[r]@[c]
                        == 0,
                forall|c: int| 0 <= c < w ==> #[trigger] machine.vram.cells@[h as int]@[c] == 0,
            decreases VRAM_WIDTH - w,
        {
            machine.vram.cells[h][w] = 0;
            w = w + 1;
        }
        h = h + 1;
    }
    machine.vram.state_changed = true;
    machine.pc = machine.pc + 2;
    assert forall|r: int| 0 <= r < VRAM_HEIGHT implies #[trigger] machine.vram.grid()[r]
        =~= blank(VRAM_WIDTH as nat, VRAM_HEIGHT as nat)[r] by {
        assert(machine.vram.grid()[r] == machine.vram.cells@[r]@);
    }
    assert(machine.vram.grid() =~= blank(VRAM_WIDTH as nat, VRAM_HEIGHT as nat));
}

/// 00EE: returns from a subroutine: the program counter is popped off the
/// stack. A fault if the stack is empty.
pub fn execute_00ee(machine: &mut Machine) -> (r: Result<(), MachineError>)
    requires
        old(machine).wf(),
    ensures
        final(machine).wf(),
        performs(r, old(machine)@, final(machine)@, return_from_subroutine(old(machine)@)),
{
    if machine.stack.cells.len() == 0 {
        return Err(MachineError::StackUnderflow);
    }
    match machine.stack.cells.pop() {
        Some(address) => {
            machine.pc = address;
            Ok(())
        },
        None => Err(MachineError::StackUnderflow),
    }
}

/// 1nnn: jumps to nnn.
pub fn execute_1nnn(machine: &mut Machine, operator: &Operator)
    requires
        can_execute(old(machine), operator),
    ensures
        final(machine).wf(),
        final(machine)@ == jump(old(machine)@, operator.nnn_address),
{
    machine.pc = operator.nnn_address;
}

/// 2nnn: calls the subroutine at nnn: pushes the address of the next
/// instruction and jumps. A fault if the stack is full.
pub fn execute_2nnn(machine: &mut Machine, operator: &Operator) -> (r: Result<(), MachineError>)
    requires
        can_execute(old(machine), operator),
    ensures
        final(machine).wf(),
        performs(r, old(machine)@, final(machine)@, call(old(machine)@, operator.nnn_address)),
{
    if machine.stack.cells.len() >= STACK_CAPACITY {
        return Err(MachineError::StackOverflow);
    }
    machine.stack.cells.push(machine.pc + 2);
    machine.pc = operator.nnn_address;
    Ok(())
}

/// 3xnn: skips the next instruction if VX equals nn.
pub fn execute_3nnn(machine: &mut Machine, operator: &Operator)
    requires
        can_execute(old(machine), operator),
    ensures
        final(machine).wf(),
        final(machine)@ == skip_if(old(machine)@, old(machine)@.v[operator.x as int] == operator.nn_const),
{
    if operator.vx == operator.nn_const {
        machine.pc = machine.pc + 4;
    } else {
        machine.pc = machine.pc + 2;
    }
}

/// 4xnn: skips the next instruction if VX differs from nn.
pub fn execute_4nnn(machine: &mut Machine, operator: &Operator)
    requires
        can_execute(old(machine), operator),
    ensures
        final(machine).wf(),
        final(machine)@ == skip_if(old(machine)@, old(machine)@.v[operator.x as int] != operator.nn_const),
{
    if operator.vx != operator.nn_const {
        machine.pc = machine.pc + 4;
    } else {
        machine.pc = machine.pc + 2;
    }
}

/// 5xy0: skips the next instruction if VX equals VY.
pub fn execute_5xy0(machine: &mut Machine, operator: &Operator)
    requires
        can_execute(old(machine), operator),
    ensures
        final(machine).wf(),
        final(machine)@ == skip_if(
            old(machine)@,
            old(machine)@.v[operator.x as int] == old(machine)@.v[operator.y as int],
        ),
{
    if operator.vx == operator.vy {
        machine.pc = machine.pc + 4;
    } else {
        machine.pc = machine.pc + 2;
    }
}

/// 6xnn: sets VX to nn.
pub fn execute_6xnn(machine: &mut Machine, operator: &Operator)
    requires
        can_execute(old(machine), operator),
    ensures
        final(machine).wf(),
        final(machine)@ == load(old(machine)@, operator.x as int, operator.nn_const),
{
    machine.registers.v[operator.x] = operator.nn_const;
    machine.pc = machine.pc + 2;
}

/// 7xnn: adds nn to VX, wrapping; the flag is not changed.
pub fn execute_7xnn(machine: &mut Machine, operator: &Operator)
    requires
        can_execute(old(machine), operator),
    ensures
        final(machine).wf(),
        final(machine)@ == add_immediate(old(machine)@, operator.x as int, operator.nn_const),
{
    machine.registers.v[operator.x] = machine.registers.v[operator.x].wrapping_add(operator.nn_const);
    machine.pc = machine.pc + 2;
}

/// 8xy0: sets VX to VY.
pub fn execute_8xy0(machine: &mut Machine, operator: &Operator)
    requires
        can_execute(old(machine), operator),
    ensures
        final(machine).wf(),
        final(machine)@ == assign(old(machine)@, operator.x as int, operator.y as int),
{
    machine.registers.v[operator.x] = machine.registers.v[operator.y];
    machine.pc = machine.pc + 2;
}

/// 8xy1: sets VX to VX | VY.
pub fn execute_8xy1(machine: &mut Machine, operator: &Operator)
    requires
        can_execute(old(machine), operator),
    ensures
        final(machine).wf(),
        final(machine)@ == or_registers(old(machine)@, operator.x as int, operator.y as int),
{
    machine.registers.v[operator.x] = machine.registers.v[operator.x] | machine.registers.v[operator.y];
    machine.pc = machine.pc + 2;
}

/// 8xy2: sets VX to VX & VY.
pub fn execute_8xy2(machine: &mut Machine, operator: &Operator)
    requires
        can_execute(old(machine), operator),
    ensures
        final(machine).wf(),
        final(machine)@ == and_registers(old(machine)@, operator.x as int, operator.y as int),
{
    machine.registers.v[operator.x] = machine.registers.v[operator.x] & machine.registers.v[operator.y];
    machine.pc = machine.pc + 2;
}

/// 8xy3: sets VX to VX ^ VY.
pub fn execute_8xy3(machine: &mut Machine, operator: &Operator)
    requires
        can_execute(old(machine), operator),
    ensures
        final(machine).wf(),
        final(machine)@ == xor_registers(old(machine)@, operator.x as int, operator.y as int),
{
    machine.registers.v[operator.x] = machine.registers.v[operator.x] ^ machine.registers.v[operator.y];
    machine.pc = machine.pc + 2;
}

/// 8xy4: adds VY to VX, wrapping; VF is 1 on a carry and 0 otherwise.
pub fn execute_8xy4(machine: &mut Machine, operator: &Operator)
    requires
        can_execute(old(machine), operator),
    ensures
        final(machine).wf(),
        final(machine)@ == add_with_carry(old(machine)@, operator.x as int, operator.y as int),
{
    let vx = machine.registers.v[operator.x];
    let vy = machine.registers.v[operator.y];
    let result = vx.wrapping_add(vy);
    if vx as u16 + vy as u16 > 0xFF {
        machine.registers.v[FLAG] = 1;
    } else {
        machine.registers.v[FLAG] = 0;
    }
    machine.registers.v[operator.x] = result;
    machine.pc = machine.pc + 2;
}

/// 8xy5: subtracts VY from VX, wrapping; VF is 1 when there is no borrow
/// and 0 when there is.
pub fn execute_8xy5(machine: &mut Machine, operator: &Operator)
    requires
        can_execute(old(machine), operator),
    ensures
        final(machine).wf(),
        final(machine)@ == subtract(old(machine)@, operator.x as int, operator.y as int),
{
    let vx = machine.registers.v[operator.x];
    let vy = machine.registers.v[operator.y];
    let result = vx.wrapping_sub(vy);
    if vx >= vy {
        machine.registers.v[FLAG] = 1;
    } else {
        machine.registers.v[FLAG] = 0;
    }
    machine.registers.v[operator.x] = result;
    machine.pc = machine.pc + 2;
}

/// 8xy6: stores the lowest bit of VX in VF, then shifts VX right by one.
pub fn execute_8xy6(machine: &mut Machine, operator: &Operator)
    requires
        can_execute(old(machine), operator),
    ensures
        final(machine).wf(),
        final(machine)@ == shift_right(old(machine)@, operator.x as int),
{
    let vx = machine.registers.v[operator.x];
    assert(vx & 1 == vx % 2) by (bit_vector);
    machine.registers.v[FLAG] = vx & 1;
    let shifted = machine.registers.v[operator.x];
    assert(shifted >> 1 == shifted / 2) by (bit_vector);
    machine.registers.v[operator.x] = shifted >> 1;
    machine.pc = machine.pc + 2;
}

/// 8xy7: sets VX to VY minus VX, wrapping; VF is 1 when there is no borrow
/// and 0 when there is.
pub fn execute_8xy7(machine: &mut Machine, operator: &Operator)
    requires
        can_execute(old(machine), operator),
    ensures
        final(machine).wf(),
        final(machine)@ == subtract_reversed(old(machine)@, operator.x as int, operator.y as int),
{
    let vx = machine.registers.v[operator.x];
    let vy = machine.registers.v[operator.y];
    let result = vy.wrapping_sub(vx);
    if vy >= vx {
        machine.registers.v[FLAG] = 1;
    } else {
        machine.registers.v[FLAG] = 0;
    }
    machine.registers.v[operator.x] = result;
    machine.pc = machine.pc + 2;
}

/// 8xyE: stores the highest bit of VX in VF, then shifts VX left by one.
pub fn execute_8xye(machine: &mut Machine, operator: &Operator)
    requires
        can_execute(old(machine), operator),
    ensures
        final(machine).wf(),
        final(machine)@ == shift_left(old(machine)@, operator.x as int),
{
    let vx = machine.registers.v[operator.x];
    assert((vx & 0x80) >> 7 == vx / 128) by (bit_vector);
    machine.registers.v[FLAG] = (vx & 0x80) >> 7;
    let shifted = machine.registers.v[operator.x];
    assert(shifted << 1 == (shifted * 2) % 256) by (bit_vector);
    machine.registers.v[operator.x] = shifted << 1;
    machine.pc = machine.pc + 2;
}

/// 9xy0: skips the next instruction if VX differs from VY.
pub fn execute_9xy0(machine: &mut Machine, operator: &Operator)
    requires
        can_execute(old(machine), operator),
    ensures
        final(machine).wf(),
        final(machine)@ == skip_if(
            old(machine)@,
            old(machine)@.v[operator.x as int] != old(machine)@.v[operator.y as int],
        ),
{
    if operator.vx != operator.vy {
        machine.pc = machine.pc + 4;
    } else {
        machine.pc = machine.pc + 2;
    }
}

/// Annn: sets I to nnn.
pub fn execute_annn(machine: &mut Machine, operator: &Operator)
    requires
        can_execute(old(machine), operator),
    ensures
        final(machine).wf(),
        final(machine)@ == set_index(old(machine)@, operator.nnn_address),
{
    machine.i = operator.nnn_address;
    machine.pc = machine.pc + 2;
}

/// Bnnn: jumps to nnn plus V0.
pub fn execute_bnnn(machine: &mut Machine, operator: &Operator)
    requires
        can_execute(old(machine), operator),
    ensures
        final(machine).wf(),
        final(machine)@ == jump_offset(old(machine)@, operator.nnn_address),
{
    machine.pc = operator.nnn_address + machine.registers.v[0] as u16;
}

/// Cxnn with the random byte given: sets VX to `byte` & nn.
pub fn execute_cxnn_with(machine: &mut Machine, operator: &Operator, byte: u8)
    requires
        can_execute(old(machine), operator),
    ensures
        final(machine).wf(),
        final(machine)@ == random_and(old(machine)@, operator.x as int, operator.nn_const, byte),
{
    machine.registers.v[operator.x] = byte & operator.nn_const;
    machine.pc = machine.pc + 2;
}

/// Cxnn: sets VX to a random byte & nn.
pub fn execute_cxnn(machine: &mut Machine, operator: &Operator)
    requires
        can_execute(old(machine), operator),
    ensures
        final(machine).wf(),
        exists|byte: u8|
            final(machine)@ == random_and(old(machine)@, operator.x as int, operator.nn_const, byte),
{
    let byte = random_byte();
    execute_cxnn_with(machine, operator, byte);
}

/// Whether a draw has already passed over screen pixel (`r`, `c`) once it has
/// done `rows` whole rows and `bits` bits of the next.
pub open spec fn drawn_upto(vx: u8, vy: u8, rows: int, bits: int, r: int, c: int) -> bool {
    let k = (r - vy) % (VRAM_HEIGHT as int);
    let b = (c - vx) % (VRAM_WIDTH as int);
    b < 8 && (k < rows || (k == rows && b < bits))
}

/// A screen pixel lies at offset `off` from `base`, wrapping at `size`, just
/// when it is (`base` + `off`) mod `size`.
proof fn lemma_wrapped_offset(base: int, off: int, size: int, p: int)
    requires
        base >= 0,
        size == VRAM_WIDTH || size == VRAM_HEIGHT,
        0 <= off < size,
        0 <= p < size,
    ensures
        ((p - base) % size == off) <==> (p == (base + off) % size),
{
    let s = base + off;
    lemma_fundamental_div_mod(s, size);
    let q = s / size;
    lemma_small_mod(off as nat, size as nat);
    lemma_small_mod(p as nat, size as nat);
    if p == s % size {
        assert(p - base == size * (-q) + off);
        lemma_mod_multiples_vanish(-q, off, size);
    }
    if (p - base) % size == off {
        let t = p - base;
        lemma_fundamental_div_mod(t, size);
        let k = t / size;
        assert(p == size * k + s);
        lemma_mod_multiples_vanish(k, s, size);
    }
}

proof fn lemma_pixel_bits(a: u8, b: u8)
    by (bit_vector)
    ensures
        a <= 1 && b <= 1 ==> a ^ b <= 1,
        a ^ 0 == a,
        b <= 1 ==> (b & a) <= 1,
        (a >> (7 - b) as u8) & 1 <= 1,
{
}

/// Dxyn: draws the `n`-row sprite at I at (VX, VY), XORing it onto the
/// screen; VF is 1 if a pixel was turned off and 0 otherwise. A fault if the
/// sprite runs past the end of memory.
pub fn execute_dxyn(machine: &mut Machine, operator: &Operator) -> (r: Result<(), MachineError>)
    requires
        can_execute(old(machine), operator),
    ensures
        final(machine).wf(),
        performs(
            r,
            old(machine)@,
            final(machine)@,
            draw(old(machine)@, operator.vx, operator.vy, operator.n_const),
        ),
{
    let n = operator.n_const as usize;
    let i = machine.i as usize;
    if n > 0 && i + n > MEMORY_SIZE {
        return Err(MachineError::AddressOutOfRange);
    }
    let ghost m = old(machine)@;
    let vx = operator.vx;
    let vy = operator.vy;
    let mut flag: u8 = 0;
    let mut row: usize = 0;
    proof {
        assert forall|r: int, c: int|
            0 <= r < VRAM_HEIGHT && 0 <= c < VRAM_WIDTH implies #[trigger] machine.vram.cells@[r]@[c]
                == m.pixels[r][c] ^ 0 by {
            assert(m.pixels[r] == machine.vram.cells@[r]@);
            lemma_pixel_bits(m.pixels[r][c], 0);
        }
    }
    while row < n
        invariant
            n == operator.n_const,
            n < 16,
            row <= n,
            n == 0 || i + n <= MEMORY_SIZE,
            i == m.i,
            m == old(machine)@,
            vx == operator.vx,
            vy == operator.vy,
            machine.wf(),
            machine.memory == old(machine).memory,
            machine.registers == old(machine).registers,
            machine.stack == old(machine).stack,
            machine.keyboard == old(machine).keyboard,
            machine.timers == old(machine).timers,
            machine.vram.state_changed == old(machine).vram.state_changed,
            machine.i == old(machine).i,
            machine.pc == old(machine).pc,
            forall|r: int, c: int|
                0 <= r < VRAM_HEIGHT && 0 <= c < VRAM_WIDTH ==> #[trigger] machine.vram.cells@[r]@[c]
                    == m.pixels[r][c] ^ (if drawn_upto(vx, vy, row as int, 0, r, c) {
                    sprite_pixel(m, vx, vy, n as u8, r, c)
                } else {
                    0
                }),
            flag <= 1,
            flag == 1 <==> exists|r: int, c: int|
                0 <= r < VRAM_HEIGHT && 0 <= c < VRAM_WIDTH && drawn_upto(
                    vx,
                    vy,
                    row as int,
                    0,
                    r,
                    c,
                ) && #[trigger] sprite_pixel(m, vx, vy, n as u8, r, c) == 1 && m.pixels[r][c] == 1,
        decreases n - row,
    {
        let y = (vy as usize + row) % VRAM_HEIGHT;
        let sprite_row = machine.memory.cells[i + row];
        let mut bit: usize = 0;
        while bit < 8
            invariant
                n == operator.n_const,
                n < 16,
                row < n,
                bit <= 8,
                i + n <= MEMORY_SIZE,
                i == m.i,
                m == old(machine)@,
                vx == operator.vx,
                vy == operator.vy,
                y == (vy + row) % (VRAM_HEIGHT as int),
                sprite_row == m.memory[i + row],
                machine.wf(),
                machine.memory == old(machine).memory,
                machine.registers == old(machine).registers,
                machine.stack == old(machine).stack,
                machine.keyboard == old(machine).keyboard,
                machine.timers == old(machine).timers,
                machine.vram.state_changed == old(machine).vram.state_changed,
                machine.i == old(machine).i,
                machine.pc == old(machine).pc,
                forall|r: int, c: int|
                    0 <= r < VRAM_HEIGHT && 0 <= c < VRAM_WIDTH ==> #[trigger] machine.vram.cells@[r]@[c]
                        == m.pixels[r][c] ^ (if drawn_upto(vx, vy, row as int, bit as int, r, c) {
                        sprite_pixel(m, vx, vy, n as u8, r, c)
                    } else {
                        0
                    }),
                flag <= 1,
                flag == 1 <==> exists|r: int, c: int|
                    0 <= r < VRAM_HEIGHT && 0 <= c < VRAM_WIDTH && drawn_upto(
                        vx,
                        vy,
                        row as int,
                        bit as int,
                        r,
                        c,
                    ) && #[trigger] sprite_pixel(m, vx, vy, n as u8, r, c) == 1 && m.pixels[r][c]
                        == 1,
            decreases 8 - bit,
        {
            let x = (vx as usize + bit) % VRAM_WIDTH;
            let color = (sprite_row >> (7 - bit as u8)) & 1;
            let current = machine.vram.cells[y][x];
            proof {
                lemma_wrapped_offset(vy as int, row as int, VRAM_HEIGHT as int, y as int);
                lemma_wrapped_offset(vx as int, bit as int, VRAM_WIDTH as int, x as int);
                assert(sprite_pixel(m, vx, vy, n as u8, y as int, x as int) == color);
                assert(drawn_upto(vx, vy, row as int, bit as int + 1, y as int, x as int));
                assert(!drawn_upto(vx, vy, row as int, bit as int, y as int, x as int));
                lemma_pixel_bits(m.pixels[y as int][x as int], 0);
                assert(current == m.pixels[y as int][x as int]);
                assert forall|r: int, c: int|
                    0 <= r < VRAM_HEIGHT && 0 <= c < VRAM_WIDTH && (r != y || c != x) implies
                        drawn_upto(vx, vy, row as int, bit as int + 1, r, c) == drawn_upto(
                        vx,
                        vy,
                        row as int,
                        bit as int,
                        r,
                        c,
                    ) by {
                    lemma_wrapped_offset(vy as int, row as int, VRAM_HEIGHT as int, r);
                    lemma_wrapped_offset(vx as int, bit as int, VRAM_WIDTH as int, c);
                }
                lemma_pixel_bits(current, color);
                lemma_pixel_bits(sprite_row, bit as u8);
            }
            if color & current == 1 {
                flag = 1;
            }
            machine.vram.cells[y][x] = current ^ color;
            proof {
                let ghost new_exists = exists|r: int, c: int|
                    0 <= r < VRAM_HEIGHT && 0 <= c < VRAM_WIDTH && drawn_upto(
                        vx,
                        vy,
                        row as int,
                        bit as int + 1,
                        r,
                        c,
                    ) && #[trigger] sprite_pixel(m, vx, vy, n as u8, r, c) == 1 && m.pixels[r][c]
                        == 1;
                if color & current == 1 {
                    assert(color == 1 && current == 1) by (bit_vector)
                        requires
                            color & current == 1,
                            color <= 1,
                            current <= 1,
                    ;
                    assert(sprite_pixel(m, vx, vy, n as u8, y as int, x as int) == 1);
                    assert(new_exists);
                } else {
                    assert(!(color == 1 && current == 1)) by (bit_vector)
                        requires
                            color & current != 1,
                    ;
                }
            }
            bit = bit + 1;
        }
        proof {
            assert forall|r: int, c: int|
                0 <= r < VRAM_HEIGHT && 0 <= c < VRAM_WIDTH implies drawn_upto(
                    vx,
                    vy,
                    row as int + 1,
                    0,
                    r,
                    c,
                ) == drawn_upto(vx, vy, row as int, 8, r, c) by {}
        }
        row = row + 1;
    }
    proof {
        assert forall|r: int, c: int|
            0 <= r < VRAM_HEIGHT && 0 <= c < VRAM_WIDTH implies #[trigger] machine.vram.cells@[r]@[c]
                == drawn_pixels(m, vx, vy, n as u8)[r][c] by {
            if !drawn_upto(vx, vy, n as int, 0, r, c) {
                lemma_pixel_bits(m.pixels[r][c], 0);
            }
        }
    }
    machine.registers.v[FLAG] = flag;
    machine.vram.state_changed = true;
    machine.pc = machine.pc + 2;
    proof {
        assert forall|r: int| 0 <= r < VRAM_HEIGHT implies #[trigger] machine.vram.grid()[r]
            =~= drawn_pixels(m, vx, vy, n as u8)[r] by {
            assert(machine.vram.grid()[r] == machine.vram.cells@[r]@);
        }
        assert(machine.vram.grid() =~= drawn_pixels(m, vx, vy, n as u8));
    }
    Ok(())
}

/// Ex9E: skips the next instruction if the key named by VX is down. A fault
/// if VX names no key.
pub fn execute_ex9e(machine: &mut Machine, operator: &Operator) -> (r: Result<(), MachineError>)
    requires
        can_execute(old(machine), operator),
    ensures
        final(machine).wf(),
        performs(r, old(machine)@, final(machine)@, skip_on_key(old(machine)@, operator.x as int, true)),
{
    let key = machine.registers.v[operator.x];
    if key as usize >= KEY_COUNT {
        return Err(MachineError::InvalidKey);
    }
    if machine.keyboard.is_key_down(key) {
        machine.pc = machine.pc + 4;
    } else {
        machine.pc = machine.pc + 2;
    }
    Ok(())
}

/// ExA1: skips the next instruction if the key named by VX is up. A fault
/// if VX names no key.
pub fn execute_exa1(machine: &mut Machine, operator: &Operator) -> (r: Result<(), MachineError>)
    requires
        can_execute(old(machine), operator),
    ensures
        final(machine).wf(),
        performs(r, old(machine)@, final(machine)@, skip_on_key(old(machine)@, operator.x as int, false)),
{
    let key = machine.registers.v[operator.x];
    if key as usize >= KEY_COUNT {
        return Err(MachineError::InvalidKey);
    }
    if machine.keyboard.is_key_down(key) {
        machine.pc = machine.pc + 2;
    } else {
        machine.pc = machine.pc + 4;
    }
    Ok(())
}

/// Fx07: sets VX to the delay timer.
pub fn execute_fx07(machine: &mut Machine, operator: &Operator)
    requires
        can_execute(old(machine), operator),
    ensures
        final(machine).wf(),
        final(machine)@ == read_delay(old(machine)@, operator.x as int),
{
    machine.registers.v[operator.x] = machine.timers.dt;
    machine.pc = machine.pc + 2;
}

/// Fx0A: latches a wait for a key, to be stored in VX. The frame driver
/// runs no instruction until a key is down.
pub fn execute_fx0a(machine: &mut Machine, operator: &Operator)
    requires
        can_execute(old(machine), operator),
    ensures
        final(machine).wf(),
        final(machine)@ == wait_key(old(machine)@, operator.x),
{
    machine.keyboard.keypress_awaited = true;
    machine.keyboard.key_register = operator.x;
    machine.pc = machine.pc + 2;
}

/// Fx15: sets the delay timer to VX.
pub fn execute_fx15(machine: &mut Machine, operator: &Operator)
    requires
        can_execute(old(machine), operator),
    ensures
        final(machine).wf(),
        final(machine)@ == set_delay(old(machine)@, operator.x as int),
{
    machine.timers.dt = machine.registers.v[operator.x];
    machine.pc = machine.pc + 2;
}

/// Fx18: sets the sound timer to VX.
pub fn execute_fx18(machine: &mut Machine, operator: &Operator)
    requires
        can_execute(old(machine), operator),
    ensures
        final(machine).wf(),
        final(machine)@ == set_sound(old(machine)@, operator.x as int),
{
    machine.timers.st = machine.registers.v[operator.x];
    machine.pc = machine.pc + 2;
}

/// Fx1E: adds VX to I, wrapping at 16 bits; VF is 1 on a carry and 0
/// otherwise.
pub fn execute_fx1e(machine: &mut Machine, operator: &Operator)
    requires
        can_execute(old(machine), operator),
    ensures
        final(machine).wf(),
        final(machine)@ == add_to_index(old(machine)@, operator.x as int),
{
    let sum: u32 = machine.i as u32 + machine.registers.v[operator.x] as u32;
    if sum > 0xFFFF {
        machine.registers.v[FLAG] = 1;
        machine.i = (sum - 0x10000) as u16;
    } else {
        machine.registers.v[FLAG] = 0;
        machine.i = sum as u16;
    }
    machine.pc = machine.pc + 2;
}

/// Fx29: sets I to the address of the glyph of the digit in VX.
pub fn execute_fx29(machine: &mut Machine, operator: &Operator)
    requires
        can_execute(old(machine), operator),
    ensures
        final(machine).wf(),
        final(machine)@ == font_sprite(old(machine)@, operator.x as int),
{
    let digit = machine.registers.v[operator.x] as u16;
    assert(digit * 5 <= 1275) by (nonlinear_arith)
        requires
            digit <= 255,
    ;
    machine.i = digit * GLYPH_SIZE as u16;
    machine.pc = machine.pc + 2;
}

/// Fx33: stores the hundreds, tens and ones digits of VX at I, I + 1 and
/// I + 2. A fault if I + 2 is past the end of memory.
pub fn execute_fx33(machine: &mut Machine, operator: &Operator) -> (r: Result<(), MachineError>)
    requires
        can_execute(old(machine), operator),
    ensures
        final(machine).wf(),
        performs(r, old(machine)@, final(machine)@, store_bcd(old(machine)@, operator.x as int)),
{
    let i = machine.i as usize;
    if i + 2 >= MEMORY_SIZE {
        return Err(MachineError::AddressOutOfRange);
    }
    let vx = machine.registers.v[operator.x];
    machine.memory.cells[i] = vx / 100;
    machine.memory.cells[i + 1] = (vx % 100) / 10;
    machine.memory.cells[i + 2] = vx % 10;
    machine.pc = machine.pc + 2;
    Ok(())
}

/// Fx55: stores V0 to VX in memory from I on; I is left unchanged. A fault
/// if I + x is past the end of memory.
pub fn execute_fx55(machine: &mut Machine, operator: &Operator) -> (r: Result<(), MachineError>)
    requires
        can_execute(old(machine), operator),
    ensures
        final(machine).wf(),
        performs(r, old(machine)@, final(machine)@, store_registers(old(machine)@, operator.x as int)),
{
    let i = machine.i as usize;
    let x = operator.x;
    if i + x >= MEMORY_SIZE {
        return Err(MachineError::AddressOutOfRange);
    }
    let mut k: usize = 0;
    while k <= x
        invariant
            k <= x + 1,
            x < 16,
            i + x < MEMORY_SIZE,
            i == old(machine).i,
            machine.wf(),
            machine.registers == old(machine).registers,
            machine.stack == old(machine).stack,
            machine.keyboard == old(machine).keyboard,
            machine.timers == old(machine).timers,
            machine.vram == old(machine).vram,
            machine.i == old(machine).i,
            machine.pc == old(machine).pc,
            forall|a: int|
                0 <= a < MEMORY_SIZE ==> #[trigger] machine.memory.cells@[a] == if i <= a < i + k {
                    old(machine).registers.v@[a - i]
                } else {
                    old(machine).memory.cells@[a]
                },
        decreases x + 1 - k,
    {
        machine.memory.cells[i + k] = machine.registers.v[k];
        k = k + 1;
    }
    machine.pc = machine.pc + 2;
    assert(machine.memory.cells@ =~= store_registers(old(machine)@, x as int)->Ok_0.memory);
    Ok(())
}

/// Fx65: loads V0 to VX from memory from I on; I is left unchanged. A fault
/// if I + x is past the end of memory.
pub fn execute_fx65(machine: &mut Machine, operator: &Operator) -> (r: Result<(), MachineError>)
    requires
        can_execute(old(machine), operator),
    ensures
        final(machine).wf(),
        performs(r, old(machine)@, final(machine)@, load_registers(old(machine)@, operator.x as int)),
{
    let i = machine.i as usize;
    let x = operator.x;
    if i + x >= MEMORY_SIZE {
        return Err(MachineError::AddressOutOfRange);
    }
    let mut k: usize = 0;
    while k <= x
        invariant
            k <= x + 1,
            x < 16,
            i + x < MEMORY_SIZE,
            i == old(machine).i,
            machine.wf(),
            machine.memory == old(machine).memory,
            machine.stack == old(machine).stack,
            machine.keyboard == old(machine).keyboard,
            machine.timers == old(machine).timers,
            machine.vram == old(machine).vram,
            machine.i == old(machine).i,
            machine.pc == old(machine).pc,
            forall|a: int|
                0 <= a < 16 ==> #[trigger] machine.registers.v@[a] == if a < k {
                    old(machine).memory.cells@[i + a]
                } else {
                    old(machine).registers.v@[a]
                },
        decreases x + 1 - k,
    {
        machine.registers.v[k] = machine.memory.cells[i + k];
        k = k + 1;
    }
    machine.pc = machine.pc + 2;
    assert(machine.registers.v@ =~= load_registers(old(machine)@, x as int)->Ok_0.v);
    Ok(())
}

/// Relies on `rand::thread_rng` and `rand::Rng::gen::<u8>`: a byte drawn
/// from the thread's generator. Nothing is promised of its value.
#[verifier::external_body]
pub(crate) fn random_byte() -> (byte: u8) {
    rand::Rng::gen::<u8>(&mut rand::thread_rng())
}

} // verus!
