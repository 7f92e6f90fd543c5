//! Laws of the instruction set, proved over the machine's semantics.

use vstd::prelude::*;
use crate::vm::graphics::{VRAM_HEIGHT, VRAM_WIDTH};
use crate::vm::instructions::{collides, draw, sprite_pixel};
use crate::vm::operator::opcode_at;
use crate::vm::stack::STACK_CAPACITY;
use crate::vm::{cycle, fetchable, valid_state, MachineError, MachineState};

verus! {

/// Whether the opcode at the program counter of `m` is `opcode`.
pub open spec fn holds_opcode(m: MachineState, opcode: int) -> bool {
    &&& fetchable(m.pc)
    &&& opcode_at(m.memory, m.pc) == opcode
}

/// Executing 8xy4 leaves (VX + VY) mod 256 in VX and sets VF to 1 exactly
/// when VX + VY is 256 or more (and to 0 otherwise), then moves on to the
/// next instruction. X is not F: the sum is written after the flag.
pub proof fn add_with_carry_law(m: MachineState, x: int, y: int, byte: u8)
    requires
        valid_state(m),
        0 <= x < 15,
        0 <= y < 16,
        holds_opcode(m, 0x8004 + x * 0x100 + y * 0x10),
    ensures
        cycle(m, byte) is Ok,
        cycle(m, byte)->Ok_0.v[x] == (m.v[x] + m.v[y]) % 256,
        cycle(m, byte)->Ok_0.v[15] == (if m.v[x] + m.v[y] >= 256 { 1u8 } else { 0u8 }),
        cycle(m, byte)->Ok_0.pc == m.pc + 2,
{
}

/// Executing 8xy5 sets VF to 1 exactly when VX >= VY (no borrow, and to 0
/// otherwise) and leaves (VX - VY) mod 256 in VX. X is not F: the
/// difference is written after the flag.
pub proof fn subtract_law(m: MachineState, x: int, y: int, byte: u8)
    requires
        valid_state(m),
        0 <= x < 15,
        0 <= y < 16,
        holds_opcode(m, 0x8005 + x * 0x100 + y * 0x10),
    ensures
        cycle(m, byte) is Ok,
        cycle(m, byte)->Ok_0.v[15] == (if m.v[x] >= m.v[y] { 1u8 } else { 0u8 }),
        cycle(m, byte)->Ok_0.v[x] == (m.v[x] - m.v[y]) % 256,
        cycle(m, byte)->Ok_0.pc == m.pc + 2,
{
}

/// 3xnn moves the program counter on by 4 when VX == nn and by 2 otherwise;
/// 4xnn does the reverse.
pub proof fn skip_law(m: MachineState, x: int, nn: int, byte: u8)
    requires
        valid_state(m),
        0 <= x < 16,
        0 <= nn < 256,
    ensures
        holds_opcode(m, 0x3000 + x * 0x100 + nn) ==> cycle(m, byte) == Ok::<
            MachineState,
            MachineError,
        >(MachineState { pc: (m.pc + if m.v[x] == nn { 4int } else { 2int }) as u16, ..m }),
        holds_opcode(m, 0x4000 + x * 0x100 + nn) ==> cycle(m, byte) == Ok::<
            MachineState,
            MachineError,
        >(MachineState { pc: (m.pc + if m.v[x] != nn { 4int } else { 2int }) as u16, ..m }),
{
}

/// A call to A followed by the return at A brings the program counter back
/// to the instruction after the call, with the stack as it was.
pub proof fn call_return_law(m: MachineState, a: int, byte: u8)
    requires
        valid_state(m),
        0 <= a < 0x1000,
        m.stack.len() < STACK_CAPACITY,
        holds_opcode(m, 0x2000 + a),
        fetchable(a as u16),
        opcode_at(m.memory, a as u16) == 0x00EE,
    ensures
        cycle(m, byte) is Ok,
        cycle(m, byte)->Ok_0.pc == a,
        cycle(cycle(m, byte)->Ok_0, byte) is Ok,
        cycle(cycle(m, byte)->Ok_0, byte)->Ok_0.pc == m.pc + 2,
        cycle(cycle(m, byte)->Ok_0, byte)->Ok_0.stack == m.stack,
{
    let s1 = cycle(m, byte)->Ok_0;
    assert(s1.stack.drop_last() =~= m.stack);
}

proof fn lemma_xor_twice(a: u8, b: u8)
    by (bit_vector)
    ensures
        (a ^ b) ^ b == a,
{
}

/// Drawing the same sprite at the same place twice in a row restores the
/// screen, and the second draw's flag reports collisions with the screen
/// that the first draw left.
pub proof fn draw_twice_law(m: MachineState, vx: u8, vy: u8, n: u8)
    requires
        valid_state(m),
        draw(m, vx, vy, n) is Ok,
    ensures
        draw(draw(m, vx, vy, n)->Ok_0, vx, vy, n) is Ok,
        draw(draw(m, vx, vy, n)->Ok_0, vx, vy, n)->Ok_0.pixels == m.pixels,
        draw(draw(m, vx, vy, n)->Ok_0, vx, vy, n)->Ok_0.v[15] == (if collides(
            draw(m, vx, vy, n)->Ok_0,
            vx,
            vy,
            n,
        ) {
            1u8
        } else {
            0u8
        }),
{
    let s1 = draw(m, vx, vy, n)->Ok_0;
    let s2 = draw(s1, vx, vy, n)->Ok_0;
    assert forall|r: int| 0 <= r < VRAM_HEIGHT implies #[trigger] s2.pixels[r] =~= m.pixels[r] by {
        assert forall|c: int| 0 <= c < VRAM_WIDTH implies s2.pixels[r][c] == m.pixels[r][c] by {
            assert(sprite_pixel(s1, vx, vy, n, r, c) == sprite_pixel(m, vx, vy, n, r, c));
            lemma_xor_twice(m.pixels[r][c], sprite_pixel(m, vx, vy, n, r, c));
        }
    }
    assert(s2.pixels =~= m.pixels);
}

} // verus!
