//! The machine: its state, the fetch-decode-execute cycle and the frame driver.

pub mod graphics;
pub mod instructions;
pub mod keyboard;
pub mod memory;
pub mod operator;
pub mod registers;
pub mod stack;
pub mod theorems;
pub mod timers;

use vstd::prelude::*;
use crate::vm::graphics::{blank, VRam, VRAM_HEIGHT, VRAM_WIDTH};
use crate::vm::keyboard::{KeyBoard, KEY_COUNT};
use crate::vm::memory::{initial_memory, Memory, MEMORY_SIZE, PROGRAM_START};
use crate::vm::registers::{Registers, REGISTER_COUNT};
use crate::vm::stack::{Stack, STACK_CAPACITY};
use crate::vm::timers::{tick, Timers};
use crate::vm::instructions::{
    execute, execute_00e0, execute_00ee, execute_1nnn, execute_2nnn, execute_3nnn, execute_4nnn,
    execute_5xy0, execute_6xnn, execute_7xnn, execute_8xy0, execute_8xy1, execute_8xy2,
    execute_8xy3, execute_8xy4, execute_8xy5, execute_8xy6, execute_8xy7, execute_8xye,
    execute_9xy0, execute_annn, execute_bnnn, execute_cxnn_with, execute_dxyn, execute_ex9e,
    execute_exa1, execute_fx07, execute_fx0a, execute_fx15, execute_fx18, execute_fx1e,
    execute_fx29, execute_fx33, execute_fx55, execute_fx65, random_byte,
};
use crate::vm::operator::{opcode_at, operator_of, Instruction, Operator};

verus! {

/// A fault that halts the machine: no valid program causes one.
#[derive(Clone, Copy, Debug, PartialEq, Eq, Structural)]
pub enum MachineError {
    /// A return with no pending call.
    StackUnderflow,
    /// A call with the stack already full.
    StackOverflow,
    /// The program counter leaves no room to fetch two bytes.
    PcOutOfRange,
    /// An instruction reads or writes memory past its end.
    AddressOutOfRange,
    /// A key instruction names a key that the keypad does not have.
    InvalidKey,
}

/// The whole state of a machine as mathematical values.
pub struct MachineState {
    pub memory: Seq<u8>,
    pub v: Seq<u8>,
    pub i: u16,
    pub pc: u16,
    pub stack: Seq<u16>,
    pub dt: u8,
    pub st: u8,
    pub keys: Seq<bool>,
    pub keypress_awaited: bool,
    pub key_register: usize,
    pub pixels: Seq<Seq<u8>>,
    pub changed: bool,
}

/// The state of a freshly built machine.
pub open spec fn initial_state() -> MachineState {
    MachineState {
        memory: initial_memory(),
        v: Seq::new(REGISTER_COUNT as nat, |k: int| 0u8),
        i: 0,
        pc: PROGRAM_START as u16,
        stack: Seq::empty(),
        dt: 0,
        st: 0,
        keys: Seq::new(KEY_COUNT as nat, |k: int| false),
        keypress_awaited: false,
        key_register: 0,
        pixels: blank(VRAM_WIDTH as nat, VRAM_HEIGHT as nat),
        changed: false,
    }
}

/// The shape of every state of a well-formed machine.
pub open spec fn valid_state(m: MachineState) -> bool {
    &&& m.memory.len() == MEMORY_SIZE
    &&& m.v.len() == REGISTER_COUNT
    &&& m.stack.len() <= STACK_CAPACITY
    &&& m.keys.len() == KEY_COUNT
    &&& m.key_register < KEY_COUNT
    &&& m.pixels.len() == VRAM_HEIGHT
    &&& forall|r: int| 0 <= r < VRAM_HEIGHT ==> #[trigger] m.pixels[r].len() == VRAM_WIDTH
    &&& forall|r: int, c: int|
        0 <= r < VRAM_HEIGHT && 0 <= c < VRAM_WIDTH ==> #[trigger] m.pixels[r][c] <= 1
}

/// Whether two bytes can be fetched at `pc`.
pub open spec fn fetchable(pc: u16) -> bool {
    pc + 1 < MEMORY_SIZE
}

/// Whether a step that returned `r` and left the machine in `after`, from
/// `before`, did what `expected` says: on success the new state is the
/// expected one; on a fault the error is the expected one and the state is
/// unchanged.
pub open spec fn performs(
    r: Result<(), MachineError>,
    before: MachineState,
    after: MachineState,
    expected: Result<MachineState, MachineError>,
) -> bool {
    match expected {
        Ok(s) => r is Ok && after == s,
        Err(e) => r == Err::<(), MachineError>(e) && after == before,
    }
}

/// One fetch-decode-execute cycle from `m`; `byte` is the random byte that
/// Cxnn uses. A fault if no opcode can be fetched at the program counter.
pub open spec fn cycle(m: MachineState, byte: u8) -> Result<MachineState, MachineError> {
    if !fetchable(m.pc) {
        Err(MachineError::PcOutOfRange)
    } else {
        execute(m, operator_of(opcode_at(m.memory, m.pc), m.v), byte)
    }
}

/// The first key at or after `from` that is down, if any.
pub open spec fn first_pressed(keys: Seq<bool>, from: int) -> Option<int>
    decreases keys.len() - from,
{
    if from < 0 || from >= keys.len() {
        None
    } else if keys[from] {
        Some(from)
    } else {
        first_pressed(keys, from + 1)
    }
}

/// The start of every frame: the changed flag cleared and the keypad state
/// replaced by `keys`.
pub open spec fn with_keys(m: MachineState, keys: Seq<bool>) -> MachineState {
    MachineState { changed: false, keys, ..m }
}

/// Both timers ticked once.
pub open spec fn ticked(m: MachineState) -> MachineState {
    MachineState { dt: tick(m.dt), st: tick(m.st), ..m }
}

/// The state in which a frame's cycle, if it runs one, begins.
pub open spec fn before_cycle(m: MachineState, keys: Seq<bool>) -> MachineState {
    if m.keypress_awaited {
        with_keys(m, keys)
    } else {
        ticked(with_keys(m, keys))
    }
}

/// One frame with the keys `keys` down. While a key-wait is latched, the
/// first key down (if any) is stored in the awaited register and the latch
/// cleared, and no cycle runs. Otherwise the timers tick and one cycle runs.
pub open spec fn frame(m: MachineState, keys: Seq<bool>, byte: u8) -> Result<MachineState, MachineError> {
    let m1 = before_cycle(m, keys);
    if m.keypress_awaited {
        Ok(
            match first_pressed(keys, 0) {
                Some(k) => MachineState {
                    keypress_awaited: false,
                    v: m1.v.update(m.key_register as int, k as u8),
                    ..m1
                },
                None => m1,
            },
        )
    } else {
        cycle(m1, byte)
    }
}

/// Whether a frame from `before` with `keys` and `byte`, which ended with
/// `outcome` in state `after`, did what `frame` says. On a fault the state
/// is the one in which the failed cycle began.
pub open spec fn frame_performed(
    before: MachineState,
    keys: Seq<bool>,
    byte: u8,
    outcome: Result<(), MachineError>,
    after: MachineState,
) -> bool {
    match frame(before, keys, byte) {
        Ok(s) => outcome is Ok && after == s,
        Err(e) => outcome == Err::<(), MachineError>(e) && after == before_cycle(before, keys),
    }
}

/// Success or the fault of a frame, without its report.
pub open spec fn status<'a>(r: Result<OutputState<'a>, MachineError>) -> Result<(), MachineError> {
    match r {
        Ok(_) => Ok(()),
        Err(e) => Err(e),
    }
}

/// What a frame reports to the host.
pub struct OutputState<'a> {
    /// The framebuffer, with its changed flag.
    pub vram: &'a VRam,
    /// Whether a tone should sound: the sound timer is nonzero.
    pub play_sound: bool,
}

pub struct Machine {
    pub vram: VRam,
    pub keyboard: KeyBoard,
    pub memory: Memory,
    pub registers: Registers,
    pub stack: Stack,
    pub timers: Timers,
    /// The 16-bit index register I.
    pub i: u16,
    /// The program counter.
    pub pc: u16,
}

impl View for Machine {
    type V = MachineState;

    open spec fn view(&self) -> MachineState {
        MachineState {
            memory: self.memory.cells@,
            v: self.registers.v@,
            i: self.i,
            pc: self.pc,
            stack: self.stack.cells@,
            dt: self.timers.dt,
            st: self.timers.st,
            keys: self.keyboard.keys@,
            keypress_awaited: self.keyboard.keypress_awaited,
            key_register: self.keyboard.key_register,
            pixels: self.vram.grid(),
            changed: self.vram.state_changed,
        }
    }
}

impl Machine {
    pub open spec fn wf(&self) -> bool {
        &&& self.memory.wf()
        &&& self.registers.wf()
        &&& self.stack.wf()
        &&& self.keyboard.wf()
        &&& self.vram.wf()
    }

    /// A machine with the font loaded, every register, timer and pixel at
    /// zero, an empty stack, and the program counter at `PROGRAM_START`.
    pub fn new() -> (m: Machine)
        ensures
            m.wf(),
            m@ == initial_state(),
    {
        let m = Machine {
            vram: VRam::new(VRAM_WIDTH, VRAM_HEIGHT),
            keyboard: KeyBoard::new(),
            memory: Memory::new(),
            registers: Registers::new(),
            stack: Stack::new(),
            timers: Timers::new(),
            i: 0,
            pc: 0x200,
        };
        assert(m.registers.v@ =~= initial_state().v);
        assert(m.keyboard.keys@ =~= initial_state().keys);
        m
    }

    /// The operator at the program counter.
    pub fn get_operators(&self) -> (op: Operator)
        requires
            self.wf(),
            fetchable(self.pc),
        ensures
            op == operator_of(opcode_at(self@.memory, self.pc), self@.v),
    {
        Operator::get_operators(self)
    }

    /// Runs one fetch-decode-execute cycle; `byte` is the random byte that
    /// Cxnn uses. An opcode that names no instruction changes nothing.
    #[verifier::rlimit(50)]
    pub fn emulate_cycle(&mut self, byte: u8) -> (r: Result<(), MachineError>)
        requires
            old(self).wf(),
        ensures
            final(self).wf(),
            performs(r, old(self)@, final(self)@, cycle(old(self)@, byte)),
    {
        if self.pc as usize + 1 >= MEMORY_SIZE {
            return Err(MachineError::PcOutOfRange);
        }
        let operator = self.get_operators();
        match Instruction::decode(&operator) {
            Instruction::ClearScreen => {
                execute_00e0(self);
                Ok(())
            },
            Instruction::Return => execute_00ee(self),
            Instruction::Jump => {
                execute_1nnn(self, &operator);
                Ok(())
            },
            Instruction::Call => execute_2nnn(self, &operator),
            Instruction::SkipIfEqual => {
                execute_3nnn(self, &operator);
                Ok(())
            },
            Instruction::SkipIfNotEqual => {
                execute_4nnn(self, &operator);
                Ok(())
            },
            Instruction::SkipIfRegistersEqual => {
                execute_5xy0(self, &operator);
                Ok(())
            },
            Instruction::Load => {
                execute_6xnn(self, &operator);
                Ok(())
            },
            Instruction::AddImmediate => {
                execute_7xnn(self, &operator);
                Ok(())
            },
            Instruction::Assign => {
                execute_8xy0(self, &operator);
                Ok(())
            },
            Instruction::Or => {
                execute_8xy1(self, &operator);
                Ok(())
            },
            Instruction::And => {
                execute_8xy2(self, &operator);
                Ok(())
            },
            Instruction::Xor => {
                execute_8xy3(self, &operator);
                Ok(())
            },
            Instruction::Add => {
                execute_8xy4(self, &operator);
                Ok(())
            },
            Instruction::Subtract => {
                execute_8xy5(self, &operator);
                Ok(())
            },
            Instruction::ShiftRight => {
                execute_8xy6(self, &operator);
                Ok(())
            },
            Instruction::SubtractReversed => {
                execute_8xy7(self, &operator);
                Ok(())
            },
            Instruction::ShiftLeft => {
                execute_8xye(self, &operator);
                Ok(())
            },
            Instruction::SkipIfRegistersNotEqual => {
                execute_9xy0(self, &operator);
                Ok(())
            },
            Instruction::SetIndex => {
                execute_annn(self, &operator);
                Ok(())
            },
            Instruction::JumpOffset => {
                execute_bnnn(self, &operator);
                Ok(())
            },
            Instruction::Random => {
                execute_cxnn_with(self, &operator, byte);
                Ok(())
            },
            Instruction::Draw => execute_dxyn(self, &operator),
            Instruction::SkipIfKey => execute_ex9e(self, &operator),
            Instruction::SkipIfNotKey => execute_exa1(self, &operator),
            Instruction::ReadDelay => {
                execute_fx07(self, &operator);
                Ok(())
            },
            Instruction::WaitKey => {
                execute_fx0a(self, &operator);
                Ok(())
            },
            Instruction::SetDelay => {
                execute_fx15(self, &operator);
                Ok(())
            },
            Instruction::SetSound => {
                execute_fx18(self, &operator);
                Ok(())
            },
            Instruction::AddIndex => {
                execute_fx1e(self, &operator);
                Ok(())
            },
            Instruction::FontSprite => {
                execute_fx29(self, &operator);
                Ok(())
            },
            Instruction::StoreBcd => execute_fx33(self, &operator),
            Instruction::StoreRegisters => execute_fx55(self, &operator),
            Instruction::LoadRegisters => execute_fx65(self, &operator),
            Instruction::Unknown => Ok(()),
        }
    }

    /// Runs one frame with the keys `keys` down, given the random byte that
    /// Cxnn would use: clears the changed flag, takes the keys, and then
    /// either serves a latched key-wait (running no cycle) or ticks the
    /// timers and runs one cycle. On success it reports the framebuffer and
    /// whether a tone should sound.
    pub fn process_keys_with(&mut self, keys: Vec<bool>, byte: u8) -> (r: Result<
        OutputState,
        MachineError,
    >)
        requires
            old(self).wf(),
            keys@.len() == KEY_COUNT,
        ensures
            final(self).wf(),
            frame_performed(old(self)@, keys@, byte, status(r), final(self)@),
            r is Ok ==> r->Ok_0.play_sound == (final(self).timers.st != 0),
            r is Ok ==> *r->Ok_0.vram == final(self).vram,
    {
        let ghost keys_view = keys@;
        self.vram.state_changed = false;
        self.keyboard.keys = keys;
        if self.keyboard.keypress_awaited {
            let mut k: usize = 0;
            while k < KEY_COUNT && !self.keyboard.keys[k]
                invariant
                    k <= KEY_COUNT,
                    self.wf(),
                    self@ == before_cycle(old(self)@, keys_view),
                    first_pressed(keys_view, 0) == first_pressed(keys_view, k as int),
                decreases KEY_COUNT - k,
            {
                k = k + 1;
            }
            if k < KEY_COUNT {
                self.keyboard.keypress_awaited = false;
                let register = self.keyboard.key_register;
                self.registers.v[register] = k as u8;
            }
        } else {
            if self.timers.st > 0 {
                self.timers.st = self.timers.st - 1;
            }
            if self.timers.dt > 0 {
                self.timers.dt = self.timers.dt - 1;
            }
            let outcome = self.emulate_cycle(byte);
            if let Err(e) = outcome {
                return Err(e);
            }
        }
        Ok(OutputState { vram: &self.vram, play_sound: self.timers.st > 0 })
    }

    /// Runs one frame with the keys `keys` down, as `process_keys_with`
    /// does, with a freshly drawn random byte.
    pub fn process_keys(&mut self, keys: Vec<bool>) -> (r: Result<OutputState, MachineError>)
        requires
            old(self).wf(),
            keys@.len() == KEY_COUNT,
        ensures
            final(self).wf(),
            exists|byte: u8| #[trigger] frame_performed(old(self)@, keys@, byte, status(r), final(self)@),
            r is Ok ==> r->Ok_0.play_sound == (final(self).timers.st != 0),
            r is Ok ==> *r->Ok_0.vram == final(self).vram,
    {
        let byte = random_byte();
        self.process_keys_with(keys, byte)
    }
}

} // verus!
