//! The mathematical model of the machine and of one fetch-decode-execute cycle.
use vstd::prelude::*;
use crate::instruction::{Instruction, DecodeError, spec_decode};
use crate::sprite::{draw_progress, SCREEN_SIZE};

verus! {

/// Bytes of addressable memory.
pub const MEMORY_SIZE: usize = 4096;

/// Number of general registers `V0..=VF`.
pub const REGISTER_COUNT: usize = 16;

/// Number of return addresses the stack holds.
pub const STACK_SIZE: usize = 16;

/// Number of keys of the hex keypad.
pub const KEY_COUNT: usize = 16;

/// Address at which programs are loaded and execution starts.
pub const PROGRAM_START: u16 = 0x200;

/// Address of the built-in font sprites.
pub const FONT_START: u16 = 0x050;

/// Index of the flag register `VF`.
pub const FLAG: usize = 15;

/// The state of the machine as values.
#[verifier::ext_equal]
pub struct CpuState {
    pub memory: Seq<u8>,
    pub v: Seq<u8>,
    pub index: u16,
    pub pc: u16,
    pub graphics: Seq<u8>,
    pub delay_timer: u8,
    pub sound_timer: u8,
    pub stack: Seq<u16>,
    pub sp: u16,
    pub keys: Seq<u8>,
    pub draw_flag: bool,
    pub wait_flag: bool,
    pub wait_register: u8,
}

/// Why a cycle cannot run from a state.
#[derive(Clone, Copy, Debug, PartialEq, Eq, Structural)]
pub enum CycleFault {
    /// The program counter leaves no room for a two-byte opcode in memory.
    ProgramCounterOutOfRange,
    /// A `0NNN` machine-code routine call, which is not implemented.
    MachineCodeRoutine,
    /// An opcode that names no instruction.
    UnknownInstruction,
    /// `00EE` with an empty stack.
    StackUnderflow,
    /// `2NNN` with a full stack, or `00EE` with a stack pointer past the stack.
    StackOverflow,
    /// The instruction reads or writes memory past its end.
    MemoryOutOfRange,
    /// `EX9E` or `EXA1` with a key number in `VX` that is not a key.
    KeyOutOfRange,
}

impl CpuState {
    /// Every part of the state has its machine size.
    pub open spec fn wf(self) -> bool {
        &&& self.memory.len() == MEMORY_SIZE
        &&& self.v.len() == REGISTER_COUNT
        &&& self.graphics.len() == SCREEN_SIZE
        &&& self.stack.len() == STACK_SIZE
        &&& self.keys.len() == KEY_COUNT
    }

    /// The opcode at the program counter, high byte first.
    pub open spec fn fetch(self) -> u16 {
        (self.memory[self.pc as int] as int * 256 + self.memory[self.pc + 1] as int) as u16
    }

    /// The program counter moved on by `n` bytes.
    pub open spec fn advance(self, n: int) -> CpuState {
        CpuState { pc: (self.pc + n) as u16, ..self }
    }

    /// The program counter moved past the next instruction when `cond` holds,
    /// and past this one otherwise.
    pub open spec fn skip_if(self, cond: bool) -> CpuState {
        self.advance(if cond { 4 } else { 2 })
    }

    /// Register `VX` set to `value`, and the program counter moved on.
    pub open spec fn set_register(self, x: u8, value: u8) -> CpuState {
        CpuState { v: self.v.update(x as int, value), ..self }.advance(2)
    }

    /// The flag register set to `flag`, then `VX` set to `f` applied to the
    /// registers as they are after the flag was set, then the program counter
    /// moved on.
    pub open spec fn flag_then_set(self, x: u8, flag: u8, value: spec_fn(Seq<u8>) -> u8) -> CpuState {
        let flagged = self.v.update(FLAG as int, flag);
        CpuState { v: flagged.update(x as int, value(flagged)), ..self }.advance(2)
    }

    /// The rows of the `height`-row sprite at the index register.
    pub open spec fn sprite_rows(self, height: u8) -> Seq<u8> {
        self.memory.subrange(self.index as int, self.index + height)
    }
}

/// `a + b` modulo 256.
pub open spec fn wrapping_add_u8(a: u8, b: u8) -> u8 {
    ((a + b) % 256) as u8
}

/// `a - b` modulo 256.
pub open spec fn wrapping_sub_u8(a: u8, b: u8) -> u8 {
    ((a - b + 256) % 256) as u8
}

/// `a - b` modulo 65536.
pub open spec fn wrapping_sub_u16(a: u16, b: u16) -> u16 {
    ((a - b + 65536) % 65536) as u16
}

/// `a + b` modulo 65536.
pub open spec fn wrapping_add_u16(a: u16, b: u16) -> u16 {
    ((a + b) % 65536) as u16
}

/// The registers with `V0..=VX` filled from memory at `addr`.
pub open spec fn registers_from_memory(v: Seq<u8>, memory: Seq<u8>, addr: int, x: int) -> Seq<u8> {
    Seq::new(v.len(), |i: int| if i <= x { memory[addr + i] } else { v[i] })
}

/// Memory with `V0..=VX` stored at `addr`.
pub open spec fn memory_from_registers(memory: Seq<u8>, v: Seq<u8>, addr: int, x: int) -> Seq<u8> {
    Seq::new(
        memory.len(),
        |i: int|
            if addr <= i <= addr + x {
                v[i - addr]
            } else {
                memory[i]
            },
    )
}

/// The screen and the flag register after the `height`-row sprite at the
/// index register was drawn at `(VX, VY)`.
pub open spec fn draw_spec(s: CpuState, x: u8, y: u8, height: u8) -> CpuState {
    let drawn = draw_progress(
        s.graphics,
        s.v,
        x as int,
        y as int,
        s.sprite_rows(height),
        (8 * height) as nat,
    );
    CpuState { graphics: drawn.0, v: s.v.update(FLAG as int, drawn.1), ..s }
}

/// Why an instruction cannot execute from a state, if it cannot.
pub open spec fn execute_fault(s: CpuState, ins: Instruction) -> Option<CycleFault> {
    match ins {
        Instruction::Return => if s.sp == 0 {
            Some(CycleFault::StackUnderflow)
        } else if s.sp > STACK_SIZE {
            Some(CycleFault::StackOverflow)
        } else {
            None
        },
        Instruction::Call { .. } => if s.sp >= STACK_SIZE {
            Some(CycleFault::StackOverflow)
        } else {
            None
        },
        Instruction::Draw { height, .. } => if height > 0 && s.index + height > MEMORY_SIZE {
            Some(CycleFault::MemoryOutOfRange)
        } else {
            None
        },
        Instruction::SkipIfKey { x } | Instruction::SkipIfNotKey { x } => if s.v[x as int]
            >= KEY_COUNT {
            Some(CycleFault::KeyOutOfRange)
        } else {
            None
        },
        Instruction::StoreBcd { .. } => if s.index + 2 >= MEMORY_SIZE {
            Some(CycleFault::MemoryOutOfRange)
        } else {
            None
        },
        Instruction::StoreRegisters { x } | Instruction::LoadRegisters { x } => if s.index + x
            >= MEMORY_SIZE {
            Some(CycleFault::MemoryOutOfRange)
        } else {
            None
        },
        _ => None,
    }
}

/// Why a cycle cannot run from a state, if it cannot: where the interpreter
/// stops (it panics) instead of executing.
pub open spec fn cycle_fault(s: CpuState) -> Option<CycleFault> {
    if s.pc + 1 >= MEMORY_SIZE {
        Some(CycleFault::ProgramCounterOutOfRange)
    } else {
        match spec_decode(s.fetch()) {
            Err(DecodeError::MachineCodeRoutine) => Some(CycleFault::MachineCodeRoutine),
            Err(DecodeError::UnknownInstruction) => Some(CycleFault::UnknownInstruction),
            Ok(ins) => execute_fault(s, ins),
        }
    }
}

/// A cycle can run from `s`.
pub open spec fn can_cycle(s: CpuState) -> bool {
    s.wf() && cycle_fault(s) is None
}

/// The instruction at the program counter.
pub open spec fn current_instruction(s: CpuState) -> Instruction {
    spec_decode(s.fetch())->Ok_0
}

/// The state after executing `ins`; `random` is the random byte that `CXNN`
/// masks, and nothing else reads it.
pub open spec fn execute_spec(s: CpuState, ins: Instruction, random: u8) -> CpuState {
    match ins {
        Instruction::ClearScreen => CpuState {
            graphics: Seq::new(SCREEN_SIZE as nat, |i: int| 0u8),
            draw_flag: true,
            ..s
        }.advance(2),
        Instruction::Return => CpuState {
            sp: (s.sp - 1) as u16,
            pc: s.stack[s.sp - 1],
            ..s
        },
        Instruction::Jump { addr } => CpuState { pc: addr, ..s },
        Instruction::Call { addr } => CpuState {
            stack: s.stack.update(s.sp as int, (s.pc + 2) as u16),
            sp: (s.sp + 1) as u16,
            pc: addr,
            ..s
        },
        Instruction::SkipIfEqualByte { x, byte } => s.skip_if(s.v[x as int] == byte),
        Instruction::SkipIfNotEqualByte { x, byte } => s.skip_if(s.v[x as int] != byte),
        Instruction::SkipIfEqual { x, y } => s.skip_if(s.v[x as int] == s.v[y as int]),
        Instruction::LoadByte { x, byte } => s.set_register(x, byte),
        Instruction::AddByte { x, byte } => s.set_register(x, wrapping_add_u8(s.v[x as int], byte)),
        Instruction::Move { x, y } => s.set_register(x, s.v[y as int]),
        Instruction::Or { x, y } => s.set_register(x, s.v[x as int] | s.v[y as int]),
        Instruction::And { x, y } => s.set_register(x, s.v[x as int] & s.v[y as int]),
        Instruction::Xor { x, y } => s.set_register(x, s.v[x as int] ^ s.v[y as int]),
        Instruction::Add { x, y } => s.flag_then_set(
            x,
            if s.v[x as int] + s.v[y as int] > 255 { 1u8 } else { 0u8 },
            |r: Seq<u8>| wrapping_add_u8(r[x as int], r[y as int]),
        ),
        Instruction::Sub { x, y } => s.flag_then_set(
            x,
            if s.v[x as int] > s.v[y as int] { 1u8 } else { 0u8 },
            |r: Seq<u8>| wrapping_sub_u8(r[x as int], r[y as int]),
        ),
        Instruction::ShiftRight { x } => s.flag_then_set(
            x,
            s.v[x as int] % 2,
            |r: Seq<u8>| r[x as int] / 2,
        ),
        Instruction::SubReverse { x, y } => s.flag_then_set(
            x,
            if s.v[y as int] > s.v[x as int] { 1u8 } else { 0u8 },
            |r: Seq<u8>| wrapping_sub_u8(r[y as int], r[x as int]),
        ),
        Instruction::ShiftLeft { x } => s.flag_then_set(
            x,
            s.v[x as int] / 128,
            |r: Seq<u8>| ((r[x as int] * 2) % 256) as u8,
        ),
        Instruction::SkipIfNotEqual { x, y } => s.skip_if(s.v[x as int] != s.v[y as int]),
        Instruction::SetIndex { addr } => CpuState { index: addr, ..s }.advance(2),
        Instruction::JumpOffset { addr } => CpuState { pc: (addr + s.v[0]) as u16, ..s },
        Instruction::Random { x, mask } => s.set_register(x, random & mask),
        Instruction::Draw { x, y, height } => CpuState {
            draw_flag: true,
            ..draw_spec(s, x, y, height)
        }.advance(2),
        Instruction::SkipIfKey { x } => s.skip_if(s.keys[s.v[x as int] as int] == 1),
        Instruction::SkipIfNotKey { x } => s.skip_if(s.keys[s.v[x as int] as int] == 0),
        Instruction::LoadDelay { x } => s.set_register(x, s.delay_timer),
        Instruction::WaitKey { x } => CpuState { wait_flag: true, wait_register: x, ..s }.advance(2),
        Instruction::SetDelay { x } => CpuState { delay_timer: s.v[x as int], ..s }.advance(2),
        Instruction::SetSound { x } => CpuState { sound_timer: s.v[x as int], ..s }.advance(2),
        Instruction::AddIndex { x } => {
            let flagged = s.v.update(
                FLAG as int,
                if s.v[x as int] > wrapping_sub_u16(0xFFF, s.index) { 1u8 } else { 0u8 },
            );
            CpuState {
                v: flagged,
                index: wrapping_add_u16(s.index, flagged[x as int] as u16),
                ..s
            }.advance(2)
        },
        Instruction::FontChar { x } => CpuState {
            index: (FONT_START + s.v[x as int] * 5) as u16,
            ..s
        }.advance(2),
        Instruction::StoreBcd { x } => {
            let value = s.v[x as int];
            let i = s.index as int;
            CpuState {
                memory: s.memory.update(i, value / 100).update(i + 1, (value / 10) % 10).update(
                    i + 2,
                    value % 10,
                ),
                ..s
            }.advance(2)
        },
        Instruction::StoreRegisters { x } => CpuState {
            memory: memory_from_registers(s.memory, s.v, s.index as int, x as int),
            ..s
        }.advance(2),
        Instruction::LoadRegisters { x } => CpuState {
            v: registers_from_memory(s.v, s.memory, s.index as int, x as int),
            ..s
        }.advance(2),
    }
}

/// Both timers count down by one towards zero.
pub open spec fn tick_timers(s: CpuState) -> CpuState {
    CpuState {
        delay_timer: if s.delay_timer > 0 { (s.delay_timer - 1) as u8 } else { 0u8 },
        sound_timer: if s.sound_timer > 0 { (s.sound_timer - 1) as u8 } else { 0u8 },
        ..s
    }
}

/// One cycle: fetch the opcode at the program counter, execute it, and count
/// the timers down. `random` is the random byte that a `CXNN` instruction uses.
pub open spec fn cycle_spec(s: CpuState, random: u8) -> CpuState {
    tick_timers(execute_spec(s, current_instruction(s), random))
}

/// The state after a key press ends a wait: the key is stored in the
/// register that `FX0A` named, and the machine runs again.
pub open spec fn resume_spec(s: CpuState, key: u8) -> CpuState {
    CpuState { v: s.v.update(s.wait_register as int, key), wait_flag: false, ..s }
}

} // verus!
