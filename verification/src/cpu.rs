//! The CHIP-8 interpreter state and its operations.
use vstd::prelude::*;
use crate::keypad::HostKey;
use crate::sprite::{SCREEN_SIZE, draw_progress, lemma_pixel_cell_in_range};
use crate::instruction::{Instruction, DecodeError, decode, operands_in_range};
use crate::rng::random_byte;
use crate::state::{CpuState, CycleFault, cycle_spec, execute_spec, memory_from_registers, registers_from_memory, resume_spec, draw_spec, execute_fault, cycle_fault, can_cycle, current_instruction, FLAG, MEMORY_SIZE, REGISTER_COUNT, STACK_SIZE, KEY_COUNT, PROGRAM_START, FONT_START};

verus! {

/// The machine: memory, registers, screen, timers, stack and keypad.
///
/// The fields are public, so that a caller can set up a state directly. The
/// view leaves out `opcode`, which each cycle overwrites before it reads it.
pub struct Cpu {
    /// The opcode that the latest cycle fetched.
    pub opcode: u16,
    /// Memory map: `0x000..0x200` interpreter, `0x050..0x0A0` fonts,
    /// `0x200..0x1000` program and data.
    pub memory: [u8; MEMORY_SIZE],
    /// Registers `V0..=VF`; `VF` doubles as the flag register.
    pub v: [u8; REGISTER_COUNT],
    /// Index register `I`.
    pub index: u16,
    /// Program counter.
    pub pc: u16,
    /// The 64 x 32 black and white screen, one byte per pixel, row by row.
    pub graphics: [u8; SCREEN_SIZE],
    pub delay_timer: u8,
    pub sound_timer: u8,
    /// Return addresses of the subroutine calls in progress.
    pub stack: [u16; STACK_SIZE],
    /// Number of return addresses on the stack.
    pub sp: u16,
    /// Keypad state: 1 for a pressed key, 0 for a released one.
    pub keys: [u8; KEY_COUNT],
    /// The screen changed since it was last drawn.
    pub draw_flag: bool,
    /// The machine waits for a key press (`FX0A`).
    pub wait_flag: bool,
    /// The register that receives the key press awaited.
    pub wait_register: u8,
}

impl View for Cpu {
    type V = CpuState;

    open spec fn view(&self) -> CpuState {
        CpuState {
            memory: self.memory@,
            v: self.v@,
            index: self.index,
            pc: self.pc,
            graphics: self.graphics@,
            delay_timer: self.delay_timer,
            sound_timer: self.sound_timer,
            stack: self.stack@,
            sp: self.sp,
            keys: self.keys@,
            draw_flag: self.draw_flag,
            wait_flag: self.wait_flag,
            wait_register: self.wait_register,
        }
    }
}

/// The sixteen font sprites for the hex digits `0..=F`, five rows each.
pub open spec fn font_data() -> Seq<u8> {
    seq![
        0xF0u8, 0x90, 0x90, 0x90, 0xF0,  // 0
        0x20, 0x60, 0x20, 0x20, 0x70,  // 1
        0xF0, 0x10, 0xF0, 0x80, 0xF0,  // 2
        0xF0, 0x10, 0xF0, 0x10, 0xF0,  // 3
        0x90, 0x90, 0xF0, 0x10, 0x10,  // 4
        0xF0, 0x80, 0xF0, 0x10, 0xF0,  // 5
        0xF0, 0x80, 0xF0, 0x90, 0xF0,  // 6
        0xF0, 0x10, 0x20, 0x40, 0x40,  // 7
        0xF0, 0x90, 0xF0, 0x90, 0xF0,  // 8
        0xF0, 0x90, 0xF0, 0x10, 0xF0,  // 9
        0xF0, 0x90, 0xF0, 0x90, 0x90,  // A
        0xE0, 0x90, 0xE0, 0x90, 0xE0,  // B
        0xF0, 0x80, 0x80, 0x80, 0xF0,  // C
        0xE0, 0x90, 0x90, 0x90, 0xE0,  // D
        0xF0, 0x80, 0xF0, 0x80, 0xF0,  // E
        0xF0, 0x80, 0xF0, 0x80, 0x80,  // F
    ]
}

/// Number of font bytes copied into memory: five rows for each of the
/// sixteen digits, filling `0x050..0x0A0`.
pub const FONT_BYTES_LOADED: usize = 80;

/// Memory with the font copied in at `FONT_START`.
pub open spec fn with_font(memory: Seq<u8>) -> Seq<u8> {
    Seq::new(
        memory.len(),
        |i: int|
            if FONT_START <= i < FONT_START + FONT_BYTES_LOADED {
                font_data()[i - FONT_START]
            } else {
                memory[i]
            },
    )
}

/// The state of a freshly started machine: everything zero but the program
/// counter, which is at `PROGRAM_START`, and the font in memory.
pub open spec fn initial_state() -> CpuState {
    CpuState {
        memory: with_font(Seq::new(MEMORY_SIZE as nat, |i: int| 0u8)),
        v: Seq::new(REGISTER_COUNT as nat, |i: int| 0u8),
        index: 0,
        pc: PROGRAM_START,
        graphics: Seq::new(SCREEN_SIZE as nat, |i: int| 0u8),
        delay_timer: 0,
        sound_timer: 0,
        stack: Seq::new(STACK_SIZE as nat, |i: int| 0u16),
        sp: 0,
        keys: Seq::new(KEY_COUNT as nat, |i: int| 0u8),
        draw_flag: false,
        wait_flag: false,
        wait_register: 0,
    }
}

/// Memory with `data` copied in at `PROGRAM_START`.
pub open spec fn with_program(memory: Seq<u8>, data: Seq<u8>) -> Seq<u8> {
    Seq::new(
        memory.len(),
        |i: int|
            if PROGRAM_START <= i < PROGRAM_START + data.len() {
                data[i - PROGRAM_START]
            } else {
                memory[i]
            },
    )
}

/// The RGBA frame for a screen: four bytes per pixel, all `0xFF` for a pixel
/// that is set and all `0` for one that is clear.
pub open spec fn rgba_frame(graphics: Seq<u8>) -> Seq<u8> {
    Seq::new(4 * graphics.len(), |i: int| if graphics[i / 4] == 0 { 0u8 } else { 0xFFu8 })
}

/// The keypad after a scan: the key that host key `k` stands for holds 1 when
/// `pressed[k.layout_index()]` and 0 otherwise.
pub open spec fn keys_from_host(pressed: Seq<bool>) -> Seq<u8> {
    Seq::new(
        KEY_COUNT as nat,
        |k: int|
            if pressed[HostKey::for_keypad_value(k as u8).layout_index()] {
                1u8
            } else {
                0u8
            },
    )
}

/// Jumps, calls, returns, skips and the screen clear.
spec fn is_control_flow(ins: Instruction) -> bool {
    ||| ins is ClearScreen
    ||| ins is Return
    ||| ins is Jump
    ||| ins is Call
    ||| ins is SkipIfEqualByte
    ||| ins is SkipIfNotEqualByte
    ||| ins is SkipIfEqual
    ||| ins is SkipIfNotEqual
    ||| ins is JumpOffset
    ||| ins is SkipIfKey
    ||| ins is SkipIfNotKey
}

/// Instructions that only set registers and move on.
spec fn is_register_op(ins: Instruction) -> bool {
    ||| ins is LoadByte
    ||| ins is AddByte
    ||| ins is Move
    ||| ins is Or
    ||| ins is And
    ||| ins is Xor
    ||| ins is Random
    ||| ins is LoadDelay
}

/// Instructions on the index register, timers, memory, screen or keypad wait.
spec fn is_system_op(ins: Instruction) -> bool {
    ||| ins is SetIndex
    ||| ins is Draw
    ||| ins is WaitKey
    ||| ins is SetDelay
    ||| ins is SetSound
    ||| ins is AddIndex
    ||| ins is FontChar
    ||| ins is StoreBcd
    ||| ins is StoreRegisters
    ||| ins is LoadRegisters
}

proof fn lemma_combine_bytes(hi: u8, lo: u8)
    by (bit_vector)
    ensures
        ((hi as u16) << 8u16) | (lo as u16) == hi * 256 + lo,
{
}

proof fn lemma_shift_right_one(value: u8)
    by (bit_vector)
    ensures
        value & 1 == value % 2,
        value >> 1u8 == value / 2,
{
}

proof fn lemma_shift_left_one(value: u8)
    by (bit_vector)
    ensures
        value >> 7u8 == value / 128,
        value << 1u8 == ((value * 2) % 256) as u8,
{
}

fn fontset() -> (fonts: [u8; 80])
    ensures
        fonts@ == font_data(),
{
    let fonts: [u8; 80] = [
        0xF0, 0x90, 0x90, 0x90, 0xF0,  // 0
        0x20, 0x60, 0x20, 0x20, 0x70,  // 1
        0xF0, 0x10, 0xF0, 0x80, 0xF0,  // 2
        0xF0, 0x10, 0xF0, 0x10, 0xF0,  // 3
        0x90, 0x90, 0xF0, 0x10, 0x10,  // 4
        0xF0, 0x80, 0xF0, 0x10, 0xF0,  // 5
        0xF0, 0x80, 0xF0, 0x90, 0xF0,  // 6
        0xF0, 0x10, 0x20, 0x40, 0x40,  // 7
        0xF0, 0x90, 0xF0, 0x90, 0xF0,  // 8
        0xF0, 0x90, 0xF0, 0x10, 0xF0,  // 9
        0xF0, 0x90, 0xF0, 0x90, 0x90,  // A
        0xE0, 0x90, 0xE0, 0x90, 0xE0,  // B
        0xF0, 0x80, 0x80, 0x80, 0xF0,  // C
        0xE0, 0x90, 0x90, 0x90, 0xE0,  // D
        0xF0, 0x80, 0xF0, 0x80, 0xF0,  // E
        0xF0, 0x80, 0xF0, 0x80, 0x80,  // F
    ];
    assert(fonts@ =~= font_data());
    fonts
}

impl Cpu {
    /// A freshly started machine, with the font in memory.
    pub fn new() -> (cpu: Cpu)
        ensures
            cpu@ == initial_state(),
            cpu.opcode == 0,
    {
        let mut init_cpu = Cpu {
            pc: PROGRAM_START,
            opcode: 0,
            index: 0,
            sp: 0,
            graphics: [0; SCREEN_SIZE],
            stack: [0; STACK_SIZE],
            v: [0; REGISTER_COUNT],
            memory: [0; MEMORY_SIZE],
            delay_timer: 0,
            sound_timer: 0,
            keys: [0; KEY_COUNT],
            draw_flag: false,
            wait_flag: false,
            wait_register: 0,
        };
        init_cpu.load_fontset();
        assert(init_cpu.memory@ =~= initial_state().memory);
        assert(init_cpu.graphics@ =~= initial_state().graphics);
        assert(init_cpu.stack@ =~= initial_state().stack);
        assert(init_cpu.v@ =~= initial_state().v);
        assert(init_cpu.keys@ =~= initial_state().keys);
        init_cpu
    }

    /// Copies the font into memory at `FONT_START`.
    fn load_fontset(&mut self)
        ensures
            final(self)@ == (CpuState { memory: with_font(old(self)@.memory), ..old(self)@ }),
            final(self).opcode == old(self).opcode,
    {
        let fonts = fontset();
        let mut i: usize = 0;
        while i < FONT_BYTES_LOADED
            invariant
                i <= FONT_BYTES_LOADED,
                fonts@ == font_data(),
                self@ == (CpuState { memory: self@.memory, ..old(self)@ }),
                self.opcode == old(self).opcode,
                self.memory@.len() == MEMORY_SIZE,
                forall|j: int|
                    0 <= j < MEMORY_SIZE ==> #[trigger] self.memory@[j] == if FONT_START <= j
                        < FONT_START + i {
                        font_data()[j - FONT_START]
                    } else {
                        old(self).memory@[j]
                    },
            decreases FONT_BYTES_LOADED - i,
        {
            self.memory[0x050 + i] = fonts[i];
            i += 1;
        }
        assert(self.memory@ =~= with_font(old(self)@.memory));
    }

    /// Runs one cycle with `random` as the random byte that a `CXNN`
    /// instruction masks: fetches the opcode at the program counter, executes
    /// it, and counts both timers down by one towards zero.
    pub fn run_cycle_with_random(&mut self, random: u8)
        requires
            can_cycle(old(self)@),
        ensures
            final(self)@ == cycle_spec(old(self)@, random),
            final(self).opcode == old(self)@.fetch(),
    {
        // Fetch opcode
        let op = self.fetch();
        self.opcode = op;
        // Decode and execute opcode
        if let Ok(ins) = decode(op) {
            self.execute(ins, random);
        }
        // Update timers
        if self.delay_timer > 0 {
            self.delay_timer = self.delay_timer - 1;
        }
        if self.sound_timer > 0 {
            self.sound_timer = self.sound_timer - 1;
        }
    }

    /// Runs one cycle: fetches the opcode at the program counter, executes it,
    /// and counts both timers down by one towards zero. A `CXNN` instruction
    /// draws its random byte from the thread-local generator; every other
    /// instruction ends in the state that `cycle_spec` gives for any byte.
    pub fn run_cycle(&mut self)
        requires
            can_cycle(old(self)@),
        ensures
            exists|random: u8| final(self)@ == #[trigger] cycle_spec(old(self)@, random),
            !(current_instruction(old(self)@) is Random) ==> final(self)@ == cycle_spec(
                old(self)@,
                0,
            ),
            final(self).opcode == old(self)@.fetch(),
    {
        let random = random_byte();
        self.run_cycle_with_random(random);
    }

    /// Why the next cycle cannot run, if it cannot; otherwise the instruction
    /// it will execute. Where this gives an error, the interpreter stops.
    pub fn check_cycle(&self) -> (res: Result<Instruction, CycleFault>)
        ensures
            match res {
                Ok(ins) => cycle_fault(self@) is None && ins == current_instruction(self@),
                Err(fault) => cycle_fault(self@) == Some(fault),
            },
            res is Ok <==> can_cycle(self@),
    {
        if self.pc >= 0xFFF {
            return Err(CycleFault::ProgramCounterOutOfRange);
        }
        let op = self.fetch();
        match decode(op) {
            Err(DecodeError::MachineCodeRoutine) => Err(CycleFault::MachineCodeRoutine),
            Err(DecodeError::UnknownInstruction) => Err(CycleFault::UnknownInstruction),
            Ok(ins) => match self.instruction_fault(ins) {
                Some(fault) => Err(fault),
                None => Ok(ins),
            },
        }
    }

    /// The opcode at the program counter, high byte first.
    fn fetch(&self) -> (op: u16)
        requires
            self.pc + 1 < MEMORY_SIZE,
        ensures
            op == self@.fetch(),
    {
        let hi: u8 = self.memory[self.pc as usize];
        let lo: u8 = self.memory[self.pc as usize + 1];
        proof {
            lemma_combine_bytes(hi, lo);
        }
        ((hi as u16) << 8u16) | (lo as u16)
    }

    /// Why `ins` cannot execute from this state, if it cannot.
    fn instruction_fault(&self, ins: Instruction) -> (fault: Option<CycleFault>)
        requires
            operands_in_range(ins),
        ensures
            fault == execute_fault(self@, ins),
    {
        match ins {
            Instruction::Return => if self.sp == 0 {
                Some(CycleFault::StackUnderflow)
            } else if self.sp as usize > STACK_SIZE {
                Some(CycleFault::StackOverflow)
            } else {
                None
            },
            Instruction::Call { .. } => if self.sp as usize >= STACK_SIZE {
                Some(CycleFault::StackOverflow)
            } else {
                None
            },
            Instruction::Draw { height, .. } => if height > 0 && self.index as usize
                + height as usize > MEMORY_SIZE {
                Some(CycleFault::MemoryOutOfRange)
            } else {
                None
            },
            Instruction::SkipIfKey { x } | Instruction::SkipIfNotKey { x } => if self.v[x as usize]
                as usize >= KEY_COUNT {
                Some(CycleFault::KeyOutOfRange)
            } else {
                None
            },
            Instruction::StoreBcd { .. } => if self.index as usize + 2 >= MEMORY_SIZE {
                Some(CycleFault::MemoryOutOfRange)
            } else {
                None
            },
            Instruction::StoreRegisters { x } | Instruction::LoadRegisters { x } => if self.index
                as usize + x as usize >= MEMORY_SIZE {
                Some(CycleFault::MemoryOutOfRange)
            } else {
                None
            },
            _ => None,
        }
    }

    /// Executes one decoded instruction; `random` is the byte that `CXNN` masks.
    fn execute(&mut self, ins: Instruction, random: u8)
        requires
            operands_in_range(ins),
            execute_fault(old(self)@, ins) is None,
            old(self).pc + 1 < MEMORY_SIZE,
        ensures
            final(self)@ == execute_spec(old(self)@, ins, random),
            final(self).opcode == old(self).opcode,
    {
        match ins {
            Instruction::ClearScreen
            | Instruction::Return
            | Instruction::Jump { .. }
            | Instruction::Call { .. }
            | Instruction::SkipIfEqualByte { .. }
            | Instruction::SkipIfNotEqualByte { .. }
            | Instruction::SkipIfEqual { .. }
            | Instruction::SkipIfNotEqual { .. }
            | Instruction::JumpOffset { .. }
            | Instruction::SkipIfKey { .. }
            | Instruction::SkipIfNotKey { .. } => self.execute_control_flow(ins, random),
            Instruction::Add { x, y } => self.add(x, y),
            Instruction::Sub { x, y } => self.sub(x, y),
            Instruction::ShiftRight { x } => self.shift_right(x),
            Instruction::SubReverse { x, y } => self.sub_reverse(x, y),
            Instruction::ShiftLeft { x } => self.shift_left(x),
            Instruction::LoadByte { .. }
            | Instruction::AddByte { .. }
            | Instruction::Move { .. }
            | Instruction::Or { .. }
            | Instruction::And { .. }
            | Instruction::Xor { .. }
            | Instruction::Random { .. }
            | Instruction::LoadDelay { .. } => self.execute_register_op(ins, random),
            _ => self.execute_system_op(ins, random),
        }
    }

    /// Executes a jump, call, return, skip or screen clear.
    fn execute_control_flow(&mut self, ins: Instruction, random: u8)
        requires
            is_control_flow(ins),
            operands_in_range(ins),
            execute_fault(old(self)@, ins) is None,
            old(self).pc + 1 < MEMORY_SIZE,
        ensures
            final(self)@ == execute_spec(old(self)@, ins, random),
            final(self).opcode == old(self).opcode,
    {
        match ins {
            Instruction::ClearScreen => {
                self.graphics = [0; SCREEN_SIZE];
                self.draw_flag = true;
                self.pc = self.pc + 2;
                assert(self.graphics@ =~= Seq::new(SCREEN_SIZE as nat, |i: int| 0u8));
            },
            Instruction::Return => {
                self.sp = self.sp - 1;
                self.pc = self.stack[self.sp as usize];
            },
            Instruction::Jump { addr } => {
                self.pc = addr;
            },
            Instruction::Call { addr } => {
                self.stack[self.sp as usize] = self.pc + 2;
                self.sp = self.sp + 1;
                self.pc = addr;
            },
            Instruction::SkipIfEqualByte { x, byte } => {
                self.skip_if(self.v[x as usize] == byte);
            },
            Instruction::SkipIfNotEqualByte { x, byte } => {
                self.skip_if(self.v[x as usize] != byte);
            },
            Instruction::SkipIfEqual { x, y } => {
                self.skip_if(self.v[x as usize] == self.v[y as usize]);
            },
            Instruction::SkipIfNotEqual { x, y } => {
                self.skip_if(self.v[x as usize] != self.v[y as usize]);
            },
            Instruction::JumpOffset { addr } => {
                self.pc = addr + self.v[0] as u16;
            },
            Instruction::SkipIfKey { x } => {
                self.skip_if(self.keys[self.v[x as usize] as usize] == 1);
            },
            Instruction::SkipIfNotKey { x } => {
                self.skip_if(self.keys[self.v[x as usize] as usize] == 0);
            },
            _ => {},
        }
    }

    /// Executes an instruction that only sets registers and moves on.
    fn execute_register_op(&mut self, ins: Instruction, random: u8)
        requires
            is_register_op(ins),
            operands_in_range(ins),
            execute_fault(old(self)@, ins) is None,
            old(self).pc + 1 < MEMORY_SIZE,
        ensures
            final(self)@ == execute_spec(old(self)@, ins, random),
            final(self).opcode == old(self).opcode,
    {
        match ins {
            Instruction::LoadByte { x, byte } => {
                self.v[x as usize] = byte;
                self.pc = self.pc + 2;
            },
            Instruction::AddByte { x, byte } => {
                self.v[x as usize] = self.v[x as usize].wrapping_add(byte);
                self.pc = self.pc + 2;
            },
            Instruction::Move { x, y } => {
                self.v[x as usize] = self.v[y as usize];
                self.pc = self.pc + 2;
            },
            Instruction::Or { x, y } => {
                self.v[x as usize] = self.v[x as usize] | self.v[y as usize];
                self.pc = self.pc + 2;
            },
            Instruction::And { x, y } => {
                self.v[x as usize] = self.v[x as usize] & self.v[y as usize];
                self.pc = self.pc + 2;
            },
            Instruction::Xor { x, y } => {
                self.v[x as usize] = self.v[x as usize] ^ self.v[y as usize];
                self.pc = self.pc + 2;
            },
            Instruction::Random { x, mask } => {
                self.v[x as usize] = random & mask;
                self.pc = self.pc + 2;
            },
            Instruction::LoadDelay { x } => {
                self.v[x as usize] = self.delay_timer;
                self.pc = self.pc + 2;
            },
            _ => {},
        }
    }

    /// `8XY4`: adds `VY` to `VX`; `VF` is the carry.
    fn add(&mut self, x: u8, y: u8)
        requires
            x < REGISTER_COUNT, y < REGISTER_COUNT,
            old(self).pc + 1 < MEMORY_SIZE,
        ensures
            final(self)@ == execute_spec(old(self)@, Instruction::Add { x, y }, 0),
            final(self).opcode == old(self).opcode,
    {
        self.v[FLAG] = if self.v[y as usize] > 0xFF - self.v[x as usize] {
            1
        } else {
            0
        };
        self.v[x as usize] = self.v[x as usize].wrapping_add(self.v[y as usize]);
        self.pc = self.pc + 2;
    }

    /// `8XY5`: subtracts `VY` from `VX`; `VF` is set when `VX > VY`.
    fn sub(&mut self, x: u8, y: u8)
        requires
            x < REGISTER_COUNT, y < REGISTER_COUNT,
            old(self).pc + 1 < MEMORY_SIZE,
        ensures
            final(self)@ == execute_spec(old(self)@, Instruction::Sub { x, y }, 0),
            final(self).opcode == old(self).opcode,
    {
        self.v[FLAG] = if self.v[x as usize] > self.v[y as usize] {
            1
        } else {
            0
        };
        self.v[x as usize] = self.v[x as usize].wrapping_sub(self.v[y as usize]);
        self.pc = self.pc + 2;
    }

    /// `8XY7`: sets `VX` to `VY - VX`; `VF` is set when `VY > VX`.
    fn sub_reverse(&mut self, x: u8, y: u8)
        requires
            x < REGISTER_COUNT, y < REGISTER_COUNT,
            old(self).pc + 1 < MEMORY_SIZE,
        ensures
            final(self)@ == execute_spec(old(self)@, Instruction::SubReverse { x, y }, 0),
            final(self).opcode == old(self).opcode,
    {
        self.v[FLAG] = if self.v[y as usize] > self.v[x as usize] {
            1
        } else {
            0
        };
        self.v[x as usize] = self.v[y as usize].wrapping_sub(self.v[x as usize]);
        self.pc = self.pc + 2;
    }

    /// `8XY6`: shifts `VX` right by one; `VF` is the least significant bit.
    fn shift_right(&mut self, x: u8)
        requires
            x < REGISTER_COUNT,
            old(self).pc + 1 < MEMORY_SIZE,
        ensures
            final(self)@ == execute_spec(old(self)@, Instruction::ShiftRight { x }, 0),
            final(self).opcode == old(self).opcode,
    {
        let value = self.v[x as usize];
        proof {
            lemma_shift_right_one(value);
        }
        self.v[FLAG] = value & 1;
        let value = self.v[x as usize];
        proof {
            lemma_shift_right_one(value);
        }
        self.v[x as usize] = value >> 1u8;
        self.pc = self.pc + 2;
    }

    /// `8XYE`: shifts `VX` left by one; `VF` is the most significant bit.
    fn shift_left(&mut self, x: u8)
        requires
            x < REGISTER_COUNT,
            old(self).pc + 1 < MEMORY_SIZE,
        ensures
            final(self)@ == execute_spec(old(self)@, Instruction::ShiftLeft { x }, 0),
            final(self).opcode == old(self).opcode,
    {
        let value = self.v[x as usize];
        proof {
            lemma_shift_left_one(value);
        }
        self.v[FLAG] = value >> 7u8;
        let value = self.v[x as usize];
        proof {
            lemma_shift_left_one(value);
        }
        self.v[x as usize] = value << 1u8;
        self.pc = self.pc + 2;
    }

    /// Executes an instruction on the index register, timers, memory, screen or keypad wait.
    fn execute_system_op(&mut self, ins: Instruction, random: u8)
        requires
            is_system_op(ins),
            operands_in_range(ins),
            execute_fault(old(self)@, ins) is None,
            old(self).pc + 1 < MEMORY_SIZE,
        ensures
            final(self)@ == execute_spec(old(self)@, ins, random),
            final(self).opcode == old(self).opcode,
    {
        match ins {
            Instruction::SetIndex { addr } => {
                self.index = addr;
                self.pc = self.pc + 2;
            },
            Instruction::Draw { x, y, height } => {
                self.draw_sprite(x, y, height);
                self.draw_flag = true;
                self.pc = self.pc + 2;
            },
            Instruction::WaitKey { x } => {
                self.wait_flag = true;
                self.wait_register = x;
                self.pc = self.pc + 2;
            },
            Instruction::SetDelay { x } => {
                self.delay_timer = self.v[x as usize];
                self.pc = self.pc + 2;
            },
            Instruction::SetSound { x } => {
                self.sound_timer = self.v[x as usize];
                self.pc = self.pc + 2;
            },
            Instruction::AddIndex { x } => self.add_index(x),
            Instruction::FontChar { x } => {
                self.index = FONT_START + self.v[x as usize] as u16 * 5;
                self.pc = self.pc + 2;
            },
            Instruction::StoreBcd { x } => self.store_bcd(x),
            Instruction::StoreRegisters { x } => {
                self.store_registers(x);
                self.pc = self.pc + 2;
            },
            Instruction::LoadRegisters { x } => {
                self.load_registers(x);
                self.pc = self.pc + 2;
            },
            _ => {},
        }
    }

    /// `FX1E`: adds `VX` to the index register; `VF` flags a sum past `0xFFF`.
    fn add_index(&mut self, x: u8)
        requires
            x < REGISTER_COUNT,
            old(self).pc + 1 < MEMORY_SIZE,
        ensures
            final(self)@ == execute_spec(old(self)@, Instruction::AddIndex { x }, 0),
            final(self).opcode == old(self).opcode,
    {
        self.v[FLAG] = if self.v[x as usize] as u16 > 0xFFFu16.wrapping_sub(self.index) {
            1
        } else {
            0
        };
        self.index = self.index.wrapping_add(self.v[x as usize] as u16);
        self.pc = self.pc + 2;
    }

    /// `FX33`: stores the hundreds, tens and units digits of `VX` at the index
    /// register and the two bytes after it.
    fn store_bcd(&mut self, x: u8)
        requires
            x < REGISTER_COUNT,
            old(self).index + 2 < MEMORY_SIZE,
            old(self).pc + 1 < MEMORY_SIZE,
        ensures
            final(self)@ == execute_spec(old(self)@, Instruction::StoreBcd { x }, 0),
            final(self).opcode == old(self).opcode,
    {
        let value = self.v[x as usize];
        let i = self.index as usize;
        self.memory[i] = value / 100;
        self.memory[i + 1] = (value / 10) % 10;
        self.memory[i + 2] = value % 10;
        self.pc = self.pc + 2;
    }

    /// Moves the program counter past the next instruction when `cond` holds,
    /// and past this one otherwise.
    fn skip_if(&mut self, cond: bool)
        requires
            old(self).pc + 4 <= u16::MAX,
        ensures
            final(self)@ == old(self)@.skip_if(cond),
            final(self).opcode == old(self).opcode,
    {
        if cond {
            self.pc = self.pc + 4;
        } else {
            self.pc = self.pc + 2;
        }
    }

    /// Stores `V0..=VX` in memory at the index register.
    fn store_registers(&mut self, x: u8)
        requires
            x < REGISTER_COUNT,
            old(self).index + x < MEMORY_SIZE,
        ensures
            final(self)@ == (CpuState {
                memory: memory_from_registers(old(self)@.memory, old(self)@.v, old(self).index as int, x as int),
                ..old(self)@
            }),
            final(self).opcode == old(self).opcode,
    {
        let mut i: usize = 0;
        while i <= x as usize
            invariant
                i <= x + 1,
                x < REGISTER_COUNT,
                self.index + x < MEMORY_SIZE,
                self@ == (CpuState { memory: self@.memory, ..old(self)@ }),
                self.opcode == old(self).opcode,
                self.memory@.len() == MEMORY_SIZE,
                forall|j: int|
                    0 <= j < MEMORY_SIZE ==> #[trigger] self.memory@[j] == if self.index <= j
                        < self.index + i {
                        self.v@[j - self.index]
                    } else {
                        old(self).memory@[j]
                    },
            decreases x + 1 - i,
        {
            self.memory[self.index as usize + i] = self.v[i];
            i += 1;
        }
        assert(self.memory@ =~= memory_from_registers(old(self)@.memory, old(self)@.v, old(self).index as int, x as int));
    }

    /// Fills `V0..=VX` from memory at the index register.
    fn load_registers(&mut self, x: u8)
        requires
            x < REGISTER_COUNT,
            old(self).index + x < MEMORY_SIZE,
        ensures
            final(self)@ == (CpuState {
                v: registers_from_memory(old(self)@.v, old(self)@.memory, old(self).index as int, x as int),
                ..old(self)@
            }),
            final(self).opcode == old(self).opcode,
    {
        let mut i: usize = 0;
        while i <= x as usize
            invariant
                i <= x + 1,
                x < REGISTER_COUNT,
                self.index + x < MEMORY_SIZE,
                self@ == (CpuState { v: self@.v, ..old(self)@ }),
                self.opcode == old(self).opcode,
                self.v@.len() == REGISTER_COUNT,
                forall|j: int|
                    0 <= j < REGISTER_COUNT ==> #[trigger] self.v@[j] == if j < i {
                        self.memory@[self.index + j]
                    } else {
                        old(self).v@[j]
                    },
            decreases x + 1 - i,
        {
            self.v[i] = self.memory[self.index as usize + i];
            i += 1;
        }
        assert(self.v@ =~= registers_from_memory(old(self)@.v, old(self)@.memory, old(self).index as int, x as int));
    }

    /// Draws the `height`-row sprite at the index register at `(VX, VY)`,
    /// XORing it onto the screen; `VF` reports a collision.
    fn draw_sprite(&mut self, x: u8, y: u8, height: u8)
        requires
            x < REGISTER_COUNT,
            y < REGISTER_COUNT,
            height < 16,
            height == 0 || old(self).index + height <= MEMORY_SIZE,
        ensures
            final(self)@ == draw_spec(old(self)@, x, y, height),
            final(self).opcode == old(self).opcode,
    {
        let ghost g0 = self.graphics@;
        let ghost v0 = self.v@;
        let ghost rows = self@.sprite_rows(height);
        self.v[FLAG] = 0;
        assert(self.v@ =~= v0.update(FLAG as int, self.v@[FLAG as int]));
        let mut row: usize = 0;
        while row < height as usize
            invariant
                row <= height,
                x < REGISTER_COUNT,
                y < REGISTER_COUNT,
                height < 16,
                height == 0 || self.index + height <= MEMORY_SIZE,
                rows == self@.sprite_rows(height),
                self.graphics@.len() == SCREEN_SIZE,
                self.v@.len() == REGISTER_COUNT,
                self.memory@.len() == MEMORY_SIZE,
                self.graphics@ == draw_progress(g0, v0, x as int, y as int, rows, (8 * row) as nat).0,
                self.v@[FLAG as int] == draw_progress(g0, v0, x as int, y as int, rows, (8 * row) as nat).1,
                v0.len() == REGISTER_COUNT,
                self.v@ == v0.update(FLAG as int, self.v@[FLAG as int]),
                self@ == (CpuState { graphics: self@.graphics, v: self@.v, ..old(self)@ }),
                self.opcode == old(self).opcode,
            decreases height - row,
        {
            let pixel = self.memory[self.index as usize + row];
            assert(pixel == rows[row as int]);
            let mut col: usize = 0;
            while col < 8
                invariant
                    col <= 8,
                    row < height,
                    x < REGISTER_COUNT,
                    y < REGISTER_COUNT,
                    height < 16,
                    pixel == rows[row as int],
                    self.graphics@.len() == SCREEN_SIZE,
                    self.v@.len() == REGISTER_COUNT,
                    self.memory@.len() == MEMORY_SIZE,
                    height == 0 || self.index + height <= MEMORY_SIZE,
                    rows == self@.sprite_rows(height),
                    self.graphics@ == draw_progress(g0, v0, x as int, y as int, rows, (8 * row + col) as nat).0,
                    self.v@[FLAG as int] == draw_progress(g0, v0, x as int, y as int, rows, (8 * row + col) as nat).1,
                    v0.len() == REGISTER_COUNT,
                    self.v@ == v0.update(FLAG as int, self.v@[FLAG as int]),
                    self@ == (CpuState { graphics: self@.graphics, v: self@.v, ..old(self)@ }),
                    self.opcode == old(self).opcode,
                decreases 8 - col,
            {
                let ghost k = 8 * row + col;
                assert(k / 8 == row && k % 8 == col) by (nonlinear_arith)
                    requires
                        k == 8 * row + col,
                        col < 8,
                ;
                if pixel & (0x80u8 >> (col as u8)) != 0 {
                    let cx: usize = (self.v[x as usize] as usize + col) % 64;
                    let cy: usize = (self.v[y as usize] as usize + row) % 32;
                    proof {
                        lemma_pixel_cell_in_range(self.v@[x as int], self.v@[y as int], col as int, row as int);
                    }
                    let cell: usize = cx + cy * 64;
                    if self.graphics[cell] == 1 {
                        self.v[FLAG] = 1;
                        assert(self.v@ =~= v0.update(FLAG as int, self.v@[FLAG as int]));
                    }
                    self.graphics[cell] = self.graphics[cell] ^ 1;
                }
                col += 1;
            }
            row += 1;
        }
    }

    /// Copies a program into memory at `PROGRAM_START`; memory elsewhere and
    /// the rest of the machine are unchanged.
    pub fn load_vec(&mut self, data: &[u8])
        requires
            PROGRAM_START + data@.len() <= MEMORY_SIZE,
        ensures
            final(self)@ == (CpuState {
                memory: with_program(old(self)@.memory, data@),
                ..old(self)@
            }),
            final(self).opcode == old(self).opcode,
    {
        let mut i: usize = 0;
        while i < data.len()
            invariant
                i <= data@.len(),
                PROGRAM_START + data@.len() <= MEMORY_SIZE,
                self@ == (CpuState { memory: self@.memory, ..old(self)@ }),
                self.opcode == old(self).opcode,
                self.memory@.len() == MEMORY_SIZE,
                forall|j: int|
                    0 <= j < MEMORY_SIZE ==> #[trigger] self.memory@[j] == if PROGRAM_START <= j
                        < PROGRAM_START + i {
                        data@[j - PROGRAM_START]
                    } else {
                        old(self).memory@[j]
                    },
            decreases data@.len() - i,
        {
            self.memory[0x200 + i] = data[i];
            i += 1;
        }
        assert(self.memory@ =~= with_program(old(self)@.memory, data@));
    }

    /// Whether the machine waits for a key press.
    pub fn is_waiting(&mut self) -> (waiting: bool)
        ensures
            waiting == old(self).wait_flag,
            *final(self) == *old(self),
    {
        return self.wait_flag;
    }

    /// Ends a wait for a key press: the key lands in the register that the
    /// waiting instruction named.
    pub fn set_wait_register(&mut self, value: u8)
        requires
            old(self).wait_register < REGISTER_COUNT,
        ensures
            final(self)@ == resume_spec(old(self)@, value),
            final(self).opcode == old(self).opcode,
    {
        self.v[self.wait_register as usize] = value;
        self.wait_flag = false;
    }

    /// Hands out the screen for display when it changed since it was last
    /// drawn: `Some` RGBA frame (four bytes per pixel, `0xFF` for a pixel that
    /// is set, `0` for one that is clear) when the draw flag is set, `None`
    /// otherwise. The draw flag is cleared.
    pub fn draw(&mut self) -> (frame: Option<Vec<u8>>)
        ensures
            frame is Some <==> old(self).draw_flag,
            frame matches Some(pixels) ==> pixels@ == rgba_frame(old(self).graphics@),
            final(self)@ == (CpuState { draw_flag: false, ..old(self)@ }),
            final(self).opcode == old(self).opcode,
    {
        if !self.draw_flag {
            return None;
        }
        let mut gfx: Vec<u8> = Vec::with_capacity(SCREEN_SIZE * 4);
        let mut i: usize = 0;
        while i < SCREEN_SIZE * 4
            invariant
                i <= SCREEN_SIZE * 4,
                self.graphics@.len() == SCREEN_SIZE,
                gfx@ =~= rgba_frame(self.graphics@).take(i as int),
            decreases SCREEN_SIZE * 4 - i,
        {
            let value: u8 = if self.graphics[i / 4] == 0 {
                0
            } else {
                0xFF
            };
            gfx.push(value);
            i += 1;
        }
        assert(gfx@ =~= rgba_frame(self.graphics@));
        self.draw_flag = false;
        Some(gfx)
    }

    /// Records a scan of the host keyboard: `pressed[i]` tells whether the host
    /// key at position `i` of the layout order is held down, and the keypad key
    /// that it stands for is set to 1 or 0 accordingly.
    pub fn update_keys(&mut self, pressed: [bool; KEY_COUNT])
        ensures
            final(self)@ == (CpuState { keys: keys_from_host(pressed@), ..old(self)@ }),
            final(self).opcode == old(self).opcode,
            forall|i: int|
                0 <= i < KEY_COUNT ==> final(self).keys@[HostKey::spec_at_layout_index(
                    i,
                ).spec_keypad_value() as int] == if pressed@[i] {
                    1u8
                } else {
                    0u8
                },
    {
        proof {
            crate::keypad::lemma_keypad_mapping_is_bijection();
            crate::keypad::lemma_layout_order_is_bijection();
        }
        let mut i: usize = 0;
        while i < KEY_COUNT
            invariant
                i <= KEY_COUNT,
                self@ == (CpuState { keys: self@.keys, ..old(self)@ }),
                self.opcode == old(self).opcode,
                self.keys@.len() == KEY_COUNT,
                forall|k: u8|
                    k < KEY_COUNT ==> #[trigger] self.keys@[k as int] == if HostKey::for_keypad_value(
                        k,
                    ).layout_index() < i {
                        if pressed@[HostKey::for_keypad_value(k).layout_index()] {
                            1u8
                        } else {
                            0u8
                        }
                    } else {
                        old(self).keys@[k as int]
                    },
            decreases KEY_COUNT - i,
        {
            let key = HostKey::at_layout_index(i);
            let slot = key.keypad_value();
            self.keys[slot as usize] = if pressed[i] {
                1
            } else {
                0
            };
            i += 1;
        }
        assert(self.keys@ =~= keys_from_host(pressed@));
    }
}

} // verus!
