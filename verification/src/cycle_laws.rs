//! What one cycle does, stated from the two opcode bytes at the program
//! counter and the state before the cycle.
use vstd::prelude::*;
use crate::instruction::{Instruction, DecodeError, op_kind, op_x, op_y, op_n, op_nn, op_nnn, operands_in_range, spec_decode};
use crate::laws::{hits, lemma_draw_toggles, lemma_no_earlier_hit};
use crate::sprite::{draw_progress, pixel_cell, sprite_bit, SCREEN_SIZE, lemma_draw_progress_len, lemma_pixel_cell_in_range};
use crate::state::{CpuState, can_cycle, cycle_spec, current_instruction, MEMORY_SIZE, REGISTER_COUNT};

verus! {

/// The high byte of the opcode at the program counter.
pub open spec fn opcode_high(s: CpuState) -> u8 {
    s.memory[s.pc as int]
}

/// The low byte of the opcode at the program counter.
pub open spec fn opcode_low(s: CpuState) -> u8 {
    s.memory[s.pc + 1]
}

/// The instruction kind: the high nibble of the opcode.
pub open spec fn kind_of(s: CpuState) -> int {
    opcode_high(s) as int / 16
}

/// The `X` register named by the opcode.
pub open spec fn reg_x(s: CpuState) -> int {
    opcode_high(s) as int % 16
}

/// The `Y` register named by the opcode.
pub open spec fn reg_y(s: CpuState) -> int {
    opcode_low(s) as int / 16
}

/// The twelve-bit address in the opcode.
pub open spec fn address_of(s: CpuState) -> int {
    (opcode_high(s) % 16) * 256 + opcode_low(s)
}

/// The opcode's fields, read from its two bytes.
proof fn lemma_opcode_fields(s: CpuState)
    requires
        s.wf(),
        s.pc + 1 < MEMORY_SIZE,
    ensures
        op_kind(s.fetch()) == opcode_high(s) / 16,
        op_x(s.fetch()) == opcode_high(s) % 16,
        op_y(s.fetch()) == opcode_low(s) / 16,
        op_n(s.fetch()) == opcode_low(s) % 16,
        op_nn(s.fetch()) == opcode_low(s),
        op_nnn(s.fetch()) == (opcode_high(s) % 16) * 256 + opcode_low(s),
{
    let hi = opcode_high(s) as int;
    let lo = opcode_low(s) as int;
    let op = hi * 256 + lo;
    assert(0 <= op < 65536);
    assert(s.fetch() as int == op);
    assert(op / 4096 == hi / 16 && (op / 256) % 16 == hi % 16 && (op / 16) % 16 == lo / 16
        && op % 16 == lo % 16 && op % 256 == lo && op % 4096 == (hi % 16) * 256 + lo)
        by (nonlinear_arith)
        requires
            op == hi * 256 + lo,
            0 <= hi < 256,
            0 <= lo < 256,
    ;
}

/// The conditional skips move the program counter past the next instruction
/// exactly when their condition holds, and past themselves otherwise; they
/// change no register, memory, index or screen.
pub proof fn lemma_cycle_skips(s: CpuState, random: u8)
    requires
        can_cycle(s),
    ensures
        ({
            let t = cycle_spec(s, random);
            let x = reg_x(s);
            let y = reg_y(s);
            let nn = opcode_low(s);
            let skip = if kind_of(s) == 0x3 {
                s.v[x] == nn
            } else if kind_of(s) == 0x4 {
                s.v[x] != nn
            } else if kind_of(s) == 0x5 {
                s.v[x] == s.v[y]
            } else if kind_of(s) == 0x9 {
                s.v[x] != s.v[y]
            } else if nn == 0x9E {
                s.keys[s.v[x] as int] == 1
            } else {
                s.keys[s.v[x] as int] == 0
            };
            (kind_of(s) == 0x3 || kind_of(s) == 0x4 || kind_of(s) == 0x5 || kind_of(s) == 0x9
                || kind_of(s) == 0xE) ==> {
                &&& t.pc == if skip { s.pc + 4 } else { s.pc + 2 }
                &&& t.v == s.v
                &&& t.memory == s.memory
                &&& t.index == s.index
                &&& t.graphics == s.graphics
                &&& t.sp == s.sp
            }
        }),
{
    lemma_opcode_fields(s);
}

/// Registers `w` equal `v` everywhere but at `i`.
pub open spec fn same_except(v: Seq<u8>, w: Seq<u8>, i: int) -> bool {
    &&& w.len() == v.len()
    &&& forall|j: int| 0 <= j < v.len() && j != i ==> w[j] == v[j]
}

/// The register loads and logic instructions (`6XNN`, `7XNN`, `8XY0`..`8XY3`,
/// `CXNN`, `FX07`) write `VX` alone, with the value shown, and move on; `VY`
/// and the flag register keep their values unless they are `VX`.
pub proof fn lemma_cycle_register_ops(s: CpuState, random: u8)
    requires
        can_cycle(s),
    ensures
        ({
            let t = cycle_spec(s, random);
            let x = reg_x(s);
            let y = reg_y(s);
            let nn = opcode_low(s);
            let n = nn % 16;
            let loads = kind_of(s) == 0x6 || kind_of(s) == 0x7 || (kind_of(s) == 0x8 && n <= 3)
                || kind_of(s) == 0xC || (kind_of(s) == 0xF && nn == 0x07);
            let value: int = if kind_of(s) == 0x6 {
                nn as int
            } else if kind_of(s) == 0x7 {
                (s.v[x] + nn) % 256
            } else if kind_of(s) == 0x8 && n == 0 {
                s.v[y] as int
            } else if kind_of(s) == 0x8 && n == 1 {
                (s.v[x] | s.v[y]) as int
            } else if kind_of(s) == 0x8 && n == 2 {
                (s.v[x] & s.v[y]) as int
            } else if kind_of(s) == 0x8 && n == 3 {
                (s.v[x] ^ s.v[y]) as int
            } else if kind_of(s) == 0xC {
                (random & nn) as int
            } else {
                s.delay_timer as int
            };
            loads ==> {
                &&& t.v[x] == value
                &&& same_except(s.v, t.v, x)
                &&& t.pc == s.pc + 2
                &&& t.memory == s.memory
                &&& t.index == s.index
                &&& t.graphics == s.graphics
            }
        }),
{
    lemma_opcode_fields(s);
}

/// The arithmetic instructions `8XY4` (add, flag = carry), `8XY5` (subtract,
/// flag = `VX > VY`), `8XY6` (shift right, flag = bit shifted out), `8XY7`
/// (`VY - VX`, flag = `VY > VX`) and `8XYE` (shift left, flag = bit shifted
/// out), results modulo 256. The flag is computed from the registers before
/// the instruction and written to `VF` first; the result is then computed
/// from the registers as they are after that write (so an operand that is
/// `VF` reads the flag) and written to `VX`. No other register changes.
pub proof fn lemma_cycle_flag_arithmetic(s: CpuState, random: u8)
    requires
        can_cycle(s),
        kind_of(s) == 0x8,
    ensures
        ({
            let t = cycle_spec(s, random);
            let x = reg_x(s);
            let y = reg_y(s);
            let n = opcode_low(s) % 16;
            let a = s.v[x] as int;
            let b = s.v[y] as int;
            let flag: int = if n == 4 {
                if a + b >= 256 { 1 } else { 0 }
            } else if n == 5 {
                if a > b { 1 } else { 0 }
            } else if n == 6 {
                a % 2
            } else if n == 7 {
                if b > a { 1 } else { 0 }
            } else {
                a / 128
            };
            let a2 = if x == 15 { flag } else { a };
            let b2 = if y == 15 { flag } else { b };
            let value: int = if n == 4 {
                (a2 + b2) % 256
            } else if n == 5 {
                (a2 - b2 + 256) % 256
            } else if n == 6 {
                a2 / 2
            } else if n == 7 {
                (b2 - a2 + 256) % 256
            } else {
                (2 * a2) % 256
            };
            (n == 4 || n == 5 || n == 6 || n == 7 || n == 0xE) ==> {
                &&& t.v[x] == value
                &&& x != 15 ==> t.v[15] == flag
                &&& forall|j: int| 0 <= j < 16 && j != x && j != 15 ==> t.v[j] == s.v[j]
                &&& t.pc == s.pc + 2
                &&& t.memory == s.memory
                &&& t.index == s.index
            }
        }),
{
    lemma_opcode_fields(s);
}

/// Counting down by one towards zero.
pub open spec fn count_down(t: u8) -> int {
    if t > 0 {
        t - 1
    } else {
        0
    }
}

/// Each cycle counts both timers down by one towards zero; `FX15` and `FX18`
/// first load their timer from `VX`.
pub proof fn lemma_cycle_timers(s: CpuState, random: u8)
    requires
        can_cycle(s),
    ensures
        ({
            let t = cycle_spec(s, random);
            let x = reg_x(s);
            let sets_delay = kind_of(s) == 0xF && opcode_low(s) == 0x15;
            let sets_sound = kind_of(s) == 0xF && opcode_low(s) == 0x18;
            &&& t.delay_timer == count_down(if sets_delay { s.v[x] } else { s.delay_timer })
            &&& t.sound_timer == count_down(if sets_sound { s.v[x] } else { s.sound_timer })
        }),
{
    lemma_opcode_fields(s);
}

/// Jumps, calls and returns: `1NNN` jumps to `NNN`, `BNNN` to `NNN + V0`,
/// `2NNN` pushes the address of the next instruction and jumps to `NNN`,
/// `00EE` pops the address it jumps to. No register changes.
pub proof fn lemma_cycle_jumps(s: CpuState, random: u8)
    requires
        can_cycle(s),
    ensures
        ({
            let t = cycle_spec(s, random);
            let nnn = address_of(s);
            &&& kind_of(s) == 0x1 ==> t.pc == nnn && t.sp == s.sp && t.v == s.v
            &&& kind_of(s) == 0xB ==> t.pc == nnn + s.v[0] && t.sp == s.sp && t.v == s.v
            &&& kind_of(s) == 0x2 ==> {
                &&& t.pc == nnn
                &&& t.sp == s.sp + 1
                &&& t.stack[s.sp as int] == s.pc + 2
                &&& forall|j: int| 0 <= j < s.sp ==> t.stack[j] == s.stack[j]
                &&& t.v == s.v
            }
            &&& (opcode_high(s) == 0x00 && opcode_low(s) == 0xEE) ==> {
                &&& t.pc == s.stack[s.sp - 1]
                &&& t.sp == s.sp - 1
                &&& t.stack == s.stack
                &&& t.v == s.v
            }
        }),
{
    lemma_opcode_fields(s);
}

/// `ANNN` loads the index register with `NNN`.
pub proof fn lemma_cycle_set_index(s: CpuState, random: u8)
    requires
        can_cycle(s),
    ensures
        ({
            let t = cycle_spec(s, random);
            let x = reg_x(s);
            let nn = opcode_low(s);
            let i = s.index as int;
            kind_of(s) == 0xA ==> t.index == address_of(s) && t.v == s.v && t.pc == s.pc + 2
        }),
{
    lemma_opcode_fields(s);
}

/// `FX29` points the index register at the five-byte font sprite of the digit in `VX`.
pub proof fn lemma_cycle_font_char(s: CpuState, random: u8)
    requires
        can_cycle(s),
    ensures
        ({
            let t = cycle_spec(s, random);
            let x = reg_x(s);
            let nn = opcode_low(s);
            let i = s.index as int;
            (kind_of(s) == 0xF && nn == 0x29) ==> t.index == 0x50 + 5 * s.v[x] && t.v == s.v
        }),
{
    lemma_opcode_fields(s);
}

/// `FX1E` adds `VX` to the index register modulo 65536; `VF` is 1 when the
/// index was within `0..=0xFFF` and the sum passes `0xFFF`, and is written
/// before the addition reads `VX` (so `FF1E` adds the flag).
pub proof fn lemma_cycle_add_index(s: CpuState, random: u8)
    requires
        can_cycle(s),
    ensures
        ({
            let t = cycle_spec(s, random);
            let x = reg_x(s);
            let nn = opcode_low(s);
            let i = s.index as int;
            let flag: int = if i <= 0xFFF && s.v[x] + i > 0xFFF { 1 } else { 0 };
            let added: int = if x == 15 { flag } else { s.v[x] as int };
            (kind_of(s) == 0xF && nn == 0x1E) ==> {
                &&& t.index == (i + added) % 65536
                &&& t.v[15] == flag
                &&& same_except(s.v, t.v, 15)
            }
        }),
{
    lemma_opcode_fields(s);
}

/// `FX33` stores the hundreds, tens and units digits of `VX` at `I`, `I + 1`, `I + 2`, and nothing else.
pub proof fn lemma_cycle_store_bcd(s: CpuState, random: u8)
    requires
        can_cycle(s),
    ensures
        ({
            let t = cycle_spec(s, random);
            let x = reg_x(s);
            let nn = opcode_low(s);
            let i = s.index as int;
            (kind_of(s) == 0xF && nn == 0x33) ==> {
                &&& t.memory[i] == s.v[x] / 100
                &&& t.memory[i + 1] == (s.v[x] / 10) % 10
                &&& t.memory[i + 2] == s.v[x] % 10
                &&& forall|j: int|
                    0 <= j < MEMORY_SIZE && (j < i || j > i + 2) ==> t.memory[j] == s.memory[j]
                &&& t.v == s.v
            }
        }),
{
    lemma_opcode_fields(s);
}

/// `FX55` stores `V0..=VX` at `I..=I + X`, and nothing else.
pub proof fn lemma_cycle_store_registers(s: CpuState, random: u8)
    requires
        can_cycle(s),
    ensures
        ({
            let t = cycle_spec(s, random);
            let x = reg_x(s);
            let nn = opcode_low(s);
            let i = s.index as int;
            (kind_of(s) == 0xF && nn == 0x55) ==> {
                &&& forall|j: int| 0 <= j <= x ==> t.memory[i + j] == s.v[j]
                &&& forall|j: int|
                    0 <= j < MEMORY_SIZE && (j < i || j > i + x) ==> t.memory[j] == s.memory[j]
                &&& t.v == s.v
            }
        }),
{
    lemma_opcode_fields(s);
}

/// `FX65` fills `V0..=VX` from `I..=I + X`; the other registers keep their values.
pub proof fn lemma_cycle_load_registers(s: CpuState, random: u8)
    requires
        can_cycle(s),
    ensures
        ({
            let t = cycle_spec(s, random);
            let x = reg_x(s);
            let nn = opcode_low(s);
            let i = s.index as int;
            (kind_of(s) == 0xF && nn == 0x65) ==> {
                &&& forall|j: int| 0 <= j <= x ==> t.v[j] == s.memory[i + j]
                &&& forall|j: int| x < j < 16 ==> t.v[j] == s.v[j]
                &&& t.memory == s.memory
            }
        }),
{
    lemma_opcode_fields(s);
}

/// `FX0A` starts a wait for a key press that will land in `VX`.
pub proof fn lemma_cycle_wait_key(s: CpuState, random: u8)
    requires
        can_cycle(s),
    ensures
        ({
            let t = cycle_spec(s, random);
            let x = reg_x(s);
            let nn = opcode_low(s);
            let i = s.index as int;
            (kind_of(s) == 0xF && nn == 0x0A) ==> {
                &&& t.wait_flag
                &&& t.wait_register == x
                &&& t.v == s.v
                &&& t.pc == s.pc + 2
            }
        }),
{
    lemma_opcode_fields(s);
}

/// `00E0` clears every pixel and asks for a redraw.
pub proof fn lemma_cycle_clear_screen(s: CpuState, random: u8)
    requires
        can_cycle(s),
    ensures
        ({
            let t = cycle_spec(s, random);
            let x = reg_x(s);
            let nn = opcode_low(s);
            let i = s.index as int;
            (opcode_high(s) == 0x00 && opcode_low(s) == 0xE0) ==> {
                &&& forall|c: int| 0 <= c < t.graphics.len() ==> t.graphics[c] == 0
                &&& t.graphics.len() == s.graphics.len()
                &&& t.draw_flag
                &&& t.v == s.v
            }
        }),
{
    lemma_opcode_fields(s);
}
/// The opcode with kind `k`, `X` nibble `x` and low byte `low`.
pub open spec fn pack(k: int, x: int, low: int) -> int {
    k * 4096 + x * 256 + low
}

/// The kind nibble of the opcode that encodes an instruction.
pub open spec fn encoded_kind(ins: Instruction) -> int {
    match ins {
        Instruction::ClearScreen | Instruction::Return => 0x0,
        Instruction::Jump { .. } => 0x1,
        Instruction::Call { .. } => 0x2,
        Instruction::SkipIfEqualByte { .. } => 0x3,
        Instruction::SkipIfNotEqualByte { .. } => 0x4,
        Instruction::SkipIfEqual { .. } => 0x5,
        Instruction::LoadByte { .. } => 0x6,
        Instruction::AddByte { .. } => 0x7,
        Instruction::Move { .. }
        | Instruction::Or { .. }
        | Instruction::And { .. }
        | Instruction::Xor { .. }
        | Instruction::Add { .. }
        | Instruction::Sub { .. }
        | Instruction::ShiftRight { .. }
        | Instruction::SubReverse { .. }
        | Instruction::ShiftLeft { .. } => 0x8,
        Instruction::SkipIfNotEqual { .. } => 0x9,
        Instruction::SetIndex { .. } => 0xA,
        Instruction::JumpOffset { .. } => 0xB,
        Instruction::Random { .. } => 0xC,
        Instruction::Draw { .. } => 0xD,
        Instruction::SkipIfKey { .. } | Instruction::SkipIfNotKey { .. } => 0xE,
        _ => 0xF,
    }
}

/// The `X` nibble of the opcode that encodes an instruction (the top nibble
/// of the address for the instructions that carry one).
pub open spec fn encoded_x(ins: Instruction) -> int {
    match ins {
        Instruction::ClearScreen | Instruction::Return => 0,
        Instruction::Jump { addr }
        | Instruction::Call { addr }
        | Instruction::SetIndex { addr }
        | Instruction::JumpOffset { addr } => addr as int / 256,
        Instruction::SkipIfEqualByte { x, .. }
        | Instruction::SkipIfNotEqualByte { x, .. }
        | Instruction::LoadByte { x, .. }
        | Instruction::AddByte { x, .. }
        | Instruction::Random { x, .. }
        | Instruction::SkipIfEqual { x, .. }
        | Instruction::Move { x, .. }
        | Instruction::Or { x, .. }
        | Instruction::And { x, .. }
        | Instruction::Xor { x, .. }
        | Instruction::Add { x, .. }
        | Instruction::Sub { x, .. }
        | Instruction::SubReverse { x, .. }
        | Instruction::SkipIfNotEqual { x, .. }
        | Instruction::Draw { x, .. }
        | Instruction::ShiftRight { x }
        | Instruction::ShiftLeft { x }
        | Instruction::SkipIfKey { x }
        | Instruction::SkipIfNotKey { x }
        | Instruction::LoadDelay { x }
        | Instruction::WaitKey { x }
        | Instruction::SetDelay { x }
        | Instruction::SetSound { x }
        | Instruction::AddIndex { x }
        | Instruction::FontChar { x }
        | Instruction::StoreBcd { x }
        | Instruction::StoreRegisters { x }
        | Instruction::LoadRegisters { x } => x as int,
    }
}

/// The low byte of the opcode that encodes an instruction.
pub open spec fn encoded_low(ins: Instruction) -> int {
    match ins {
        Instruction::ClearScreen => 0xE0,
        Instruction::Return => 0xEE,
        Instruction::Jump { addr }
        | Instruction::Call { addr }
        | Instruction::SetIndex { addr }
        | Instruction::JumpOffset { addr } => addr as int % 256,
        Instruction::SkipIfEqualByte { byte, .. }
        | Instruction::SkipIfNotEqualByte { byte, .. }
        | Instruction::LoadByte { byte, .. }
        | Instruction::AddByte { byte, .. } => byte as int,
        Instruction::Random { mask, .. } => mask as int,
        Instruction::SkipIfEqual { y, .. } | Instruction::Move { y, .. } => y * 16,
        Instruction::Or { y, .. } => y * 16 + 1,
        Instruction::And { y, .. } => y * 16 + 2,
        Instruction::Xor { y, .. } => y * 16 + 3,
        Instruction::Add { y, .. } => y * 16 + 4,
        Instruction::Sub { y, .. } => y * 16 + 5,
        Instruction::ShiftRight { .. } => 0x06,
        Instruction::SubReverse { y, .. } => y * 16 + 7,
        Instruction::ShiftLeft { .. } => 0x0E,
        Instruction::SkipIfNotEqual { y, .. } => y * 16,
        Instruction::Draw { y, height, .. } => y * 16 + height,
        Instruction::SkipIfKey { .. } => 0x9E,
        Instruction::SkipIfNotKey { .. } => 0xA1,
        Instruction::LoadDelay { .. } => 0x07,
        Instruction::WaitKey { .. } => 0x0A,
        Instruction::SetDelay { .. } => 0x15,
        Instruction::SetSound { .. } => 0x18,
        Instruction::AddIndex { .. } => 0x1E,
        Instruction::FontChar { .. } => 0x29,
        Instruction::StoreBcd { .. } => 0x33,
        Instruction::StoreRegisters { .. } => 0x55,
        Instruction::LoadRegisters { .. } => 0x65,
    }
}

/// The opcode that encodes an instruction, as the CHIP-8 instruction set
/// writes it (`DXYN` is `0xD000 + X * 0x100 + Y * 0x10 + N`, and so on).
pub open spec fn encode(ins: Instruction) -> int {
    pack(encoded_kind(ins), encoded_x(ins), encoded_low(ins))
}

proof fn lemma_fields_of_packed(k: int, x: int, low: int)
    requires
        0 <= k < 16,
        0 <= x < 16,
        0 <= low < 256,
    ensures
        0 <= pack(k, x, low) < 65536,
        op_kind(pack(k, x, low) as u16) == k,
        op_x(pack(k, x, low) as u16) == x,
        op_y(pack(k, x, low) as u16) == low / 16,
        op_n(pack(k, x, low) as u16) == low % 16,
        op_nn(pack(k, x, low) as u16) == low,
        op_nnn(pack(k, x, low) as u16) == x * 256 + low,
{
    let op = pack(k, x, low);
    assert(0 <= op < 65536 && op / 4096 == k && (op / 256) % 16 == x && (op / 16) % 16 == low / 16
        && op % 16 == low % 16 && op % 256 == low && op % 4096 == x * 256 + low)
        by (nonlinear_arith)
        requires
            op == k * 4096 + x * 256 + low,
            0 <= k < 16,
            0 <= x < 16,
            0 <= low < 256,
    ;
    assert((op as u16) as int == op);
}

/// Decoding undoes encoding: every instruction with operands in range is
/// what its opcode decodes to, sprite heights `8..=15` included.
pub proof fn lemma_decode_inverts_encode(ins: Instruction)
    requires
        operands_in_range(ins),
    ensures
        0 <= encode(ins) < 65536,
        spec_decode(encode(ins) as u16) == Ok::<Instruction, DecodeError>(ins),
{
    lemma_fields_of_packed(encoded_kind(ins), encoded_x(ins), encoded_low(ins));
}

proof fn lemma_shifts_are_nibbles(op: u16)
    by (bit_vector)
    ensures
        op >> 12u16 == op / 4096,
        (op >> 8u16) & 0xF == (op / 256) % 16,
        (op >> 4u16) & 0xF == (op / 16) % 16,
        op & 0xF == op % 16,
        op & 0xFF == op % 256,
        op & 0xFFF == op % 4096,
{
}

/// The instructions whose kind nibble alone decides them take their operands
/// from the opcode's nibbles: `X` from bits 8..12, `Y` from bits 4..8, `N`
/// from bits 0..4, `NN` from the low byte and `NNN` from the low twelve bits.
pub proof fn lemma_decode_reads_nibbles(op: u16)
    ensures
        ({
            let kind = op >> 12u16;
            let x = ((op >> 8u16) & 0xF) as u8;
            let y = ((op >> 4u16) & 0xF) as u8;
            let n = (op & 0xF) as u8;
            let nn = (op & 0xFF) as u8;
            let nnn = op & 0xFFF;
            &&& kind == 0x1 ==> spec_decode(op) == Ok::<Instruction, DecodeError>(Instruction::Jump { addr: nnn })
            &&& kind == 0x2 ==> spec_decode(op) == Ok::<Instruction, DecodeError>(Instruction::Call { addr: nnn })
            &&& kind == 0x3 ==> spec_decode(op) == Ok::<Instruction, DecodeError>(Instruction::SkipIfEqualByte { x, byte: nn })
            &&& kind == 0x4 ==> spec_decode(op) == Ok::<Instruction, DecodeError>(
                Instruction::SkipIfNotEqualByte { x, byte: nn },
            )
            &&& kind == 0x6 ==> spec_decode(op) == Ok::<Instruction, DecodeError>(Instruction::LoadByte { x, byte: nn })
            &&& kind == 0x7 ==> spec_decode(op) == Ok::<Instruction, DecodeError>(Instruction::AddByte { x, byte: nn })
            &&& kind == 0xA ==> spec_decode(op) == Ok::<Instruction, DecodeError>(Instruction::SetIndex { addr: nnn })
            &&& kind == 0xB ==> spec_decode(op) == Ok::<Instruction, DecodeError>(Instruction::JumpOffset { addr: nnn })
            &&& kind == 0xC ==> spec_decode(op) == Ok::<Instruction, DecodeError>(Instruction::Random { x, mask: nn })
            &&& kind == 0xD ==> spec_decode(op) == Ok::<Instruction, DecodeError>(Instruction::Draw { x, y, height: n })
        }),
{
    lemma_shifts_are_nibbles(op);
}

/// Whether column `col` (0 is the leftmost) of a sprite row is lit: bit
/// `7 - col` of the row byte.
pub open spec fn lit(b: u8, col: int) -> bool {
    (b >> ((7 - col) as u8)) & 1u8 == 1u8
}

/// The screen cell (`column + 64 * row`) that sprite pixel `(col, row)` covers
/// when the sprite is drawn at `(vx, vy)`, wrapping at the screen's edges.
pub open spec fn cell_at(vx: u8, vy: u8, col: int, row: int) -> int {
    (vx + col) % 64 + ((vy + row) % 32) * 64
}

/// Pixel `(col, row)` of the sprite at the index register is lit.
pub open spec fn sprite_pixel_lit(s: CpuState, row: int, col: int) -> bool {
    lit(s.memory[s.index + row], col)
}

/// Some lit pixel of the `h`-row sprite at the index register, drawn at
/// `(vx, vy)`, covers cell `c`.
pub open spec fn sprite_covers(s: CpuState, vx: u8, vy: u8, h: int, c: int) -> bool {
    exists|row: int, col: int|
        0 <= row < h && 0 <= col < 8 && #[trigger] sprite_pixel_lit(s, row, col) && cell_at(
            vx,
            vy,
            col,
            row,
        ) == c
}

/// Some lit pixel of the `h`-row sprite at the index register, drawn at
/// `(vx, vy)`, lands on a screen cell that holds 1.
pub open spec fn sprite_collides(s: CpuState, vx: u8, vy: u8, h: int) -> bool {
    exists|row: int, col: int|
        0 <= row < h && 0 <= col < 8 && #[trigger] sprite_pixel_lit(s, row, col)
            && s.graphics[cell_at(vx, vy, col, row)] == 1
}

/// `DXYN` with neither `X` nor `Y` the flag register: every screen cell that a
/// lit pixel of the sprite covers is toggled and no other cell changes; `VF`
/// is 1 exactly when some lit pixel landed on a cell that held 1 before the
/// draw, and 0 otherwise; no other register changes.
pub proof fn lemma_cycle_draw(s: CpuState, random: u8)
    requires
        can_cycle(s),
        kind_of(s) == 0xD,
        reg_x(s) != 15,
        reg_y(s) != 15,
    ensures
        ({
            let t = cycle_spec(s, random);
            let vx = s.v[reg_x(s)];
            let vy = s.v[reg_y(s)];
            let h = opcode_low(s) % 16;
            &&& forall|c: int|
                0 <= c < SCREEN_SIZE ==> #[trigger] t.graphics[c] == if sprite_covers(
                    s,
                    vx,
                    vy,
                    h as int,
                    c,
                ) {
                    s.graphics[c] ^ 1u8
                } else {
                    s.graphics[c]
                }
            &&& t.v[15] == if sprite_collides(s, vx, vy, h as int) { 1u8 } else { 0u8 }
            &&& forall|j: int| 0 <= j < 15 ==> t.v[j] == s.v[j]
            &&& t.draw_flag
            &&& t.pc == s.pc + 2
            &&& t.memory == s.memory
        }),
{
    lemma_opcode_fields(s);
    let x = reg_x(s);
    let y = reg_y(s);
    let h = (opcode_low(s) % 16) as u8;
    let vx = s.v[x];
    let vy = s.v[y];
    let rows = s.sprite_rows(h);
    let k = (8 * h) as nat;
    assert(current_instruction(s) == Instruction::Draw { x: x as u8, y: y as u8, height: h });
    let t = cycle_spec(s, random);
    let drawn = draw_progress(s.graphics, s.v, x, y, rows, k);
    assert(t.graphics == drawn.0 && t.v == s.v.update(15, drawn.1));
    lemma_draw_progress_len(s.graphics, s.v, x, y, rows, k);
    lemma_draw_toggles(s.graphics, s.v, x, y, rows, k);
    lemma_flag_exact(s.graphics, s.v, x, y, rows, k);
    // from sprite pixel numbers j = 8 * row + col to (row, col)
    assert forall|row: int, col: int| 0 <= row < h && 0 <= col < 8 implies {
        &&& 0 <= 8 * row + col < k
        &&& (8 * row + col) / 8 == row
        &&& (8 * row + col) % 8 == col
        &&& (#[trigger] sprite_pixel_lit(s, row, col) <==> sprite_bit(rows[row], col))
    } by {
        assert(0 <= 8 * row + col < 8 * h && (8 * row + col) / 8 == row && (8 * row + col) % 8 == col)
            by (nonlinear_arith)
            requires
                0 <= row < h,
                0 <= col < 8,
        ;
        assert(rows[row] == s.memory[s.index + row]);
        lemma_row_bit(rows[row], col);
    }
    assert forall|j: int| 0 <= j < k implies {
        &&& 0 <= j / 8 < h
        &&& 0 <= j % 8 < 8
        &&& (#[trigger] pixel_lit(rows, j) <==> sprite_pixel_lit(s, j / 8, j % 8))
    } by {
        assert(0 <= j / 8 < h) by (nonlinear_arith)
            requires
                0 <= j < 8 * h,
        ;
        assert(rows[j / 8] == s.memory[s.index + j / 8]);
        lemma_row_bit(rows[j / 8], j % 8);
    }
    assert forall|c: int| 0 <= c < SCREEN_SIZE implies #[trigger] t.graphics[c] == if sprite_covers(
        s,
        vx,
        vy,
        h as int,
        c,
    ) {
        s.graphics[c] ^ 1u8
    } else {
        s.graphics[c]
    } by {
        lemma_hits_exact(vx, vy, rows, c, k);
        if sprite_covers(s, vx, vy, h as int, c) {
            let (row, col) = choose|row: int, col: int|
                0 <= row < h && 0 <= col < 8 && #[trigger] sprite_pixel_lit(s, row, col)
                    && cell_at(vx, vy, col, row) == c;
            assert(pixel_lit(rows, 8 * row + col) && lit_cell(vx, vy, rows, 8 * row + col, c));
        } else {
            if exists|j: int| 0 <= j < k && #[trigger] lit_cell(vx, vy, rows, j, c) {
                let j = choose|j: int| 0 <= j < k && #[trigger] lit_cell(vx, vy, rows, j, c);
                assert(pixel_lit(rows, j));
                assert(sprite_pixel_lit(s, j / 8, j % 8));
            }
        }
    }
    if sprite_collides(s, vx, vy, h as int) {
        let (row, col) = choose|row: int, col: int|
            0 <= row < h && 0 <= col < 8 && #[trigger] sprite_pixel_lit(s, row, col)
                && s.graphics[cell_at(vx, vy, col, row)] == 1;
        assert(pixel_lit(rows, 8 * row + col) && hits_lit_pixel(s.graphics, vx, vy, rows, 8 * row + col));
    } else {
        if exists|j: int| 0 <= j < k && #[trigger] hits_lit_pixel(s.graphics, vx, vy, rows, j) {
            let j = choose|j: int| 0 <= j < k && #[trigger] hits_lit_pixel(s.graphics, vx, vy, rows, j);
            assert(pixel_lit(rows, j));
            assert(sprite_pixel_lit(s, j / 8, j % 8));
        }
    }
}

proof fn lemma_row_bit(b: u8, col: int)
    requires
        0 <= col < 8,
    ensures
        sprite_bit(b, col) == lit(b, col),
{
    let c = col as u8;
    let d = (7 - col) as u8;
    assert(((b & (0x80u8 >> c)) != 0u8) == (((b >> d) & 1u8) == 1u8)) by (bit_vector)
        requires
            c < 8,
            d == 7 - c,
    ;
}

/// Sprite pixel number `j` (row `j / 8`, column `j % 8`) is lit.
pub open spec fn pixel_lit(rows: Seq<u8>, j: int) -> bool {
    sprite_bit(rows[j / 8], j % 8)
}

/// Sprite pixel `j` is lit and covers cell `c`.
pub open spec fn lit_cell(vx: u8, vy: u8, rows: Seq<u8>, j: int, c: int) -> bool {
    pixel_lit(rows, j) && pixel_cell(vx, vy, j % 8, j / 8) == c
}

/// Sprite pixel `j` is lit and lands on a cell of `screen` that holds 1.
pub open spec fn hits_lit_pixel(screen: Seq<u8>, vx: u8, vy: u8, rows: Seq<u8>, j: int) -> bool {
    pixel_lit(rows, j) && screen[pixel_cell(vx, vy, j % 8, j / 8)] == 1
}

/// A cell is covered by at most one pixel of a sprite of at most 16 rows.
proof fn lemma_hits_exact(vx: u8, vy: u8, rows: Seq<u8>, c: int, k: nat)
    requires
        k <= 128,
    ensures
        hits(vx, vy, rows, c, k) == if exists|j: int|
            0 <= j < k && #[trigger] lit_cell(vx, vy, rows, j, c) {
            1nat
        } else {
            0nat
        },
    decreases k,
{
    if k > 0 {
        let j = k - 1;
        lemma_hits_exact(vx, vy, rows, c, j as nat);
        if lit_cell(vx, vy, rows, j, c) {
            lemma_no_earlier_hit(vx, vy, rows, j, j as nat);
        } else {
            if exists|i: int| 0 <= i < k && #[trigger] lit_cell(vx, vy, rows, i, c) {
                let i = choose|i: int| 0 <= i < k && #[trigger] lit_cell(vx, vy, rows, i, c);
                assert(i < j);
            }
        }
    }
}

/// With the position fixed, the flag after drawing says whether some lit
/// pixel landed on a cell that held 1 before the draw.
proof fn lemma_flag_exact(screen: Seq<u8>, v: Seq<u8>, x: int, y: int, rows: Seq<u8>, k: nat)
    requires
        screen.len() == SCREEN_SIZE,
        v.len() == REGISTER_COUNT,
        0 <= x < 15,
        0 <= y < 15,
        k <= 128,
    ensures
        draw_progress(screen, v, x, y, rows, k).1 == if exists|j: int|
            0 <= j < k && #[trigger] hits_lit_pixel(screen, v[x], v[y], rows, j) {
            1u8
        } else {
            0u8
        },
    decreases k,
{
    if k > 0 {
        let j = k - 1;
        lemma_flag_exact(screen, v, x, y, rows, j as nat);
        lemma_draw_toggles(screen, v, x, y, rows, j as nat);
        lemma_pixel_cell_in_range(v[x], v[y], j % 8, j / 8);
        lemma_no_earlier_hit(v[x], v[y], rows, j, j as nat);
        let prev = draw_progress(screen, v, x, y, rows, j as nat);
        let c = pixel_cell(v[x], v[y], j % 8, j / 8);
        assert(prev.0[c] == screen[c]);
        let regs = v.update(15, prev.1);
        assert(regs[x] == v[x] && regs[y] == v[y]);
        if !hits_lit_pixel(screen, v[x], v[y], rows, j) {
            if exists|i: int| 0 <= i < k && #[trigger] hits_lit_pixel(screen, v[x], v[y], rows, i) {
                let i = choose|i: int|
                    0 <= i < k && #[trigger] hits_lit_pixel(screen, v[x], v[y], rows, i);
                assert(i < j);
            }
        }
    }
}

/// Encoding undoes decoding: an opcode that decodes is the encoding of what
/// it decodes to, but for the `Y` nibble of `8XY6` and `8XYE`, which those
/// instructions ignore. Together with `lemma_decode_inverts_encode`, the
/// opcodes that decode are exactly the encodings of the instructions.
pub proof fn lemma_encode_inverts_decode(op: u16)
    ensures
        spec_decode(op) matches Ok(ins) ==> {
            ||| encode(ins) == op
            ||| (ins is ShiftRight || ins is ShiftLeft) && encode(ins) == op - ((op / 16) % 16) * 16
        },
        spec_decode(op) == Err::<Instruction, DecodeError>(DecodeError::MachineCodeRoutine) <==> (
        op / 4096 == 0 && op != 0x00E0 && op != 0x00EE),
{
    let o = op as int;
    assert(o == pack(o / 4096, (o / 256) % 16, o % 256) && o % 256 == ((o / 16) % 16) * 16 + o % 16
        && 0 <= o / 4096 < 16 && (o % 256) / 16 == (o / 16) % 16 && (o % 256) % 16 == o % 16)
        by (nonlinear_arith)
        requires
            0 <= o < 65536,
    ;
}

/// A cycle can run from every well-formed state whose program counter leaves
/// room for an opcode, whose opcode decodes, and whose instruction keeps its
/// stack, memory and key accesses in range: a return with 1 to 16 addresses
/// on the stack, a call with fewer than 16, a sprite, digits or register block
/// that ends inside memory, a key number below 16.
pub proof fn lemma_cycle_runs_when_accesses_in_range(s: CpuState)
    requires
        s.wf(),
        s.pc + 1 < MEMORY_SIZE,
        spec_decode(s.fetch()) is Ok,
        ({
            let x = reg_x(s);
            let nn = opcode_low(s);
            let i = s.index as int;
            &&& (opcode_high(s) == 0x00 && nn == 0xEE) ==> 1 <= s.sp <= 16
            &&& kind_of(s) == 0x2 ==> s.sp < 16
            &&& kind_of(s) == 0xD ==> i + nn % 16 <= MEMORY_SIZE
            &&& kind_of(s) == 0xE ==> s.v[x] < 16
            &&& (kind_of(s) == 0xF && nn == 0x33) ==> i + 2 < MEMORY_SIZE
            &&& (kind_of(s) == 0xF && (nn == 0x55 || nn == 0x65)) ==> i + x < MEMORY_SIZE
        }),
    ensures
        can_cycle(s),
{
    lemma_opcode_fields(s);
}

} // verus!
