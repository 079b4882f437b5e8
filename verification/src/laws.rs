//! Properties that relate the instructions to one another.
use vstd::prelude::*;
use crate::cpu::{font_data, initial_state, keys_from_host, rgba_frame, with_program};
use crate::instruction::Instruction;
use crate::keypad::{HostKey, lemma_keypad_mapping_is_bijection};
use crate::sprite::{draw_progress, pixel_cell, sprite_bit, SCREEN_SIZE, lemma_pixel_cell_in_range};
use crate::state::{
    CpuState,
    execute_spec,
    draw_spec,
    resume_spec,
    STACK_SIZE,
    MEMORY_SIZE,
    REGISTER_COUNT,
    FLAG,
    KEY_COUNT,
    PROGRAM_START,
};

verus! {

/// Returning from a subroutine undoes the call: the program counter is back
/// on the instruction after the call and the stack pointer is back where it
/// was; only the stack slot that held the return address changed.
pub proof fn lemma_return_undoes_call(s: CpuState, addr: u16, random: u8)
    requires
        s.wf(),
        s.sp < STACK_SIZE,
        s.pc + 2 <= u16::MAX,
    ensures
        ({
            let called = execute_spec(s, Instruction::Call { addr }, random);
            let back = execute_spec(called, Instruction::Return, random);
            &&& called.pc == addr
            &&& back.pc == s.pc + 2
            &&& back.sp == s.sp
            &&& back == (CpuState {
                stack: s.stack.update(s.sp as int, (s.pc + 2) as u16),
                pc: (s.pc + 2) as u16,
                ..s
            })
        }),
{
}

/// Drawing the same sprite at the same place twice leaves the screen as it
/// was, when neither coordinate register is the flag register.
pub proof fn lemma_draw_twice_restores_screen(s: CpuState, x: u8, y: u8, height: u8)
    requires
        s.wf(),
        x < FLAG,
        y < FLAG,
        height < 16,
    ensures
        draw_spec(draw_spec(s, x, y, height), x, y, height).graphics == s.graphics,
{
    let rows = s.sprite_rows(height);
    let k = (8 * height) as nat;
    let once = draw_spec(s, x, y, height);
    let twice = draw_spec(once, x, y, height);
    assert(once.sprite_rows(height) == rows);
    assert(once.v[x as int] == s.v[x as int] && once.v[y as int] == s.v[y as int]);
    crate::sprite::lemma_draw_progress_len(s.graphics, s.v, x as int, y as int, rows, k);
    lemma_draw_toggles(s.graphics, s.v, x as int, y as int, rows, k);
    crate::sprite::lemma_draw_progress_len(once.graphics, once.v, x as int, y as int, rows, k);
    lemma_draw_toggles(once.graphics, once.v, x as int, y as int, rows, k);
    assert forall|c: int| 0 <= c < SCREEN_SIZE implies twice.graphics[c] == s.graphics[c] by {
        lemma_toggle_twice(s.graphics[c], hits(s.v[x as int], s.v[y as int], rows, c, k));
    }
    assert(twice.graphics =~= s.graphics);
}

/// The number of lit pixels among the first `k` pixels of a sprite drawn at
/// `(vx, vy)` that cover cell `c`.
pub open spec fn hits(vx: u8, vy: u8, rows: Seq<u8>, c: int, k: nat) -> nat
    decreases k,
{
    if k == 0 {
        0
    } else {
        let j = k - 1;
        hits(vx, vy, rows, c, j as nat) + if sprite_bit(rows[j / 8], j % 8) && pixel_cell(
            vx,
            vy,
            j % 8,
            j / 8,
        ) == c {
            1nat
        } else {
            0nat
        }
    }
}

/// A pixel value toggled `n` times.
pub open spec fn toggled(value: u8, n: nat) -> u8 {
    if n % 2 == 0 {
        value
    } else {
        value ^ 1
    }
}

pub(crate) proof fn lemma_xor_one_twice(b: u8)
    by (bit_vector)
    ensures
        (b ^ 1u8) ^ 1u8 == b,
{
}

proof fn lemma_toggle_twice(b: u8, n: nat)
    ensures
        toggled(toggled(b, n), n) == b,
{
    lemma_xor_one_twice(b);
}

/// With the position fixed, drawing toggles each cell once for each lit
/// sprite pixel that covers it.
pub(crate) proof fn lemma_draw_toggles(screen: Seq<u8>, v: Seq<u8>, x: int, y: int, rows: Seq<u8>, k: nat)
    requires
        screen.len() == SCREEN_SIZE,
        v.len() == REGISTER_COUNT,
        0 <= x < FLAG,
        0 <= y < FLAG,
    ensures
        forall|c: int|
            0 <= c < SCREEN_SIZE ==> #[trigger] draw_progress(screen, v, x, y, rows, k).0[c]
                == toggled(screen[c], hits(v[x], v[y], rows, c, k)),
    decreases k,
{
    if k > 0 {
        let j = k - 1;
        lemma_draw_toggles(screen, v, x, y, rows, j as nat);
        crate::sprite::lemma_draw_progress_len(screen, v, x, y, rows, j as nat);
        let prev = draw_progress(screen, v, x, y, rows, j as nat);
        let regs = v.update(15, prev.1);
        assert(regs[x] == v[x] && regs[y] == v[y]);
        lemma_pixel_cell_in_range(v[x], v[y], j % 8, j / 8);
        assert forall|c: int| 0 <= c < SCREEN_SIZE implies #[trigger] draw_progress(
            screen,
            v,
            x,
            y,
            rows,
            k,
        ).0[c] == toggled(screen[c], hits(v[x], v[y], rows, c, k)) by {
            lemma_xor_one_twice(screen[c]);
            assert(prev.0[c] == toggled(screen[c], hits(v[x], v[y], rows, c, j as nat)));
        }
    }
}

/// Cell `a + 64 * b` with `a < 64` and `b < 32` gives back `a` and `b`.
proof fn lemma_cell_determines_coordinates(a1: int, b1: int, a2: int, b2: int)
    requires
        0 <= a1 < 64,
        0 <= a2 < 64,
        0 <= b1 < 32,
        0 <= b2 < 32,
        a1 + 64 * b1 == a2 + 64 * b2,
    ensures
        a1 == a2,
        b1 == b2,
{
    assert(b1 == b2) by (nonlinear_arith)
        requires
            0 <= a1 < 64,
            0 <= a2 < 64,
            a1 + 64 * b1 == a2 + 64 * b2,
    ;
}

/// Two different pixels of a sprite of at most 16 rows cover different cells:
/// eight columns do not wrap onto each other on a 64-wide screen, nor do 16
/// rows on a 32-high one.
pub(crate) proof fn lemma_sprite_pixels_distinct(vx: u8, vy: u8, j1: int, j2: int)
    requires
        0 <= j1 < j2 < 128,
    ensures
        pixel_cell(vx, vy, j1 % 8, j1 / 8) != pixel_cell(vx, vy, j2 % 8, j2 / 8),
{
    let (c1, r1, c2, r2) = (j1 % 8, j1 / 8, j2 % 8, j2 / 8);
    assert(0 <= r1 < 16 && 0 <= r2 < 16);
    if pixel_cell(vx, vy, c1, r1) == pixel_cell(vx, vy, c2, r2) {
        lemma_cell_determines_coordinates(
            (vx + c1) % 64,
            (vy + r1) % 32,
            (vx + c2) % 64,
            (vy + r2) % 32,
        );
        assert(c1 == c2) by (nonlinear_arith)
            requires
                (vx + c1) % 64 == (vx + c2) % 64,
                0 <= c1 < 8,
                0 <= c2 < 8,
                0 <= vx,
        ;
        assert(r1 == r2) by (nonlinear_arith)
            requires
                (vy + r1) % 32 == (vy + r2) % 32,
                0 <= r1 < 16,
                0 <= r2 < 16,
                0 <= vy,
        ;
        assert(j1 == j2) by (nonlinear_arith)
            requires
                c1 == c2,
                r1 == r2,
                c1 == j1 % 8,
                r1 == j1 / 8,
                c2 == j2 % 8,
                r2 == j2 / 8,
        ;
    }
}

/// No pixel among the first `k` of a sprite covers the cell of pixel `k`.
pub(crate) proof fn lemma_no_earlier_hit(vx: u8, vy: u8, rows: Seq<u8>, j: int, k: nat)
    requires
        0 <= k <= j < 128,
    ensures
        hits(vx, vy, rows, pixel_cell(vx, vy, j % 8, j / 8), k) == 0,
    decreases k,
{
    if k > 0 {
        lemma_no_earlier_hit(vx, vy, rows, j, (k - 1) as nat);
        lemma_sprite_pixels_distinct(vx, vy, k - 1, j);
    }
}

/// A sprite of at most 15 rows drawn onto a blank screen reports no
/// collision, when neither coordinate register is the flag register.
pub proof fn lemma_no_collision_on_blank_screen(s: CpuState, x: u8, y: u8, height: u8)
    requires
        s.wf(),
        x < FLAG,
        y < FLAG,
        height < 16,
        forall|c: int| 0 <= c < SCREEN_SIZE ==> #[trigger] s.graphics[c] == 0,
    ensures
        draw_spec(s, x, y, height).v[FLAG as int] == 0,
{
    lemma_blank_draw_no_flag(s.graphics, s.v, x as int, y as int, s.sprite_rows(height), (8 * height) as nat);
}

proof fn lemma_blank_draw_no_flag(screen: Seq<u8>, v: Seq<u8>, x: int, y: int, rows: Seq<u8>, k: nat)
    requires
        screen.len() == SCREEN_SIZE,
        v.len() == REGISTER_COUNT,
        0 <= x < FLAG,
        0 <= y < FLAG,
        k <= 128,
        forall|c: int| 0 <= c < SCREEN_SIZE ==> #[trigger] screen[c] == 0,
    ensures
        draw_progress(screen, v, x, y, rows, k).1 == 0,
    decreases k,
{
    if k > 0 {
        let j = k - 1;
        lemma_blank_draw_no_flag(screen, v, x, y, rows, j as nat);
        lemma_draw_toggles(screen, v, x, y, rows, j as nat);
        let c = pixel_cell(v[x], v[y], j % 8, j / 8);
        lemma_pixel_cell_in_range(v[x], v[y], j % 8, j / 8);
        lemma_no_earlier_hit(v[x], v[y], rows, j, j as nat);
        let prev = draw_progress(screen, v, x, y, rows, j as nat);
        assert(prev.0[c] == 0);
        let regs = v.update(15, prev.1);
        assert(regs[x] == v[x] && regs[y] == v[y]);
    }
}

/// Storing `V0..=VX` in memory and filling `V0..=VX` back from the same
/// place gives back the registers.
pub proof fn lemma_load_after_store_restores_registers(s: CpuState, x: u8, random: u8)
    requires
        s.wf(),
        x < REGISTER_COUNT,
        s.index + x < MEMORY_SIZE,
        s.pc + 4 <= u16::MAX,
    ensures
        execute_spec(
            execute_spec(s, Instruction::StoreRegisters { x }, random),
            Instruction::LoadRegisters { x },
            random,
        ).v == s.v,
{
    let stored = execute_spec(s, Instruction::StoreRegisters { x }, random);
    let loaded = execute_spec(stored, Instruction::LoadRegisters { x }, random);
    assert(loaded.v =~= s.v);
}

/// `FX33` stores the three decimal digits of `VX`, most significant first.
pub proof fn lemma_bcd_digits(s: CpuState, x: u8, random: u8)
    requires
        s.wf(),
        x < REGISTER_COUNT,
        s.index + 2 < MEMORY_SIZE,
    ensures
        ({
            let m = execute_spec(s, Instruction::StoreBcd { x }, random).memory;
            let i = s.index as int;
            &&& m[i] < 10 && m[i + 1] < 10 && m[i + 2] < 10
            &&& 100 * m[i] + 10 * m[i + 1] + m[i + 2] == s.v[x as int]
        }),
{
}

/// `8XY4` with neither operand the flag register: `VF` and `VX` together hold
/// the nine-bit sum.
pub proof fn lemma_add_carry(s: CpuState, x: u8, y: u8, random: u8)
    requires
        s.wf(),
        x < FLAG,
        y < FLAG,
    ensures
        ({
            let v = execute_spec(s, Instruction::Add { x, y }, random).v;
            256 * v[FLAG as int] + v[x as int] == s.v[x as int] + s.v[y as int]
        }),
{
}

/// `8XY6` with `X` not the flag register: `VX` and `VF` together hold the
/// register before the shift.
pub proof fn lemma_shift_right_keeps_bits(s: CpuState, x: u8, random: u8)
    requires
        s.wf(),
        x < FLAG,
    ensures
        ({
            let v = execute_spec(s, Instruction::ShiftRight { x }, random).v;
            2 * v[x as int] + v[FLAG as int] == s.v[x as int]
        }),
{
}

/// `8XYE` with `X` not the flag register: `VF` and `VX` together hold twice
/// the register before the shift.
pub proof fn lemma_shift_left_keeps_bits(s: CpuState, x: u8, random: u8)
    requires
        s.wf(),
        x < FLAG,
    ensures
        ({
            let v = execute_spec(s, Instruction::ShiftLeft { x }, random).v;
            256 * v[FLAG as int] + v[x as int] == 2 * s.v[x as int]
        }),
{
}

proof fn lemma_and_bounded(a: u8, b: u8)
    by (bit_vector)
    ensures
        a & b <= b,
{
}

/// `CXNN` never sets a bit that the mask `NN` clears: whatever the random
/// byte, `VX` ends up at most `NN`.
pub proof fn lemma_random_within_mask(s: CpuState, x: u8, mask: u8, random: u8)
    requires
        s.wf(),
        x < REGISTER_COUNT,
    ensures
        execute_spec(s, Instruction::Random { x, mask }, random).v[x as int] <= mask,
{
    lemma_and_bounded(random, mask);
}

/// A key press ends the wait that `FX0A` started: the key lands in `VX` and
/// the machine runs again from the instruction after the wait.
pub proof fn lemma_key_press_ends_wait(s: CpuState, x: u8, key: u8, random: u8)
    requires
        s.wf(),
        x < REGISTER_COUNT,
        s.pc + 2 <= u16::MAX,
    ensures
        ({
            let waiting = execute_spec(s, Instruction::WaitKey { x }, random);
            let resumed = resume_spec(waiting, key);
            &&& waiting.wait_flag
            &&& !resumed.wait_flag
            &&& resumed.v[x as int] == key
            &&& resumed.pc == s.pc + 2
        }),
{
}

/// Every instruction but the jumps, calls, returns and skips moves the
/// program counter on to the next instruction; the skips move it on by one
/// or by two instructions.
pub proof fn lemma_program_counter_advance(s: CpuState, ins: Instruction, random: u8)
    requires
        s.wf(),
        s.pc + 4 <= u16::MAX,
    ensures
        ({
            let pc = execute_spec(s, ins, random).pc;
            match ins {
                Instruction::Return
                | Instruction::Jump { .. }
                | Instruction::Call { .. }
                | Instruction::JumpOffset { .. } => true,
                Instruction::SkipIfEqualByte { .. }
                | Instruction::SkipIfNotEqualByte { .. }
                | Instruction::SkipIfEqual { .. }
                | Instruction::SkipIfNotEqual { .. }
                | Instruction::SkipIfKey { .. }
                | Instruction::SkipIfNotKey { .. } => pc == s.pc + 2 || pc == s.pc + 4,
                _ => pc == s.pc + 2,
            }
        }),
{
}

/// After a fresh start and a program load, the first cycle fetches the
/// program's first two bytes.
pub proof fn lemma_first_fetch_reads_program(data: Seq<u8>)
    requires
        2 <= data.len(),
        PROGRAM_START + data.len() <= MEMORY_SIZE,
    ensures
        ({
            let s = CpuState { memory: with_program(initial_state().memory, data), ..initial_state() };
            s.fetch() == data[0] * 256 + data[1]
        }),
{
}

/// A key scan that finds host key `key` held down makes `EX9E` skip, and
/// `EXA1` not skip, when `VX` holds the keypad value that `key` stands for.
pub proof fn lemma_scanned_key_is_seen(
    s: CpuState,
    pressed: Seq<bool>,
    key: HostKey,
    x: u8,
    random: u8,
)
    requires
        s.wf(),
        pressed.len() == KEY_COUNT,
        x < REGISTER_COUNT,
        s.v[x as int] == key.spec_keypad_value(),
        s.pc + 4 <= u16::MAX,
    ensures
        ({
            let scanned = CpuState { keys: keys_from_host(pressed), ..s };
            let pressed_now = pressed[key.layout_index()];
            &&& execute_spec(scanned, Instruction::SkipIfKey { x }, random).pc == if pressed_now {
                s.pc + 4
            } else {
                s.pc + 2
            }
            &&& execute_spec(scanned, Instruction::SkipIfNotKey { x }, random).pc == if pressed_now {
                s.pc + 2
            } else {
                s.pc + 4
            }
        }),
{
    lemma_keypad_mapping_is_bijection();
    assert(HostKey::for_keypad_value(key.spec_keypad_value()) == key);
}

/// The frame handed out for display has four bytes per screen pixel, in
/// screen order: all `0xFF` for a pixel that is set and all `0` for one that
/// is clear.
pub proof fn lemma_frame_pixels(graphics: Seq<u8>)
    requires
        graphics.len() == SCREEN_SIZE,
    ensures
        rgba_frame(graphics).len() == 4 * SCREEN_SIZE,
        forall|p: int, k: int|
            0 <= p < SCREEN_SIZE && 0 <= k < 4 ==> #[trigger] rgba_frame(graphics)[4 * p + k] == if graphics[p] != 0 {
                0xFFu8
            } else {
                0u8
            },
{
    assert forall|p: int, k: int|
        0 <= p < SCREEN_SIZE && 0 <= k < 4 implies #[trigger] rgba_frame(graphics)[4 * p + k]
        == if graphics[p] != 0 {
        0xFFu8
    } else {
        0u8
    } by {
        assert((4 * p + k) / 4 == p) by (nonlinear_arith)
            requires
                0 <= k < 4,
        ;
    }
}

/// The keypad layout: the host keys `1 2 3 4 / Q W E R / A S D F / Z X C V`,
/// row by row, stand for `1 2 3 C / 4 5 6 D / 7 8 9 E / A 0 B F`.
pub proof fn lemma_keypad_layout()
    ensures
        forall|i: int|
            0 <= i < 16 ==> (#[trigger] HostKey::spec_at_layout_index(i)).spec_keypad_value() == seq![
                0x1u8, 0x2, 0x3, 0xC, 0x4, 0x5, 0x6, 0xD, 0x7, 0x8, 0x9, 0xE, 0xA, 0x0, 0xB, 0xF,
            ][i],
{
}

/// After a key scan, each keypad key holds 1 when the host key that stands
/// for it is held down and 0 otherwise.
pub proof fn lemma_scan_sets_each_key(pressed: Seq<bool>, key: HostKey)
    requires
        pressed.len() == KEY_COUNT,
    ensures
        keys_from_host(pressed).len() == KEY_COUNT,
        keys_from_host(pressed)[key.spec_keypad_value() as int] == if pressed[key.layout_index()] {
            1u8
        } else {
            0u8
        },
{
    lemma_keypad_mapping_is_bijection();
    assert(HostKey::for_keypad_value(key.spec_keypad_value()) == key);
}

/// A fresh machine starts at `0x200` with every register, timer, stack slot,
/// key and pixel zero, the 80 font bytes at `0x050..0x0A0` and every other
/// byte of memory zero.
pub proof fn lemma_fresh_machine()
    ensures
        ({
            let s = initial_state();
            &&& s.wf()
            &&& s.pc == 0x200 && s.index == 0 && s.sp == 0
            &&& s.delay_timer == 0 && s.sound_timer == 0
            &&& !s.draw_flag && !s.wait_flag
            &&& forall|i: int| 0 <= i < 16 ==> s.v[i] == 0 && s.stack[i] == 0 && s.keys[i] == 0
            &&& forall|c: int| 0 <= c < SCREEN_SIZE ==> s.graphics[c] == 0
            &&& forall|i: int| 0 <= i < 80 ==> s.memory[0x50 + i] == font_data()[i]
            &&& forall|a: int| 0 <= a < MEMORY_SIZE && (a < 0x50 || a >= 0xA0) ==> s.memory[a] == 0
        }),
{
}

/// Loading a program puts its bytes at `0x200` onwards, in order, and leaves
/// every other byte of memory as it was.
pub proof fn lemma_program_load(memory: Seq<u8>, data: Seq<u8>)
    requires
        memory.len() == MEMORY_SIZE,
        PROGRAM_START + data.len() <= MEMORY_SIZE,
    ensures
        with_program(memory, data).len() == MEMORY_SIZE,
        forall|i: int| 0 <= i < data.len() ==> with_program(memory, data)[0x200 + i] == data[i],
        forall|a: int|
            0 <= a < MEMORY_SIZE && (a < 0x200 || a >= 0x200 + data.len()) ==> with_program(
                memory,
                data,
            )[a] == memory[a],
{
}

} // verus!
