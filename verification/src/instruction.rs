//! Decoding of the two-byte CHIP-8 opcodes.
use vstd::prelude::*;

verus! {

/// A decoded CHIP-8 instruction. Register operands `x` and `y` are in `0..16`,
/// addresses are in `0..0x1000` and sprite heights are in `0..16`.
#[derive(Clone, Copy, Debug, PartialEq, Eq, Structural)]
pub enum Instruction {
    /// `00E0`: clear the screen.
    ClearScreen,
    /// `00EE`: return from a subroutine.
    Return,
    /// `1NNN`: jump to `NNN`.
    Jump { addr: u16 },
    /// `2NNN`: call the subroutine at `NNN`.
    Call { addr: u16 },
    /// `3XNN`: skip the next instruction if `VX == NN`.
    SkipIfEqualByte { x: u8, byte: u8 },
    /// `4XNN`: skip the next instruction if `VX != NN`.
    SkipIfNotEqualByte { x: u8, byte: u8 },
    /// `5XY0`: skip the next instruction if `VX == VY`.
    SkipIfEqual { x: u8, y: u8 },
    /// `6XNN`: set `VX` to `NN`.
    LoadByte { x: u8, byte: u8 },
    /// `7XNN`: add `NN` to `VX`, wrapping, with no carry flag.
    AddByte { x: u8, byte: u8 },
    /// `8XY0`: set `VX` to `VY`.
    Move { x: u8, y: u8 },
    /// `8XY1`: set `VX` to `VX | VY`.
    Or { x: u8, y: u8 },
    /// `8XY2`: set `VX` to `VX & VY`.
    And { x: u8, y: u8 },
    /// `8XY3`: set `VX` to `VX ^ VY`.
    Xor { x: u8, y: u8 },
    /// `8XY4`: add `VY` to `VX`, `VF` is the carry.
    Add { x: u8, y: u8 },
    /// `8XY5`: subtract `VY` from `VX`, `VF` is set when `VX > VY`.
    Sub { x: u8, y: u8 },
    /// `8XY6`: shift `VX` right by one, `VF` is the bit shifted out.
    ShiftRight { x: u8 },
    /// `8XY7`: set `VX` to `VY - VX`, `VF` is set when `VY > VX`.
    SubReverse { x: u8, y: u8 },
    /// `8XYE`: shift `VX` left by one, `VF` is the bit shifted out.
    ShiftLeft { x: u8 },
    /// `9XY0`: skip the next instruction if `VX != VY`.
    SkipIfNotEqual { x: u8, y: u8 },
    /// `ANNN`: set the index register to `NNN`.
    SetIndex { addr: u16 },
    /// `BNNN`: jump to `NNN + V0`.
    JumpOffset { addr: u16 },
    /// `CXNN`: set `VX` to a random byte masked with `NN`.
    Random { x: u8, mask: u8 },
    /// `DXYN`: draw the `N`-row sprite at the index register at `(VX, VY)`.
    Draw { x: u8, y: u8, height: u8 },
    /// `EX9E`: skip the next instruction if the key in `VX` is pressed.
    SkipIfKey { x: u8 },
    /// `EXA1`: skip the next instruction if the key in `VX` is not pressed.
    SkipIfNotKey { x: u8 },
    /// `FX07`: set `VX` to the delay timer.
    LoadDelay { x: u8 },
    /// `FX0A`: wait for a key press, to be stored in `VX`.
    WaitKey { x: u8 },
    /// `FX15`: set the delay timer to `VX`.
    SetDelay { x: u8 },
    /// `FX18`: set the sound timer to `VX`.
    SetSound { x: u8 },
    /// `FX1E`: add `VX` to the index register, `VF` flags passing `0xFFF`.
    AddIndex { x: u8 },
    /// `FX29`: point the index register at the font sprite for the digit in `VX`.
    FontChar { x: u8 },
    /// `FX33`: store the decimal digits of `VX` at the index register.
    StoreBcd { x: u8 },
    /// `FX55`: store `V0..=VX` in memory at the index register.
    StoreRegisters { x: u8 },
    /// `FX65`: fill `V0..=VX` from memory at the index register.
    LoadRegisters { x: u8 },
}

/// Why an opcode does not decode.
#[derive(Clone, Copy, Debug, PartialEq, Eq, Structural)]
pub enum DecodeError {
    /// `0NNN` other than `00E0` and `00EE`: a call of a machine-code routine,
    /// which this interpreter does not implement.
    MachineCodeRoutine,
    /// Any other opcode that names no instruction.
    UnknownInstruction,
}

/// The highest nibble of an opcode.
pub open spec fn op_kind(op: u16) -> int {
    op as int / 4096
}

/// The second nibble of an opcode (the `X` register).
pub open spec fn op_x(op: u16) -> u8 {
    ((op as int / 256) % 16) as u8
}

/// The third nibble of an opcode (the `Y` register).
pub open spec fn op_y(op: u16) -> u8 {
    ((op as int / 16) % 16) as u8
}

/// The lowest nibble of an opcode.
pub open spec fn op_n(op: u16) -> u8 {
    (op as int % 16) as u8
}

/// The low byte of an opcode.
pub open spec fn op_nn(op: u16) -> u8 {
    (op as int % 256) as u8
}

/// The low twelve bits of an opcode (an address).
pub open spec fn op_nnn(op: u16) -> u16 {
    (op as int % 4096) as u16
}

/// The instruction that an opcode encodes, or why it encodes none.
pub open spec fn spec_decode(op: u16) -> Result<Instruction, DecodeError> {
    let kind = op_kind(op);
    let x = op_x(op);
    let y = op_y(op);
    let n = op_n(op);
    let nn = op_nn(op);
    let nnn = op_nnn(op);
    if kind == 0x0 {
        if op == 0x00E0 {
            Ok(Instruction::ClearScreen)
        } else if op == 0x00EE {
            Ok(Instruction::Return)
        } else {
            Err(DecodeError::MachineCodeRoutine)
        }
    } else if kind == 0x1 {
        Ok(Instruction::Jump { addr: nnn })
    } else if kind == 0x2 {
        Ok(Instruction::Call { addr: nnn })
    } else if kind == 0x3 {
        Ok(Instruction::SkipIfEqualByte { x, byte: nn })
    } else if kind == 0x4 {
        Ok(Instruction::SkipIfNotEqualByte { x, byte: nn })
    } else if kind == 0x5 {
        if n == 0 {
            Ok(Instruction::SkipIfEqual { x, y })
        } else {
            Err(DecodeError::UnknownInstruction)
        }
    } else if kind == 0x6 {
        Ok(Instruction::LoadByte { x, byte: nn })
    } else if kind == 0x7 {
        Ok(Instruction::AddByte { x, byte: nn })
    } else if kind == 0x8 {
        if n == 0x0 {
            Ok(Instruction::Move { x, y })
        } else if n == 0x1 {
            Ok(Instruction::Or { x, y })
        } else if n == 0x2 {
            Ok(Instruction::And { x, y })
        } else if n == 0x3 {
            Ok(Instruction::Xor { x, y })
        } else if n == 0x4 {
            Ok(Instruction::Add { x, y })
        } else if n == 0x5 {
            Ok(Instruction::Sub { x, y })
        } else if n == 0x6 {
            Ok(Instruction::ShiftRight { x })
        } else if n == 0x7 {
            Ok(Instruction::SubReverse { x, y })
        } else if n == 0xE {
            Ok(Instruction::ShiftLeft { x })
        } else {
            Err(DecodeError::UnknownInstruction)
        }
    } else if kind == 0x9 {
        if n == 0 {
            Ok(Instruction::SkipIfNotEqual { x, y })
        } else {
            Err(DecodeError::UnknownInstruction)
        }
    } else if kind == 0xA {
        Ok(Instruction::SetIndex { addr: nnn })
    } else if kind == 0xB {
        Ok(Instruction::JumpOffset { addr: nnn })
    } else if kind == 0xC {
        Ok(Instruction::Random { x, mask: nn })
    } else if kind == 0xD {
        Ok(Instruction::Draw { x, y, height: n })
    } else if kind == 0xE {
        if y == 0x9 && n == 0xE {
            Ok(Instruction::SkipIfKey { x })
        } else if y == 0xA && n == 0x1 {
            Ok(Instruction::SkipIfNotKey { x })
        } else {
            Err(DecodeError::UnknownInstruction)
        }
    } else {
        if y == 0x0 && n == 0x7 {
            Ok(Instruction::LoadDelay { x })
        } else if y == 0x0 && n == 0xA {
            Ok(Instruction::WaitKey { x })
        } else if y == 0x1 && n == 0x5 {
            Ok(Instruction::SetDelay { x })
        } else if y == 0x1 && n == 0x8 {
            Ok(Instruction::SetSound { x })
        } else if y == 0x1 && n == 0xE {
            Ok(Instruction::AddIndex { x })
        } else if y == 0x2 && n == 0x9 {
            Ok(Instruction::FontChar { x })
        } else if y == 0x3 && n == 0x3 {
            Ok(Instruction::StoreBcd { x })
        } else if y == 0x5 && n == 0x5 {
            Ok(Instruction::StoreRegisters { x })
        } else if y == 0x6 && n == 0x5 {
            Ok(Instruction::LoadRegisters { x })
        } else {
            Err(DecodeError::UnknownInstruction)
        }
    }
}

/// The operands of a decoded instruction are in range: registers below 16,
/// addresses below `0x1000`, sprite heights below 16.
pub open spec fn operands_in_range(ins: Instruction) -> bool {
    match ins {
        Instruction::ClearScreen | Instruction::Return => true,
        Instruction::Jump { addr }
        | Instruction::Call { addr }
        | Instruction::SetIndex { addr }
        | Instruction::JumpOffset { addr } => addr < 0x1000,
        Instruction::SkipIfEqualByte { x, .. }
        | Instruction::SkipIfNotEqualByte { x, .. }
        | Instruction::LoadByte { x, .. }
        | Instruction::AddByte { x, .. }
        | Instruction::ShiftRight { x }
        | Instruction::ShiftLeft { x }
        | Instruction::Random { x, .. }
        | Instruction::SkipIfKey { x }
        | Instruction::SkipIfNotKey { x }
        | Instruction::LoadDelay { x }
        | Instruction::WaitKey { x }
        | Instruction::SetDelay { x }
        | Instruction::SetSound { x }
        | Instruction::AddIndex { x }
        | Instruction::FontChar { x }
        | Instruction::StoreBcd { x }
        | Instruction::StoreRegisters { x }
        | Instruction::LoadRegisters { x } => x < 16,
        Instruction::SkipIfEqual { x, y }
        | Instruction::Move { x, y }
        | Instruction::Or { x, y }
        | Instruction::And { x, y }
        | Instruction::Xor { x, y }
        | Instruction::Add { x, y }
        | Instruction::Sub { x, y }
        | Instruction::SubReverse { x, y }
        | Instruction::SkipIfNotEqual { x, y } => x < 16 && y < 16,
        Instruction::Draw { x, y, height } => x < 16 && y < 16 && height < 16,
    }
}

proof fn lemma_nibbles(op: u16)
    by (bit_vector)
    ensures
        (op & 0xF000) >> 12u16 == op / 4096,
        (op & 0x0F00) >> 8u16 == (op / 256) % 16,
        (op & 0x00F0) >> 4u16 == (op / 16) % 16,
        op & 0x000F == op % 16,
        op & 0x00FF == op % 256,
        op & 0x0FFF == op % 4096,
{
}

/// Every opcode that decodes gives operands in range.
pub proof fn lemma_decoded_operands_in_range(op: u16)
    ensures
        spec_decode(op) is Ok ==> operands_in_range(spec_decode(op)->Ok_0),
{
}

/// Splits an opcode into its instruction, as the interpreter does before it
/// executes it.
pub fn decode(op: u16) -> (res: Result<Instruction, DecodeError>)
    ensures
        res == spec_decode(op),
        res is Ok ==> operands_in_range(res->Ok_0),
{
    proof {
        lemma_nibbles(op);
    }
    let kind: u16 = (op & 0xF000) >> 12u16;
    let x: u8 = ((op & 0x0F00) >> 8u16) as u8;
    let y: u8 = ((op & 0x00F0) >> 4u16) as u8;
    let n: u8 = (op & 0x000F) as u8;
    let nn: u8 = (op & 0x00FF) as u8;
    let nnn: u16 = op & 0x0FFF;
    if kind == 0x0 {
        if op == 0x00E0 {
            Ok(Instruction::ClearScreen)
        } else if op == 0x00EE {
            Ok(Instruction::Return)
        } else {
            Err(DecodeError::MachineCodeRoutine)
        }
    } else if kind == 0x1 {
        Ok(Instruction::Jump { addr: nnn })
    } else if kind == 0x2 {
        Ok(Instruction::Call { addr: nnn })
    } else if kind == 0x3 {
        Ok(Instruction::SkipIfEqualByte { x, byte: nn })
    } else if kind == 0x4 {
        Ok(Instruction::SkipIfNotEqualByte { x, byte: nn })
    } else if kind == 0x5 {
        if n == 0 {
            Ok(Instruction::SkipIfEqual { x, y })
        } else {
            Err(DecodeError::UnknownInstruction)
        }
    } else if kind == 0x6 {
        Ok(Instruction::LoadByte { x, byte: nn })
    } else if kind == 0x7 {
        Ok(Instruction::AddByte { x, byte: nn })
    } else if kind == 0x8 {
        if n == 0x0 {
            Ok(Instruction::Move { x, y })
        } else if n == 0x1 {
            Ok(Instruction::Or { x, y })
        } else if n == 0x2 {
            Ok(Instruction::And { x, y })
        } else if n == 0x3 {
            Ok(Instruction::Xor { x, y })
        } else if n == 0x4 {
            Ok(Instruction::Add { x, y })
        } else if n == 0x5 {
            Ok(Instruction::Sub { x, y })
        } else if n == 0x6 {
            Ok(Instruction::ShiftRight { x })
        } else if n == 0x7 {
            Ok(Instruction::SubReverse { x, y })
        } else if n == 0xE {
            Ok(Instruction::ShiftLeft { x })
        } else {
            Err(DecodeError::UnknownInstruction)
        }
    } else if kind == 0x9 {
        if n == 0 {
            Ok(Instruction::SkipIfNotEqual { x, y })
        } else {
            Err(DecodeError::UnknownInstruction)
        }
    } else if kind == 0xA {
        Ok(Instruction::SetIndex { addr: nnn })
    } else if kind == 0xB {
        Ok(Instruction::JumpOffset { addr: nnn })
    } else if kind == 0xC {
        Ok(Instruction::Random { x, mask: nn })
    } else if kind == 0xD {
        Ok(Instruction::Draw { x, y, height: n })
    } else if kind == 0xE {
        if y == 0x9 && n == 0xE {
            Ok(Instruction::SkipIfKey { x })
        } else if y == 0xA && n == 0x1 {
            Ok(Instruction::SkipIfNotKey { x })
        } else {
            Err(DecodeError::UnknownInstruction)
        }
    } else {
        if y == 0x0 && n == 0x7 {
            Ok(Instruction::LoadDelay { x })
        } else if y == 0x0 && n == 0xA {
            Ok(Instruction::WaitKey { x })
        } else if y == 0x1 && n == 0x5 {
            Ok(Instruction::SetDelay { x })
        } else if y == 0x1 && n == 0x8 {
            Ok(Instruction::SetSound { x })
        } else if y == 0x1 && n == 0xE {
            Ok(Instruction::AddIndex { x })
        } else if y == 0x2 && n == 0x9 {
            Ok(Instruction::FontChar { x })
        } else if y == 0x3 && n == 0x3 {
            Ok(Instruction::StoreBcd { x })
        } else if y == 0x5 && n == 0x5 {
            Ok(Instruction::StoreRegisters { x })
        } else if y == 0x6 && n == 0x5 {
            Ok(Instruction::LoadRegisters { x })
        } else {
            Err(DecodeError::UnknownInstruction)
        }
    }
}

} // verus!
