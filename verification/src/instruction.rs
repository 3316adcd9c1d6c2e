//! Instruction words: their operand fields and the operation each one names.

use vstd::prelude::*;

verus! {

/// The operations of the machine, one per recognised instruction pattern,
/// and `Unrecognized` for every word that matches none of them.
#[derive(Clone, Copy, Debug, PartialEq, Eq, Structural)]
pub enum Instruction {
    /// `0NNN`: call to a native routine; ignored.
    Sys,
    /// `00E0`: clear the display.
    ClearDisplay,
    /// `00EE`: return from a subroutine.
    Return,
    /// `1NNN`: jump to `NNN`.
    Jump,
    /// `2NNN`: call the subroutine at `NNN`.
    Call,
    /// `3XNN`: skip the next instruction if `VX == NN`.
    SkipEqImm,
    /// `4XNN`: skip the next instruction if `VX != NN`.
    SkipNeImm,
    /// `5XY_`: skip the next instruction if `VX == VY`.
    SkipEqReg,
    /// `6XNN`: `VX = NN`.
    LoadImm,
    /// `7XNN`: `VX += NN`, no flag.
    AddImm,
    /// `8XY0`: `VX = VY`.
    Move,
    /// `8XY1`: `VX |= VY`.
    Or,
    /// `8XY2`: `VX &= VY`.
    And,
    /// `8XY3`: `VX ^= VY`.
    Xor,
    /// `8XY4`: `VX += VY`, `VF` = carry.
    Add,
    /// `8XY5`: `VX -= VY`, `VF` = no borrow.
    Sub,
    /// `8XY6`: `VX >>= 1`, `VF` = the bit shifted out.
    ShiftRight,
    /// `8XY7`: `VX = VY - VX`, `VF` = no borrow.
    SubReverse,
    /// `8XYE`: `VX <<= 1`, `VF` = the bit shifted out.
    ShiftLeft,
    /// `9XY_`: skip the next instruction if `VX != VY`.
    SkipNeReg,
    /// `ANNN`: `I = NNN`.
    LoadIndex,
    /// `BNNN`: jump to `NNN + V0`.
    JumpOffset,
    /// `CXNN`: `VX` = a random byte masked by `NN`.
    Random,
    /// `DXYN`: draw an `N`-row sprite at (`VX`, `VY`).
    Draw,
    /// `EX9E`: skip the next instruction if the key named by `VX` is held.
    SkipKey,
    /// `EXA1`: skip the next instruction if the key named by `VX` is not held.
    SkipNotKey,
    /// `FX07`: `VX` = delay timer.
    GetDelay,
    /// `FX0A`: wait for a key and store it in `VX`.
    WaitKey,
    /// `FX15`: delay timer = `VX`.
    SetDelay,
    /// `FX18`: sound timer = `VX`.
    SetSound,
    /// `FX1E`: `I += VX`.
    AddIndex,
    /// `FX29`: `I` = address of the glyph for `VX`.
    Glyph,
    /// `FX33`: store the decimal digits of `VX` at `I`.
    Bcd,
    /// `FX55`: store `V0..=VX` at `I`.
    Store,
    /// `FX65`: load `V0..=VX` from `I`.
    Load,
    /// Any other word.
    Unrecognized,
}

impl Instruction {
    /// Loads into a register and arithmetic on registers: the operations
    /// whose result goes to `VX`.
    pub open spec fn is_arithmetic(self) -> bool {
        self == Instruction::LoadImm || self == Instruction::AddImm || self == Instruction::Move
            || self == Instruction::Or || self == Instruction::And || self == Instruction::Xor
            || self.sets_flag()
    }

    /// The operations that set the program counter rather than step it:
    /// jumps, call and return.
    pub open spec fn is_jump(self) -> bool {
        self == Instruction::Jump || self == Instruction::JumpOffset || self == Instruction::Call
            || self == Instruction::Return
    }

    /// The operations that step over the next instruction on a condition.
    pub open spec fn is_skip(self) -> bool {
        self == Instruction::SkipEqImm || self == Instruction::SkipNeImm || self
            == Instruction::SkipEqReg || self == Instruction::SkipNeReg || self
            == Instruction::SkipKey || self == Instruction::SkipNotKey
    }

    /// The arithmetic operations that write a carry, a borrow or a bit
    /// shifted out to `VF`.
    pub open spec fn sets_flag(self) -> bool {
        self == Instruction::Add || self == Instruction::Sub || self == Instruction::ShiftRight
            || self == Instruction::SubReverse || self == Instruction::ShiftLeft
    }
}

/// The top four bits of an instruction word.
pub open spec fn family(word: u16) -> int {
    word as int / 4096
}

/// The register index in bits 8 to 11.
pub open spec fn operand_x(word: u16) -> int {
    (word as int / 256) % 16
}

/// The register index in bits 4 to 7.
pub open spec fn operand_y(word: u16) -> int {
    (word as int / 16) % 16
}

/// The low four bits.
pub open spec fn operand_n(word: u16) -> int {
    word as int % 16
}

/// The low byte.
pub open spec fn operand_nn(word: u16) -> int {
    word as int % 256
}

/// The low twelve bits.
pub open spec fn operand_nnn(word: u16) -> int {
    word as int % 4096
}

/// The operation an arithmetic-family word (`8XY_`) names.
pub open spec fn decode_arithmetic(n: int) -> Instruction {
    if n == 0x0 {
        Instruction::Move
    } else if n == 0x1 {
        Instruction::Or
    } else if n == 0x2 {
        Instruction::And
    } else if n == 0x3 {
        Instruction::Xor
    } else if n == 0x4 {
        Instruction::Add
    } else if n == 0x5 {
        Instruction::Sub
    } else if n == 0x6 {
        Instruction::ShiftRight
    } else if n == 0x7 {
        Instruction::SubReverse
    } else if n == 0xE {
        Instruction::ShiftLeft
    } else {
        Instruction::Unrecognized
    }
}

/// The operation a miscellaneous-family word (`FX__`) names.
pub open spec fn decode_misc(nn: int) -> Instruction {
    if nn == 0x07 {
        Instruction::GetDelay
    } else if nn == 0x0A {
        Instruction::WaitKey
    } else if nn == 0x15 {
        Instruction::SetDelay
    } else if nn == 0x18 {
        Instruction::SetSound
    } else if nn == 0x1E {
        Instruction::AddIndex
    } else if nn == 0x29 {
        Instruction::Glyph
    } else if nn == 0x33 {
        Instruction::Bcd
    } else if nn == 0x55 {
        Instruction::Store
    } else if nn == 0x65 {
        Instruction::Load
    } else {
        Instruction::Unrecognized
    }
}

/// The operation a word names: the family selects it, and in the families
/// `0`, `8`, `E` and `F` the low bits select within the family.
pub open spec fn spec_decode(word: u16) -> Instruction {
    let f = family(word);
    if f == 0x0 {
        if operand_nnn(word) == 0x0E0 {
            Instruction::ClearDisplay
        } else if operand_nnn(word) == 0x0EE {
            Instruction::Return
        } else {
            Instruction::Sys
        }
    } else if f == 0x1 {
        Instruction::Jump
    } else if f == 0x2 {
        Instruction::Call
    } else if f == 0x3 {
        Instruction::SkipEqImm
    } else if f == 0x4 {
        Instruction::SkipNeImm
    } else if f == 0x5 {
        Instruction::SkipEqReg
    } else if f == 0x6 {
        Instruction::LoadImm
    } else if f == 0x7 {
        Instruction::AddImm
    } else if f == 0x8 {
        decode_arithmetic(operand_n(word))
    } else if f == 0x9 {
        Instruction::SkipNeReg
    } else if f == 0xA {
        Instruction::LoadIndex
    } else if f == 0xB {
        Instruction::JumpOffset
    } else if f == 0xC {
        Instruction::Random
    } else if f == 0xD {
        Instruction::Draw
    } else if f == 0xE {
        if operand_nn(word) == 0x9E {
            Instruction::SkipKey
        } else if operand_nn(word) == 0xA1 {
            Instruction::SkipNotKey
        } else {
            Instruction::Unrecognized
        }
    } else {
        decode_misc(operand_nn(word))
    }
}

/// Bits 8 to 11 of `val`, as an index.
pub fn bs8_usize(val: u16) -> (r: usize)
    ensures
        r == operand_x(val),
{
    assert(((val & 0x0F00) >> 8) == (val / 256) % 16) by (bit_vector);
    ((val & 0x0F00) >> 8) as usize
}

/// Bits 4 to 7 of `val`, as an index.
pub fn bs4_usize(val: u16) -> (r: usize)
    ensures
        r == operand_y(val),
{
    assert(((val & 0x00F0) >> 4) == (val / 16) % 16) by (bit_vector);
    ((val & 0x00F0) >> 4) as usize
}

/// The low four bits of `val`.
pub fn low_nibble(val: u16) -> (r: u8)
    ensures
        r == operand_n(val),
{
    assert((val & 0x000F) == val % 16) by (bit_vector);
    (val & 0x000F) as u8
}

/// The low byte of `val`.
pub fn low_byte(val: u16) -> (r: u8)
    ensures
        r == operand_nn(val),
{
    assert((val & 0x00FF) == val % 256) by (bit_vector);
    (val & 0x00FF) as u8
}

/// The low twelve bits of `val`.
pub fn address(val: u16) -> (r: u16)
    ensures
        r == operand_nnn(val),
{
    assert((val & 0x0FFF) == val % 4096) by (bit_vector);
    val & 0x0FFF
}

/// Decodes an instruction word.
#[verifier::when_used_as_spec(spec_decode)]
pub fn decode(word: u16) -> (insn: Instruction)
    ensures
        insn == spec_decode(word),
{
    assert((word & 0xF000) >> 12 == word / 4096) by (bit_vector);
    let f: u16 = (word & 0xF000) >> 12;
    if f == 0x0 {
        let nnn = address(word);
        if nnn == 0x0E0 {
            Instruction::ClearDisplay
        } else if nnn == 0x0EE {
            Instruction::Return
        } else {
            Instruction::Sys
        }
    } else if f == 0x8 {
        match low_nibble(word) {
            0x0 => Instruction::Move,
            0x1 => Instruction::Or,
            0x2 => Instruction::And,
            0x3 => Instruction::Xor,
            0x4 => Instruction::Add,
            0x5 => Instruction::Sub,
            0x6 => Instruction::ShiftRight,
            0x7 => Instruction::SubReverse,
            0xE => Instruction::ShiftLeft,
            _ => Instruction::Unrecognized,
        }
    } else if f == 0xE {
        match low_byte(word) {
            0x9E => Instruction::SkipKey,
            0xA1 => Instruction::SkipNotKey,
            _ => Instruction::Unrecognized,
        }
    } else if f == 0xF {
        match low_byte(word) {
            0x07 => Instruction::GetDelay,
            0x0A => Instruction::WaitKey,
            0x15 => Instruction::SetDelay,
            0x18 => Instruction::SetSound,
            0x1E => Instruction::AddIndex,
            0x29 => Instruction::Glyph,
            0x33 => Instruction::Bcd,
            0x55 => Instruction::Store,
            0x65 => Instruction::Load,
            _ => Instruction::Unrecognized,
        }
    } else {
        match f {
            0x1 => Instruction::Jump,
            0x2 => Instruction::Call,
            0x3 => Instruction::SkipEqImm,
            0x4 => Instruction::SkipNeImm,
            0x5 => Instruction::SkipEqReg,
            0x6 => Instruction::LoadImm,
            0x7 => Instruction::AddImm,
            0x9 => Instruction::SkipNeReg,
            0xA => Instruction::LoadIndex,
            0xB => Instruction::JumpOffset,
            0xC => Instruction::Random,
            _ => Instruction::Draw,
        }
    }
}

} // verus!
