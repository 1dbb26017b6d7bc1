//! The instruction set: one variant per operation, the meaning of each
//! 16-bit opcode, and the opcode of each instruction.

use vstd::prelude::*;

verus! {

/// A decoded instruction with its operands. `x` and `y` are register
/// indices, `nn` an immediate byte, `nnn` a 12-bit address and `n` a row
/// count.
#[derive(Debug, Clone, Copy, PartialEq, Eq)]
pub enum Instruction {
    /// `00E0`: clear the display.
    ClearDisplay,
    /// `00EE`: return from a subroutine.
    ReturnFromSubroutine,
    /// `1nnn`: jump to `nnn`.
    JumpToAddress(u16),
    /// `2nnn`: call the subroutine at `nnn`.
    CallSubroutine(u16),
    /// `3xnn`: skip the next instruction if `Vx == nn`.
    SkipIfVxEqualsByte(usize, u8),
    /// `4xnn`: skip the next instruction if `Vx != nn`.
    SkipIfVxNotEqualsByte(usize, u8),
    /// `5xy0`: skip the next instruction if `Vx == Vy`.
    SkipIfVxEqualsVy(usize, usize),
    /// `6xnn`: `Vx = nn`.
    SetVxToByte(usize, u8),
    /// `7xnn`: `Vx += nn`, wrapping, flag untouched.
    AddByteToVx(usize, u8),
    /// `8xy0`: `Vx = Vy`.
    SetVxToVy(usize, usize),
    /// `8xy1`: `Vx |= Vy`.
    SetVxToVxOrVy(usize, usize),
    /// `8xy2`: `Vx &= Vy`.
    SetVxToVxAndVy(usize, usize),
    /// `8xy3`: `Vx ^= Vy`.
    SetVxToVxXorVy(usize, usize),
    /// `8xy4`: `Vx += Vy`, `VF` = carry.
    AddVyToVxWithCarry(usize, usize),
    /// `8xy5`: `Vx -= Vy`, `VF` = no borrow.
    SubtractVyFromVxWithBorrow(usize, usize),
    /// `8xy6`: `Vx = Vy >> 1`, `VF` = the bit shifted out.
    ShiftVxRightByOne(usize, usize),
    /// `8xy7`: `Vx = Vy - Vx`, `VF` = no borrow.
    SetVxToVyMinusVx(usize, usize),
    /// `8xyE`: `Vx = Vy << 1`, `VF` = the bit shifted out.
    ShiftVxLeftByOne(usize, usize),
    /// `9xy0`: skip the next instruction if `Vx != Vy`.
    SkipIfVxNotEqualsVy(usize, usize),
    /// `Annn`: `I = nnn`.
    SetIToAddress(u16),
    /// `Bnnn`: jump to `nnn + V0`.
    JumpToV0PlusAddress(u16),
    /// `Cxnn`: `Vx` = a random byte AND `nn`.
    SetVxToRandomAndByte(usize, u8),
    /// `Dxyn`: draw the `n`-row sprite at `I` at (`Vx`, `Vy`).
    DrawSprite(usize, usize, u8),
    /// `Ex9E`: skip the next instruction if the key in `Vx` is down.
    SkipIfKeyInVxPressed(usize),
    /// `ExA1`: skip the next instruction if the key in `Vx` is up.
    SkipIfKeyInVxNotPressed(usize),
    /// `Fx07`: `Vx` = delay timer.
    SetVxToDelayTimer(usize),
    /// `Fx0A`: wait for a key and store it in `Vx`.
    WaitForKeyPressAndStoreInVx(usize),
    /// `Fx15`: delay timer = `Vx`.
    SetDelayTimerToVx(usize),
    /// `Fx18`: sound timer = `Vx`.
    SetSoundTimerToVx(usize),
    /// `Fx1E`: `I += Vx`.
    AddVxToI(usize),
    /// `Fx29`: `I` = address of the glyph for the digit in `Vx`.
    SetIToSpriteAddressForDigitVx(usize),
    /// `Fx33`: store the three decimal digits of `Vx` at `I`, `I+1`, `I+2`.
    StoreBcdOfVxAtI(usize),
    /// `Fx55`: store `V0..=Vx` at `I..`.
    StoreRegistersV0ThroughVxInMemory(usize),
    /// `Fx65`: load `V0..=Vx` from `I..`.
    ReadRegistersV0ThroughVxFromMemory(usize),
    /// Any opcode that names no operation; it carries the opcode.
    Invalid(u16),
}

/// The opcode `family xyn` put together from its four nibbles.
pub open spec fn from_nibbles(family: int, x: int, y: int, n: int) -> int {
    family * 0x1000 + x * 0x100 + y * 0x10 + n
}

/// The opcode `family x nn`.
pub open spec fn from_register_and_byte(family: int, x: int, nn: int) -> int {
    family * 0x1000 + x * 0x100 + nn
}

/// The instruction that an opcode stands for.
pub open spec fn decode(opcode: u16) -> Instruction {
    let family = opcode / 0x1000;
    let x = ((opcode / 0x100) % 0x10) as usize;
    let y = ((opcode / 0x10) % 0x10) as usize;
    let n = (opcode % 0x10) as u8;
    let nn = (opcode % 0x100) as u8;
    let nnn = (opcode % 0x1000) as u16;
    if family == 0x0 {
        if opcode == 0x00E0 {
            Instruction::ClearDisplay
        } else if opcode == 0x00EE {
            Instruction::ReturnFromSubroutine
        } else {
            Instruction::Invalid(opcode)
        }
    } else if family == 0x1 {
        Instruction::JumpToAddress(nnn)
    } else if family == 0x2 {
        Instruction::CallSubroutine(nnn)
    } else if family == 0x3 {
        Instruction::SkipIfVxEqualsByte(x, nn)
    } else if family == 0x4 {
        Instruction::SkipIfVxNotEqualsByte(x, nn)
    } else if family == 0x5 {
        if n == 0 {
            Instruction::SkipIfVxEqualsVy(x, y)
        } else {
            Instruction::Invalid(opcode)
        }
    } else if family == 0x6 {
        Instruction::SetVxToByte(x, nn)
    } else if family == 0x7 {
        Instruction::AddByteToVx(x, nn)
    } else if family == 0x8 {
        if n == 0x0 {
            Instruction::SetVxToVy(x, y)
        } else if n == 0x1 {
            Instruction::SetVxToVxOrVy(x, y)
        } else if n == 0x2 {
            Instruction::SetVxToVxAndVy(x, y)
        } else if n == 0x3 {
            Instruction::SetVxToVxXorVy(x, y)
        } else if n == 0x4 {
            Instruction::AddVyToVxWithCarry(x, y)
        } else if n == 0x5 {
            Instruction::SubtractVyFromVxWithBorrow(x, y)
        } else if n == 0x6 {
            Instruction::ShiftVxRightByOne(x, y)
        } else if n == 0x7 {
            Instruction::SetVxToVyMinusVx(x, y)
        } else if n == 0xE {
            Instruction::ShiftVxLeftByOne(x, y)
        } else {
            Instruction::Invalid(opcode)
        }
    } else if family == 0x9 {
        if n == 0 {
            Instruction::SkipIfVxNotEqualsVy(x, y)
        } else {
            Instruction::Invalid(opcode)
        }
    } else if family == 0xA {
        Instruction::SetIToAddress(nnn)
    } else if family == 0xB {
        Instruction::JumpToV0PlusAddress(nnn)
    } else if family == 0xC {
        Instruction::SetVxToRandomAndByte(x, nn)
    } else if family == 0xD {
        Instruction::DrawSprite(x, y, n)
    } else if family == 0xE {
        if nn == 0x9E {
            Instruction::SkipIfKeyInVxPressed(x)
        } else if nn == 0xA1 {
            Instruction::SkipIfKeyInVxNotPressed(x)
        } else {
            Instruction::Invalid(opcode)
        }
    } else {
        if nn == 0x07 {
            Instruction::SetVxToDelayTimer(x)
        } else if nn == 0x0A {
            Instruction::WaitForKeyPressAndStoreInVx(x)
        } else if nn == 0x15 {
            Instruction::SetDelayTimerToVx(x)
        } else if nn == 0x18 {
            Instruction::SetSoundTimerToVx(x)
        } else if nn == 0x1E {
            Instruction::AddVxToI(x)
        } else if nn == 0x29 {
            Instruction::SetIToSpriteAddressForDigitVx(x)
        } else if nn == 0x33 {
            Instruction::StoreBcdOfVxAtI(x)
        } else if nn == 0x55 {
            Instruction::StoreRegistersV0ThroughVxInMemory(x)
        } else if nn == 0x65 {
            Instruction::ReadRegistersV0ThroughVxFromMemory(x)
        } else {
            Instruction::Invalid(opcode)
        }
    }
}

impl Instruction {
    /// The operands fit their fields: register indices below 16, addresses
    /// below 4096, row counts below 16.
    pub open spec fn wf(self) -> bool {
        match self {
            Instruction::ClearDisplay => true,
            Instruction::ReturnFromSubroutine => true,
            Instruction::JumpToAddress(nnn) => nnn < 0x1000,
            Instruction::CallSubroutine(nnn) => nnn < 0x1000,
            Instruction::SkipIfVxEqualsByte(x, _) => x < 16,
            Instruction::SkipIfVxNotEqualsByte(x, _) => x < 16,
            Instruction::SkipIfVxEqualsVy(x, y) => x < 16 && y < 16,
            Instruction::SetVxToByte(x, _) => x < 16,
            Instruction::AddByteToVx(x, _) => x < 16,
            Instruction::SetVxToVy(x, y) => x < 16 && y < 16,
            Instruction::SetVxToVxOrVy(x, y) => x < 16 && y < 16,
            Instruction::SetVxToVxAndVy(x, y) => x < 16 && y < 16,
            Instruction::SetVxToVxXorVy(x, y) => x < 16 && y < 16,
            Instruction::AddVyToVxWithCarry(x, y) => x < 16 && y < 16,
            Instruction::SubtractVyFromVxWithBorrow(x, y) => x < 16 && y < 16,
            Instruction::ShiftVxRightByOne(x, y) => x < 16 && y < 16,
            Instruction::SetVxToVyMinusVx(x, y) => x < 16 && y < 16,
            Instruction::ShiftVxLeftByOne(x, y) => x < 16 && y < 16,
            Instruction::SkipIfVxNotEqualsVy(x, y) => x < 16 && y < 16,
            Instruction::SetIToAddress(nnn) => nnn < 0x1000,
            Instruction::JumpToV0PlusAddress(nnn) => nnn < 0x1000,
            Instruction::SetVxToRandomAndByte(x, _) => x < 16,
            Instruction::DrawSprite(x, y, n) => x < 16 && y < 16 && n < 16,
            Instruction::SkipIfKeyInVxPressed(x) => x < 16,
            Instruction::SkipIfKeyInVxNotPressed(x) => x < 16,
            Instruction::SetVxToDelayTimer(x) => x < 16,
            Instruction::WaitForKeyPressAndStoreInVx(x) => x < 16,
            Instruction::SetDelayTimerToVx(x) => x < 16,
            Instruction::SetSoundTimerToVx(x) => x < 16,
            Instruction::AddVxToI(x) => x < 16,
            Instruction::SetIToSpriteAddressForDigitVx(x) => x < 16,
            Instruction::StoreBcdOfVxAtI(x) => x < 16,
            Instruction::StoreRegistersV0ThroughVxInMemory(x) => x < 16,
            Instruction::ReadRegistersV0ThroughVxFromMemory(x) => x < 16,
            Instruction::Invalid(_) => true,
        }
    }

    /// Tests whether the operands fit their fields.
    pub fn is_well_formed(&self) -> (fits: bool)
        ensures
            fits == self.wf(),
    {
        match *self {
            Instruction::ClearDisplay
            | Instruction::ReturnFromSubroutine
            | Instruction::Invalid(_) => true,
            Instruction::JumpToAddress(nnn)
            | Instruction::CallSubroutine(nnn)
            | Instruction::SetIToAddress(nnn)
            | Instruction::JumpToV0PlusAddress(nnn) => nnn < 0x1000,
            Instruction::SkipIfVxEqualsByte(x, _)
            | Instruction::SkipIfVxNotEqualsByte(x, _)
            | Instruction::SetVxToByte(x, _)
            | Instruction::AddByteToVx(x, _)
            | Instruction::SetVxToRandomAndByte(x, _)
            | Instruction::SkipIfKeyInVxPressed(x)
            | Instruction::SkipIfKeyInVxNotPressed(x)
            | Instruction::SetVxToDelayTimer(x)
            | Instruction::WaitForKeyPressAndStoreInVx(x)
            | Instruction::SetDelayTimerToVx(x)
            | Instruction::SetSoundTimerToVx(x)
            | Instruction::AddVxToI(x)
            | Instruction::SetIToSpriteAddressForDigitVx(x)
            | Instruction::StoreBcdOfVxAtI(x)
            | Instruction::StoreRegistersV0ThroughVxInMemory(x)
            | Instruction::ReadRegistersV0ThroughVxFromMemory(x) => x < 16,
            Instruction::SkipIfVxEqualsVy(x, y)
            | Instruction::SetVxToVy(x, y)
            | Instruction::SetVxToVxOrVy(x, y)
            | Instruction::SetVxToVxAndVy(x, y)
            | Instruction::SetVxToVxXorVy(x, y)
            | Instruction::AddVyToVxWithCarry(x, y)
            | Instruction::SubtractVyFromVxWithBorrow(x, y)
            | Instruction::ShiftVxRightByOne(x, y)
            | Instruction::SetVxToVyMinusVx(x, y)
            | Instruction::ShiftVxLeftByOne(x, y)
            | Instruction::SkipIfVxNotEqualsVy(x, y) => x < 16 && y < 16,
            Instruction::DrawSprite(x, y, n) => x < 16 && y < 16 && n < 16,
        }
    }

    /// The opcode that stands for this instruction. `Invalid` stands for
    /// the opcode it carries.
    pub open spec fn encoding(self) -> int {
        match self {
            Instruction::ClearDisplay => 0x00E0,
            Instruction::ReturnFromSubroutine => 0x00EE,
            Instruction::JumpToAddress(nnn) => 0x1000 + nnn,
            Instruction::CallSubroutine(nnn) => 0x2000 + nnn,
            Instruction::SkipIfVxEqualsByte(x, nn) => from_register_and_byte(0x3, x as int, nn as int),
            Instruction::SkipIfVxNotEqualsByte(x, nn) => from_register_and_byte(
                0x4,
                x as int,
                nn as int,
            ),
            Instruction::SkipIfVxEqualsVy(x, y) => from_nibbles(0x5, x as int, y as int, 0x0),
            Instruction::SetVxToByte(x, nn) => from_register_and_byte(0x6, x as int, nn as int),
            Instruction::AddByteToVx(x, nn) => from_register_and_byte(0x7, x as int, nn as int),
            Instruction::SetVxToVy(x, y) => from_nibbles(0x8, x as int, y as int, 0x0),
            Instruction::SetVxToVxOrVy(x, y) => from_nibbles(0x8, x as int, y as int, 0x1),
            Instruction::SetVxToVxAndVy(x, y) => from_nibbles(0x8, x as int, y as int, 0x2),
            Instruction::SetVxToVxXorVy(x, y) => from_nibbles(0x8, x as int, y as int, 0x3),
            Instruction::AddVyToVxWithCarry(x, y) => from_nibbles(0x8, x as int, y as int, 0x4),
            Instruction::SubtractVyFromVxWithBorrow(x, y) => from_nibbles(
                0x8,
                x as int,
                y as int,
                0x5,
            ),
            Instruction::ShiftVxRightByOne(x, y) => from_nibbles(0x8, x as int, y as int, 0x6),
            Instruction::SetVxToVyMinusVx(x, y) => from_nibbles(0x8, x as int, y as int, 0x7),
            Instruction::ShiftVxLeftByOne(x, y) => from_nibbles(0x8, x as int, y as int, 0xE),
            Instruction::SkipIfVxNotEqualsVy(x, y) => from_nibbles(0x9, x as int, y as int, 0x0),
            Instruction::SetIToAddress(nnn) => 0xA000 + nnn,
            Instruction::JumpToV0PlusAddress(nnn) => 0xB000 + nnn,
            Instruction::SetVxToRandomAndByte(x, nn) => from_register_and_byte(
                0xC,
                x as int,
                nn as int,
            ),
            Instruction::DrawSprite(x, y, n) => from_nibbles(0xD, x as int, y as int, n as int),
            Instruction::SkipIfKeyInVxPressed(x) => from_register_and_byte(0xE, x as int, 0x9E),
            Instruction::SkipIfKeyInVxNotPressed(x) => from_register_and_byte(0xE, x as int, 0xA1),
            Instruction::SetVxToDelayTimer(x) => from_register_and_byte(0xF, x as int, 0x07),
            Instruction::WaitForKeyPressAndStoreInVx(x) => from_register_and_byte(
                0xF,
                x as int,
                0x0A,
            ),
            Instruction::SetDelayTimerToVx(x) => from_register_and_byte(0xF, x as int, 0x15),
            Instruction::SetSoundTimerToVx(x) => from_register_and_byte(0xF, x as int, 0x18),
            Instruction::AddVxToI(x) => from_register_and_byte(0xF, x as int, 0x1E),
            Instruction::SetIToSpriteAddressForDigitVx(x) => from_register_and_byte(
                0xF,
                x as int,
                0x29,
            ),
            Instruction::StoreBcdOfVxAtI(x) => from_register_and_byte(0xF, x as int, 0x33),
            Instruction::StoreRegistersV0ThroughVxInMemory(x) => from_register_and_byte(
                0xF,
                x as int,
                0x55,
            ),
            Instruction::ReadRegistersV0ThroughVxFromMemory(x) => from_register_and_byte(
                0xF,
                x as int,
                0x65,
            ),
            Instruction::Invalid(opcode) => opcode as int,
        }
    }

    /// Computes the opcode of an instruction.
    pub fn opcode(&self) -> (opcode: u16)
        requires
            self.wf(),
        ensures
            opcode == self.encoding(),
    {
        match *self {
            Instruction::ClearDisplay => 0x00E0,
            Instruction::ReturnFromSubroutine => 0x00EE,
            Instruction::JumpToAddress(nnn) => 0x1000 + nnn,
            Instruction::CallSubroutine(nnn) => 0x2000 + nnn,
            Instruction::SkipIfVxEqualsByte(x, nn) => Self::pack_byte(0x3, x, nn),
            Instruction::SkipIfVxNotEqualsByte(x, nn) => Self::pack_byte(0x4, x, nn),
            Instruction::SkipIfVxEqualsVy(x, y) => Self::pack_nibbles(0x5, x, y, 0x0),
            Instruction::SetVxToByte(x, nn) => Self::pack_byte(0x6, x, nn),
            Instruction::AddByteToVx(x, nn) => Self::pack_byte(0x7, x, nn),
            Instruction::SetVxToVy(x, y) => Self::pack_nibbles(0x8, x, y, 0x0),
            Instruction::SetVxToVxOrVy(x, y) => Self::pack_nibbles(0x8, x, y, 0x1),
            Instruction::SetVxToVxAndVy(x, y) => Self::pack_nibbles(0x8, x, y, 0x2),
            Instruction::SetVxToVxXorVy(x, y) => Self::pack_nibbles(0x8, x, y, 0x3),
            Instruction::AddVyToVxWithCarry(x, y) => Self::pack_nibbles(0x8, x, y, 0x4),
            Instruction::SubtractVyFromVxWithBorrow(x, y) => Self::pack_nibbles(0x8, x, y, 0x5),
            Instruction::ShiftVxRightByOne(x, y) => Self::pack_nibbles(0x8, x, y, 0x6),
            Instruction::SetVxToVyMinusVx(x, y) => Self::pack_nibbles(0x8, x, y, 0x7),
            Instruction::ShiftVxLeftByOne(x, y) => Self::pack_nibbles(0x8, x, y, 0xE),
            Instruction::SkipIfVxNotEqualsVy(x, y) => Self::pack_nibbles(0x9, x, y, 0x0),
            Instruction::SetIToAddress(nnn) => 0xA000 + nnn,
            Instruction::JumpToV0PlusAddress(nnn) => 0xB000 + nnn,
            Instruction::SetVxToRandomAndByte(x, nn) => Self::pack_byte(0xC, x, nn),
            Instruction::DrawSprite(x, y, n) => Self::pack_nibbles(0xD, x, y, n),
            Instruction::SkipIfKeyInVxPressed(x) => Self::pack_byte(0xE, x, 0x9E),
            Instruction::SkipIfKeyInVxNotPressed(x) => Self::pack_byte(0xE, x, 0xA1),
            Instruction::SetVxToDelayTimer(x) => Self::pack_byte(0xF, x, 0x07),
            Instruction::WaitForKeyPressAndStoreInVx(x) => Self::pack_byte(0xF, x, 0x0A),
            Instruction::SetDelayTimerToVx(x) => Self::pack_byte(0xF, x, 0x15),
            Instruction::SetSoundTimerToVx(x) => Self::pack_byte(0xF, x, 0x18),
            Instruction::AddVxToI(x) => Self::pack_byte(0xF, x, 0x1E),
            Instruction::SetIToSpriteAddressForDigitVx(x) => Self::pack_byte(0xF, x, 0x29),
            Instruction::StoreBcdOfVxAtI(x) => Self::pack_byte(0xF, x, 0x33),
            Instruction::StoreRegistersV0ThroughVxInMemory(x) => Self::pack_byte(0xF, x, 0x55),
            Instruction::ReadRegistersV0ThroughVxFromMemory(x) => Self::pack_byte(0xF, x, 0x65),
            Instruction::Invalid(opcode) => opcode,
        }
    }

    fn pack_byte(family: u16, x: usize, nn: u8) -> (opcode: u16)
        requires
            family < 16,
            x < 16,
        ensures
            opcode == from_register_and_byte(family as int, x as int, nn as int),
    {
        family * 0x1000 + (x as u16) * 0x100 + nn as u16
    }

    fn pack_nibbles(family: u16, x: usize, y: usize, n: u8) -> (opcode: u16)
        requires
            family < 16,
            x < 16,
            y < 16,
            n < 16,
        ensures
            opcode == from_nibbles(family as int, x as int, y as int, n as int),
    {
        family * 0x1000 + (x as u16) * 0x100 + (y as u16) * 0x10 + n as u16
    }
}

/// An opcode is the sum of its four nibbles, each in its place.
proof fn lemma_opcode_fields(opcode: u16)
    by (bit_vector)
    ensures
        opcode / 0x1000 < 0x10,
        opcode == (opcode / 0x1000) * 0x1000 + ((opcode / 0x100) % 0x10) * 0x100 + ((opcode / 0x10)
            % 0x10) * 0x10 + opcode % 0x10,
        opcode % 0x100 == ((opcode / 0x10) % 0x10) * 0x10 + opcode % 0x10,
        opcode % 0x1000 == ((opcode / 0x100) % 0x10) * 0x100 + ((opcode / 0x10) % 0x10) * 0x10
            + opcode % 0x10,
{
}

/// The fields of an opcode made of a family nibble and a 12-bit address.
proof fn lemma_address_shape(family: u16, nnn: u16)
    by (bit_vector)
    requires
        family < 0x10,
        nnn < 0x1000,
    ensures
        family * 0x1000 + nnn <= 0xFFFF,
        ((family * 0x1000 + nnn) as u16) / 0x1000 == family,
        ((family * 0x1000 + nnn) as u16) % 0x1000 == nnn,
{
}

/// The fields of an opcode made of a family nibble, a register and a byte.
proof fn lemma_byte_shape(family: u16, x: u16, nn: u16)
    by (bit_vector)
    requires
        family < 0x10,
        x < 0x10,
        nn < 0x100,
    ensures
        family * 0x1000 + x * 0x100 + nn <= 0xFFFF,
        ((family * 0x1000 + x * 0x100 + nn) as u16) / 0x1000 == family,
        (((family * 0x1000 + x * 0x100 + nn) as u16) / 0x100) % 0x10 == x,
        ((family * 0x1000 + x * 0x100 + nn) as u16) % 0x100 == nn,
{
}

/// The fields of an opcode made of four nibbles.
proof fn lemma_nibble_shape(family: u16, x: u16, y: u16, n: u16)
    by (bit_vector)
    requires
        family < 0x10,
        x < 0x10,
        y < 0x10,
        n < 0x10,
    ensures
        family * 0x1000 + x * 0x100 + y * 0x10 + n <= 0xFFFF,
        ((family * 0x1000 + x * 0x100 + y * 0x10 + n) as u16) / 0x1000 == family,
        (((family * 0x1000 + x * 0x100 + y * 0x10 + n) as u16) / 0x100) % 0x10 == x,
        (((family * 0x1000 + x * 0x100 + y * 0x10 + n) as u16) / 0x10) % 0x10 == y,
        ((family * 0x1000 + x * 0x100 + y * 0x10 + n) as u16) % 0x10 == n,
{
}

/// Every opcode decodes to an instruction whose operands fit their fields
/// and whose opcode is the one that was decoded.
pub proof fn lemma_decode_then_encode(opcode: u16)
    ensures
        decode(opcode).wf(),
        decode(opcode).encoding() == opcode,
{
    lemma_opcode_fields(opcode);
}

/// An instruction is what its own opcode decodes to, provided its operands
/// fit their fields and, if it is `Invalid`, the opcode it carries names no
/// operation.
pub proof fn lemma_encode_then_decode(instruction: Instruction)
    requires
        instruction.wf(),
        instruction matches Instruction::Invalid(opcode) ==> decode(opcode) is Invalid,
    ensures
        0 <= instruction.encoding() <= 0xFFFF,
        decode(instruction.encoding() as u16) == instruction,
{
    match instruction {
        Instruction::ClearDisplay | Instruction::ReturnFromSubroutine => {},
        Instruction::Invalid(_) => {},
        Instruction::JumpToAddress(nnn) => lemma_address_shape(0x1, nnn),
        Instruction::CallSubroutine(nnn) => lemma_address_shape(0x2, nnn),
        Instruction::SetIToAddress(nnn) => lemma_address_shape(0xA, nnn),
        Instruction::JumpToV0PlusAddress(nnn) => lemma_address_shape(0xB, nnn),
        Instruction::SkipIfVxEqualsByte(x, nn) => lemma_byte_shape(0x3, x as u16, nn as u16),
        Instruction::SkipIfVxNotEqualsByte(x, nn) => lemma_byte_shape(0x4, x as u16, nn as u16),
        Instruction::SetVxToByte(x, nn) => lemma_byte_shape(0x6, x as u16, nn as u16),
        Instruction::AddByteToVx(x, nn) => lemma_byte_shape(0x7, x as u16, nn as u16),
        Instruction::SetVxToRandomAndByte(x, nn) => lemma_byte_shape(0xC, x as u16, nn as u16),
        Instruction::SkipIfKeyInVxPressed(x) => lemma_byte_shape(0xE, x as u16, 0x9E),
        Instruction::SkipIfKeyInVxNotPressed(x) => lemma_byte_shape(0xE, x as u16, 0xA1),
        Instruction::SetVxToDelayTimer(x) => lemma_byte_shape(0xF, x as u16, 0x07),
        Instruction::WaitForKeyPressAndStoreInVx(x) => lemma_byte_shape(0xF, x as u16, 0x0A),
        Instruction::SetDelayTimerToVx(x) => lemma_byte_shape(0xF, x as u16, 0x15),
        Instruction::SetSoundTimerToVx(x) => lemma_byte_shape(0xF, x as u16, 0x18),
        Instruction::AddVxToI(x) => lemma_byte_shape(0xF, x as u16, 0x1E),
        Instruction::SetIToSpriteAddressForDigitVx(x) => lemma_byte_shape(0xF, x as u16, 0x29),
        Instruction::StoreBcdOfVxAtI(x) => lemma_byte_shape(0xF, x as u16, 0x33),
        Instruction::StoreRegistersV0ThroughVxInMemory(x) => lemma_byte_shape(
            0xF,
            x as u16,
            0x55,
        ),
        Instruction::ReadRegistersV0ThroughVxFromMemory(x) => lemma_byte_shape(
            0xF,
            x as u16,
            0x65,
        ),
        Instruction::SkipIfVxEqualsVy(x, y) => lemma_nibble_shape(0x5, x as u16, y as u16, 0x0),
        Instruction::SetVxToVy(x, y) => lemma_nibble_shape(0x8, x as u16, y as u16, 0x0),
        Instruction::SetVxToVxOrVy(x, y) => lemma_nibble_shape(0x8, x as u16, y as u16, 0x1),
        Instruction::SetVxToVxAndVy(x, y) => lemma_nibble_shape(0x8, x as u16, y as u16, 0x2),
        Instruction::SetVxToVxXorVy(x, y) => lemma_nibble_shape(0x8, x as u16, y as u16, 0x3),
        Instruction::AddVyToVxWithCarry(x, y) => lemma_nibble_shape(0x8, x as u16, y as u16, 0x4),
        Instruction::SubtractVyFromVxWithBorrow(x, y) => lemma_nibble_shape(
            0x8,
            x as u16,
            y as u16,
            0x5,
        ),
        Instruction::ShiftVxRightByOne(x, y) => lemma_nibble_shape(0x8, x as u16, y as u16, 0x6),
        Instruction::SetVxToVyMinusVx(x, y) => lemma_nibble_shape(0x8, x as u16, y as u16, 0x7),
        Instruction::ShiftVxLeftByOne(x, y) => lemma_nibble_shape(0x8, x as u16, y as u16, 0xE),
        Instruction::SkipIfVxNotEqualsVy(x, y) => lemma_nibble_shape(0x9, x as u16, y as u16, 0x0),
        Instruction::DrawSprite(x, y, n) => lemma_nibble_shape(0xD, x as u16, y as u16, n as u16),
    }
}

/// Two opcodes with the same decoding are the same opcode.
pub proof fn lemma_decode_is_injective(a: u16, b: u16)
    requires
        decode(a) == decode(b),
    ensures
        a == b,
{
    lemma_decode_then_encode(a);
    lemma_decode_then_encode(b);
}

} // verus!
