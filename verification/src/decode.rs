//! The decoder: from a 16-bit opcode to the instruction it stands for.

use crate::cpu::Cpu;
use crate::instruction::{decode, Instruction};
use vstd::prelude::*;

verus! {

/// Shifting and masking pick out the same fields as dividing and taking
/// remainders.
proof fn lemma_masks(opcode: u16)
    by (bit_vector)
    ensures
        (opcode >> 12) & 0xF == opcode / 0x1000,
        (opcode >> 8) & 0xF == (opcode / 0x100) % 0x10,
        (opcode >> 4) & 0xF == (opcode / 0x10) % 0x10,
        opcode & 0xF == opcode % 0x10,
        opcode & 0x00FF == opcode % 0x100,
        opcode & 0x0FFF == opcode % 0x1000,
{
}

impl Cpu {
    /// The nibble at `index`, counted from the most significant one.
    fn get_nibble(opcode: u16, index: usize) -> (nibble: u8)
        requires
            index < 4,
        ensures
            index == 0 ==> nibble == opcode / 0x1000,
            index == 1 ==> nibble == (opcode / 0x100) % 0x10,
            index == 2 ==> nibble == (opcode / 0x10) % 0x10,
            index == 3 ==> nibble == opcode % 0x10,
            nibble < 16,
    {
        proof {
            lemma_masks(opcode);
        }
        match index {
            0 => ((opcode >> 12) & 0xF) as u8,
            1 => ((opcode >> 8) & 0xF) as u8,
            2 => ((opcode >> 4) & 0xF) as u8,
            3 => (opcode & 0xF) as u8,
            _ => 0,
        }
    }

    fn get_x(opcode: u16) -> (x: usize)
        ensures
            x == (opcode / 0x100) % 0x10,
    {
        Self::get_nibble(opcode, 1) as usize
    }

    fn get_y(opcode: u16) -> (y: usize)
        ensures
            y == (opcode / 0x10) % 0x10,
    {
        Self::get_nibble(opcode, 2) as usize
    }

    fn get_nn(opcode: u16) -> (nn: u8)
        ensures
            nn == opcode % 0x100,
    {
        proof {
            lemma_masks(opcode);
        }
        (opcode & 0x00FF) as u8
    }

    fn get_nnn(opcode: u16) -> (nnn: u16)
        ensures
            nnn == opcode % 0x1000,
    {
        proof {
            lemma_masks(opcode);
        }
        opcode & 0x0FFF
    }

    /// Decodes an opcode. Every opcode decodes: one that names no operation
    /// decodes to `Invalid`.
    pub fn decode_instruction(opcode: u16) -> (instruction: Instruction)
        ensures
            instruction == decode(opcode),
    {
        let first_nibble = Self::get_nibble(opcode, 0);
        match first_nibble {
            0x0 => {
                let second_nibble = Self::get_nibble(opcode, 1);
                if second_nibble == 0x0 {
                    let last_two = Self::get_nn(opcode);
                    match last_two {
                        0xE0 => Instruction::ClearDisplay,
                        0xEE => Instruction::ReturnFromSubroutine,
                        _ => Instruction::Invalid(opcode),
                    }
                } else {
                    Instruction::Invalid(opcode)
                }
            },
            0x1 => {
                let address = Self::get_nnn(opcode);
                Instruction::JumpToAddress(address)
            },
            0x2 => {
                let address = Self::get_nnn(opcode);
                Instruction::CallSubroutine(address)
            },
            0x3 => {
                let v_x = Self::get_x(opcode);
                let byte = Self::get_nn(opcode);
                Instruction::SkipIfVxEqualsByte(v_x, byte)
            },
            0x4 => {
                let v_x = Self::get_x(opcode);
                let byte = Self::get_nn(opcode);
                Instruction::SkipIfVxNotEqualsByte(v_x, byte)
            },
            0x5 => {
                if Self::get_nibble(opcode, 3) == 0 {
                    let v_x = Self::get_x(opcode);
                    let v_y = Self::get_y(opcode);
                    Instruction::SkipIfVxEqualsVy(v_x, v_y)
                } else {
                    Instruction::Invalid(opcode)
                }
            },
            0x6 => {
                let v_x = Self::get_x(opcode);
                let byte = Self::get_nn(opcode);
                Instruction::SetVxToByte(v_x, byte)
            },
            0x7 => {
                let v_x = Self::get_x(opcode);
                let byte = Self::get_nn(opcode);
                Instruction::AddByteToVx(v_x, byte)
            },
            0x8 => {
                let v_x = Self::get_x(opcode);
                let v_y = Self::get_y(opcode);
                let last_nibble = Self::get_nibble(opcode, 3);
                match last_nibble {
                    0x0 => Instruction::SetVxToVy(v_x, v_y),
                    0x1 => Instruction::SetVxToVxOrVy(v_x, v_y),
                    0x2 => Instruction::SetVxToVxAndVy(v_x, v_y),
                    0x3 => Instruction::SetVxToVxXorVy(v_x, v_y),
                    0x4 => Instruction::AddVyToVxWithCarry(v_x, v_y),
                    0x5 => Instruction::SubtractVyFromVxWithBorrow(v_x, v_y),
                    0x6 => Instruction::ShiftVxRightByOne(v_x, v_y),
                    0x7 => Instruction::SetVxToVyMinusVx(v_x, v_y),
                    0xE => Instruction::ShiftVxLeftByOne(v_x, v_y),
                    _ => Instruction::Invalid(opcode),
                }
            },
            0x9 => {
                if Self::get_nibble(opcode, 3) == 0 {
                    let v_x = Self::get_x(opcode);
                    let v_y = Self::get_y(opcode);
                    Instruction::SkipIfVxNotEqualsVy(v_x, v_y)
                } else {
                    Instruction::Invalid(opcode)
                }
            },
            0xA => {
                let address = Self::get_nnn(opcode);
                Instruction::SetIToAddress(address)
            },
            0xB => {
                let address = Self::get_nnn(opcode);
                Instruction::JumpToV0PlusAddress(address)
            },
            0xC => {
                let v_x = Self::get_x(opcode);
                let byte = Self::get_nn(opcode);
                Instruction::SetVxToRandomAndByte(v_x, byte)
            },
            0xD => {
                let v_x = Self::get_x(opcode);
                let v_y = Self::get_y(opcode);
                let n = Self::get_nibble(opcode, 3);
                Instruction::DrawSprite(v_x, v_y, n)
            },
            0xE => {
                let last_byte = Self::get_nn(opcode);
                let v_x = Self::get_x(opcode);
                match last_byte {
                    0x9E => Instruction::SkipIfKeyInVxPressed(v_x),
                    0xA1 => Instruction::SkipIfKeyInVxNotPressed(v_x),
                    _ => Instruction::Invalid(opcode),
                }
            },
            0xF => {
                let last_byte = Self::get_nn(opcode);
                let v_x = Self::get_x(opcode);
                match last_byte {
                    0x07 => Instruction::SetVxToDelayTimer(v_x),
                    0x0A => Instruction::WaitForKeyPressAndStoreInVx(v_x),
                    0x15 => Instruction::SetDelayTimerToVx(v_x),
                    0x18 => Instruction::SetSoundTimerToVx(v_x),
                    0x1E => Instruction::AddVxToI(v_x),
                    0x29 => Instruction::SetIToSpriteAddressForDigitVx(v_x),
                    0x33 => Instruction::StoreBcdOfVxAtI(v_x),
                    0x55 => Instruction::StoreRegistersV0ThroughVxInMemory(v_x),
                    0x65 => Instruction::ReadRegistersV0ThroughVxFromMemory(v_x),
                    _ => Instruction::Invalid(opcode),
                }
            },
            _ => Instruction::Invalid(opcode),
        }
    }
}

} // verus!
