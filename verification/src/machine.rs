//! The machine as a mathematical value, and what each instruction does to
//! it.

use crate::display::Screen;
use crate::instruction::{decode, Instruction};
use crate::memory::{power_on_image, with_bytes, word_at};
use vstd::prelude::*;

verus! {

/// The state of the processor and its memory.
pub struct Machine {
    /// The registers `V0` to `VF`.
    pub v: Seq<u8>,
    /// The address register.
    pub i: u16,
    /// The program counter.
    pub pc: u16,
    /// The return addresses, the most recent last.
    pub stack: Seq<u16>,
    /// Counts down at 60 Hz; programs read it.
    pub delay_timer: u8,
    /// Counts down at 60 Hz; the tone sounds while it is not zero.
    pub sound_timer: u8,
    /// Whether execution is suspended.
    pub halted: bool,
    /// The register that receives the key which ends the suspension.
    pub wait_register: Option<usize>,
    /// The 4096 bytes of memory.
    pub mem: Seq<u8>,
}

/// Why an instruction cannot be executed.
#[derive(Debug, Clone, Copy, PartialEq, Eq)]
pub enum Fault {
    /// An operand does not fit its field.
    MalformedInstruction,
    /// A call with 16 return addresses already on the stack.
    StackOverflow,
    /// A return with no return address on the stack.
    StackUnderflow,
    /// A read or write outside the 4096 bytes of memory.
    MemoryOutOfRange,
    /// A key test on a register that holds no key index.
    KeyOutOfRange,
    /// The program counter or the address register would pass `0xFFFF`.
    AddressOverflow,
}

impl Machine {
    /// The machine has 16 registers, at most 16 return addresses and 4096
    /// bytes of memory.
    pub open spec fn wf(self) -> bool {
        &&& self.v.len() == 16
        &&& self.stack.len() <= 16
        &&& self.mem.len() == 4096
    }

    /// The machine before anything is loaded or run.
    pub open spec fn power_on() -> Machine {
        Machine {
            v: Seq::new(16, |k: int| 0u8),
            i: 0,
            pc: 0x200,
            stack: Seq::empty(),
            delay_timer: 0,
            sound_timer: 0,
            halted: false,
            wait_register: None,
            mem: power_on_image(),
        }
    }

    /// Register `V[x]` set to `value`.
    pub open spec fn with_register(self, x: int, value: u8) -> Machine {
        Machine { v: self.v.update(x, value), ..self }
    }

    /// `VF` set to 1 or 0.
    pub open spec fn with_flag(self, flag: bool) -> Machine {
        self.with_register(
            0xF,
            if flag {
                1u8
            } else {
                0u8
            },
        )
    }

    /// The program counter set to `pc`.
    pub open spec fn with_pc(self, pc: int) -> Machine {
        Machine { pc: pc as u16, ..self }
    }

    /// The program counter moved to the following instruction.
    pub open spec fn next(self) -> Machine {
        self.with_pc(self.pc + 2)
    }

    /// The program counter moved past the following instruction if
    /// `skip`, and to it otherwise.
    pub open spec fn skip_if(self, skip: bool) -> Machine {
        self.with_pc(
            self.pc + if skip {
                4int
            } else {
                2int
            },
        )
    }

    /// Where `DrawSprite(x, y, _)` puts the top left corner of its sprite:
    /// at (`Vx`, `Vy`), read after `VF` was cleared, so that `VF` as a
    /// coordinate reads as 0.
    pub open spec fn corner(self, x: usize, y: usize) -> (int, int) {
        (self.with_flag(false).v[x as int] as int, self.with_flag(false).v[y as int] as int)
    }

    /// The machine after the address of the instruction that follows the
    /// current one is pushed on the stack.
    pub open spec fn pushed(self) -> Machine {
        Machine { stack: self.stack.push((self.pc + 2) as u16), ..self }
    }

    /// The machine after the most recent return address is popped.
    pub open spec fn popped(self) -> Machine {
        Machine { stack: self.stack.drop_last(), ..self }
    }

    /// The `n` bytes at the address register.
    pub open spec fn sprite(self, n: nat) -> Seq<u8> {
        Seq::new(n, |k: int| self.mem[self.i + k])
    }

    /// Both timers one tick later: each counts down to zero and stays
    /// there.
    pub open spec fn tick(self) -> Machine {
        Machine {
            delay_timer: if self.delay_timer > 0 {
                (self.delay_timer - 1) as u8
            } else {
                0u8
            },
            sound_timer: if self.sound_timer > 0 {
                (self.sound_timer - 1) as u8
            } else {
                0u8
            },
            ..self
        }
    }

    /// The machine after the key `key` ends the wait of register
    /// `register`: the key is stored, the suspension is lifted, and
    /// execution goes on with the instruction after the one that waited.
    pub open spec fn resolved(self, register: usize, key: u8) -> Machine {
        Machine {
            v: self.v.update(register as int, key),
            wait_register: None,
            halted: false,
            pc: (self.pc + 2) as u16,
            ..self
        }
    }

    /// The machine with a program copied to `start` and the program
    /// counter on its first byte.
    pub open spec fn loaded(self, program: Seq<u8>, start: u16) -> Machine {
        Machine { mem: with_bytes(self.mem, start as int, program), pc: start, ..self }
    }
}

/// The three decimal digits of a byte, hundreds first.
pub open spec fn bcd(value: u8) -> Seq<u8> {
    seq![((value / 100) % 10) as u8, ((value / 10) % 10) as u8, (value % 10) as u8]
}

/// Address of the glyph for `digit`.
pub open spec fn glyph_address(digit: u8) -> int {
    0x50 + 5 * digit
}

/// Whether the instruction, executed on this machine, skips the
/// instruction after it.
pub open spec fn skips(m: Machine, keys: Seq<bool>, instruction: Instruction) -> bool {
    match instruction {
        Instruction::SkipIfVxEqualsByte(x, nn) => m.v[x as int] == nn,
        Instruction::SkipIfVxNotEqualsByte(x, nn) => m.v[x as int] != nn,
        Instruction::SkipIfVxEqualsVy(x, y) => m.v[x as int] == m.v[y as int],
        Instruction::SkipIfVxNotEqualsVy(x, y) => m.v[x as int] != m.v[y as int],
        Instruction::SkipIfKeyInVxPressed(x) => keys[m.v[x as int] as int],
        Instruction::SkipIfKeyInVxNotPressed(x) => !keys[m.v[x as int] as int],
        _ => false,
    }
}

/// The machine after one instruction. `random` is the byte drawn for
/// `SetVxToRandomAndByte`; no other instruction looks at it.
///
/// Where an instruction writes both `Vx` and `VF`, `VF` is written last,
/// so with `x == 0xF` the flag is what remains.
pub open spec fn execute(
    m: Machine,
    screen: Screen,
    keys: Seq<bool>,
    instruction: Instruction,
    random: u8,
) -> Machine {
    match instruction {
        Instruction::ClearDisplay => m.next(),
        Instruction::ReturnFromSubroutine => Machine { pc: m.stack.last(), ..m.popped() },
        Instruction::JumpToAddress(nnn) => Machine { pc: nnn, ..m },
        Instruction::CallSubroutine(nnn) => Machine { pc: nnn, ..m.pushed() },
        Instruction::SkipIfVxEqualsByte(_, _)
        | Instruction::SkipIfVxNotEqualsByte(_, _)
        | Instruction::SkipIfVxEqualsVy(_, _)
        | Instruction::SkipIfVxNotEqualsVy(_, _)
        | Instruction::SkipIfKeyInVxPressed(_)
        | Instruction::SkipIfKeyInVxNotPressed(_) => m.skip_if(skips(m, keys, instruction)),
        Instruction::SetVxToByte(x, nn) => m.with_register(x as int, nn).next(),
        Instruction::AddByteToVx(x, nn) => m.with_register(
            x as int,
            ((m.v[x as int] + nn) % 256) as u8,
        ).next(),
        Instruction::SetVxToVy(x, y) => m.with_register(x as int, m.v[y as int]).next(),
        Instruction::SetVxToVxOrVy(x, y) => m.with_register(
            x as int,
            m.v[x as int] | m.v[y as int],
        ).next(),
        Instruction::SetVxToVxAndVy(x, y) => m.with_register(
            x as int,
            m.v[x as int] & m.v[y as int],
        ).next(),
        Instruction::SetVxToVxXorVy(x, y) => m.with_register(
            x as int,
            m.v[x as int] ^ m.v[y as int],
        ).next(),
        Instruction::AddVyToVxWithCarry(x, y) => {
            let sum = m.v[x as int] + m.v[y as int];
            m.with_register(x as int, (sum % 256) as u8).with_flag(sum > 255).next()
        },
        Instruction::SubtractVyFromVxWithBorrow(x, y) => {
            let difference = m.v[x as int] - m.v[y as int];
            m.with_register(x as int, (difference % 256) as u8).with_flag(difference >= 0).next()
        },
        Instruction::ShiftVxRightByOne(x, y) => {
            let source = m.v[y as int];
            m.with_register(x as int, source / 2).with_flag(source % 2 == 1).next()
        },
        Instruction::SetVxToVyMinusVx(x, y) => {
            let difference = m.v[y as int] - m.v[x as int];
            m.with_register(x as int, (difference % 256) as u8).with_flag(difference >= 0).next()
        },
        Instruction::ShiftVxLeftByOne(x, y) => {
            let source = m.v[y as int];
            m.with_register(x as int, ((source * 2) % 256) as u8).with_flag(source >= 128).next()
        },
        Instruction::SetIToAddress(nnn) => Machine { i: nnn, ..m }.next(),
        Instruction::JumpToV0PlusAddress(nnn) => m.with_pc(nnn + m.v[0]),
        Instruction::SetVxToRandomAndByte(x, nn) => m.with_register(x as int, random & nn).next(),
        Instruction::DrawSprite(x, y, n) => m.with_flag(
            screen.collides(m.sprite(n as nat), m.corner(x, y).0, m.corner(x, y).1),
        ).next(),
        Instruction::SetVxToDelayTimer(x) => m.with_register(x as int, m.delay_timer).next(),
        Instruction::WaitForKeyPressAndStoreInVx(x) => Machine {
            halted: true,
            wait_register: Some(x),
            ..m
        },
        Instruction::SetDelayTimerToVx(x) => Machine { delay_timer: m.v[x as int], ..m }.next(),
        Instruction::SetSoundTimerToVx(x) => Machine { sound_timer: m.v[x as int], ..m }.next(),
        Instruction::AddVxToI(x) => Machine { i: (m.i + m.v[x as int]) as u16, ..m }.next(),
        Instruction::SetIToSpriteAddressForDigitVx(x) => Machine {
            i: glyph_address(m.v[x as int]) as u16,
            ..m
        }.next(),
        Instruction::StoreBcdOfVxAtI(x) => Machine {
            mem: with_bytes(m.mem, m.i as int, bcd(m.v[x as int])),
            ..m
        }.next(),
        Instruction::StoreRegistersV0ThroughVxInMemory(x) => Machine {
            mem: with_bytes(m.mem, m.i as int, m.v.take(x + 1)),
            ..m
        }.next(),
        Instruction::ReadRegistersV0ThroughVxFromMemory(x) => Machine {
            v: Seq::new(
                16,
                |k: int|
                    if k <= x {
                        m.mem[m.i + k]
                    } else {
                        m.v[k]
                    },
            ),
            ..m
        }.next(),
        Instruction::Invalid(_) => m.next(),
    }
}

/// Whether `after` is a machine that the instruction can leave behind:
/// the outcome for some random byte, and for every random byte where the
/// instruction draws none.
pub open spec fn is_outcome(
    before: Machine,
    screen: Screen,
    keys: Seq<bool>,
    instruction: Instruction,
    after: Machine,
) -> bool {
    &&& exists|random: u8| after == #[trigger] execute(before, screen, keys, instruction, random)
    &&& !(instruction is SetVxToRandomAndByte) ==> forall|random: u8|
        after == #[trigger] execute(before, screen, keys, instruction, random)
}

/// The screen after one instruction: only `ClearDisplay` and `DrawSprite`
/// touch it.
pub open spec fn repaint(m: Machine, screen: Screen, instruction: Instruction) -> Screen {
    match instruction {
        Instruction::ClearDisplay => Screen { pixels: Screen::blank(), dirty: true },
        Instruction::DrawSprite(x, y, n) => screen.drawn(
            m.sprite(n as nat),
            m.corner(x, y).0,
            m.corner(x, y).1,
        ),
        _ => screen,
    }
}

/// Where the program counter stands after the instruction, before it is
/// cut to 16 bits.
pub open spec fn target(m: Machine, keys: Seq<bool>, instruction: Instruction) -> int {
    match instruction {
        Instruction::ReturnFromSubroutine => m.stack.last() as int,
        Instruction::JumpToAddress(nnn) => nnn as int,
        Instruction::CallSubroutine(nnn) => nnn as int,
        Instruction::JumpToV0PlusAddress(nnn) => nnn + m.v[0],
        Instruction::WaitForKeyPressAndStoreInVx(_) => m.pc as int,
        _ => if skips(m, keys, instruction) {
            m.pc + 4
        } else {
            m.pc + 2
        },
    }
}

/// The fault that stops the instruction, or `None` where it can run.
pub open spec fn fault(m: Machine, keys: Seq<bool>, instruction: Instruction) -> Option<Fault> {
    if !instruction.wf() {
        Some(Fault::MalformedInstruction)
    } else if instruction is ReturnFromSubroutine && m.stack.len() == 0 {
        Some(Fault::StackUnderflow)
    } else if instruction is CallSubroutine && m.stack.len() >= 16 {
        Some(Fault::StackOverflow)
    } else if instruction is CallSubroutine && m.pc + 2 > 0xFFFF {
        Some(Fault::AddressOverflow)
    } else if reaches_outside_memory(m, instruction) {
        Some(Fault::MemoryOutOfRange)
    } else if tests_no_key(m, instruction) {
        Some(Fault::KeyOutOfRange)
    } else if instruction matches Instruction::AddVxToI(x) && m.i + m.v[x as int] > 0xFFFF {
        Some(Fault::AddressOverflow)
    } else if target(m, keys, instruction) > 0xFFFF {
        Some(Fault::AddressOverflow)
    } else {
        None
    }
}

/// The opcode at the program counter.
pub open spec fn fetch(m: Machine) -> u16 {
    word_at(m.mem, m.pc as int) as u16
}

/// The fault that stops the next cycle, or `None` where it can run: the
/// opcode must lie inside memory, and its instruction must be able to run.
pub open spec fn cycle_fault(m: Machine, keys: Seq<bool>) -> Option<Fault> {
    if m.pc + 1 >= 4096 {
        Some(Fault::MemoryOutOfRange)
    } else {
        fault(m, keys, decode(fetch(m)))
    }
}

/// Whether the instruction reads or writes memory at 4096 or above.
pub open spec fn reaches_outside_memory(m: Machine, instruction: Instruction) -> bool {
    match instruction {
        Instruction::DrawSprite(_, _, n) => n > 0 && m.i + n > 4096,
        Instruction::StoreBcdOfVxAtI(_) => m.i + 3 > 4096,
        Instruction::StoreRegistersV0ThroughVxInMemory(x) => m.i + x + 1 > 4096,
        Instruction::ReadRegistersV0ThroughVxFromMemory(x) => m.i + x + 1 > 4096,
        _ => false,
    }
}

/// Whether the instruction tests a key whose index is 16 or more.
pub open spec fn tests_no_key(m: Machine, instruction: Instruction) -> bool {
    match instruction {
        Instruction::SkipIfKeyInVxPressed(x) => m.v[x as int] >= 16,
        Instruction::SkipIfKeyInVxNotPressed(x) => m.v[x as int] >= 16,
        _ => false,
    }
}

} // verus!
