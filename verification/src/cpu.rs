//! The processor: registers, program counter, call stack, timers and the
//! wait-for-key condition, together with the memory it owns.

use crate::display::Display;
use crate::instruction::decode;
use crate::keypad::Keypad;
use crate::machine::{
    bcd, cycle_fault, execute, fault, fetch, is_outcome, repaint, skips, tests_no_key, Fault,
    Machine,
};
use crate::memory::{with_bytes, word_at, Memory};
use crate::random::random_byte;
use vstd::prelude::*;

pub use crate::instruction::Instruction;

verus! {

/// The processor and its memory. The stack holds `sp` return addresses in
/// `stack[..sp]`.
pub struct Cpu {
    v: [u8; 16],
    i: u16,
    pc: u16,
    sp: usize,
    delay_timer: u8,
    sound_timer: u8,
    stack: [u16; 16],
    halted: bool,
    wait_register: Option<usize>,
    mem: Memory,
}

/// What one cycle did.
#[derive(Debug, Clone, Copy, PartialEq, Eq)]
pub struct CycleReport {
    /// The instruction that was fetched and executed.
    pub executed: Instruction,
    /// Whether the tone is to sound: the sound timer is not zero.
    pub tone: bool,
}

impl View for Cpu {
    type V = Machine;

    closed spec fn view(&self) -> Machine {
        Machine {
            v: self.v@,
            i: self.i,
            pc: self.pc,
            stack: self.stack@.take(
                if self.sp <= 16 {
                    self.sp as int
                } else {
                    16
                },
            ),
            delay_timer: self.delay_timer,
            sound_timer: self.sound_timer,
            halted: self.halted,
            wait_register: self.wait_register,
            mem: self.mem@,
        }
    }
}

impl Cpu {
    /// The stack pointer never passes the 16 slots of the stack, and a
    /// register that waits for a key is one of the 16 registers.
    #[verifier::type_invariant]
    spec fn indices_in_range(&self) -> bool {
        &&& self.sp <= 16
        &&& self.wait_register matches Some(register) ==> register < 16
    }

    /// A processor at power-on: registers and timers at zero, an empty
    /// stack, the program counter at `0x200`, and the font in memory.
    pub fn new() -> (cpu: Cpu)
        ensures
            cpu@ == Machine::power_on(),
    {
        let v: [u8; 16] = [0x00; 16];
        let i: u16 = 0x0000;
        let pc: u16 = 0x0200;
        let sp: usize = 0x00;
        let delay_timer: u8 = 0x00;
        let sound_timer: u8 = 0x00;
        let stack: [u16; 16] = [0x0000; 16];
        let halted = false;
        let wait_register: Option<usize> = None;
        let mem = Memory::new();
        let cpu = Cpu {
            v,
            i,
            pc,
            sp,
            delay_timer,
            sound_timer,
            stack,
            halted,
            wait_register,
            mem,
        };
        assert(cpu@.v =~= Machine::power_on().v);
        assert(cpu@.stack =~= Machine::power_on().stack);
        cpu
    }

    /// Every processor has 16 registers, at most 16 return addresses and
    /// 4096 bytes of memory.
    pub proof fn lemma_wf(&self)
        ensures
            self@.wf(),
    {
        self.mem.lemma_size();
    }

    /// Whether execution is suspended.
    pub fn is_halted(&self) -> (halted: bool)
        ensures
            halted == self@.halted,
    {
        self.halted
    }

    /// Reads register `V[index]`.
    pub fn get_register(&self, index: usize) -> (value: u8)
        requires
            index < 16,
        ensures
            value == self@.v[index as int],
    {
        self.v[index]
    }

    /// Writes register `V[index]`.
    pub fn set_register(&mut self, index: usize, data: u8)
        requires
            index < 16,
        ensures
            final(self)@ == old(self)@.with_register(index as int, data),
    {
        proof {
            use_type_invariant(&*self);
        }
        self.v[index] = data;
    }

    /// Pushes the address of the instruction after the current one. With
    /// 16 addresses on the stack nothing is pushed and the overflow is
    /// reported.
    pub fn push_stack(&mut self) -> (pushed: Result<(), &'static str>)
        requires
            old(self)@.stack.len() < 16 ==> old(self)@.pc + 2 <= 0xFFFF,
        ensures
            pushed is Ok <==> old(self)@.stack.len() < 16,
            pushed is Ok ==> final(self)@ == old(self)@.pushed(),
            pushed matches Err(message) ==> message@ == "stack overflow"@ && final(self)@ == old(
                self,
            )@,
    {
        proof {
            use_type_invariant(&*self);
        }
        if self.sp < 16 {
            self.stack[self.sp] = self.pc + 2;
            self.sp += 1;
            assert(self@.stack =~= old(self)@.stack.push((old(self)@.pc + 2) as u16));
            Ok(())
        } else {
            Err("stack overflow")
        }
    }

    /// Pops the most recent return address, if there is one.
    pub fn pop_stack(&mut self) -> (popped: Option<u16>)
        ensures
            match popped {
                Some(address) => old(self)@.stack.len() > 0 && address == old(self)@.stack.last()
                    && final(self)@ == old(self)@.popped(),
                None => old(self)@.stack.len() == 0 && final(self)@ == old(self)@,
            },
    {
        proof {
            use_type_invariant(&*self);
        }
        if self.sp > 0 {
            self.sp -= 1;
            assert(self@.stack =~= old(self)@.stack.drop_last());
            Some(self.stack[self.sp])
        } else {
            None
        }
    }

    /// Reads the opcode at the program counter.
    pub fn fetch_instruction(&mut self) -> (opcode: u16)
        requires
            old(self)@.pc + 1 < 4096,
        ensures
            opcode == word_at(old(self)@.mem, old(self)@.pc as int),
            final(self)@ == old(self)@,
    {
        let instruction = self.mem.read_16(self.pc as usize);
        instruction
    }

    /// The register that waits for a key, always one of the 16.
    pub fn get_wait_register(&self) -> (register: Option<usize>)
        ensures
            register == self@.wait_register,
            register matches Some(index) ==> index < 16,
    {
        proof {
            use_type_invariant(self);
        }
        self.wait_register
    }

    /// Names the register that waits for a key, or none.
    pub fn set_wait_register(&mut self, option: Option<usize>)
        requires
            option matches Some(index) ==> index < 16,
        ensures
            final(self)@ == (Machine { wait_register: option, ..old(self)@ }),
    {
        proof {
            use_type_invariant(&*self);
        }
        self.wait_register = option;
    }

    /// Lifts the suspension.
    pub fn resume(&mut self)
        ensures
            final(self)@ == (Machine { halted: false, ..old(self)@ }),
    {
        proof {
            use_type_invariant(&*self);
        }
        self.halted = false;
    }

    /// Writes one byte of memory.
    pub fn write_byte_to_mem(&mut self, byte: u8, index: usize)
        requires
            index < 4096,
        ensures
            final(self)@ == (Machine {
                mem: old(self)@.mem.update(index as int, byte),
                ..old(self)@
            }),
    {
        proof {
            use_type_invariant(&*self);
        }
        self.mem.write_byte(index, byte);
    }

    /// Reads one byte of memory.
    pub fn read_byte_from_mem(&self, index: usize) -> (byte: u8)
        requires
            index < 4096,
        ensures
            byte == self@.mem[index as int],
    {
        self.mem.read_byte(index)
    }

    /// Copies a program into memory at `start_addr` and points the program
    /// counter at it.
    pub fn load_rom(&mut self, rom_bytes: &[u8], start_addr: u16)
        requires
            start_addr + rom_bytes@.len() <= 4096,
        ensures
            final(self)@ == old(self)@.loaded(rom_bytes@, start_addr),
    {
        proof {
            use_type_invariant(&*self);
            self.mem.lemma_size();
            assert(self@.mem =~= with_bytes(self@.mem, start_addr as int, rom_bytes@.take(0)));
        }
        let mut index: usize = 0;
        while index < rom_bytes.len()
            invariant
                index <= rom_bytes@.len(),
                start_addr + rom_bytes@.len() <= 4096,
                old(self)@.mem.len() == 4096,
                self@ == (Machine {
                    mem: with_bytes(
                        old(self)@.mem,
                        start_addr as int,
                        rom_bytes@.take(index as int),
                    ),
                    ..old(self)@
                }),
            decreases rom_bytes@.len() - index,
        {
            proof {
                use_type_invariant(&*self);
            }
            self.mem.write_byte(start_addr as usize + index, rom_bytes[index]);
            index += 1;
            assert(self@.mem =~= with_bytes(
                old(self)@.mem,
                start_addr as int,
                rom_bytes@.take(index as int),
            ));
        }
        proof {
            use_type_invariant(&*self);
            assert(rom_bytes@.take(rom_bytes@.len() as int) == rom_bytes@);
        }
        self.pc = start_addr;
    }

    /// Moves the program counter.
    pub fn set_pc(&mut self, addr: u16)
        ensures
            final(self)@ == (Machine { pc: addr, ..old(self)@ }),
    {
        proof {
            use_type_invariant(&*self);
        }
        self.pc = addr;
    }

    /// The program counter.
    pub fn get_pc(&self) -> (pc: u16)
        ensures
            pc == self@.pc,
    {
        self.pc
    }

    /// The address register.
    pub fn get_i(&self) -> (i: u16)
        ensures
            i == self@.i,
    {
        self.i
    }

    /// Number of return addresses on the stack.
    pub fn stack_depth(&self) -> (depth: usize)
        ensures
            depth == self@.stack.len(),
            depth <= 16,
    {
        proof {
            use_type_invariant(self);
        }
        self.sp
    }

    /// The sound timer.
    pub fn get_sound_timer(&self) -> (timer: u8)
        ensures
            timer == self@.sound_timer,
    {
        self.sound_timer
    }

    /// The delay timer.
    pub fn get_delay_timer(&self) -> (timer: u8)
        ensures
            timer == self@.delay_timer,
    {
        self.delay_timer
    }

    /// Counts the sound timer down by one; at zero it stays at zero.
    pub fn decrement_sound_timer(&mut self)
        ensures
            final(self)@ == (Machine { sound_timer: old(self)@.tick().sound_timer, ..old(self)@ }),
    {
        proof {
            use_type_invariant(&*self);
        }
        if self.sound_timer > 0 {
            self.sound_timer -= 1;
        }
    }

    /// Counts the delay timer down by one; at zero it stays at zero.
    pub fn decrement_delay_timer(&mut self)
        ensures
            final(self)@ == (Machine { delay_timer: old(self)@.tick().delay_timer, ..old(self)@ }),
    {
        proof {
            use_type_invariant(&*self);
        }
        if self.delay_timer > 0 {
            self.delay_timer -= 1;
        }
    }

    /// Stores the three decimal digits of `value` at `I`, `I+1` and `I+2`.
    fn store_bcd(&mut self, value: u8)
        requires
            old(self)@.i + 3 <= 4096,
        ensures
            final(self)@ == (Machine {
                mem: with_bytes(old(self)@.mem, old(self)@.i as int, bcd(value)),
                ..old(self)@
            }),
    {
        proof {
            use_type_invariant(&*self);
            self.mem.lemma_size();
        }
        let (hundreds, tens, ones) = ((value / 100) % 10, (value / 10) % 10, value % 10);
        self.mem.write_byte(self.i as usize, hundreds);
        self.mem.write_byte((self.i + 1) as usize, tens);
        self.mem.write_byte((self.i + 2) as usize, ones);
        assert(self@.mem =~= with_bytes(old(self)@.mem, old(self)@.i as int, bcd(value)));
    }

    /// Copies `V0..=Vx` to memory from `I` on.
    fn store_registers(&mut self, v_x: usize)
        requires
            v_x < 16,
            old(self)@.i + v_x + 1 <= 4096,
        ensures
            final(self)@ == (Machine {
                mem: with_bytes(old(self)@.mem, old(self)@.i as int, old(self)@.v.take(v_x + 1)),
                ..old(self)@
            }),
    {
        proof {
            self.mem.lemma_size();
            assert(self@.mem =~= with_bytes(self@.mem, self@.i as int, self@.v.take(0)));
        }
        let mut index: usize = 0;
        while index <= v_x
            invariant
                v_x < 16,
                index <= v_x + 1,
                old(self)@.i + v_x + 1 <= 4096,
                old(self)@.mem.len() == 4096,
                self@ == (Machine {
                    mem: with_bytes(
                        old(self)@.mem,
                        old(self)@.i as int,
                        old(self)@.v.take(index as int),
                    ),
                    ..old(self)@
                }),
            decreases v_x + 1 - index,
        {
            proof {
                use_type_invariant(&*self);
            }
            self.mem.write_byte(self.i as usize + index, self.v[index]);
            index += 1;
            assert(self@.mem =~= with_bytes(
                old(self)@.mem,
                old(self)@.i as int,
                old(self)@.v.take(index as int),
            ));
        }
    }

    /// Copies memory from `I` on to `V0..=Vx`.
    fn read_registers(&mut self, v_x: usize)
        requires
            v_x < 16,
            old(self)@.i + v_x + 1 <= 4096,
        ensures
            final(self)@ == (Machine {
                v: Seq::new(
                    16,
                    |k: int|
                        if k <= v_x {
                            old(self)@.mem[old(self)@.i + k]
                        } else {
                            old(self)@.v[k]
                        },
                ),
                ..old(self)@
            }),
    {
        proof {
            assert(self@.v =~= Seq::new(
                16,
                |k: int|
                    if k < 0 {
                        self@.mem[self@.i + k]
                    } else {
                        self@.v[k]
                    },
            ));
        }
        let mut index: usize = 0;
        while index <= v_x
            invariant
                v_x < 16,
                index <= v_x + 1,
                old(self)@.i + v_x + 1 <= 4096,
                self@ == (Machine {
                    v: Seq::new(
                        16,
                        |k: int|
                            if k < index {
                                old(self)@.mem[old(self)@.i + k]
                            } else {
                                old(self)@.v[k]
                            },
                    ),
                    ..old(self)@
                }),
            decreases v_x + 1 - index,
        {
            proof {
                use_type_invariant(&*self);
            }
            self.v[index] = self.mem.read_byte(self.i as usize + index);
            index += 1;
            assert(self@.v =~= Seq::new(
                16,
                |k: int|
                    if k < index {
                        old(self)@.mem[old(self)@.i + k]
                    } else {
                        old(self)@.v[k]
                    },
            ));
        }
        assert(self@.v =~= Seq::new(
            16,
            |k: int|
                if k <= v_x {
                    old(self)@.mem[old(self)@.i + k]
                } else {
                    old(self)@.v[k]
                },
        ));
    }

    /// Sets `VF` to 1 or 0.
    fn set_flag(&mut self, flag: bool)
        ensures
            final(self)@ == old(self)@.with_flag(flag),
    {
        if flag {
            self.set_register(0xF, 1);
        } else {
            self.set_register(0xF, 0);
        }
    }

    /// Wrapping addition and subtraction of bytes are addition and
    /// subtraction modulo 256.
    proof fn lemma_wrapping(left: u8, right: u8)
        ensures
            vstd::wrapping::u8_specs::wrapping_add(left, right) == ((left + right) % 256) as u8,
            vstd::wrapping::u8_specs::wrapping_sub(left, right) == ((left - right) % 256) as u8,
    {
    }

    /// Executes one instruction, with `random` as the byte that
    /// `SetVxToRandomAndByte` draws. Afterwards the program counter is two
    /// bytes on, unless the instruction set it: a jump, a call and a return
    /// set it, a skip that is taken moves it two bytes more, and the wait
    /// for a key leaves it in place.
    pub fn execute_with(
        &mut self,
        instruction: Instruction,
        random: u8,
        keypad: &Keypad,
        display: &mut Display,
    )
        requires
            fault(old(self)@, keypad@, instruction) is None,
        ensures
            final(self)@ == execute(old(self)@, old(display)@, keypad@, instruction, random),
            final(display)@ == repaint(old(self)@, old(display)@, instruction),
    {
        let ghost before = self@;
        proof {
            use_type_invariant(&*self);
            self.lemma_wf();
            keypad.lemma_size();
            display.lemma_shape();
        }
        let mut pc_modified = false;
        match instruction {
            Instruction::ClearDisplay => {
                display.clear();
            },
            Instruction::ReturnFromSubroutine => {
                // The stack is not empty: an empty one is a fault.
                if let Some(address) = self.pop_stack() {
                    self.set_pc(address);
                    pc_modified = true;
                }
            },
            Instruction::JumpToAddress(address) => {
                self.set_pc(address);
                pc_modified = true;
            },
            Instruction::CallSubroutine(address) => {
                // The stack is not full: a full one is a fault.
                if let Ok(()) = self.push_stack() {
                    self.set_pc(address);
                    pc_modified = true;
                }
            },
            Instruction::SkipIfVxEqualsByte(v_x, byte) => {
                if self.get_register(v_x) == byte {
                    self.set_pc(self.pc + 2);
                }
            },
            Instruction::SkipIfVxNotEqualsByte(v_x, byte) => {
                if self.get_register(v_x) != byte {
                    self.set_pc(self.pc + 2);
                }
            },
            Instruction::SkipIfVxEqualsVy(v_x, v_y) => {
                if self.get_register(v_x) == self.get_register(v_y) {
                    self.set_pc(self.pc + 2);
                }
            },
            Instruction::SetVxToByte(v_x, byte) => {
                self.set_register(v_x, byte);
            },
            Instruction::AddByteToVx(v_x, byte) => {
                proof {
                    Self::lemma_wrapping(self@.v[v_x as int], byte);
                }
                self.set_register(v_x, self.get_register(v_x).wrapping_add(byte));
            },
            Instruction::SetVxToVy(v_x, v_y) => {
                self.set_register(v_x, self.get_register(v_y));
            },
            Instruction::SetVxToVxOrVy(v_x, v_y) => {
                self.set_register(v_x, self.get_register(v_x) | self.get_register(v_y));
            },
            Instruction::SetVxToVxAndVy(v_x, v_y) => {
                self.set_register(v_x, self.get_register(v_x) & self.get_register(v_y));
            },
            Instruction::SetVxToVxXorVy(v_x, v_y) => {
                self.set_register(v_x, self.get_register(v_x) ^ self.get_register(v_y));
            },
            Instruction::AddVyToVxWithCarry(v_x, v_y) => {
                let left = self.get_register(v_x);
                let right = self.get_register(v_y);
                let carry = left as u16 + right as u16 > 255;
                proof {
                    Self::lemma_wrapping(left, right);
                }
                self.set_register(v_x, left.wrapping_add(right));
                self.set_flag(carry);
            },
            Instruction::SubtractVyFromVxWithBorrow(v_x, v_y) => {
                let left = self.get_register(v_x);
                let right = self.get_register(v_y);
                let borrow = left < right;
                proof {
                    Self::lemma_wrapping(left, right);
                }
                self.set_register(v_x, left.wrapping_sub(right));
                self.set_flag(!borrow);
            },
            Instruction::ShiftVxRightByOne(v_x, v_y) => {
                let source = self.get_register(v_y);
                let bit = source & 0x1;
                let shifted = source >> 1;
                assert(source >> 1 == source / 2 && (source & 0x1) == source % 2)
                    by (bit_vector);
                self.set_register(v_x, shifted);
                self.set_register(0xF, bit);
            },
            Instruction::SetVxToVyMinusVx(v_x, v_y) => {
                let left = self.get_register(v_y);
                let right = self.get_register(v_x);
                let borrow = left < right;
                proof {
                    Self::lemma_wrapping(left, right);
                }
                self.set_register(v_x, left.wrapping_sub(right));
                self.set_flag(!borrow);
            },
            Instruction::ShiftVxLeftByOne(v_x, v_y) => {
                let source = self.get_register(v_y);
                let bit = (source & 0x80) >> 7;
                let shifted = source << 1;
                assert(source << 1 == (source * 2) % 256 && (source & 0x80) >> 7 == (
                if source >= 128 {
                    1u8
                } else {
                    0u8
                })) by (bit_vector);
                self.set_register(v_x, shifted);
                self.set_register(0xF, bit);
            },
            Instruction::SkipIfVxNotEqualsVy(v_x, v_y) => {
                if self.get_register(v_x) != self.get_register(v_y) {
                    self.set_pc(self.pc + 2);
                }
            },
            Instruction::SetIToAddress(address) => {
                self.i = address;
            },
            Instruction::JumpToV0PlusAddress(address) => {
                self.set_pc(address + self.get_register(0x0) as u16);
                pc_modified = true;
            },
            Instruction::SetVxToRandomAndByte(v_x, byte) => {
                self.set_register(v_x, random & byte);
            },
            Instruction::DrawSprite(v_x, v_y, n) => {
                self.set_register(0xF, 0);
                let x = self.get_register(v_x);
                let y = self.get_register(v_y);
                // A sprite without rows reads no memory, wherever `I` points.
                let start: usize = if n > 0 {
                    self.i as usize
                } else {
                    0
                };
                let sprite = self.mem.read_bytes(start, n as usize);
                assert(sprite@ =~= before.sprite(n as nat));
                let collision = display.draw_sprite(sprite, x, y);
                self.set_flag(collision);
                assert(self@.v =~= before.with_flag(collision).v);
            },
            Instruction::SkipIfKeyInVxPressed(v_x) => {
                let key = self.get_register(v_x);
                if keypad.is_pressed(key as usize) {
                    self.set_pc(self.pc + 2);
                }
            },
            Instruction::SkipIfKeyInVxNotPressed(v_x) => {
                let key = self.get_register(v_x);
                if !keypad.is_pressed(key as usize) {
                    self.set_pc(self.pc + 2);
                }
            },
            Instruction::SetVxToDelayTimer(v_x) => {
                self.set_register(v_x, self.delay_timer);
            },
            Instruction::WaitForKeyPressAndStoreInVx(v_x) => {
                self.halted = true;
                self.wait_register = Some(v_x);
                pc_modified = true;
            },
            Instruction::SetDelayTimerToVx(v_x) => {
                self.delay_timer = self.get_register(v_x);
            },
            Instruction::SetSoundTimerToVx(v_x) => {
                self.sound_timer = self.get_register(v_x);
            },
            Instruction::AddVxToI(v_x) => {
                self.i = self.i + self.get_register(v_x) as u16;
            },
            Instruction::SetIToSpriteAddressForDigitVx(v_x) => {
                let font_start: usize = 0x50;
                let sprite_index: usize = (self.get_register(v_x) as usize * 5) + font_start;
                self.i = sprite_index as u16;
            },
            Instruction::StoreBcdOfVxAtI(v_x) => {
                let value = self.get_register(v_x);
                self.store_bcd(value);
            },
            Instruction::StoreRegistersV0ThroughVxInMemory(v_x) => {
                self.store_registers(v_x);
            },
            Instruction::ReadRegistersV0ThroughVxFromMemory(v_x) => {
                self.read_registers(v_x);
            },
            Instruction::Invalid(_) => {},
        }
        if !pc_modified {
            proof {
                use_type_invariant(&*self);
            }
            self.pc += 2;
        }
    }

    /// Executes one instruction. `SetVxToRandomAndByte` draws its byte from
    /// the random source, so for it the outcome is one of the 256 that
    /// `execute` allows; every other instruction has exactly one outcome.
    pub fn execute_instruction(
        &mut self,
        instruction: Instruction,
        keypad: &mut Keypad,
        display: &mut Display,
    )
        requires
            fault(old(self)@, old(keypad)@, instruction) is None,
        ensures
            is_outcome(old(self)@, old(display)@, old(keypad)@, instruction, final(self)@),
            final(display)@ == repaint(old(self)@, old(display)@, instruction),
            final(keypad)@ == old(keypad)@,
    {
        let random = match instruction {
            Instruction::SetVxToRandomAndByte(_, _) => random_byte(),
            _ => 0,
        };
        self.execute_with(instruction, random, keypad, display);
    }

    /// Whether the instruction, executed now, skips the one after it.
    fn will_skip(&self, instruction: &Instruction, keypad: &Keypad) -> (skip: bool)
        requires
            instruction.wf(),
            !tests_no_key(self@, *instruction),
        ensures
            skip == skips(self@, keypad@, *instruction),
    {
        match *instruction {
            Instruction::SkipIfVxEqualsByte(v_x, byte) => self.get_register(v_x) == byte,
            Instruction::SkipIfVxNotEqualsByte(v_x, byte) => self.get_register(v_x) != byte,
            Instruction::SkipIfVxEqualsVy(v_x, v_y) => self.get_register(v_x) == self.get_register(
                v_y,
            ),
            Instruction::SkipIfVxNotEqualsVy(v_x, v_y) => self.get_register(v_x)
                != self.get_register(v_y),
            Instruction::SkipIfKeyInVxPressed(v_x) => keypad.is_pressed(
                self.get_register(v_x) as usize,
            ),
            Instruction::SkipIfKeyInVxNotPressed(v_x) => !keypad.is_pressed(
                self.get_register(v_x) as usize,
            ),
            _ => false,
        }
    }

    /// Finds the fault that would stop the instruction, without executing
    /// it.
    pub fn check_instruction(&self, instruction: &Instruction, keypad: &Keypad) -> (found: Option<
        Fault,
    >)
        ensures
            found == fault(self@, keypad@, *instruction),
    {
        proof {
            use_type_invariant(self);
        }
        if !instruction.is_well_formed() {
            return Some(Fault::MalformedInstruction);
        }
        let mut moves_on = true;
        match *instruction {
            Instruction::ReturnFromSubroutine => {
                if self.sp == 0 {
                    return Some(Fault::StackUnderflow);
                }
                moves_on = false;
            },
            Instruction::CallSubroutine(_) => {
                if self.sp >= 16 {
                    return Some(Fault::StackOverflow);
                }
                if self.pc > 0xFFFD {
                    return Some(Fault::AddressOverflow);
                }
                moves_on = false;
            },
            Instruction::JumpToAddress(_)
            | Instruction::JumpToV0PlusAddress(_)
            | Instruction::WaitForKeyPressAndStoreInVx(_) => {
                moves_on = false;
            },
            Instruction::DrawSprite(_, _, n) => {
                if n > 0 && self.i as usize + n as usize > 4096 {
                    return Some(Fault::MemoryOutOfRange);
                }
            },
            Instruction::StoreBcdOfVxAtI(_) => {
                if self.i as usize + 3 > 4096 {
                    return Some(Fault::MemoryOutOfRange);
                }
            },
            Instruction::StoreRegistersV0ThroughVxInMemory(v_x)
            | Instruction::ReadRegistersV0ThroughVxFromMemory(v_x) => {
                if self.i as usize + v_x + 1 > 4096 {
                    return Some(Fault::MemoryOutOfRange);
                }
            },
            Instruction::SkipIfKeyInVxPressed(v_x) | Instruction::SkipIfKeyInVxNotPressed(v_x) => {
                if self.get_register(v_x) >= 16 {
                    return Some(Fault::KeyOutOfRange);
                }
            },
            Instruction::AddVxToI(v_x) => {
                if self.i as u32 + self.get_register(v_x) as u32 > 0xFFFF {
                    return Some(Fault::AddressOverflow);
                }
            },
            _ => {},
        }
        if moves_on {
            let step: u32 = if self.will_skip(instruction, keypad) {
                4
            } else {
                2
            };
            if self.pc as u32 + step > 0xFFFF {
                return Some(Fault::AddressOverflow);
            }
        }
        None
    }

    /// Executes one instruction if nothing stops it, and otherwise reports
    /// the fault and leaves everything as it was.
    pub fn try_execute(
        &mut self,
        instruction: Instruction,
        keypad: &mut Keypad,
        display: &mut Display,
    ) -> (outcome: Result<(), Fault>)
        ensures
            match outcome {
                Ok(()) => {
                    &&& fault(old(self)@, old(keypad)@, instruction) is None
                    &&& is_outcome(
                        old(self)@,
                        old(display)@,
                        old(keypad)@,
                        instruction,
                        final(self)@,
                    )
                    &&& final(display)@ == repaint(old(self)@, old(display)@, instruction)
                },
                Err(stopped) => {
                    &&& fault(old(self)@, old(keypad)@, instruction) == Some(stopped)
                    &&& final(self)@ == old(self)@
                    &&& final(display)@ == old(display)@
                },
            },
            final(keypad)@ == old(keypad)@,
    {
        match self.check_instruction(&instruction, keypad) {
            Some(stopped) => Err(stopped),
            None => {
                self.execute_instruction(instruction, keypad, display);
                Ok(())
            },
        }
    }

    /// Runs one cycle: fetches the opcode at the program counter, decodes
    /// it and executes the instruction.
    pub fn cycle(&mut self, keypad: &mut Keypad, display: &mut Display) -> (report: CycleReport)
        requires
            cycle_fault(old(self)@, old(keypad)@) is None,
        ensures
            report.executed == decode(fetch(old(self)@)),
            is_outcome(old(self)@, old(display)@, old(keypad)@, report.executed, final(self)@),
            final(display)@ == repaint(old(self)@, old(display)@, report.executed),
            final(keypad)@ == old(keypad)@,
            report.tone == (final(self)@.sound_timer > 0),
    {
        let opcode = self.fetch_instruction();
        let instruction = Self::decode_instruction(opcode);
        self.execute_instruction(instruction, keypad, display);
        CycleReport { executed: instruction, tone: self.sound_timer > 0 }
    }

    /// Finds the fault that would stop the next cycle, without running it.
    pub fn check_cycle(&self, keypad: &Keypad) -> (found: Option<Fault>)
        ensures
            found == cycle_fault(self@, keypad@),
    {
        if self.pc as usize + 1 >= 4096 {
            return Some(Fault::MemoryOutOfRange);
        }
        let opcode = self.mem.read_16(self.pc as usize);
        let instruction = Self::decode_instruction(opcode);
        self.check_instruction(&instruction, keypad)
    }

    /// Runs one cycle if nothing stops it, and otherwise reports the fault
    /// and leaves everything as it was.
    pub fn try_cycle(&mut self, keypad: &mut Keypad, display: &mut Display) -> (outcome: Result<
        CycleReport,
        Fault,
    >)
        ensures
            match outcome {
                Ok(report) => {
                    &&& cycle_fault(old(self)@, old(keypad)@) is None
                    &&& report.executed == decode(fetch(old(self)@))
                    &&& is_outcome(
                        old(self)@,
                        old(display)@,
                        old(keypad)@,
                        report.executed,
                        final(self)@,
                    )
                    &&& final(display)@ == repaint(old(self)@, old(display)@, report.executed)
                    &&& report.tone == (final(self)@.sound_timer > 0)
                },
                Err(stopped) => {
                    &&& cycle_fault(old(self)@, old(keypad)@) == Some(stopped)
                    &&& final(self)@ == old(self)@
                    &&& final(display)@ == old(display)@
                },
            },
            final(keypad)@ == old(keypad)@,
    {
        match self.check_cycle(keypad) {
            Some(stopped) => Err(stopped),
            None => Ok(self.cycle(keypad, display)),
        }
    }
}

} // verus!
