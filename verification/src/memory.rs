//! The 4 KiB address space, with the hexadecimal font preloaded.

use vstd::prelude::*;
use vstd::slice::slice_subrange;

verus! {

/// Number of addressable bytes.
pub const MEMORY_SIZE: usize = 4096;

/// Address of the first font byte.
pub const FONTSET_START: usize = 0x50;

/// Glyphs for the digits 0 to F, five bytes each.
pub const FONTSET: [u8; 80] = [
    0xF0, 0x90, 0x90, 0x90, 0xF0,
    0x20, 0x60, 0x20, 0x20, 0x70,
    0xF0, 0x10, 0xF0, 0x80, 0xF0,
    0xF0, 0x10, 0xF0, 0x10, 0xF0,
    0x90, 0x90, 0xF0, 0x10, 0x10,
    0xF0, 0x80, 0xF0, 0x10, 0xF0,
    0xF0, 0x80, 0xF0, 0x90, 0xF0,
    0xF0, 0x10, 0x20, 0x40, 0x40,
    0xF0, 0x90, 0xF0, 0x90, 0xF0,
    0xF0, 0x90, 0xF0, 0x10, 0xF0,
    0xF0, 0x90, 0xF0, 0x90, 0x90,
    0xE0, 0x90, 0xE0, 0x90, 0xE0,
    0xF0, 0x80, 0x80, 0x80, 0xF0,
    0xE0, 0x90, 0x90, 0x90, 0xE0,
    0xF0, 0x80, 0xF0, 0x80, 0xF0,
    0xF0, 0x80, 0xF0, 0x80, 0x80,
];

/// What memory holds before any program is loaded: zero everywhere except
/// the font, which occupies `0x050..0x0A0`.
pub open spec fn power_on_image() -> Seq<u8> {
    Seq::new(
        4096,
        |addr: int|
            if 0x50 <= addr < 0xA0 {
                FONTSET@[addr - 0x50]
            } else {
                0u8
            },
    )
}

/// `image` with `bytes` copied over it from `start` on.
pub open spec fn with_bytes(image: Seq<u8>, start: int, bytes: Seq<u8>) -> Seq<u8> {
    Seq::new(
        image.len(),
        |addr: int|
            if start <= addr < start + bytes.len() {
                bytes[addr - start]
            } else {
                image[addr]
            },
    )
}

/// The big-endian 16-bit word at `addr`.
pub open spec fn word_at(image: Seq<u8>, addr: int) -> int {
    image[addr] * 256 + image[addr + 1]
}

/// The memory of the machine: 4096 bytes, addressed from 0.
pub struct Memory {
    ram: [u8; 4096],
}

impl View for Memory {
    type V = Seq<u8>;

    closed spec fn view(&self) -> Seq<u8> {
        self.ram@
    }
}

impl Memory {
    /// Every memory has exactly 4096 cells.
    pub proof fn lemma_size(&self)
        ensures
            self@.len() == 4096,
    {
    }

    /// A memory that holds the font and is zero elsewhere.
    pub fn new() -> (memory: Memory)
        ensures
            memory@ == power_on_image(),
    {
        let ram: [u8; 4096] = [0; 4096];
        let mut memory = Memory { ram };
        memory.load_font();
        memory
    }

    /// Copies the font to its place.
    fn load_font(&mut self)
        ensures
            final(self)@ == with_bytes(old(self)@, 0x50, FONTSET@),
    {
        let mut index: usize = 0;
        while index < 80
            invariant
                index <= 80,
                self@ == with_bytes(old(self)@, 0x50, FONTSET@.take(index as int)),
            decreases 80 - index,
        {
            self.ram[FONTSET_START + index] = FONTSET[index];
            index += 1;
        }
        assert(FONTSET@.take(80) == FONTSET@);
    }

    /// Copies `rom_bytes` into memory from `start_addr` on.
    pub fn load_rom(&mut self, rom_bytes: &[u8], start_addr: usize)
        requires
            start_addr + rom_bytes@.len() <= 4096,
        ensures
            final(self)@ == with_bytes(old(self)@, start_addr as int, rom_bytes@),
    {
        let mut index: usize = 0;
        while index < rom_bytes.len()
            invariant
                index <= rom_bytes@.len(),
                start_addr + rom_bytes@.len() <= 4096,
                self@ == with_bytes(old(self)@, start_addr as int, rom_bytes@.take(index as int)),
            decreases rom_bytes@.len() - index,
        {
            self.ram[start_addr + index] = rom_bytes[index];
            index += 1;
        }
        assert(rom_bytes@.take(rom_bytes@.len() as int) == rom_bytes@);
    }

    pub fn read_byte(&self, addr: usize) -> (byte: u8)
        requires
            addr < 4096,
        ensures
            byte == self@[addr as int],
    {
        self.ram[addr]
    }

    /// Borrows the `count` bytes from `addr` on.
    pub fn read_bytes(&self, addr: usize, count: usize) -> (bytes: &[u8])
        requires
            addr + count <= 4096,
        ensures
            bytes@ == self@.subrange(addr as int, addr + count),
    {
        slice_subrange(self.ram.as_slice(), addr, addr + count)
    }

    pub fn write_byte(&mut self, addr: usize, byte: u8)
        requires
            addr < 4096,
        ensures
            final(self)@ == old(self)@.update(addr as int, byte),
        no_unwind
    {
        self.ram[addr] = byte;
    }

    /// Reads the big-endian word whose high byte is at `addr`.
    pub fn read_16(&self, addr: usize) -> (word: u16)
        requires
            addr + 1 < 4096,
        ensures
            word == word_at(self@, addr as int),
    {
        let first_byte = self.ram[addr];
        let second_byte = self.ram[addr + 1];
        let word: u16 = ((first_byte as u16) << 8) | (second_byte as u16);
        assert(((first_byte as u16) << 8) | (second_byte as u16) == first_byte * 256
            + second_byte) by (bit_vector);
        word
    }
}

} // verus!
