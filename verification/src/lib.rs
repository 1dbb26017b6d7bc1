//! A verified CHIP-8 virtual machine.
//!
//! The machine has 16 byte-wide registers, a 4 KiB address space, a 64 x 32
//! monochrome display and a 16-key keypad. This crate holds its parts and
//! their rules:
//!
//! - [`memory`], [`display`] and [`keypad`]: the three stores;
//! - [`instruction`]: the instruction set and the meaning of each opcode;
//! - [`machine`]: the machine as a mathematical value, and what each
//!   instruction does to it;
//! - [`cpu`]: the processor that decodes and executes;
//! - [`scheduler`]: the instruction loop and the 60 Hz timer loop;
//! - [`frame`] and [`keymap`]: what the host shows and which of its keys
//!   the keypad listens to;
//! - [`laws`]: what follows from the meaning of the instructions.
//!
//! Every executable function carries a contract over the mathematical
//! model, and Verus proves that the function meets it. The one thing taken
//! on trust is the source of random bytes.

pub mod cpu;
mod decode;
pub mod display;
pub mod frame;
pub mod instruction;
pub mod keymap;
pub mod keypad;
pub mod laws;
pub mod machine;
pub mod memory;
mod random;
pub mod scheduler;
