// The execution core of an 8-bit handheld console (processor, memory bus, picture unit and
// the machine that wires them together), and a CHIP-8 interpreter built the same way.
use vstd::prelude::*;

pub mod alu;
pub mod bus;
pub mod chip8;
pub mod cpu;
pub mod emulator;
pub mod instruction;
pub mod ppu;
pub mod registers;

verus! {

} // verus!
