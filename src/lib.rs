//! The core of a NES emulator: the 6502 CPU interpreter, its memory bus and
//! the opcode table that drives it, each stated against a mathematical model.

pub mod bus;
pub mod cartridge;
pub mod cpu;
pub mod opcode;
pub mod registers;
pub mod rom;
pub mod semantics;
