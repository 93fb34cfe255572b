//! A 6502 processor core with its memory-mapped bus, cartridge loader and
//! fixed-bank mapper, verified with Verus.
//!
//! The processor ([`cpu::Cpu6502`]) runs against a [`memory::SystemMemory`]:
//! 2 KiB of mirrored RAM, the picture unit's registers and a cartridge slot.
//! Every operation and addressing mode is proved to produce exactly the state
//! its specification function describes, and [`cpu::Cpu6502::clock`] is proved
//! against their composition.

pub mod addressing;
pub mod arith;
pub mod bits;
pub mod bus;
pub mod cartridge;
pub mod cpu;
pub mod disasm;
pub mod flags;
pub mod instruction;
pub mod laws;
pub mod mapper;
pub mod memory;
pub mod opcodes;
pub mod ppu;
pub mod program;
