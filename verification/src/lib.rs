//! A stepped virtual machine for a classic 8-bit fantasy microprocessor:
//! 4 KiB of memory, sixteen byte registers, a sixteen-entry call stack and a
//! 64x32 monochrome display.
//!
//! The machine is driven from outside: load a program image once, then call
//! [`Chip8::tick`] at whatever cadence the host wants and read the frame
//! buffer after each call. Nothing here blocks, prints or keeps time.

pub mod opcode;
pub mod display;
pub mod state;
pub mod driver;
pub mod instructions;
pub mod laws;
pub mod machine;
mod random;

pub use driver::Outcome;
pub use machine::{Chip8, LoadError};
pub use opcode::{decode, Decoded, Instruction};
