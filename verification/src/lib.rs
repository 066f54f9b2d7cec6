//! Core of a cycle-accurate emulator for a classic 8-bit handheld game
//! console.
//!
//! The crate covers the instruction decode/execute engine of the CPU (the
//! base table of 256 opcodes and the extended, prefixed table of 256 more),
//! the register bank with its four condition flags, a flat 16-bit memory
//! bus, the timer subsystem, and the GPU mode state machine that all advance
//! on a shared master clock.  Every instruction's effect on registers,
//! memory, flags and the returned cycle count is stated as a specification
//! and proved against it.

pub mod registers;
pub mod memory;
pub mod interrupt;
pub mod alu;
pub mod cpu;
pub mod timer;
pub mod gpu;
pub mod laws;
