//! Core pieces of an emulator for the original monochrome handheld game
//! console: the 8-bit CPU register file with its arithmetic and flag
//! behaviour, the cartridge with its bank-switching controllers, the
//! four-channel sound unit, and the divider-driven system timer.
//!
//! Every state transition is expressed over plain integers and booleans so
//! that the contracts pin down the architectural behaviour exactly; the
//! host shell (window, audio queue, keyboard) lives outside this crate and
//! only exchanges plain values with it.

pub mod apu;
pub mod cartridge;
pub mod cpu;
pub mod timer;
