//! Core of a Nintendo Entertainment System emulator: a 6502 interpreter, the
//! console's memory model, the cartridge loader and the picture processor's
//! register and rendering logic, each stated and proved against a
//! mathematical model.

pub mod logging;
pub mod memory;
pub mod pixel_processor;
pub mod processor;
pub mod types;
