//! The core of an emulator for the MOS 6502: the status register, the
//! memory, the instruction decoder and the execution engine, with the
//! behaviour of each stated in its contract and proved.

pub mod addressing;
pub mod decoder;
pub mod flags;
pub mod instructions;
pub mod laws;
pub mod memory;
pub mod processor;
pub mod semantics;
