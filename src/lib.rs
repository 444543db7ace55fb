//! Execution and status-flag emulation for trapped x86 instructions that
//! read, write, test or OR an emulated device location.

pub mod status;
pub mod operand;
pub mod flags;
pub mod inst;
