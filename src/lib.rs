//! A verified emulator core for a 16-bit educational register machine: the
//! instruction decoder, the execution engine with its memory-mapped keyboard,
//! and the console system calls.

pub mod laws;
pub mod machine;
pub mod memory;
pub mod opcodes;
pub mod util;
pub mod vm;
