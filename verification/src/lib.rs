//! A software model of a classic 8-bit microprocessor: a flat 64 KiB memory
//! bus, a register file, a fixed opcode table, an addressing-mode resolver,
//! and a fetch-decode-execute loop, all specified against a mathematical
//! machine state and verified instruction by instruction.

pub mod addressing;
pub mod cpu;
pub mod errors;
pub mod laws;
pub mod semantics;
pub mod state;
pub mod table;
