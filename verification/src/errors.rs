//! The three failure kinds of the core; all of them end a run.

use vstd::prelude::*;

verus! {

/// Everything that can go wrong inside the core.
#[derive(Clone, Copy, PartialEq, Eq, Structural, Debug)]
pub enum CpuError {
    /// A fetched byte has no entry in the instruction table; carries the
    /// undecodable byte.
    UnknownOpcode(u8),
    /// A computed operand address exceeds the memory bus's addressable
    /// range; carries the offending address.
    AddressOutOfRange(u32),
    /// A program image would run past the end of the address space; carries
    /// the requested image length in bytes.
    LoadOverflow(usize),
}

} // verus!
