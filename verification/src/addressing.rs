//! The addressing resolver: given an addressing mode and the machine state,
//! where the operand of the current instruction is and how many instruction
//! bytes it consumes.

use vstd::prelude::*;
use crate::errors::CpuError;
use crate::state::{wrap16, wrap8, MEMSIZE_6502};

verus! {

/// The closed set of operand-location strategies.
#[derive(Clone, Copy, PartialEq, Eq, Structural, Debug)]
pub enum AddressingMode {
    Absolute,
    AbsoluteX,
    AbsoluteY,
    Immediate,
    Implied,
    Indirect,
    IndirectX,
    IndirectY,
    ZeroPage,
    ZeroPageX,
    ZeroPageY,
}

/// A 16-bit value assembled from two instruction-stream bytes at `at`,
/// high byte first; the second read wraps with the program counter.
pub open spec fn operand_word(mem: Seq<u8>, at: u16) -> int
    recommends mem.len() == MEMSIZE_6502,
{
    mem[at as int] * 0x100 + mem[wrap16(at + 1) as int]
}

/// A 16-bit address stored in memory at `at`: low byte at `at`, high byte
/// at `at + 1`.
pub open spec fn stored_word(mem: Seq<u8>, at: int) -> int
    recommends 0 <= at, at + 1 < mem.len(),
{
    mem[at] + mem[at + 1] * 0x100
}

/// What the resolver computes for one mode: the operand (an immediate value
/// for `Immediate`, a memory address otherwise, 0 for `Implied`) together
/// with the program counter moved past the operand bytes, or the error when
/// a computed address would leave the bus. The program counter is taken
/// already pointing at the first operand byte.
pub open spec fn spec_resolve(
    mode: AddressingMode,
    pc: u16,
    x: u8,
    y: u8,
    mem: Seq<u8>,
) -> Result<(u16, u16), CpuError>
    recommends mem.len() == MEMSIZE_6502,
{
    match mode {
        AddressingMode::Implied => Ok((0u16, pc)),
        AddressingMode::Immediate => Ok((mem[pc as int] as u16, wrap16(pc + 1))),
        AddressingMode::ZeroPage => Ok((mem[pc as int] as u16, wrap16(pc + 1))),
        AddressingMode::ZeroPageX => Ok((wrap8(mem[pc as int] + x) as u16, wrap16(pc + 1))),
        AddressingMode::ZeroPageY => Ok((wrap8(mem[pc as int] + y) as u16, wrap16(pc + 1))),
        AddressingMode::Absolute => Ok((operand_word(mem, pc) as u16, wrap16(pc + 2))),
        AddressingMode::AbsoluteX => {
            let sum = operand_word(mem, pc) + x;
            if sum > 0xFFFF {
                Err(CpuError::AddressOutOfRange(sum as u32))
            } else {
                Ok((sum as u16, wrap16(pc + 2)))
            }
        },
        AddressingMode::AbsoluteY => {
            let sum = operand_word(mem, pc) + y;
            if sum > 0xFFFF {
                Err(CpuError::AddressOutOfRange(sum as u32))
            } else {
                Ok((sum as u16, wrap16(pc + 2)))
            }
        },
        AddressingMode::Indirect => {
            let ptr = operand_word(mem, pc);
            if ptr + 1 > 0xFFFF {
                Err(CpuError::AddressOutOfRange((ptr + 1) as u32))
            } else {
                Ok((stored_word(mem, ptr) as u16, wrap16(pc + 2)))
            }
        },
        AddressingMode::IndirectX => {
            let ptr = wrap8(mem[pc as int] + x) as int;
            Ok((stored_word(mem, ptr) as u16, wrap16(pc + 1)))
        },
        AddressingMode::IndirectY => {
            let sum = stored_word(mem, mem[pc as int] as int) + y;
            if sum > 0xFFFF {
                Err(CpuError::AddressOutOfRange(sum as u32))
            } else {
                Ok((sum as u16, wrap16(pc + 1)))
            }
        },
    }
}

} // verus!
