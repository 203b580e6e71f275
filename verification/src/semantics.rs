//! The execution semantics as a mathematical reference interpreter: what one
//! fetch-decode-resolve-execute step does to the machine state. The engine's
//! contracts pin its behaviour to these functions.

use vstd::prelude::*;
use crate::addressing::{spec_resolve, AddressingMode};
use crate::errors::CpuError;
use crate::state::{
    dec8, inc8, stack_slot, with_zero_negative, wrap16, MachineState, MEMSIZE_6502,
};
use crate::table::{spec_decode, Mnemonic};

verus! {

/// How one step of the engine ends: the machine keeps running, reaches the
/// terminal Halted state, or fails fatally.
#[derive(Clone, Copy, PartialEq, Eq, Structural, Debug)]
pub enum StepOutcome {
    KeepRunning,
    Halted,
    Failed(CpuError),
}

/// The byte an instruction works on: the operand itself in immediate mode,
/// the byte at the resolved address otherwise.
pub open spec fn operand_byte(s: MachineState, mode: AddressingMode, operand: u16) -> u8
    recommends s.mem.len() == MEMSIZE_6502,
{
    if mode == AddressingMode::Immediate {
        operand as u8
    } else {
        s.mem[operand as int]
    }
}

/// An 8-bit left rotation by one: bit 7 moves to bit 0.
pub open spec fn rol8(v: u8) -> u8 {
    (v << 1) | (v >> 7)
}

/// An 8-bit right rotation by one: bit 0 moves to bit 7.
pub open spec fn ror8(v: u8) -> u8 {
    (v >> 1) | (v << 7)
}

/// The semantic effect of one mnemonic on the machine state, after its
/// operand has been resolved and the program counter already points at the
/// next instruction. Total: every effect address is in range by
/// construction, so only `Brk` ends the run.
pub open spec fn spec_execute(
    s: MachineState,
    mnem: Mnemonic,
    mode: AddressingMode,
    operand: u16,
) -> (MachineState, StepOutcome)
    recommends s.mem.len() == MEMSIZE_6502,
{
    match mnem {
        Mnemonic::Brk => (s, StepOutcome::Halted),
        Mnemonic::Nop => (s, StepOutcome::KeepRunning),
        Mnemonic::Clc => (
            MachineState { p: s.p & !crate::state::STATUS_FLAG_C, ..s },
            StepOutcome::KeepRunning,
        ),
        Mnemonic::Cld => (
            MachineState { p: s.p & !crate::state::STATUS_FLAG_D, ..s },
            StepOutcome::KeepRunning,
        ),
        Mnemonic::Cli => (
            MachineState { p: s.p & !crate::state::STATUS_FLAG_I, ..s },
            StepOutcome::KeepRunning,
        ),
        Mnemonic::Clv => (
            MachineState { p: s.p & !crate::state::STATUS_FLAG_V, ..s },
            StepOutcome::KeepRunning,
        ),
        // ORA combines the accumulator with the resolved operand value
        // itself, whatever the addressing mode; loads, by contrast, read
        // through the resolved address.
        Mnemonic::Ora => {
            let v = s.a | (operand as u8);
            (MachineState { a: v, p: with_zero_negative(s.p, v), ..s }, StepOutcome::KeepRunning)
        },
        Mnemonic::Lda => {
            let v = operand_byte(s, mode, operand);
            (MachineState { a: v, p: with_zero_negative(s.p, v), ..s }, StepOutcome::KeepRunning)
        },
        Mnemonic::Ldx => {
            let v = operand_byte(s, mode, operand);
            (MachineState { x: v, p: with_zero_negative(s.p, v), ..s }, StepOutcome::KeepRunning)
        },
        Mnemonic::Ldy => {
            let v = operand_byte(s, mode, operand);
            (MachineState { y: v, p: with_zero_negative(s.p, v), ..s }, StepOutcome::KeepRunning)
        },
        Mnemonic::Jmp => (MachineState { pc: operand, ..s }, StepOutcome::KeepRunning),
        Mnemonic::Sta => (
            MachineState { mem: s.mem.update(operand as int, s.a), ..s },
            StepOutcome::KeepRunning,
        ),
        Mnemonic::Stx => (
            MachineState { mem: s.mem.update(operand as int, s.x), ..s },
            StepOutcome::KeepRunning,
        ),
        Mnemonic::Sty => (
            MachineState { mem: s.mem.update(operand as int, s.y), ..s },
            StepOutcome::KeepRunning,
        ),
        Mnemonic::Tax => (MachineState { x: s.a, ..s }, StepOutcome::KeepRunning),
        Mnemonic::Tay => (MachineState { y: s.a, ..s }, StepOutcome::KeepRunning),
        Mnemonic::Tsx => (MachineState { x: s.sp, ..s }, StepOutcome::KeepRunning),
        Mnemonic::Txa => (MachineState { a: s.x, ..s }, StepOutcome::KeepRunning),
        Mnemonic::Txs => (MachineState { sp: s.x, ..s }, StepOutcome::KeepRunning),
        Mnemonic::Tya => (MachineState { a: s.y, ..s }, StepOutcome::KeepRunning),
        Mnemonic::Inc => (
            MachineState {
                mem: s.mem.update(operand as int, inc8(s.mem[operand as int])),
                ..s
            },
            StepOutcome::KeepRunning,
        ),
        Mnemonic::Inx => (MachineState { x: inc8(s.x), ..s }, StepOutcome::KeepRunning),
        Mnemonic::Iny => (MachineState { y: inc8(s.y), ..s }, StepOutcome::KeepRunning),
        Mnemonic::Pha => (
            MachineState { mem: s.mem.update(stack_slot(s.sp), s.a), sp: dec8(s.sp), ..s },
            StepOutcome::KeepRunning,
        ),
        Mnemonic::Php => (
            MachineState { mem: s.mem.update(stack_slot(s.sp), s.p), sp: dec8(s.sp), ..s },
            StepOutcome::KeepRunning,
        ),
        Mnemonic::Pla => (
            MachineState { a: s.mem[stack_slot(inc8(s.sp))], sp: inc8(s.sp), ..s },
            StepOutcome::KeepRunning,
        ),
        Mnemonic::Plp => (
            MachineState { p: s.mem[stack_slot(inc8(s.sp))], sp: inc8(s.sp), ..s },
            StepOutcome::KeepRunning,
        ),
        Mnemonic::Rol => (
            MachineState { mem: s.mem.update(operand as int, rol8(s.mem[operand as int])), ..s },
            StepOutcome::KeepRunning,
        ),
        Mnemonic::Ror => (
            MachineState { mem: s.mem.update(operand as int, ror8(s.mem[operand as int])), ..s },
            StepOutcome::KeepRunning,
        ),
    }
}

/// Decode-resolve-execute for an already-fetched opcode byte, with the
/// program counter already past that byte. On an undecodable byte or a
/// resolution failure the state is returned untouched: no partial effect is
/// ever applied.
pub open spec fn spec_decode_exec(s: MachineState, op: u8) -> (MachineState, StepOutcome)
    recommends s.mem.len() == MEMSIZE_6502,
{
    match spec_decode(op) {
        None => (s, StepOutcome::Failed(CpuError::UnknownOpcode(op))),
        Some(ins) => match spec_resolve(ins.addressing_mode, s.pc, s.x, s.y, s.mem) {
            Err(e) => (s, StepOutcome::Failed(e)),
            Ok((operand, next_pc)) => spec_execute(
                MachineState { pc: next_pc, ..s },
                ins.mnem,
                ins.addressing_mode,
                operand,
            ),
        },
    }
}

/// One full engine step from `s`: fetch the byte at the program counter,
/// advance the counter past it, then decode, resolve and execute. On any
/// failure the machine is left with only that advance applied.
pub open spec fn spec_step(s: MachineState) -> (MachineState, StepOutcome)
    recommends s.mem.len() == MEMSIZE_6502,
{
    spec_decode_exec(
        MachineState { pc: wrap16(s.pc + 1), ..s },
        s.mem[s.pc as int],
    )
}

/// The machine state after `k` steps from `s`, provided every one of those
/// steps ended with the machine still running; `None` otherwise.
pub open spec fn running_after(s: MachineState, k: nat) -> Option<MachineState>
    decreases k,
{
    if k == 0 {
        Some(s)
    } else {
        match running_after(s, (k - 1) as nat) {
            None => None,
            Some(t) => if spec_step(t).1 == StepOutcome::KeepRunning {
                Some(spec_step(t).0)
            } else {
                None
            },
        }
    }
}

/// The run from `s0` performs some number of full steps and then one final
/// step that ends with outcome `o` in state `s_end`.
pub open spec fn terminates_with(s0: MachineState, s_end: MachineState, o: StepOutcome) -> bool {
    exists|k: nat|
        match #[trigger] running_after(s0, k) {
            Some(t) => spec_step(t) == (s_end, o),
            None => false,
        }
}

} // verus!
