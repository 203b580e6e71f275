//! The processor's programmer-visible state: the register file, the memory
//! bus, and the ghost machine state that the contracts speak of.

use vstd::prelude::*;

verus! {

/// Number of addressable bytes on the memory bus: addresses 0 through 0xFFFF.
pub const MEMSIZE_6502: usize = 0x10000;

/// Address at which a program image is installed and at which a fresh
/// processor starts executing.
pub const MEMSTART_CARTRIDGE_ROM_6502: u16 = 0x8000;

/// Top of the stack page: a push writes at this address minus the stack
/// pointer, and the stack grows downward from there.
pub const MEMSTART_STACK_6502: u16 = 0x01FF;

// 7  bit  0
// ---- ----
// NV1B DIZC
// |||| ||||
// |||| |||+- Carry
// |||| ||+-- Zero
// |||| |+--- Interrupt Disable
// |||| +---- Decimal
// |||+------ Break
// ||+------- Unused, pushed as 1
// |+-------- Overflow
// +--------- Negative

pub const STATUS_FLAG_N: u8 = 0x80;
pub const STATUS_FLAG_V: u8 = 0x40;
pub const STATUS_FLAG_1: u8 = 0x20;
pub const STATUS_FLAG_B: u8 = 0x10;
pub const STATUS_FLAG_D: u8 = 0x08;
pub const STATUS_FLAG_I: u8 = 0x04;
pub const STATUS_FLAG_Z: u8 = 0x02;
pub const STATUS_FLAG_C: u8 = 0x01;

/// The register file: program counter, stack pointer, status register,
/// accumulator, and the two index registers.
pub struct Regs6502 {
    pub pc: u16,
    pub sp: u8,
    pub p: u8,
    pub a: u8,
    pub x: u8,
    pub y: u8,
}

/// The memory bus: one contiguous byte array covering the whole address
/// space. Well-formed buses hold exactly `MEMSIZE_6502` bytes.
pub struct Bus6502 {
    pub vram: Vec<u8>,
}

/// The mathematical machine state: every register as a plain integer and the
/// memory bus as a sequence of bytes. Contracts relate the processor before
/// and after a call through values of this type.
pub struct MachineState {
    pub pc: u16,
    pub sp: u8,
    pub p: u8,
    pub a: u8,
    pub x: u8,
    pub y: u8,
    pub mem: Seq<u8>,
}

/// A 16-bit value reduced modulo 2^16; program-counter arithmetic wraps.
pub open spec fn wrap16(v: int) -> u16
    recommends v >= 0,
{
    (v % 0x10000) as u16
}

/// An 8-bit value reduced modulo 2^8; register arithmetic wraps.
pub open spec fn wrap8(v: int) -> u8
    recommends v >= 0,
{
    (v % 0x100) as u8
}

/// The successor of an 8-bit register value, wrapping at 0xFF.
pub open spec fn inc8(v: u8) -> u8 {
    if v == 0xFF { 0 } else { (v + 1) as u8 }
}

/// The predecessor of an 8-bit register value, wrapping at 0.
pub open spec fn dec8(v: u8) -> u8 {
    if v == 0 { 0xFF } else { (v - 1) as u8 }
}

/// Whether a freshly computed register value turns the Zero flag on.
pub open spec fn zero_flag_of(v: u8) -> bool {
    v == 0
}

/// Whether a freshly computed register value turns the Negative flag on:
/// bit 7 of the value.
pub open spec fn negative_flag_of(v: u8) -> bool {
    v & STATUS_FLAG_N == STATUS_FLAG_N
}

/// The status register after recomputing Zero and Negative from scratch for
/// the value `v`; every other bit keeps its old setting.
pub open spec fn with_zero_negative(p: u8, v: u8) -> u8 {
    let pz = if zero_flag_of(v) { p | STATUS_FLAG_Z } else { p & !STATUS_FLAG_Z };
    if negative_flag_of(v) { pz | STATUS_FLAG_N } else { pz & !STATUS_FLAG_N }
}

/// The address on the memory bus where the stack slot for stack pointer
/// value `sp` lives; always inside the stack page.
pub open spec fn stack_slot(sp: u8) -> int {
    MEMSTART_STACK_6502 - sp
}

/// Zero/Negative computation as a pure function of the already-known
/// register value, for the execute step to apply directly.
pub fn compute_zero_and_negative(value: u8) -> (r: (bool, bool))
    ensures
        r.0 == zero_flag_of(value),
        r.1 == negative_flag_of(value),
{
    (value == 0, value & STATUS_FLAG_N == STATUS_FLAG_N)
}

/// The status register with Zero and Negative recomputed for `value`.
pub fn apply_zero_negative(p: u8, value: u8) -> (r: u8)
    ensures
        r == with_zero_negative(p, value),
{
    let (zero, negative) = compute_zero_and_negative(value);
    let pz: u8 = if zero { p | STATUS_FLAG_Z } else { p & !STATUS_FLAG_Z };
    if negative { pz | STATUS_FLAG_N } else { pz & !STATUS_FLAG_N }
}

} // verus!
