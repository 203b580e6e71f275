//! Laws of the execution semantics, each proved once and for all inputs:
//! what immediate loads do to registers and flags, how indexed addressing
//! behaves, that push/pull and store/load round-trip, and that an
//! undecodable byte leaves the machine untouched but for the fetch.

use vstd::prelude::*;
use crate::addressing::{spec_resolve, stored_word, AddressingMode};
use crate::errors::CpuError;
use crate::semantics::{running_after, spec_execute, spec_step, terminates_with, StepOutcome};
use crate::state::{
    dec8, inc8, stack_slot, with_zero_negative, wrap16, MachineState, MEMSIZE_6502,
    STATUS_FLAG_N, STATUS_FLAG_Z,
};
use crate::table::{spec_decode, Mnemonic};

verus! {

/// The register an indexed load writes.
pub open spec fn load_target(s: MachineState, mnem: Mnemonic) -> u8 {
    if mnem == Mnemonic::Lda {
        s.a
    } else if mnem == Mnemonic::Ldx {
        s.x
    } else {
        s.y
    }
}

/// The register a store reads.
pub open spec fn store_source(s: MachineState, mnem: Mnemonic) -> u8 {
    if mnem == Mnemonic::Sta {
        s.a
    } else if mnem == Mnemonic::Stx {
        s.x
    } else {
        s.y
    }
}

/// After recomputing Zero and Negative for a value, the Zero bit is set
/// exactly when the value is 0 and the Negative bit exactly when the
/// value's bit 7 is 1.
pub proof fn lemma_zero_negative_bits(p: u8, v: u8)
    ensures
        (with_zero_negative(p, v) & STATUS_FLAG_Z == STATUS_FLAG_Z) <==> (v == 0),
        (with_zero_negative(p, v) & STATUS_FLAG_N == STATUS_FLAG_N) <==> (v & STATUS_FLAG_N
            == STATUS_FLAG_N),
{
    let pz = if v == 0 {
        p | STATUS_FLAG_Z
    } else {
        p & !STATUS_FLAG_Z
    };
    if v & STATUS_FLAG_N == STATUS_FLAG_N {
        assert((pz | 0x80u8) & 0x80u8 == 0x80u8) by (bit_vector);
        assert((pz | 0x80u8) & 0x02u8 == pz & 0x02u8) by (bit_vector);
    } else {
        assert((pz & !0x80u8) & 0x80u8 != 0x80u8) by (bit_vector);
        assert((pz & !0x80u8) & 0x02u8 == pz & 0x02u8) by (bit_vector);
    }
    if v == 0 {
        assert((p | 0x02u8) & 0x02u8 == 0x02u8) by (bit_vector);
    } else {
        assert((p & !0x02u8) & 0x02u8 != 0x02u8) by (bit_vector);
    }
}

/// An immediate-mode load puts the immediate byte itself into the target
/// register, and the Zero and Negative flags afterwards reflect exactly
/// that byte's zero-ness and bit 7.
pub proof fn lemma_immediate_load(s: MachineState, mnem: Mnemonic)
    requires
        s.mem.len() == MEMSIZE_6502,
        spec_decode(s.mem[s.pc as int]) == Some(crate::table::entry(
            s.mem[s.pc as int],
            mnem,
            AddressingMode::Immediate,
        )),
        mnem == Mnemonic::Lda || mnem == Mnemonic::Ldx || mnem == Mnemonic::Ldy,
    ensures
        ({
            let byte = s.mem[wrap16(s.pc + 1) as int];
            let (s2, o) = spec_step(s);
            &&& o == StepOutcome::KeepRunning
            &&& load_target(s2, mnem) == byte
            &&& ((s2.p & STATUS_FLAG_Z == STATUS_FLAG_Z) <==> (byte == 0))
            &&& ((s2.p & STATUS_FLAG_N == STATUS_FLAG_N) <==> (byte & STATUS_FLAG_N
                == STATUS_FLAG_N))
        }),
{
    let byte = s.mem[wrap16(s.pc + 1) as int];
    lemma_zero_negative_bits(s.p, byte);
    assert(((byte as u16) as u8) == byte);
}

/// A zero-page indexed resolution lands at (base + index) mod 256: it
/// stays inside page 0 and never spills into page 1.
pub proof fn lemma_zero_page_indexed(pc: u16, x: u8, y: u8, mem: Seq<u8>)
    requires
        mem.len() == MEMSIZE_6502,
    ensures
        ({
            let r = spec_resolve(AddressingMode::ZeroPageX, pc, x, y, mem);
            r matches Ok(v) && v.0 == (mem[pc as int] + x) % 256 && v.0 < 0x100 && v.1 == wrap16(
                pc + 1,
            )
        }),
        ({
            let r = spec_resolve(AddressingMode::ZeroPageY, pc, x, y, mem);
            r matches Ok(v) && v.0 == (mem[pc as int] + y) % 256 && v.0 < 0x100 && v.1 == wrap16(
                pc + 1,
            )
        }),
{
}

/// An absolute indexed resolution performs the full 16-bit addition: a
/// low-byte overflow carries into the high byte, and a sum beyond the
/// address space is reported as out of range, never silently wrapped.
pub proof fn lemma_absolute_indexed_carry(pc: u16, x: u8, y: u8, mem: Seq<u8>)
    requires
        mem.len() == MEMSIZE_6502,
    ensures
        ({
            let base = mem[pc as int] * 0x100 + mem[wrap16(pc + 1) as int];
            &&& base + x <= 0xFFFF ==> spec_resolve(AddressingMode::AbsoluteX, pc, x, y, mem)
                == Ok::<(u16, u16), CpuError>(((base + x) as u16, wrap16(pc + 2)))
            &&& base + x > 0xFFFF ==> spec_resolve(AddressingMode::AbsoluteX, pc, x, y, mem)
                == Err::<(u16, u16), CpuError>(CpuError::AddressOutOfRange((base + x) as u32))
            &&& base + y <= 0xFFFF ==> spec_resolve(AddressingMode::AbsoluteY, pc, x, y, mem)
                == Ok::<(u16, u16), CpuError>(((base + y) as u16, wrap16(pc + 2)))
            &&& base + y > 0xFFFF ==> spec_resolve(AddressingMode::AbsoluteY, pc, x, y, mem)
                == Err::<(u16, u16), CpuError>(CpuError::AddressOutOfRange((base + y) as u32))
        }),
{
}

/// Pre-indexing against post-indexing: IndirectX adds the index register
/// to the zero-page pointer before dereferencing it, while IndirectY
/// dereferences the zero-page pointer first and adds the index register to
/// the address read out of memory.
pub proof fn lemma_indirect_index_order(pc: u16, x: u8, y: u8, mem: Seq<u8>)
    requires
        mem.len() == MEMSIZE_6502,
    ensures
        ({
            let zp = (mem[pc as int] + x) % 256;
            spec_resolve(AddressingMode::IndirectX, pc, x, y, mem) == Ok::<(u16, u16), CpuError>(
                (stored_word(mem, zp) as u16, wrap16(pc + 1)),
            )
        }),
        ({
            let base = stored_word(mem, mem[pc as int] as int);
            &&& base + y <= 0xFFFF ==> spec_resolve(AddressingMode::IndirectY, pc, x, y, mem)
                == Ok::<(u16, u16), CpuError>(((base + y) as u16, wrap16(pc + 1)))
            &&& base + y > 0xFFFF ==> spec_resolve(AddressingMode::IndirectY, pc, x, y, mem)
                == Err::<(u16, u16), CpuError>(CpuError::AddressOutOfRange((base + y) as u32))
        }),
{
}

/// Pushing a register and immediately pulling the same register restores
/// its value and leaves the stack pointer unchanged: the pair is a net
/// identity on the whole register file, for the accumulator as for the
/// status register.
pub proof fn lemma_push_pull_round_trip(s: MachineState)
    requires
        s.mem.len() == MEMSIZE_6502,
    ensures
        ({
            let (s1, o1) = spec_execute(s, Mnemonic::Pha, AddressingMode::Implied, 0);
            let (s2, o2) = spec_execute(s1, Mnemonic::Pla, AddressingMode::Implied, 0);
            &&& o1 == StepOutcome::KeepRunning
            &&& o2 == StepOutcome::KeepRunning
            &&& s2.a == s.a
            &&& s2.sp == s.sp
            &&& s2.pc == s.pc
            &&& s2.p == s.p
            &&& s2.x == s.x
            &&& s2.y == s.y
        }),
        ({
            let (s1, o1) = spec_execute(s, Mnemonic::Php, AddressingMode::Implied, 0);
            let (s2, o2) = spec_execute(s1, Mnemonic::Plp, AddressingMode::Implied, 0);
            &&& o1 == StepOutcome::KeepRunning
            &&& o2 == StepOutcome::KeepRunning
            &&& s2.p == s.p
            &&& s2.sp == s.sp
            &&& s2.pc == s.pc
            &&& s2.a == s.a
            &&& s2.x == s.x
            &&& s2.y == s.y
        }),
{
    assert(inc8(dec8(s.sp)) == s.sp);
    assert(0 <= stack_slot(s.sp) < s.mem.len());
}

/// A store followed by a load resolving to the same address hands back
/// exactly the stored register value, whichever store/load register pair
/// and addressing modes are involved.
pub proof fn lemma_store_then_load(
    s: MachineState,
    store: Mnemonic,
    load: Mnemonic,
    smode: AddressingMode,
    lmode: AddressingMode,
    addr: u16,
)
    requires
        s.mem.len() == MEMSIZE_6502,
        store == Mnemonic::Sta || store == Mnemonic::Stx || store == Mnemonic::Sty,
        load == Mnemonic::Lda || load == Mnemonic::Ldx || load == Mnemonic::Ldy,
        lmode != AddressingMode::Immediate,
    ensures
        ({
            let (s1, o1) = spec_execute(s, store, smode, addr);
            let (s2, o2) = spec_execute(s1, load, lmode, addr);
            &&& o1 == StepOutcome::KeepRunning
            &&& o2 == StepOutcome::KeepRunning
            &&& load_target(s2, load) == store_source(s, store)
        }),
{
}

/// While a run is still alive after `k` steps, every step it took so far,
/// and every prefix of it, ended with the machine still running.
proof fn lemma_running_prefix(s0: MachineState, j: nat, k: nat)
    requires
        j <= k,
        running_after(s0, k) is Some,
    ensures
        running_after(s0, j) is Some,
        j < k ==> (running_after(s0, j) matches Some(t) && spec_step(t).1
            == StepOutcome::KeepRunning),
    decreases k,
{
    if j < k {
        lemma_running_prefix(s0, j, (k - 1) as nat);
    }
}

/// The step semantics is a function of the state, so a run from one
/// starting state can end in only one way: the terminal state and outcome
/// that `terminates_with` speaks of are unique.
pub proof fn lemma_run_outcome_unique(
    s0: MachineState,
    a: MachineState,
    b: MachineState,
    oa: StepOutcome,
    ob: StepOutcome,
)
    requires
        terminates_with(s0, a, oa),
        terminates_with(s0, b, ob),
        oa != StepOutcome::KeepRunning,
        ob != StepOutcome::KeepRunning,
    ensures
        a == b,
        oa == ob,
{
    let ka = choose|k: nat|
        match #[trigger] running_after(s0, k) {
            Some(t) => spec_step(t) == (a, oa),
            None => false,
        };
    let kb = choose|k: nat|
        match #[trigger] running_after(s0, k) {
            Some(t) => spec_step(t) == (b, ob),
            None => false,
        };
    if ka < kb {
        lemma_running_prefix(s0, ka, kb);
    }
    if kb < ka {
        lemma_running_prefix(s0, kb, ka);
    }
}

/// A byte absent from the instruction table fails the step with
/// `UnknownOpcode`, and the machine stays exactly as it was before the
/// fetch except that the program counter rests one past the undecodable
/// byte: no partial effect is ever applied.
pub proof fn lemma_unknown_opcode_atomic(s: MachineState)
    requires
        s.mem.len() == MEMSIZE_6502,
        spec_decode(s.mem[s.pc as int]) is None,
    ensures
        spec_step(s) == ((MachineState { pc: wrap16(s.pc + 1), ..s }), StepOutcome::Failed(
            CpuError::UnknownOpcode(s.mem[s.pc as int]),
        )),
{
}

} // verus!
