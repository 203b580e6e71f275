//! The execution engine: the processor value that owns the register file,
//! the memory bus and the instruction table, and the verified
//! fetch-decode-execute loop over them.

use vstd::prelude::*;
use crate::addressing::{spec_resolve, AddressingMode};
use crate::errors::CpuError;
use crate::semantics::{
    operand_byte, spec_decode_exec, spec_step, running_after, terminates_with, StepOutcome,
};
use crate::state::{
    apply_zero_negative, wrap16, Bus6502, MachineState, Regs6502,
    MEMSIZE_6502, MEMSTART_CARTRIDGE_ROM_6502, MEMSTART_STACK_6502, STATUS_FLAG_C,
    STATUS_FLAG_D, STATUS_FLAG_I, STATUS_FLAG_V,
};
use crate::table::{entry, find_from, spec_decode, table, Ins6502, Mnemonic};

verus! {

/// One processor instance: register file, memory bus, and the instruction
/// table built at construction and immutable afterwards.
pub struct Cpu6502 {
    pub regs: Regs6502,
    pub bus: Bus6502,
    pub ins: Vec<Ins6502>,
}

impl View for Cpu6502 {
    type V = MachineState;

    open spec fn view(&self) -> MachineState {
        MachineState {
            pc: self.regs.pc,
            sp: self.regs.sp,
            p: self.regs.p,
            a: self.regs.a,
            x: self.regs.x,
            y: self.regs.y,
            mem: self.bus.vram@,
        }
    }
}

/// The state of a freshly constructed processor: all registers cleared, the
/// program counter at the program load address, memory all zero.
pub open spec fn initial_state() -> MachineState {
    MachineState {
        pc: MEMSTART_CARTRIDGE_ROM_6502,
        sp: 0,
        p: 0,
        a: 0,
        x: 0,
        y: 0,
        mem: Seq::new(MEMSIZE_6502 as nat, |i: int| 0u8),
    }
}

/// The memory bus after a program image `rom` has been copied in at the
/// load address; everything outside the image keeps its old bytes.
pub open spec fn loaded_mem(mem: Seq<u8>, rom: Seq<u8>) -> Seq<u8> {
    Seq::new(
        mem.len(),
        |i: int|
            if MEMSTART_CARTRIDGE_ROM_6502 <= i < MEMSTART_CARTRIDGE_ROM_6502 + rom.len() {
                rom[i - MEMSTART_CARTRIDGE_ROM_6502]
            } else {
                mem[i]
            },
    )
}

/// Appends one descriptor while building the instruction table.
fn push_entry(v: &mut Vec<Ins6502>, opcode: u8, mnem: Mnemonic, mode: AddressingMode)
    ensures
        final(v)@ == old(v)@.push(entry(opcode, mnem, mode)),
{
    v.push(Ins6502 { opcode, mnem, addressing_mode: mode });
}

/// Fills the instruction table once, at engine construction.
#[verifier::rlimit(100)]
fn build_table() -> (ins: Vec<Ins6502>)
    ensures
        ins@ == table(),
{
    let mut ins: Vec<Ins6502> = Vec::new();
    push_entry(&mut ins, 0x00, Mnemonic::Brk, AddressingMode::Implied);
    push_entry(&mut ins, 0xEA, Mnemonic::Nop, AddressingMode::Implied);
    push_entry(&mut ins, 0x18, Mnemonic::Clc, AddressingMode::Implied);
    push_entry(&mut ins, 0xD8, Mnemonic::Cld, AddressingMode::Implied);
    push_entry(&mut ins, 0x58, Mnemonic::Cli, AddressingMode::Implied);
    push_entry(&mut ins, 0xB8, Mnemonic::Clv, AddressingMode::Implied);
    push_entry(&mut ins, 0x09, Mnemonic::Ora, AddressingMode::Immediate);
    push_entry(&mut ins, 0x05, Mnemonic::Ora, AddressingMode::ZeroPage);
    push_entry(&mut ins, 0x15, Mnemonic::Ora, AddressingMode::ZeroPageX);
    push_entry(&mut ins, 0x0D, Mnemonic::Ora, AddressingMode::Absolute);
    push_entry(&mut ins, 0x1D, Mnemonic::Ora, AddressingMode::AbsoluteX);
    push_entry(&mut ins, 0x19, Mnemonic::Ora, AddressingMode::AbsoluteY);
    push_entry(&mut ins, 0x01, Mnemonic::Ora, AddressingMode::IndirectX);
    push_entry(&mut ins, 0x11, Mnemonic::Ora, AddressingMode::IndirectY);
    push_entry(&mut ins, 0xA9, Mnemonic::Lda, AddressingMode::Immediate);
    push_entry(&mut ins, 0xA5, Mnemonic::Lda, AddressingMode::ZeroPage);
    push_entry(&mut ins, 0xB5, Mnemonic::Lda, AddressingMode::ZeroPageX);
    push_entry(&mut ins, 0xAD, Mnemonic::Lda, AddressingMode::Absolute);
    push_entry(&mut ins, 0xBD, Mnemonic::Lda, AddressingMode::AbsoluteX);
    push_entry(&mut ins, 0xB9, Mnemonic::Lda, AddressingMode::AbsoluteY);
    push_entry(&mut ins, 0xA1, Mnemonic::Lda, AddressingMode::IndirectX);
    push_entry(&mut ins, 0xB1, Mnemonic::Lda, AddressingMode::IndirectY);
    push_entry(&mut ins, 0xA2, Mnemonic::Ldx, AddressingMode::Immediate);
    push_entry(&mut ins, 0xA0, Mnemonic::Ldy, AddressingMode::Immediate);
    push_entry(&mut ins, 0x6C, Mnemonic::Jmp, AddressingMode::Indirect);
    push_entry(&mut ins, 0x4C, Mnemonic::Jmp, AddressingMode::Absolute);
    push_entry(&mut ins, 0x84, Mnemonic::Sty, AddressingMode::ZeroPage);
    push_entry(&mut ins, 0x94, Mnemonic::Sty, AddressingMode::ZeroPageX);
    push_entry(&mut ins, 0x8C, Mnemonic::Sty, AddressingMode::Absolute);
    push_entry(&mut ins, 0x85, Mnemonic::Sta, AddressingMode::ZeroPage);
    push_entry(&mut ins, 0x95, Mnemonic::Sta, AddressingMode::ZeroPageX);
    push_entry(&mut ins, 0x8D, Mnemonic::Sta, AddressingMode::Absolute);
    push_entry(&mut ins, 0x9D, Mnemonic::Sta, AddressingMode::AbsoluteX);
    push_entry(&mut ins, 0x99, Mnemonic::Sta, AddressingMode::AbsoluteY);
    push_entry(&mut ins, 0x81, Mnemonic::Sta, AddressingMode::IndirectX);
    push_entry(&mut ins, 0x91, Mnemonic::Sta, AddressingMode::IndirectY);
    push_entry(&mut ins, 0x86, Mnemonic::Stx, AddressingMode::ZeroPage);
    push_entry(&mut ins, 0x96, Mnemonic::Stx, AddressingMode::ZeroPageY);
    push_entry(&mut ins, 0x8E, Mnemonic::Stx, AddressingMode::Absolute);
    push_entry(&mut ins, 0xAA, Mnemonic::Tax, AddressingMode::Implied);
    push_entry(&mut ins, 0xA8, Mnemonic::Tay, AddressingMode::Implied);
    push_entry(&mut ins, 0xBA, Mnemonic::Tsx, AddressingMode::Implied);
    push_entry(&mut ins, 0x8A, Mnemonic::Txa, AddressingMode::Implied);
    push_entry(&mut ins, 0x9A, Mnemonic::Txs, AddressingMode::Implied);
    push_entry(&mut ins, 0x98, Mnemonic::Tya, AddressingMode::Implied);
    push_entry(&mut ins, 0xE6, Mnemonic::Inc, AddressingMode::ZeroPage);
    push_entry(&mut ins, 0xF6, Mnemonic::Inc, AddressingMode::ZeroPageX);
    push_entry(&mut ins, 0xEE, Mnemonic::Inc, AddressingMode::Absolute);
    push_entry(&mut ins, 0xFE, Mnemonic::Inc, AddressingMode::AbsoluteX);
    push_entry(&mut ins, 0xE8, Mnemonic::Inx, AddressingMode::Implied);
    push_entry(&mut ins, 0xC8, Mnemonic::Iny, AddressingMode::Implied);
    push_entry(&mut ins, 0x48, Mnemonic::Pha, AddressingMode::Implied);
    push_entry(&mut ins, 0x08, Mnemonic::Php, AddressingMode::Implied);
    push_entry(&mut ins, 0x68, Mnemonic::Pla, AddressingMode::Implied);
    push_entry(&mut ins, 0x28, Mnemonic::Plp, AddressingMode::Implied);
    push_entry(&mut ins, 0x26, Mnemonic::Rol, AddressingMode::ZeroPage);
    push_entry(&mut ins, 0x36, Mnemonic::Rol, AddressingMode::ZeroPageX);
    push_entry(&mut ins, 0x2E, Mnemonic::Rol, AddressingMode::Absolute);
    push_entry(&mut ins, 0x3E, Mnemonic::Rol, AddressingMode::AbsoluteX);
    push_entry(&mut ins, 0x66, Mnemonic::Ror, AddressingMode::ZeroPage);
    push_entry(&mut ins, 0x76, Mnemonic::Ror, AddressingMode::ZeroPageX);
    push_entry(&mut ins, 0x6E, Mnemonic::Ror, AddressingMode::Absolute);
    push_entry(&mut ins, 0x7E, Mnemonic::Ror, AddressingMode::AbsoluteX);
    proof {
        assert(ins@ == table());
    }
    ins
}

/// A 16-bit addition that wraps modulo 2^16, for program-counter movement.
fn wrapped_add16(a: u16, b: u16) -> (r: u16)
    ensures
        r == wrap16(a + b),
{
    (((a as u32) + (b as u32)) % 0x10000) as u16
}

impl Cpu6502 {
    /// A well-formed processor: the bus spans the whole address space and
    /// the instruction table holds exactly the fixed table contents.
    pub open spec fn wf(self) -> bool {
        &&& self.bus.vram@.len() == MEMSIZE_6502
        &&& self.ins@ == table()
    }

    /// Builds a processor in its documented initial state: registers
    /// cleared, program counter at the load address, memory zeroed, and the
    /// instruction table filled once.
    pub fn new() -> (cpu: Cpu6502)
        ensures
            cpu.wf(),
            cpu@ == initial_state(),
    {
        let mut vram: Vec<u8> = Vec::new();
        let mut i: usize = 0;
        while i < MEMSIZE_6502
            invariant
                i == vram@.len(),
                i <= MEMSIZE_6502,
                forall|j: int| 0 <= j < i ==> vram@[j] == 0u8,
            decreases MEMSIZE_6502 - i,
        {
            vram.push(0u8);
            i += 1;
        }
        proof {
            assert(vram@ =~= Seq::new(MEMSIZE_6502 as nat, |j: int| 0u8));
        }
        let ins = build_table();
        Cpu6502 {
            regs: Regs6502 {
                pc: MEMSTART_CARTRIDGE_ROM_6502,
                sp: 0,
                p: 0,
                a: 0,
                x: 0,
                y: 0,
            },
            bus: Bus6502 { vram },
            ins,
        }
    }

    /// Reads the byte at an address; the bus covers every 16-bit address.
    fn peek(&self, addr: u16) -> (b: u8)
        requires
            self.wf(),
        ensures
            b == self@.mem[addr as int],
    {
        self.bus.vram[addr as usize]
    }

    /// Fetches the opcode byte at the program counter and moves the counter
    /// one byte forward, wrapping at the top of the address space.
    pub fn instruction_fetch(&mut self) -> (op: u8)
        requires
            old(self).wf(),
        ensures
            final(self).wf(),
            op == old(self)@.mem[old(self)@.pc as int],
            final(self)@ == (MachineState { pc: wrap16(old(self)@.pc + 1), ..old(self)@ }),
    {
        let op = self.bus.vram[self.regs.pc as usize];
        self.regs.pc = wrapped_add16(self.regs.pc, 1);
        op
    }

    /// Looks an opcode byte up in the instruction table: the descriptor
    /// registered for it, or `UnknownOpcode` when the byte has no entry.
    pub fn lookup(&self, opcode: u8) -> (r: Result<Ins6502, CpuError>)
        requires
            self.wf(),
        ensures
            match spec_decode(opcode) {
                Some(ins) => r == Ok::<Ins6502, CpuError>(ins),
                None => r == Err::<Ins6502, CpuError>(CpuError::UnknownOpcode(opcode)),
            },
    {
        let mut i: usize = 0;
        while i < self.ins.len()
            invariant
                self.wf(),
                i <= self.ins@.len(),
                spec_decode(opcode) == find_from(table(), opcode, i as int),
            decreases self.ins@.len() - i,
        {
            if self.ins[i].opcode == opcode {
                return Ok(self.ins[i]);
            }
            i += 1;
        }
        Err(CpuError::UnknownOpcode(opcode))
    }

    /// Resolves the operand for one addressing mode: the immediate value or
    /// the effective address, with the program counter moved past the
    /// operand bytes. On an out-of-range address nothing at all changes.
    pub fn get_operand(&mut self, mode: AddressingMode) -> (r: Result<u16, CpuError>)
        requires
            old(self).wf(),
        ensures
            final(self).wf(),
            ({
                let res = spec_resolve(mode, old(self)@.pc, old(self)@.x, old(self)@.y, old(self)@.mem);
                match res {
                    Ok(ok) => r == Ok::<u16, CpuError>(ok.0)
                        && final(self)@ == (MachineState { pc: ok.1, ..old(self)@ }),
                    Err(e) => r == Err::<u16, CpuError>(e) && final(self)@ == old(self)@,
                }
            }),
    {
        match mode {
            AddressingMode::Implied => Ok(0),
            AddressingMode::Immediate => {
                let b = self.peek(self.regs.pc);
                self.regs.pc = wrapped_add16(self.regs.pc, 1);
                Ok(b as u16)
            },
            AddressingMode::ZeroPage => {
                let b = self.peek(self.regs.pc);
                self.regs.pc = wrapped_add16(self.regs.pc, 1);
                Ok(b as u16)
            },
            AddressingMode::ZeroPageX => {
                let b = self.peek(self.regs.pc);
                let zp: u16 = ((b as u16) + (self.regs.x as u16)) % 0x100;
                self.regs.pc = wrapped_add16(self.regs.pc, 1);
                Ok(zp)
            },
            AddressingMode::ZeroPageY => {
                let b = self.peek(self.regs.pc);
                let zp: u16 = ((b as u16) + (self.regs.y as u16)) % 0x100;
                self.regs.pc = wrapped_add16(self.regs.pc, 1);
                Ok(zp)
            },
            AddressingMode::Absolute => {
                let hi = self.peek(self.regs.pc);
                let lo = self.peek(wrapped_add16(self.regs.pc, 1));
                self.regs.pc = wrapped_add16(self.regs.pc, 2);
                Ok(((hi as u16) * 0x100) + (lo as u16))
            },
            AddressingMode::AbsoluteX => {
                let hi = self.peek(self.regs.pc);
                let lo = self.peek(wrapped_add16(self.regs.pc, 1));
                let sum: u32 = (hi as u32) * 0x100 + (lo as u32) + (self.regs.x as u32);
                if sum > 0xFFFF {
                    Err(CpuError::AddressOutOfRange(sum))
                } else {
                    self.regs.pc = wrapped_add16(self.regs.pc, 2);
                    Ok(sum as u16)
                }
            },
            AddressingMode::AbsoluteY => {
                let hi = self.peek(self.regs.pc);
                let lo = self.peek(wrapped_add16(self.regs.pc, 1));
                let sum: u32 = (hi as u32) * 0x100 + (lo as u32) + (self.regs.y as u32);
                if sum > 0xFFFF {
                    Err(CpuError::AddressOutOfRange(sum))
                } else {
                    self.regs.pc = wrapped_add16(self.regs.pc, 2);
                    Ok(sum as u16)
                }
            },
            AddressingMode::Indirect => {
                let hi = self.peek(self.regs.pc);
                let lo = self.peek(wrapped_add16(self.regs.pc, 1));
                let ptr: u32 = (hi as u32) * 0x100 + (lo as u32);
                if ptr + 1 > 0xFFFF {
                    Err(CpuError::AddressOutOfRange(ptr + 1))
                } else {
                    let plo = self.peek(ptr as u16);
                    let phi = self.peek((ptr + 1) as u16);
                    self.regs.pc = wrapped_add16(self.regs.pc, 2);
                    Ok((plo as u16) + (phi as u16) * 0x100)
                }
            },
            AddressingMode::IndirectX => {
                let b = self.peek(self.regs.pc);
                let zp: u16 = ((b as u16) + (self.regs.x as u16)) % 0x100;
                let plo = self.peek(zp);
                let phi = self.peek(zp + 1);
                self.regs.pc = wrapped_add16(self.regs.pc, 1);
                Ok((plo as u16) + (phi as u16) * 0x100)
            },
            AddressingMode::IndirectY => {
                let b = self.peek(self.regs.pc);
                let plo = self.peek(b as u16);
                let phi = self.peek((b as u16) + 1);
                let sum: u32 = (plo as u32) + (phi as u32) * 0x100 + (self.regs.y as u32);
                if sum > 0xFFFF {
                    Err(CpuError::AddressOutOfRange(sum))
                } else {
                    self.regs.pc = wrapped_add16(self.regs.pc, 1);
                    Ok(sum as u16)
                }
            },
        }
    }

    /// The byte an instruction works on: the operand itself in immediate
    /// mode, the byte at the resolved address otherwise.
    fn read_operand_byte(&self, mode: AddressingMode, operand: u16) -> (b: u8)
        requires
            self.wf(),
        ensures
            b == operand_byte(self@, mode, operand),
    {
        if mode == AddressingMode::Immediate {
            operand as u8
        } else {
            self.peek(operand)
        }
    }

    /// Writes one byte through the memory bus.
    fn poke(&mut self, addr: u16, value: u8)
        requires
            old(self).wf(),
        ensures
            final(self).wf(),
            final(self)@ == (MachineState { mem: old(self)@.mem.update(addr as int, value), ..old(self)@ }),
    {
        self.bus.vram[addr as usize] = value;
    }

    /// Decodes an already-fetched opcode byte and carries its instruction
    /// out: resolve the operand, apply the mnemonic's effect, update flags.
    /// Returns 1 while the machine keeps running and 0 on the halt
    /// instruction; on either error the machine is exactly as it was when
    /// the call began.
    pub fn instruction_execute(&mut self, opcode: u8) -> (r: Result<i32, CpuError>)
        requires
            old(self).wf(),
        ensures
            final(self).wf(),
            final(self)@ == spec_decode_exec(old(self)@, opcode).0,
            outcome_matches(r, spec_decode_exec(old(self)@, opcode).1),
    {
        let ins = match self.lookup(opcode) {
            Ok(ins) => ins,
            Err(e) => { return Err(e); },
        };
        let operand = match self.get_operand(ins.addressing_mode) {
            Ok(operand) => operand,
            Err(e) => { return Err(e); },
        };
        match ins.mnem {
            Mnemonic::Brk => Ok(0),
            Mnemonic::Nop => Ok(1),
            Mnemonic::Clc => {
                self.regs.p = self.regs.p & !STATUS_FLAG_C;
                Ok(1)
            },
            Mnemonic::Cld => {
                self.regs.p = self.regs.p & !STATUS_FLAG_D;
                Ok(1)
            },
            Mnemonic::Cli => {
                self.regs.p = self.regs.p & !STATUS_FLAG_I;
                Ok(1)
            },
            Mnemonic::Clv => {
                self.regs.p = self.regs.p & !STATUS_FLAG_V;
                Ok(1)
            },
            Mnemonic::Ora => {
                let v = self.regs.a | (operand as u8);
                self.regs.a = v;
                self.regs.p = apply_zero_negative(self.regs.p, v);
                Ok(1)
            },
            Mnemonic::Lda => {
                let v = self.read_operand_byte(ins.addressing_mode, operand);
                self.regs.a = v;
                self.regs.p = apply_zero_negative(self.regs.p, v);
                Ok(1)
            },
            Mnemonic::Ldx => {
                let v = self.read_operand_byte(ins.addressing_mode, operand);
                self.regs.x = v;
                self.regs.p = apply_zero_negative(self.regs.p, v);
                Ok(1)
            },
            Mnemonic::Ldy => {
                let v = self.read_operand_byte(ins.addressing_mode, operand);
                self.regs.y = v;
                self.regs.p = apply_zero_negative(self.regs.p, v);
                Ok(1)
            },
            Mnemonic::Jmp => {
                self.regs.pc = operand;
                Ok(1)
            },
            Mnemonic::Sta => {
                let v = self.regs.a;
                self.poke(operand, v);
                Ok(1)
            },
            Mnemonic::Stx => {
                let v = self.regs.x;
                self.poke(operand, v);
                Ok(1)
            },
            Mnemonic::Sty => {
                let v = self.regs.y;
                self.poke(operand, v);
                Ok(1)
            },
            Mnemonic::Tax => {
                self.regs.x = self.regs.a;
                Ok(1)
            },
            Mnemonic::Tay => {
                self.regs.y = self.regs.a;
                Ok(1)
            },
            Mnemonic::Tsx => {
                self.regs.x = self.regs.sp;
                Ok(1)
            },
            Mnemonic::Txa => {
                self.regs.a = self.regs.x;
                Ok(1)
            },
            Mnemonic::Txs => {
                self.regs.sp = self.regs.x;
                Ok(1)
            },
            Mnemonic::Tya => {
                self.regs.a = self.regs.y;
                Ok(1)
            },
            Mnemonic::Inc => {
                let v = self.peek(operand);
                let v2: u8 = if v == 0xFF { 0 } else { v + 1 };
                self.poke(operand, v2);
                Ok(1)
            },
            Mnemonic::Inx => {
                self.regs.x = if self.regs.x == 0xFF { 0 } else { self.regs.x + 1 };
                Ok(1)
            },
            Mnemonic::Iny => {
                self.regs.y = if self.regs.y == 0xFF { 0 } else { self.regs.y + 1 };
                Ok(1)
            },
            Mnemonic::Pha => {
                let v = self.regs.a;
                self.poke(MEMSTART_STACK_6502 - (self.regs.sp as u16), v);
                self.regs.sp = if self.regs.sp == 0 { 0xFF } else { self.regs.sp - 1 };
                Ok(1)
            },
            Mnemonic::Php => {
                let v = self.regs.p;
                self.poke(MEMSTART_STACK_6502 - (self.regs.sp as u16), v);
                self.regs.sp = if self.regs.sp == 0 { 0xFF } else { self.regs.sp - 1 };
                Ok(1)
            },
            Mnemonic::Pla => {
                self.regs.sp = if self.regs.sp == 0xFF { 0 } else { self.regs.sp + 1 };
                self.regs.a = self.peek(MEMSTART_STACK_6502 - (self.regs.sp as u16));
                Ok(1)
            },
            Mnemonic::Plp => {
                self.regs.sp = if self.regs.sp == 0xFF { 0 } else { self.regs.sp + 1 };
                self.regs.p = self.peek(MEMSTART_STACK_6502 - (self.regs.sp as u16));
                Ok(1)
            },
            Mnemonic::Rol => {
                let v = self.peek(operand);
                self.poke(operand, (v << 1) | (v >> 7));
                Ok(1)
            },
            Mnemonic::Ror => {
                let v = self.peek(operand);
                self.poke(operand, (v >> 1) | (v << 7));
                Ok(1)
            },
        }
    }

    /// Copies a program image onto the bus at the load address, or fails
    /// with `LoadOverflow`, leaving everything untouched, when the image
    /// would run past the end of the address space.
    pub fn load(&mut self, rom_buff: &Vec<u8>) -> (r: Result<(), CpuError>)
        requires
            old(self).wf(),
        ensures
            final(self).wf(),
            rom_buff@.len() <= MEMSIZE_6502 - MEMSTART_CARTRIDGE_ROM_6502 ==> r == Ok::<(), CpuError>(())
                && final(self)@ == (MachineState {
                    mem: loaded_mem(old(self)@.mem, rom_buff@),
                    ..old(self)@
                }),
            rom_buff@.len() > MEMSIZE_6502 - MEMSTART_CARTRIDGE_ROM_6502 ==> r == Err::<(), CpuError>(
                CpuError::LoadOverflow(rom_buff@.len() as usize),
            ) && final(self)@ == old(self)@,
    {
        if rom_buff.len() > MEMSIZE_6502 - (MEMSTART_CARTRIDGE_ROM_6502 as usize) {
            return Err(CpuError::LoadOverflow(rom_buff.len()));
        }
        let base: usize = MEMSTART_CARTRIDGE_ROM_6502 as usize;
        let mut i: usize = 0;
        while i < rom_buff.len()
            invariant
                self.wf(),
                i <= rom_buff@.len(),
                rom_buff@.len() <= MEMSIZE_6502 - MEMSTART_CARTRIDGE_ROM_6502,
                base == MEMSTART_CARTRIDGE_ROM_6502,
                self.regs == old(self).regs,
                forall|j: int| 0 <= j < i ==> self.bus.vram@[base + j] == rom_buff@[j],
                forall|j: int|
                    0 <= j < MEMSIZE_6502 && !(base <= j < base + i)
                        ==> self.bus.vram@[j] == old(self).bus.vram@[j],
            decreases rom_buff@.len() - i,
        {
            self.bus.vram[base + i] = rom_buff[i];
            i += 1;
        }
        proof {
            assert(self.bus.vram@ =~= loaded_mem(old(self)@.mem, rom_buff@));
        }
        Ok(())
    }

    /// Drives the engine from the current program counter until the halt
    /// instruction or a fatal error: the final state is what the reference
    /// semantics reaches from the starting state, step by step. A run that
    /// neither halts nor fails within 2^64 - 1 steps — more than any
    /// physical machine executes in centuries — is cut off and reported as
    /// the state reached after exactly that many steps.
    #[verifier::loop_isolation(false)]
    pub fn run(&mut self) -> (r: Result<(), CpuError>)
        requires
            old(self).wf(),
        ensures
            final(self).wf(),
            r is Ok ==> terminates_with(old(self)@, final(self)@, StepOutcome::Halted)
                || running_after(old(self)@, u64::MAX as nat) == Some(final(self)@),
            r matches Err(e) ==> terminates_with(old(self)@, final(self)@, StepOutcome::Failed(e)),
    {
        let mut steps: u64 = 0;
        loop
            invariant
                self.wf(),
                running_after(old(self)@, steps as nat) == Some(self@),
            decreases u64::MAX - steps,
        {
            if steps == u64::MAX {
                return Ok(());
            }
            let ghost pre = self@;
            let op = self.instruction_fetch();
            let r = self.instruction_execute(op);
            proof {
                assert(spec_step(pre) == (self@, spec_decode_exec(
                    MachineState { pc: wrap16(pre.pc + 1), ..pre },
                    pre.mem[pre.pc as int],
                ).1));
            }
            match r {
                Ok(status) => {
                    if status == 0 {
                        proof {
                            assert(spec_step(pre).1 == StepOutcome::Halted);
                            assert(match running_after(old(self)@, steps as nat) {
                                Some(t) => spec_step(t) == (self@, StepOutcome::Halted),
                                None => false,
                            });
                        }
                        return Ok(());
                    }
                    proof {
                        assert(spec_step(pre).1 == StepOutcome::KeepRunning);
                        assert(running_after(old(self)@, steps as nat + 1) == Some(self@));
                    }
                    steps = steps + 1;
                },
                Err(e) => {
                    proof {
                        assert(spec_step(pre).1 == StepOutcome::Failed(e));
                        assert(match running_after(old(self)@, steps as nat) {
                            Some(t) => spec_step(t) == (self@, StepOutcome::Failed(e)),
                            None => false,
                        });
                    }
                    return Err(e);
                },
            }
        }
    }
}

/// How the engine's step result encodes an outcome of the reference
/// semantics: 1 while running, 0 on halt, the error otherwise.
pub open spec fn outcome_matches(r: Result<i32, CpuError>, o: StepOutcome) -> bool {
    match o {
        StepOutcome::KeepRunning => r == Ok::<i32, CpuError>(1),
        StepOutcome::Halted => r == Ok::<i32, CpuError>(0),
        StepOutcome::Failed(e) => r == Err::<i32, CpuError>(e),
    }
}

} // verus!
