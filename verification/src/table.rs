//! The instruction table: the fixed, immutable mapping from opcode byte to
//! (mnemonic, addressing mode), and decoding as a search through it.

use vstd::prelude::*;
use crate::addressing::AddressingMode;

verus! {

/// The named operations the core implements, independent of addressing
/// mode; a closed enumeration matched exhaustively by the execute step.
#[derive(Clone, Copy, PartialEq, Eq, Structural, Debug)]
pub enum Mnemonic {
    Brk,
    Nop,
    Clc,
    Cld,
    Cli,
    Clv,
    Ora,
    Lda,
    Ldx,
    Ldy,
    Jmp,
    Sty,
    Sta,
    Stx,
    Tax,
    Tay,
    Tsx,
    Txa,
    Txs,
    Tya,
    Inc,
    Inx,
    Iny,
    Pha,
    Php,
    Pla,
    Plp,
    Rol,
    Ror,
}

/// One instruction descriptor: the opcode byte that selects it, its
/// mnemonic, and the addressing mode of this variant.
#[derive(Clone, Copy, PartialEq, Eq, Structural, Debug)]
pub struct Ins6502 {
    pub opcode: u8,
    pub mnem: Mnemonic,
    pub addressing_mode: AddressingMode,
}

/// Descriptor construction, shared by the table builder and its spec.
pub open spec fn entry(opcode: u8, mnem: Mnemonic, addressing_mode: AddressingMode) -> Ins6502 {
    Ins6502 { opcode, mnem, addressing_mode }
}

/// The table's contents. Each opcode byte occurs at most once, so lookup by
/// opcode is unambiguous.
pub open spec fn table() -> Seq<Ins6502> {
    seq![
        entry(0x00, Mnemonic::Brk, AddressingMode::Implied),
        entry(0xEA, Mnemonic::Nop, AddressingMode::Implied),
        entry(0x18, Mnemonic::Clc, AddressingMode::Implied),
        entry(0xD8, Mnemonic::Cld, AddressingMode::Implied),
        entry(0x58, Mnemonic::Cli, AddressingMode::Implied),
        entry(0xB8, Mnemonic::Clv, AddressingMode::Implied),
        entry(0x09, Mnemonic::Ora, AddressingMode::Immediate),
        entry(0x05, Mnemonic::Ora, AddressingMode::ZeroPage),
        entry(0x15, Mnemonic::Ora, AddressingMode::ZeroPageX),
        entry(0x0D, Mnemonic::Ora, AddressingMode::Absolute),
        entry(0x1D, Mnemonic::Ora, AddressingMode::AbsoluteX),
        entry(0x19, Mnemonic::Ora, AddressingMode::AbsoluteY),
        entry(0x01, Mnemonic::Ora, AddressingMode::IndirectX),
        entry(0x11, Mnemonic::Ora, AddressingMode::IndirectY),
        entry(0xA9, Mnemonic::Lda, AddressingMode::Immediate),
        entry(0xA5, Mnemonic::Lda, AddressingMode::ZeroPage),
        entry(0xB5, Mnemonic::Lda, AddressingMode::ZeroPageX),
        entry(0xAD, Mnemonic::Lda, AddressingMode::Absolute),
        entry(0xBD, Mnemonic::Lda, AddressingMode::AbsoluteX),
        entry(0xB9, Mnemonic::Lda, AddressingMode::AbsoluteY),
        entry(0xA1, Mnemonic::Lda, AddressingMode::IndirectX),
        entry(0xB1, Mnemonic::Lda, AddressingMode::IndirectY),
        entry(0xA2, Mnemonic::Ldx, AddressingMode::Immediate),
        entry(0xA0, Mnemonic::Ldy, AddressingMode::Immediate),
        entry(0x6C, Mnemonic::Jmp, AddressingMode::Indirect),
        entry(0x4C, Mnemonic::Jmp, AddressingMode::Absolute),
        entry(0x84, Mnemonic::Sty, AddressingMode::ZeroPage),
        entry(0x94, Mnemonic::Sty, AddressingMode::ZeroPageX),
        entry(0x8C, Mnemonic::Sty, AddressingMode::Absolute),
        entry(0x85, Mnemonic::Sta, AddressingMode::ZeroPage),
        entry(0x95, Mnemonic::Sta, AddressingMode::ZeroPageX),
        entry(0x8D, Mnemonic::Sta, AddressingMode::Absolute),
        entry(0x9D, Mnemonic::Sta, AddressingMode::AbsoluteX),
        entry(0x99, Mnemonic::Sta, AddressingMode::AbsoluteY),
        entry(0x81, Mnemonic::Sta, AddressingMode::IndirectX),
        entry(0x91, Mnemonic::Sta, AddressingMode::IndirectY),
        entry(0x86, Mnemonic::Stx, AddressingMode::ZeroPage),
        entry(0x96, Mnemonic::Stx, AddressingMode::ZeroPageY),
        entry(0x8E, Mnemonic::Stx, AddressingMode::Absolute),
        entry(0xAA, Mnemonic::Tax, AddressingMode::Implied),
        entry(0xA8, Mnemonic::Tay, AddressingMode::Implied),
        entry(0xBA, Mnemonic::Tsx, AddressingMode::Implied),
        entry(0x8A, Mnemonic::Txa, AddressingMode::Implied),
        entry(0x9A, Mnemonic::Txs, AddressingMode::Implied),
        entry(0x98, Mnemonic::Tya, AddressingMode::Implied),
        entry(0xE6, Mnemonic::Inc, AddressingMode::ZeroPage),
        entry(0xF6, Mnemonic::Inc, AddressingMode::ZeroPageX),
        entry(0xEE, Mnemonic::Inc, AddressingMode::Absolute),
        entry(0xFE, Mnemonic::Inc, AddressingMode::AbsoluteX),
        entry(0xE8, Mnemonic::Inx, AddressingMode::Implied),
        entry(0xC8, Mnemonic::Iny, AddressingMode::Implied),
        entry(0x48, Mnemonic::Pha, AddressingMode::Implied),
        entry(0x08, Mnemonic::Php, AddressingMode::Implied),
        entry(0x68, Mnemonic::Pla, AddressingMode::Implied),
        entry(0x28, Mnemonic::Plp, AddressingMode::Implied),
        entry(0x26, Mnemonic::Rol, AddressingMode::ZeroPage),
        entry(0x36, Mnemonic::Rol, AddressingMode::ZeroPageX),
        entry(0x2E, Mnemonic::Rol, AddressingMode::Absolute),
        entry(0x3E, Mnemonic::Rol, AddressingMode::AbsoluteX),
        entry(0x66, Mnemonic::Ror, AddressingMode::ZeroPage),
        entry(0x76, Mnemonic::Ror, AddressingMode::ZeroPageX),
        entry(0x6E, Mnemonic::Ror, AddressingMode::Absolute),
        entry(0x7E, Mnemonic::Ror, AddressingMode::AbsoluteX),
    ]
}

/// The first descriptor at or after position `i` whose opcode is `op`.
pub open spec fn find_from(t: Seq<Ins6502>, op: u8, i: int) -> Option<Ins6502>
    decreases t.len() - i,
{
    if i < 0 || i >= t.len() {
        None
    } else if t[i].opcode == op {
        Some(t[i])
    } else {
        find_from(t, op, i + 1)
    }
}

/// What decoding an opcode byte yields: the table's descriptor for it, or
/// nothing when the byte is absent from the table.
pub open spec fn spec_decode(op: u8) -> Option<Ins6502> {
    find_from(table(), op, 0)
}

} // verus!
