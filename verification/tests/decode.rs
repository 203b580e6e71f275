// The instruction table as data: lookup by opcode, unambiguous entries.

use mos6502::addressing::AddressingMode;
use mos6502::cpu::Cpu6502;
use mos6502::errors::CpuError;
use mos6502::table::{Ins6502, Mnemonic};

#[test]
fn test_lookup_returns_registered_descriptor() {
    let cpu = Cpu6502::new();
    assert_eq!(
        cpu.lookup(0xa9),
        Ok(Ins6502 { opcode: 0xa9, mnem: Mnemonic::Lda, addressing_mode: AddressingMode::Immediate })
    );
    assert_eq!(
        cpu.lookup(0x96),
        Ok(Ins6502 { opcode: 0x96, mnem: Mnemonic::Stx, addressing_mode: AddressingMode::ZeroPageY })
    );
    assert_eq!(
        cpu.lookup(0x6c),
        Ok(Ins6502 { opcode: 0x6c, mnem: Mnemonic::Jmp, addressing_mode: AddressingMode::Indirect })
    );
}

#[test]
fn test_lookup_unregistered_byte_fails() {
    let cpu = Cpu6502::new();
    assert_eq!(cpu.lookup(0xff), Err(CpuError::UnknownOpcode(0xff)));
    assert_eq!(cpu.lookup(0x02), Err(CpuError::UnknownOpcode(0x02)));
}

#[test]
fn test_table_opcodes_unique() {
    let cpu = Cpu6502::new();
    for i in 0..cpu.ins.len() {
        let mut n: usize = 0;
        for j in 0..cpu.ins.len() {
            if cpu.ins[j].opcode == cpu.ins[i].opcode {
                n += 1;
            }
        }
        assert_eq!(n, 1);
    }
}
