// Stack push/pull round trips and the clear-flag instructions.

use mos6502::cpu::Cpu6502;

#[test]
fn test_pha_pla_round_trip() {
    let mut cpu = Cpu6502::new();
    let rom_buff = vec![
        0xa9, 0x42, // lda 0x42
        0x48, // pha
        0xa9, 0x00, // lda 0
        0x68, // pla -> a = 0x42
        0x00,
    ];

    cpu.load(&rom_buff).unwrap();
    cpu.run().unwrap();
    assert_eq!(cpu.regs.a, 0x42);
    assert_eq!(cpu.regs.sp, 0x00);
}

#[test]
fn test_php_plp_round_trip() {
    let mut cpu = Cpu6502::new();
    let rom_buff = vec![
        0xa9, 0x80, // lda 0x80 -> Negative set
        0x08, // php
        0xa9, 0x01, // lda 1 -> Negative and Zero clear
        0x28, // plp -> status restored
        0x00,
    ];

    cpu.load(&rom_buff).unwrap();
    cpu.run().unwrap();
    assert_eq!(cpu.regs.p, 0x80);
    assert_eq!(cpu.regs.sp, 0x00);
}

#[test]
fn test_clear_flag_instructions() {
    let mut cpu = Cpu6502::new();
    cpu.regs.p = 0xff;
    // clc, cld, cli, clv: each forces exactly one bit to 0.
    let rom_buff = vec![0x18, 0xd8, 0x58, 0xb8, 0x00];

    cpu.load(&rom_buff).unwrap();
    cpu.run().unwrap();
    assert_eq!(cpu.regs.p, 0xb2);
}

#[test]
fn test_plp_restores_pushed_pattern() {
    let mut cpu = Cpu6502::new();
    // Write a bit pattern into the stack slot a pull will read, then pull
    // it into the status register.
    let rom_buff = vec![
        0xa9, 0xff, // lda 0xff
        0x8d, 0x01, 0xfe, // sta $01fe (stack slot for sp = 1)
        0x28, // plp -> p = 0xff
        0x18, // clc -> p = 0xfe
        0x00,
    ];

    cpu.load(&rom_buff).unwrap();
    cpu.run().unwrap();
    assert_eq!(cpu.regs.p, 0xfe);
    assert_eq!(cpu.regs.sp, 0x01);
}
