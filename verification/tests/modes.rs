// Addressing-mode behaviour observed through whole programs: zero-page
// index wrapping, the absolute-indexed carry, and the pre- versus
// post-indexing of the two indirect modes.

use mos6502::cpu::Cpu6502;
use mos6502::state::STATUS_FLAG_N;

#[test]
fn test_zpx_wraps_inside_page_zero() {
    let mut cpu = Cpu6502::new();
    // (0xf0 + 0x20) mod 256 = 0x10: the indexed zero-page address wraps and
    // must not reach 0x110.
    let rom_buff = vec![
        0xa9, 0x5a, // lda 0x5a
        0x85, 0x10, // sta $10
        0xa2, 0x20, // ldx 0x20
        0xa9, 0x00, // lda 0
        0xb5, 0xf0, // lda $f0,x -> reads $10
        0x00,
    ];

    cpu.load(&rom_buff).unwrap();
    cpu.run().unwrap();
    assert_eq!(cpu.regs.a, 0x5a);
    assert_eq!(cpu.bus.vram[0x110], 0x00);
}

#[test]
fn test_absolute_x_low_byte_overflow_carries() {
    let mut cpu = Cpu6502::new();
    // Base $00ff with index 1 must resolve to $0100, not $0000.
    let rom_buff = vec![
        0xa9, 0x77, // lda 0x77
        0x8d, 0x01, 0x00, // sta $0100
        0xa2, 0x01, // ldx 1
        0xa9, 0x00, // lda 0
        0xbd, 0x00, 0xff, // lda $00ff,x -> reads $0100
        0x00,
    ];

    cpu.load(&rom_buff).unwrap();
    cpu.run().unwrap();
    assert_eq!(cpu.regs.a, 0x77);
    assert_eq!(cpu.bus.vram[0x0000], 0x00);
}

#[test]
fn test_indirect_x_indexes_before_dereference() {
    let mut cpu = Cpu6502::new();
    // Pointer 0x0305 sits at zero page 0x24 = 0x20 + x; the value lives at
    // the address the pointer stores.
    let rom_buff = vec![
        0xa9, 0x05, // lda 0x05
        0x85, 0x24, // sta $24 (pointer low byte)
        0xa9, 0x03, // lda 0x03
        0x85, 0x25, // sta $25 (pointer high byte)
        0xa9, 0xab, // lda 0xab
        0x8d, 0x03, 0x05, // sta $0305
        0xa2, 0x04, // ldx 4
        0xa9, 0x00, // lda 0
        0xa1, 0x20, // lda ($20,x) -> reads $0305
        0x00,
    ];

    cpu.load(&rom_buff).unwrap();
    cpu.run().unwrap();
    assert_eq!(cpu.regs.a, 0xab);
}

#[test]
fn test_indirect_y_indexes_after_dereference() {
    let mut cpu = Cpu6502::new();
    // Same stored pointer 0x0305 at zero page 0x24, same index 4: the index
    // is added after the dereference, so the read lands at $0309, not at
    // the address a pre-indexed mode would reach.
    let rom_buff = vec![
        0xa9, 0x05, // lda 0x05
        0x85, 0x24, // sta $24 (pointer low byte)
        0xa9, 0x03, // lda 0x03
        0x85, 0x25, // sta $25 (pointer high byte)
        0xa9, 0xcd, // lda 0xcd
        0x8d, 0x03, 0x09, // sta $0309
        0xa0, 0x04, // ldy 4
        0xa9, 0x00, // lda 0
        0xb1, 0x24, // lda ($24),y -> reads $0305 + 4
        0x00,
    ];

    cpu.load(&rom_buff).unwrap();
    cpu.run().unwrap();
    assert_eq!(cpu.regs.a, 0xcd);
    assert_eq!(cpu.bus.vram[0x0305], 0x00);
}

#[test]
fn test_lda_immediate_negative_flag() {
    let mut cpu = Cpu6502::new();
    let rom_buff = vec![0xa9, 0x80, 0x00];

    cpu.load(&rom_buff).unwrap();
    cpu.run().unwrap();
    assert_eq!(cpu.regs.a, 0x80);
    assert_eq!(cpu.regs.p & STATUS_FLAG_N, STATUS_FLAG_N);
}

#[test]
fn test_inc_zero_page_and_wrap() {
    let mut cpu = Cpu6502::new();
    let rom_buff = vec![
        0xa9, 0x09, // lda 9
        0x85, 0x20, // sta $20
        0xe6, 0x20, // inc $20 -> 10
        0xa9, 0xff, // lda 0xff
        0x85, 0x21, // sta $21
        0xe6, 0x21, // inc $21 -> wraps to 0
        0x00,
    ];

    cpu.load(&rom_buff).unwrap();
    cpu.run().unwrap();
    assert_eq!(cpu.bus.vram[0x20], 0x0a);
    assert_eq!(cpu.bus.vram[0x21], 0x00);
}

#[test]
fn test_inx_wraps_modulo_256() {
    let mut cpu = Cpu6502::new();
    let rom_buff = vec![0xa2, 0xff, 0xe8, 0x00];

    cpu.load(&rom_buff).unwrap();
    cpu.run().unwrap();
    assert_eq!(cpu.regs.x, 0x00);
}

#[test]
fn test_rol_ror_zero_page() {
    let mut cpu = Cpu6502::new();
    let rom_buff = vec![
        0xa9, 0x81, // lda 0x81
        0x85, 0x20, // sta $20
        0x85, 0x21, // sta $21
        0x26, 0x20, // rol $20 -> 0x03
        0x66, 0x21, // ror $21 -> 0xc0
        0x00,
    ];

    cpu.load(&rom_buff).unwrap();
    cpu.run().unwrap();
    assert_eq!(cpu.bus.vram[0x20], 0x03);
    assert_eq!(cpu.bus.vram[0x21], 0xc0);
}

#[test]
fn test_transfers_tya_txs_tsx() {
    let mut cpu = Cpu6502::new();
    let rom_buff = vec![
        0xa0, 0xc0, // ldy 0xc0
        0x98, // tya -> a = 0xc0
        0xa2, 0x33, // ldx 0x33
        0x9a, // txs -> sp = 0x33
        0xa2, 0x00, // ldx 0
        0xba, // tsx -> x = 0x33
        0x00,
    ];

    cpu.load(&rom_buff).unwrap();
    cpu.run().unwrap();
    assert_eq!(cpu.regs.a, 0xc0);
    assert_eq!(cpu.regs.sp, 0x33);
    assert_eq!(cpu.regs.x, 0x33);
}

#[test]
fn test_ora_immediate_zero_flag() {
    let mut cpu = Cpu6502::new();
    let rom_buff = vec![
        0xa9, 0x00, // lda 0
        0x09, 0x00, // ora #0 -> a stays 0, Zero set
        0x00,
    ];

    cpu.load(&rom_buff).unwrap();
    cpu.run().unwrap();
    assert_eq!(cpu.regs.a, 0x00);
    assert_eq!(cpu.regs.p & mos6502::state::STATUS_FLAG_Z, mos6502::state::STATUS_FLAG_Z);
}
