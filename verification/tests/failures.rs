// The three failure kinds, each triggered by a concrete input, and the
// machine state a failed run leaves behind.

use mos6502::cpu::Cpu6502;
use mos6502::errors::CpuError;

#[test]
fn test_unknown_opcode_is_fatal_and_atomic() {
    let mut cpu = Cpu6502::new();
    // 0xff has no entry in the instruction table.
    let rom_buff = vec![0xff];

    cpu.load(&rom_buff).unwrap();
    let r = cpu.run();
    assert_eq!(r, Err(CpuError::UnknownOpcode(0xff)));
    // Only the fetch happened: the program counter rests one past the
    // undecodable byte and nothing else moved.
    assert_eq!(cpu.regs.pc, 0x8001);
    assert_eq!(cpu.regs.a, 0);
    assert_eq!(cpu.regs.x, 0);
    assert_eq!(cpu.regs.y, 0);
    assert_eq!(cpu.regs.sp, 0);
    assert_eq!(cpu.regs.p, 0);
}

#[test]
fn test_absolute_x_past_end_of_bus() {
    let mut cpu = Cpu6502::new();
    let rom_buff = vec![
        0xa2, 0x02, // ldx 2
        0xbd, 0xff, 0xff, // lda $ffff,x -> 0x10001 is out of range
        0x00,
    ];

    cpu.load(&rom_buff).unwrap();
    let r = cpu.run();
    assert_eq!(r, Err(CpuError::AddressOutOfRange(0x10001)));
    // The failed instruction applied no effect: the program counter stands
    // just past the opcode whose operand could not be resolved.
    assert_eq!(cpu.regs.pc, 0x8003);
    assert_eq!(cpu.regs.a, 0);
}

#[test]
fn test_indirect_pointer_past_end_of_bus() {
    let mut cpu = Cpu6502::new();
    // jmp ($ffff): the pointer's second byte would live at 0x10000.
    let rom_buff = vec![0x6c, 0xff, 0xff];

    cpu.load(&rom_buff).unwrap();
    let r = cpu.run();
    assert_eq!(r, Err(CpuError::AddressOutOfRange(0x10000)));
}

#[test]
fn test_indirect_y_past_end_of_bus() {
    let mut cpu = Cpu6502::new();
    let rom_buff = vec![
        0xa9, 0xff, // lda 0xff
        0x85, 0x10, // sta $10 (pointer low byte)
        0x85, 0x11, // sta $11 (pointer high byte) -> pointer 0xffff
        0xa0, 0x02, // ldy 2
        0xb1, 0x10, // lda ($10),y -> 0xffff + 2 is out of range
        0x00,
    ];

    cpu.load(&rom_buff).unwrap();
    let r = cpu.run();
    assert_eq!(r, Err(CpuError::AddressOutOfRange(0x10001)));
}

#[test]
fn test_load_overflow_rejected() {
    let mut cpu = Cpu6502::new();
    let rom_buff = vec![0x00u8; 0x8001];

    let r = cpu.load(&rom_buff);
    assert_eq!(r, Err(CpuError::LoadOverflow(0x8001)));
    // Nothing was copied.
    assert_eq!(cpu.bus.vram[0x8000], 0x00);
    assert_eq!(cpu.regs.pc, 0x8000);
}

#[test]
fn test_load_fills_up_to_end_of_bus() {
    let mut cpu = Cpu6502::new();
    let mut rom_buff = vec![0x00u8; 0x8000];
    rom_buff[0x7fff] = 0x77;

    cpu.load(&rom_buff).unwrap();
    assert_eq!(cpu.bus.vram[0xffff], 0x77);
}
