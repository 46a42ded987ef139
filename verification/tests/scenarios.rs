//! End-to-end scenarios: small programs run through `execute` against a
//! fresh processor and a zeroed memory.

use mos6502::{Memory, CPU, MOS6502};

#[test]
fn immediate_load_and_store() {
    let mut cpu = MOS6502::new();
    let mut memory = Memory::new();
    // LDA #$42 ; STA $10
    memory.write(0xFFFC, 0xA9);
    memory.write(0xFFFD, 0x42);
    memory.write(0xFFFE, 0x85);
    memory.write(0xFFFF, 0x10);

    cpu.execute(10, &mut memory);

    assert_eq!(cpu.a(), 0x42);
    assert_eq!(memory.read(0x0010), 0x42);
    assert!(!cpu.status().zero());
    assert!(!cpu.status().negative());
}

#[test]
fn zero_page_load() {
    let mut cpu = MOS6502::new();
    let mut memory = Memory::new();
    // LDA $84
    memory.write(0xFFFC, 0xA5);
    memory.write(0xFFFD, 0x84);
    memory.write(0x0084, 0x42);

    cpu.execute(3, &mut memory);

    assert_eq!(cpu.a(), 0x42);
    assert_eq!(cpu.pc(), 0xFFFE);
    assert!(!cpu.status().zero());
    assert!(!cpu.status().negative());
}

#[test]
fn adc_with_signed_overflow() {
    let mut cpu = MOS6502::new();
    let mut memory = Memory::new();
    // LDA #$50 ; ADC #$50
    memory.write(0xFFFC, 0xA9);
    memory.write(0xFFFD, 0x50);
    memory.write(0xFFFE, 0x69);
    memory.write(0xFFFF, 0x50);

    cpu.execute(4, &mut memory);

    assert_eq!(cpu.a(), 0xA0);
    assert!(!cpu.status().carry());
    assert!(cpu.status().overflow());
    assert!(cpu.status().negative());
    assert!(!cpu.status().zero());
}

#[test]
fn sbc_borrow_boundary() {
    let mut cpu = MOS6502::new();
    let mut memory = Memory::new();
    // LDA #$50 ; CMP #$00 (sets C) ; SBC #$30
    memory.write(0xFFFC, 0xA9);
    memory.write(0xFFFD, 0x50);
    memory.write(0xFFFE, 0xC9);
    memory.write(0xFFFF, 0x00);
    memory.write(0x0000, 0xE9);
    memory.write(0x0001, 0x30);

    cpu.execute(6, &mut memory);

    assert_eq!(cpu.a(), 0x20);
    assert!(cpu.status().carry());
    assert!(!cpu.status().overflow());
    assert!(!cpu.status().negative());
    assert!(!cpu.status().zero());
}

#[test]
fn cmp_equal_values() {
    let mut cpu = MOS6502::new();
    let mut memory = Memory::new();
    // LDA #$7F ; CMP #$7F
    memory.write(0xFFFC, 0xA9);
    memory.write(0xFFFD, 0x7F);
    memory.write(0xFFFE, 0xC9);
    memory.write(0xFFFF, 0x7F);

    cpu.execute(4, &mut memory);

    assert_eq!(cpu.a(), 0x7F);
    assert!(cpu.status().zero());
    assert!(cpu.status().carry());
    assert!(!cpu.status().negative());
}

#[test]
fn indexed_indirect_wrap() {
    let mut cpu = MOS6502::new();
    let mut memory = Memory::new();
    // LDX #$04 ; LDA ($FE,X) -- the pointer wraps to $02/$03.
    memory.write(0xFFFC, 0xA2);
    memory.write(0xFFFD, 0x04);
    memory.write(0xFFFE, 0xA1);
    memory.write(0xFFFF, 0xFE);
    memory.write(0x0002, 0x34);
    memory.write(0x0003, 0x12);
    memory.write(0x1234, 0x99);

    cpu.execute(8, &mut memory);

    assert_eq!(cpu.a(), 0x99);
    assert!(!cpu.status().zero());
    assert!(cpu.status().negative());
}

#[test]
fn unknown_opcode_is_skipped() {
    let mut cpu = MOS6502::new();
    let mut memory = Memory::new();
    // $FF encodes nothing; each fetch costs one cycle and is skipped.
    memory.write(0xFFFC, 0xFF);
    memory.write(0xFFFD, 0xFF);
    memory.write(0xFFFE, 0xFF);

    cpu.execute(3, &mut memory);

    assert_eq!(cpu.pc(), 0xFFFF);
    assert_eq!(cpu.a(), 0x00);
    assert_eq!(cpu.sp(), 0xFF);
    assert_eq!(cpu.status().to_byte(), 0x00);
}

#[test]
fn execute_through_the_trait() {
    let mut cpu = MOS6502::new();
    let mut memory = Memory::new();
    memory.write(0xFFFC, 0xA9);
    memory.write(0xFFFD, 0x42);

    CPU::execute(&mut cpu, 2, &mut memory);

    assert_eq!(cpu.a(), 0x42);
    assert_eq!(CPU::read(&cpu, 0xFFFD, &memory), 0x42);
}

#[test]
fn budget_is_advisory() {
    let mut cpu = MOS6502::new();
    let mut memory = Memory::new();
    // LDA #$42 costs two cycles; with a budget of one it still completes.
    memory.write(0xFFFC, 0xA9);
    memory.write(0xFFFD, 0x42);

    cpu.execute(1, &mut memory);

    assert_eq!(cpu.a(), 0x42);
    assert_eq!(cpu.pc(), 0xFFFE);
}

#[test]
fn pc_advance_per_mode() {
    // Immediate: two bytes; absolute: three bytes; transfer: one byte.
    let mut cpu = MOS6502::new();
    let mut memory = Memory::new();
    memory.write(0xFFFC, 0xA9); // LDA #$01
    memory.write(0xFFFD, 0x01);
    cpu.execute(2, &mut memory);
    assert_eq!(cpu.pc(), 0xFFFE);

    let mut cpu = MOS6502::new();
    let mut memory = Memory::new();
    memory.write(0xFFFC, 0xAD); // LDA $1234
    memory.write(0xFFFD, 0x34);
    memory.write(0xFFFE, 0x12);
    cpu.execute(4, &mut memory);
    assert_eq!(cpu.pc(), 0xFFFF);

    let mut cpu = MOS6502::new();
    let mut memory = Memory::new();
    memory.write(0xFFFC, 0xAA); // TAX
    cpu.execute(2, &mut memory);
    assert_eq!(cpu.pc(), 0xFFFD);
}
