//! Boundary behavior of the addressing modes: zero-page wrapping and
//! page-cross cycle surcharges, observed through the per-instruction
//! entry points and their returned cycle counts.

use mos6502::{Memory, MOS6502};

#[test]
fn zpx_wraps_within_page_zero() {
    let mut cpu = MOS6502::new();
    let mut memory = Memory::new();
    cpu.reg_x = 0x02;
    memory.write(0xFFFC, 0xFF); // operand
    memory.write(0x0001, 0x7E); // ($FF + $02) mod 256 = $01
    memory.write(0x0101, 0x55); // must not be read

    let cycles = cpu.lda_zpx(&memory);

    assert_eq!(cpu.a(), 0x7E);
    assert_eq!(cycles, 3);
}

#[test]
fn absx_page_cross_costs_one_more() {
    let mut cpu = MOS6502::new();
    let mut memory = Memory::new();
    cpu.reg_x = 0x20;
    memory.write(0xFFFC, 0xF0); // base $12F0
    memory.write(0xFFFD, 0x12);
    memory.write(0x1310, 0xAB); // $12F0 + $20 = $1310, page crossed

    let cycles = cpu.lda_absx(&memory);

    assert_eq!(cpu.a(), 0xAB);
    assert_eq!(cycles, 4);
}

#[test]
fn absx_same_page_costs_base_cycles() {
    let mut cpu = MOS6502::new();
    let mut memory = Memory::new();
    cpu.reg_x = 0x01;
    memory.write(0xFFFC, 0xF0); // base $12F0
    memory.write(0xFFFD, 0x12);
    memory.write(0x12F1, 0xCD);

    let cycles = cpu.lda_absx(&memory);

    assert_eq!(cpu.a(), 0xCD);
    assert_eq!(cycles, 3);
}

#[test]
fn indx_pointer_wraps_to_page_zero_start() {
    let mut cpu = MOS6502::new();
    let mut memory = Memory::new();
    cpu.reg_x = 0x02;
    memory.write(0xFFFC, 0xFE); // ($FE + $02) mod 256 = $00
    memory.write(0x0000, 0x78); // pointer low byte
    memory.write(0x0001, 0x56); // pointer high byte
    memory.write(0x5678, 0x3C);

    let cycles = cpu.lda_indx(&memory);

    assert_eq!(cpu.a(), 0x3C);
    assert_eq!(cycles, 5);
}

#[test]
fn indy_pointer_high_byte_wraps_and_page_cross_costs() {
    let mut cpu = MOS6502::new();
    let mut memory = Memory::new();
    cpu.reg_y = 0xFF;
    memory.write(0xFFFC, 0xFF); // pointer at $FF; high byte from ($FF+1) mod 256 = $00
    memory.write(0x00FF, 0x01); // pointer low byte
    memory.write(0x0000, 0x12); // pointer high byte -> base $1201
    memory.write(0x1300, 0x42); // $1201 + $FF = $1300, page crossed

    let cycles = cpu.lda_indy(&memory);

    assert_eq!(cpu.a(), 0x42);
    assert_eq!(cycles, 5);
}

#[test]
fn indy_same_page_costs_base_cycles() {
    let mut cpu = MOS6502::new();
    let mut memory = Memory::new();
    cpu.reg_y = 0x01;
    memory.write(0xFFFC, 0x80);
    memory.write(0x0080, 0x00); // base $1200
    memory.write(0x0081, 0x12);
    memory.write(0x1201, 0x24);

    let cycles = cpu.lda_indy(&memory);

    assert_eq!(cpu.a(), 0x24);
    assert_eq!(cycles, 4);
}

#[test]
fn sta_absx_never_pays_page_cross() {
    let mut cpu = MOS6502::new();
    let mut memory = Memory::new();
    cpu.reg_a = 0x11;
    cpu.reg_x = 0x01;
    memory.write(0xFFFC, 0x00);
    memory.write(0xFFFD, 0x12);

    let cycles = cpu.sta_absx(&mut memory);

    assert_eq!(memory.read(0x1201), 0x11);
    assert_eq!(cycles, 4); // worst case, though no page was crossed
}

#[test]
fn zp_store_wraps_with_index() {
    let mut cpu = MOS6502::new();
    let mut memory = Memory::new();
    cpu.reg_a = 0x99;
    cpu.reg_x = 0x10;
    memory.write(0xFFFC, 0xF8); // ($F8 + $10) mod 256 = $08

    let cycles = cpu.sta_zpx(&mut memory);

    assert_eq!(memory.read(0x0008), 0x99);
    assert_eq!(memory.read(0x0108), 0x00);
    assert_eq!(cycles, 3);
}
