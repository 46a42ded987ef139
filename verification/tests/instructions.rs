//! Per-group instruction behavior: flags, registers, the stack and the
//! status register, driven through the public entry points.

use mos6502::{Memory, ProcessorStatus, MOS6502};

#[test]
fn load_sets_zero_flag() {
    let mut cpu = MOS6502::new();
    let mut memory = Memory::new();
    cpu.reg_a = 0x55;
    memory.write(0xFFFC, 0x00);

    cpu.lda_im(&memory);

    assert_eq!(cpu.a(), 0x00);
    assert!(cpu.status().zero());
    assert!(!cpu.status().negative());
}

#[test]
fn load_sets_negative_flag_and_keeps_carry() {
    let mut cpu = MOS6502::new();
    let mut memory = Memory::new();
    cpu.proc_status.set_carry();
    memory.write(0xFFFC, 0x80);

    cpu.lda_im(&memory);

    assert_eq!(cpu.a(), 0x80);
    assert!(!cpu.status().zero());
    assert!(cpu.status().negative());
    assert!(cpu.status().carry());
}

#[test]
fn ldx_and_ldy_load_their_registers() {
    let mut cpu = MOS6502::new();
    let mut memory = Memory::new();
    memory.write(0xFFFC, 0x21);
    memory.write(0xFFFD, 0x34);

    cpu.ldx_im(&memory);
    cpu.ldy_im(&memory);

    assert_eq!(cpu.x(), 0x21);
    assert_eq!(cpu.y(), 0x34);
    assert_eq!(cpu.a(), 0x00);
}

#[test]
fn store_leaves_flags_alone() {
    let mut cpu = MOS6502::new();
    let mut memory = Memory::new();
    cpu.reg_a = 0x00;
    cpu.proc_status.set_negative();
    memory.write(0xFFFC, 0x42);

    cpu.sta_zp(&mut memory);

    assert_eq!(memory.read(0x0042), 0x00);
    assert!(!cpu.status().zero());
    assert!(cpu.status().negative());
}

#[test]
fn stx_and_sty_write_their_registers() {
    let mut cpu = MOS6502::new();
    let mut memory = Memory::new();
    cpu.reg_x = 0xAB;
    cpu.reg_y = 0xCD;
    memory.write(0xFFFC, 0x10);
    memory.write(0xFFFD, 0x11);

    cpu.stx_zp(&mut memory);
    cpu.sty_zp(&mut memory);

    assert_eq!(memory.read(0x0010), 0xAB);
    assert_eq!(memory.read(0x0011), 0xCD);
}

#[test]
fn transfers_copy_and_set_flags() {
    let mut cpu = MOS6502::new();
    cpu.reg_a = 0x80;
    cpu.tax();
    assert_eq!(cpu.x(), 0x80);
    assert!(cpu.status().negative());

    cpu.reg_a = 0x01;
    cpu.tay();
    assert_eq!(cpu.y(), 0x01);
    assert!(!cpu.status().negative());

    cpu.reg_x = 0x00;
    cpu.txa();
    assert_eq!(cpu.a(), 0x00);
    assert!(cpu.status().zero());

    cpu.reg_y = 0x7F;
    cpu.tya();
    assert_eq!(cpu.a(), 0x7F);
    assert!(!cpu.status().zero());

    cpu.tsx();
    assert_eq!(cpu.x(), cpu.sp());
}

#[test]
fn txs_does_not_touch_flags() {
    let mut cpu = MOS6502::new();
    cpu.reg_x = 0x00;
    let before = cpu.status().to_byte();

    cpu.txs();

    assert_eq!(cpu.sp(), 0x00);
    assert_eq!(cpu.status().to_byte(), before);
}

#[test]
fn pha_then_pla_round_trips_a() {
    let mut cpu = MOS6502::new();
    let mut memory = Memory::new();
    cpu.reg_a = 0x80;

    cpu.pha(&mut memory);
    assert_eq!(cpu.sp(), 0xFE);
    assert_eq!(memory.read(0x01FF), 0x80);

    cpu.reg_a = 0x00;
    cpu.pla(&mut memory);

    assert_eq!(cpu.a(), 0x80);
    assert_eq!(cpu.sp(), 0xFF);
    assert!(cpu.status().negative());
    assert!(!cpu.status().zero());
}

#[test]
fn php_then_plp_round_trips_flags() {
    let mut cpu = MOS6502::new();
    let mut memory = Memory::new();
    cpu.proc_status.set_carry();
    cpu.proc_status.set_overflow();
    cpu.proc_status.set_negative();
    cpu.proc_status.set_decimal_mode();

    cpu.php(&mut memory);
    // The pushed byte carries the break flag and bit 5 set.
    let pushed = memory.read(0x01FF);
    assert_eq!(pushed & 0x30, 0x30);

    cpu.proc_status = ProcessorStatus::new();
    cpu.plp(&mut memory);

    assert!(cpu.status().carry());
    assert!(cpu.status().overflow());
    assert!(cpu.status().negative());
    assert!(cpu.status().decimal_mode());
    assert!(!cpu.status().zero());
    assert!(!cpu.status().interrupt_disable());
    // The break flag and bit 5 are masked out on load.
    assert!(!cpu.status().break_command());
    assert_eq!(cpu.status().to_byte() & 0x30, 0x00);
}

#[test]
fn plp_ignores_bit_five_and_break() {
    let mut cpu = MOS6502::new();
    let mut memory = Memory::new();
    memory.write(0x0100, 0xFF); // SP wraps from $FF to $00
    cpu.plp(&mut memory);

    assert_eq!(cpu.sp(), 0x00);
    assert_eq!(cpu.status().to_byte(), 0xCF);
}

#[test]
fn stack_pointer_wraps_at_both_ends() {
    let mut cpu = MOS6502::new();
    let mut memory = Memory::new();
    cpu.reg_sp = 0x00;
    cpu.pha(&mut memory);
    assert_eq!(cpu.sp(), 0xFF);

    cpu.pla(&mut memory);
    assert_eq!(cpu.sp(), 0x00);
}

#[test]
fn and_with_zero_gives_zero() {
    let mut cpu = MOS6502::new();
    let mut memory = Memory::new();
    cpu.reg_a = 0x5A;
    memory.write(0xFFFC, 0x00);

    cpu.and_im(&memory);

    assert_eq!(cpu.a(), 0x00);
    assert!(cpu.status().zero());
    assert!(!cpu.status().negative());
}

#[test]
fn ora_with_zero_keeps_a() {
    let mut cpu = MOS6502::new();
    let mut memory = Memory::new();
    cpu.reg_a = 0x9C;
    memory.write(0xFFFC, 0x00);

    cpu.ora_im(&memory);

    assert_eq!(cpu.a(), 0x9C);
    assert!(!cpu.status().zero());
    assert!(cpu.status().negative());
}

#[test]
fn eor_with_itself_gives_zero() {
    let mut cpu = MOS6502::new();
    let mut memory = Memory::new();
    cpu.reg_a = 0xC3;
    memory.write(0xFFFC, 0xC3);

    cpu.eor_im(&memory);

    assert_eq!(cpu.a(), 0x00);
    assert!(cpu.status().zero());
    assert!(!cpu.status().negative());
}

#[test]
fn bit_sets_and_clears_flags() {
    let mut cpu = MOS6502::new();
    let mut memory = Memory::new();
    cpu.reg_a = 0x0F;
    memory.write(0xFFFC, 0x20);
    memory.write(0x0020, 0xC0); // N and V from the operand; A & M == 0

    cpu.bit_zp(&memory);

    assert!(cpu.status().zero());
    assert!(cpu.status().negative());
    assert!(cpu.status().overflow());
    assert_eq!(cpu.a(), 0x0F);

    // A second test with overlapping bits must clear all three again.
    memory.write(0xFFFD, 0x21);
    memory.write(0x0021, 0x01);
    cpu.bit_zp(&memory);

    assert!(!cpu.status().zero());
    assert!(!cpu.status().negative());
    assert!(!cpu.status().overflow());
    assert_eq!(cpu.a(), 0x0F);
}

#[test]
fn adc_carries_out_and_wraps() {
    let mut cpu = MOS6502::new();
    let mut memory = Memory::new();
    cpu.reg_a = 0xFF;
    memory.write(0xFFFC, 0x01);

    cpu.adc_im(&memory);

    assert_eq!(cpu.a(), 0x00);
    assert!(cpu.status().carry());
    assert!(cpu.status().zero());
    assert!(!cpu.status().overflow());
}

#[test]
fn adc_adds_carry_in() {
    let mut cpu = MOS6502::new();
    let mut memory = Memory::new();
    cpu.reg_a = 0x01;
    cpu.proc_status.set_carry();
    memory.write(0xFFFC, 0x01);

    cpu.adc_im(&memory);

    assert_eq!(cpu.a(), 0x03);
    assert!(!cpu.status().carry());
}

#[test]
fn adc_is_commutative_in_result_and_carry() {
    let run = |a: u8, m: u8| {
        let mut cpu = MOS6502::new();
        let mut memory = Memory::new();
        cpu.reg_a = a;
        memory.write(0xFFFC, m);
        cpu.adc_im(&memory);
        (cpu.a(), cpu.status().carry(), cpu.status().overflow())
    };
    assert_eq!(run(0x37, 0x8E), run(0x8E, 0x37));
    assert_eq!(run(0xFF, 0x02), run(0x02, 0xFF));
}

#[test]
fn sbc_borrows_across_zero() {
    let mut cpu = MOS6502::new();
    let mut memory = Memory::new();
    cpu.reg_a = 0x10;
    cpu.proc_status.set_carry(); // no borrow pending
    memory.write(0xFFFC, 0x20);

    cpu.sbc_im(&memory);

    assert_eq!(cpu.a(), 0xF0);
    assert!(!cpu.status().carry()); // a borrow occurred
    assert!(cpu.status().negative());
    assert!(!cpu.status().overflow());
}

#[test]
fn sbc_without_carry_subtracts_one_more() {
    let mut cpu = MOS6502::new();
    let mut memory = Memory::new();
    cpu.reg_a = 0x10;
    memory.write(0xFFFC, 0x05);

    cpu.sbc_im(&memory);

    assert_eq!(cpu.a(), 0x0A);
    assert!(cpu.status().carry());
}

#[test]
fn cmp_orders_unsigned() {
    let mut cpu = MOS6502::new();
    let mut memory = Memory::new();
    cpu.reg_a = 0x40;
    memory.write(0xFFFC, 0x30);
    cpu.cmp_im(&memory);
    assert!(cpu.status().carry());
    assert!(!cpu.status().zero());
    assert_eq!(cpu.a(), 0x40);

    memory.write(0xFFFD, 0x50);
    cpu.cmp_im(&memory);
    assert!(!cpu.status().carry());
    assert!(!cpu.status().zero());
    assert!(cpu.status().negative());
}

#[test]
fn cpx_and_cpy_compare_their_registers() {
    let mut cpu = MOS6502::new();
    let mut memory = Memory::new();
    cpu.reg_x = 0x05;
    cpu.reg_y = 0x05;
    memory.write(0xFFFC, 0x05);
    memory.write(0xFFFD, 0x06);

    cpu.cpx_im(&memory);
    assert!(cpu.status().zero());
    assert!(cpu.status().carry());

    cpu.cpy_im(&memory);
    assert!(!cpu.status().zero());
    assert!(!cpu.status().carry());
    assert_eq!(cpu.x(), 0x05);
    assert_eq!(cpu.y(), 0x05);
}

#[test]
fn status_register_bit_accessors() {
    let mut p = ProcessorStatus::new();
    assert_eq!(p.to_byte(), 0x00);

    p.set_carry();
    p.set_zero();
    p.set_interrupt_disable();
    p.set_decimal_mode();
    p.set_break_command();
    p.set_overflow();
    p.set_negative();
    assert!(p.carry() && p.zero() && p.interrupt_disable() && p.decimal_mode());
    assert!(p.break_command() && p.overflow() && p.negative());
    assert_eq!(p.to_byte(), 0xDF); // every named flag; bit 5 stays clear

    p.clear_carry();
    p.clear_zero();
    p.clear_interrupt_disable();
    p.clear_decimal_mode();
    p.clear_break_command();
    p.clear_overflow();
    p.clear_negative();
    assert_eq!(p.to_byte(), 0x00);

    let q = ProcessorStatus::from_byte(0xA5);
    assert_eq!(q.to_byte(), 0xA5);
    assert!(q.carry() && !q.zero() && q.interrupt_disable() && !q.decimal_mode());
    assert!(!q.break_command() && !q.overflow() && q.negative());
}

#[test]
fn memory_starts_zeroed_and_stores_bytes() {
    let mut memory = Memory::new();
    assert_eq!(memory.read(0x0000), 0x00);
    assert_eq!(memory.read(0xFFFF), 0x00);

    memory.write(0x1234, 0x56);
    assert_eq!(memory.read(0x1234), 0x56);
    assert_eq!(memory.read(0x1233), 0x00);
    assert_eq!(memory.read(0x1235), 0x00);
}

#[test]
fn fresh_cpu_matches_reset_state() {
    let cpu = MOS6502::new();
    assert_eq!(cpu.pc(), 0xFFFC);
    assert_eq!(cpu.sp(), 0xFF);
    assert_eq!(cpu.a(), 0x00);
    assert_eq!(cpu.x(), 0x00);
    assert_eq!(cpu.y(), 0x00);
    assert_eq!(cpu.status().to_byte(), 0x00);
}
