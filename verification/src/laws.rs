//! Algebraic laws of the core, proved once and for all states: how the
//! flag update functions behave, how far each instruction moves the
//! program counter, which instructions may touch memory or the registers,
//! and the round-trip laws of the stack group.

use vstd::prelude::*;

use crate::arithmetic::{adc_state, adc_sum, cmp_flags, sign_bit};
use crate::cpu::CpuState;
use crate::dispatch::{is_opcode, step};
use crate::stack::{pha_step, php_step, pla_step, plp_step, stack_addr};
use crate::status::{
    flag, flag_set, with_nz, FLAG_B, FLAG_C, FLAG_D, FLAG_I, FLAG_N, FLAG_U, FLAG_V, FLAG_Z,
};

verus! {

/// The flag masks are nonzero and pairwise disjoint.
pub proof fn lemma_flag_masks()
    by (bit_vector)
    ensures
        FLAG_C != 0 && FLAG_Z != 0 && FLAG_I != 0 && FLAG_D != 0,
        FLAG_B != 0 && FLAG_U != 0 && FLAG_V != 0 && FLAG_N != 0,
        FLAG_C & FLAG_Z == 0 && FLAG_Z & FLAG_C == 0,
        FLAG_C & FLAG_N == 0 && FLAG_N & FLAG_C == 0,
        FLAG_Z & FLAG_N == 0 && FLAG_N & FLAG_Z == 0,
        FLAG_V & FLAG_C == 0 && FLAG_C & FLAG_V == 0,
        FLAG_V & FLAG_Z == 0 && FLAG_Z & FLAG_V == 0,
        FLAG_V & FLAG_N == 0 && FLAG_N & FLAG_V == 0,
        FLAG_B & FLAG_U == 0 && FLAG_U & FLAG_B == 0,
{
}

/// Forcing the bits of `mask` leaves every flag outside `mask` alone.
pub proof fn lemma_flag_set_other(p: u8, mask: u8, on: bool, other: u8)
    by (bit_vector)
    requires
        mask & other == 0,
    ensures
        flag(flag_set(p, mask, on), other) == flag(p, other),
{
}

/// Forcing a nonzero mask to `on` makes its flag read exactly `on`.
pub proof fn lemma_flag_set_same(p: u8, mask: u8, on: bool)
    by (bit_vector)
    requires
        mask != 0,
    ensures
        flag(flag_set(p, mask, on), mask) == on,
{
}

/// After a result byte `v` is produced, Z holds exactly when `v` is zero,
/// N holds exactly when bit 7 of `v` is set, and the C, I, D, B and V
/// flags keep their old values.
pub proof fn lemma_with_nz(p: u8, v: u8)
    by (bit_vector)
    ensures
        flag(with_nz(p, v), FLAG_Z) == (v == 0),
        flag(with_nz(p, v), FLAG_N) == (v & 0x80 != 0),
        flag(with_nz(p, v), FLAG_C) == flag(p, FLAG_C),
        flag(with_nz(p, v), FLAG_I) == flag(p, FLAG_I),
        flag(with_nz(p, v), FLAG_D) == flag(p, FLAG_D),
        flag(with_nz(p, v), FLAG_B) == flag(p, FLAG_B),
        flag(with_nz(p, v), FLAG_V) == flag(p, FLAG_V),
{
}

/// The number of bytes the instruction encoded by `op` occupies: the
/// opcode byte plus its operand bytes.  An unrecognized opcode occupies
/// exactly its own byte, like the one-byte instructions.
pub open spec fn instr_len(op: u8) -> u16 {
    match op {
        // Two-byte forms: immediate, zero page, zero page indexed,
        // indexed indirect and indirect indexed.
        0xA9 | 0xA5 | 0xB5 | 0xA1 | 0xB1 | 0xA2 | 0xA6 | 0xB6 | 0xA0 | 0xA4 | 0xB4 => 2,
        0x85 | 0x95 | 0x81 | 0x91 | 0x86 | 0x96 | 0x84 | 0x94 => 2,
        0x29 | 0x25 | 0x35 | 0x21 | 0x31 | 0x49 | 0x45 | 0x55 | 0x41 | 0x51 => 2,
        0x09 | 0x05 | 0x15 | 0x01 | 0x11 | 0x24 => 2,
        0x69 | 0x65 | 0x75 | 0x61 | 0x71 | 0xE9 | 0xE5 | 0xF5 | 0xE1 | 0xF1 => 2,
        0xC9 | 0xC5 | 0xD5 | 0xC1 | 0xD1 | 0xE0 | 0xE4 | 0xC0 | 0xC4 => 2,
        // Three-byte forms: the absolute modes.
        0xAD | 0xBD | 0xB9 | 0xAE | 0xBE | 0xAC | 0xBC => 3,
        0x8D | 0x9D | 0x99 | 0x8E | 0x8C => 3,
        0x2D | 0x3D | 0x39 | 0x4D | 0x5D | 0x59 | 0x0D | 0x1D | 0x19 | 0x2C => 3,
        0x6D | 0x7D | 0x79 | 0xED | 0xFD | 0xF9 | 0xCD | 0xDD | 0xD9 | 0xEC | 0xCC => 3,
        // One-byte forms: transfers and stack operations.
        _ => 1,
    }
}

/// Chained wrapping increments of the program counter collapse to one
/// wrapping addition.
proof fn lemma_pc_chain(pc: u16)
    ensures
        pc.wrapping_add(1).wrapping_add(1) == pc.wrapping_add(2),
        pc.wrapping_add(1).wrapping_add(2) == pc.wrapping_add(3),
{
}

/// Every step advances the program counter by exactly the length of the
/// instruction it executed: one byte for the opcode plus its operand
/// bytes, and one byte alone for an unrecognized opcode.
#[verifier::rlimit(100)]
pub proof fn lemma_pc_advance(s: CpuState, m: Seq<u8>)
    ensures
        step(s, m).s.pc == s.pc.wrapping_add(instr_len(m[s.pc as int])),
{
    lemma_pc_chain(s.pc);
}

/// An unrecognized opcode is recoverable: the step consumes the opcode
/// byte, charges no cycles beyond its fetch, and changes nothing else.
#[verifier::rlimit(100)]
pub proof fn lemma_unknown_opcode(s: CpuState, m: Seq<u8>)
    requires
        !is_opcode(m[s.pc as int]),
    ensures
        step(s, m).s == (CpuState { pc: s.pc.wrapping_add(1), ..s }),
        step(s, m).m == m,
        step(s, m).cycles == 0,
{
}

/// Whether the instruction encoded by `op` belongs to the store or push
/// group, the only instructions that write memory.
pub open spec fn writes_memory(op: u8) -> bool {
    match op {
        0x85 | 0x95 | 0x8D | 0x9D | 0x99 | 0x81 | 0x91 => true,  // STA
        0x86 | 0x96 | 0x8E => true,  // STX
        0x84 | 0x94 | 0x8C => true,  // STY
        0x48 | 0x08 => true,  // PHA, PHP
        _ => false,
    }
}

/// No instruction outside the store and push group modifies memory; an
/// unrecognized opcode leaves it alone too.
#[verifier::rlimit(100)]
pub proof fn lemma_memory_preserved(s: CpuState, m: Seq<u8>)
    requires
        !writes_memory(m[s.pc as int]),
    ensures
        step(s, m).m == m,
{
}

/// Whether the instruction encoded by `op` is a comparison or a BIT test.
pub open spec fn is_compare_or_bit(op: u8) -> bool {
    match op {
        0xC9 | 0xC5 | 0xD5 | 0xCD | 0xDD | 0xD9 | 0xC1 | 0xD1 => true,  // CMP
        0xE0 | 0xE4 | 0xEC => true,  // CPX
        0xC0 | 0xC4 | 0xCC => true,  // CPY
        0x24 | 0x2C => true,  // BIT
        _ => false,
    }
}

/// Comparisons and the BIT test modify no register but the program
/// counter and the status byte.
#[verifier::rlimit(100)]
pub proof fn lemma_compare_preserves_registers(s: CpuState, m: Seq<u8>)
    requires
        is_compare_or_bit(m[s.pc as int]),
    ensures
        step(s, m).s.a == s.a,
        step(s, m).s.x == s.x,
        step(s, m).s.y == s.y,
        step(s, m).s.sp == s.sp,
{
}

/// The stack pointer moves by exactly one on every stack operation, and
/// it wraps at both ends of its range.
pub proof fn lemma_sp_wrapping(s: CpuState, m: Seq<u8>)
    ensures
        pha_step(s, m).s.sp == s.sp.wrapping_sub(1),
        php_step(s, m).s.sp == s.sp.wrapping_sub(1),
        pla_step(s, m).s.sp == s.sp.wrapping_add(1),
        plp_step(s, m).s.sp == s.sp.wrapping_add(1),
        s.sp == 0x00 ==> pha_step(s, m).s.sp == 0xFF,
        s.sp == 0xFF ==> pla_step(s, m).s.sp == 0x00,
{
}

/// The byte PHP pushes carries the break flag and the reserved bit set;
/// the status register PLP loads reads both as clear whatever byte sits
/// on the stack.
pub proof fn lemma_php_plp_b_bits(s: CpuState, m: Seq<u8>)
    requires
        m.len() == 0x10000,
    ensures
        flag(php_step(s, m).m[stack_addr(s.sp) as int], FLAG_B),
        flag(php_step(s, m).m[stack_addr(s.sp) as int], FLAG_U),
        !flag(plp_step(s, m).s.p, FLAG_B),
        !flag(plp_step(s, m).s.p, FLAG_U),
{
    let b = m[stack_addr(s.sp.wrapping_add(1)) as int];
    assert(forall|v: u8| (#[trigger] (v | (FLAG_B | FLAG_U))) & FLAG_B != 0 && (v | (FLAG_B
        | FLAG_U)) & FLAG_U != 0) by (bit_vector);
    assert(forall|v: u8| (#[trigger] (v & !(FLAG_B | FLAG_U))) & FLAG_B == 0 && (v & !(FLAG_B
        | FLAG_U)) & FLAG_U == 0) by (bit_vector);
    assert((s.p | (FLAG_B | FLAG_U)) & FLAG_B != 0);
    assert((b & !(FLAG_B | FLAG_U)) & FLAG_B == 0);
    assert((b & !(FLAG_B | FLAG_U)) & FLAG_U == 0);
}

/// PHA then PLA: A, SP, the program counter and every flag source return
/// to their old values, Z and N come to reflect A, and the only memory
/// change is the stack byte PHA wrote.
pub proof fn lemma_pha_pla(s: CpuState, m: Seq<u8>)
    requires
        m.len() == 0x10000,
    ensures
        ({
            let t1 = pha_step(s, m);
            let t2 = pla_step(t1.s, t1.m);
            &&& t2.s.a == s.a
            &&& t2.s.sp == s.sp
            &&& t2.s.p == with_nz(s.p, s.a)
            &&& t2.s.pc == s.pc
            &&& t2.s.x == s.x
            &&& t2.s.y == s.y
            &&& t2.m == m.update(stack_addr(s.sp) as int, s.a)
        }),
{
}

/// PHP then PLP: the C, Z, I, D, V and N flags round-trip, and the stack
/// pointer returns to its old value.  B and the reserved bit are not
/// required to round-trip: PLP reads them as clear.
pub proof fn lemma_php_plp(s: CpuState, m: Seq<u8>)
    requires
        m.len() == 0x10000,
    ensures
        ({
            let t1 = php_step(s, m);
            let t2 = plp_step(t1.s, t1.m);
            &&& flag(t2.s.p, FLAG_C) == flag(s.p, FLAG_C)
            &&& flag(t2.s.p, FLAG_Z) == flag(s.p, FLAG_Z)
            &&& flag(t2.s.p, FLAG_I) == flag(s.p, FLAG_I)
            &&& flag(t2.s.p, FLAG_D) == flag(s.p, FLAG_D)
            &&& flag(t2.s.p, FLAG_V) == flag(s.p, FLAG_V)
            &&& flag(t2.s.p, FLAG_N) == flag(s.p, FLAG_N)
            &&& t2.s.sp == s.sp
        }),
{
    assert(forall|v: u8| {
        let w = (#[trigger] (v | (FLAG_B | FLAG_U))) & !(FLAG_B | FLAG_U);
        w & FLAG_C == v & FLAG_C && w & FLAG_Z == v & FLAG_Z && w & FLAG_I == v & FLAG_I
            && w & FLAG_D == v & FLAG_D && w & FLAG_V == v & FLAG_V && w & FLAG_N == v & FLAG_N
    }) by (bit_vector);
}

/// ADC is commutative in the accumulator and the operand: swapping them
/// gives the same result byte, the same carry and the same overflow flag.
pub proof fn lemma_adc_commutative(s: CpuState, value: u8)
    ensures
        ({
            let swapped = CpuState { a: value, ..s };
            &&& adc_state(s, value).a == adc_state(swapped, s.a).a
            &&& flag(adc_state(s, value).p, FLAG_C) == flag(adc_state(swapped, s.a).p, FLAG_C)
            &&& flag(adc_state(s, value).p, FLAG_V) == flag(adc_state(swapped, s.a).p, FLAG_V)
        }),
{
    let swapped = CpuState { a: value, ..s };
    lemma_flag_masks();
    let sum = adc_sum(s.a, value, flag(s.p, FLAG_C));
    let result = (sum % 256) as u8;
    let p1 = flag_set(s.p, FLAG_C, sum > 0xFF);
    let v1 = sign_bit(s.a) == sign_bit(value) && sign_bit(s.a) != sign_bit(result);
    let v2 = sign_bit(value) == sign_bit(s.a) && sign_bit(value) != sign_bit(result);
    assert(v1 == v2);
    lemma_with_nz(flag_set(p1, FLAG_V, v1), result);
    lemma_with_nz(flag_set(p1, FLAG_V, v2), result);
    lemma_flag_set_other(p1, FLAG_V, v1, FLAG_C);
    lemma_flag_set_other(p1, FLAG_V, v2, FLAG_C);
    lemma_flag_set_same(p1, FLAG_V, v1);
    lemma_flag_set_same(p1, FLAG_V, v2);
}

/// The overflow flag ADC produces is a function of the sign bits of the
/// accumulator, the operand and the result byte alone.
pub proof fn lemma_adc_overflow_signs(s: CpuState, value: u8)
    ensures
        ({
            let sum = adc_sum(s.a, value, flag(s.p, FLAG_C));
            let result = (sum % 256) as u8;
            flag(adc_state(s, value).p, FLAG_V) == (sign_bit(s.a) == sign_bit(value)
                && sign_bit(s.a) != sign_bit(result))
        }),
{
    lemma_flag_masks();
    let sum = adc_sum(s.a, value, flag(s.p, FLAG_C));
    let result = (sum % 256) as u8;
    let p1 = flag_set(s.p, FLAG_C, sum > 0xFF);
    let v = sign_bit(s.a) == sign_bit(value) && sign_bit(s.a) != sign_bit(result);
    lemma_with_nz(flag_set(p1, FLAG_V, v), result);
    lemma_flag_set_same(p1, FLAG_V, v);
}

/// The logical identities with their flags: `A AND 0` is zero with Z set
/// and N clear, `A OR 0` returns A, and `A XOR A` is zero, each time with
/// Z and N reflecting the result byte.
pub proof fn lemma_logical_identities(p: u8, a: u8)
    ensures
        a & 0 == 0,
        a | 0 == a,
        a ^ a == 0,
        flag(with_nz(p, a & 0), FLAG_Z),
        !flag(with_nz(p, a & 0), FLAG_N),
        flag(with_nz(p, a | 0), FLAG_Z) == (a == 0),
        flag(with_nz(p, a | 0), FLAG_N) == (a & 0x80 != 0),
        flag(with_nz(p, a ^ a), FLAG_Z),
        !flag(with_nz(p, a ^ a), FLAG_N),
{
    assert(a & 0 == 0 && a | 0 == a && a ^ a == 0 && 0u8 & 0x80 == 0) by (bit_vector);
    lemma_with_nz(p, 0);
    lemma_with_nz(p, a);
}

/// Comparing a register with itself sets Z and C and clears N.
pub proof fn lemma_cmp_equal(p: u8, a: u8)
    ensures
        flag(cmp_flags(p, a, a), FLAG_Z),
        flag(cmp_flags(p, a, a), FLAG_C),
        !flag(cmp_flags(p, a, a), FLAG_N),
{
    lemma_flag_masks();
    assert(a.wrapping_sub(a) == 0);
    assert(0u8 & FLAG_N == 0) by (bit_vector);
    let p1 = flag_set(p, FLAG_C, true);
    let p2 = flag_set(p1, FLAG_Z, true);
    let p3 = flag_set(p2, FLAG_N, false);
    lemma_flag_set_same(p2, FLAG_N, false);
    lemma_flag_set_same(p1, FLAG_Z, true);
    lemma_flag_set_other(p2, FLAG_N, false, FLAG_Z);
    lemma_flag_set_same(p, FLAG_C, true);
    lemma_flag_set_other(p1, FLAG_Z, true, FLAG_C);
    lemma_flag_set_other(p2, FLAG_N, false, FLAG_C);
}

} // verus!
