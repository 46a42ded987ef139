//! The decode-and-dispatch loop, and the specification-level interpreter
//! it is proved to refine.

use vstd::prelude::*;

use crate::addressing::Mode;
use crate::arithmetic::{adc_step, cp_step, sbc_step};
use crate::cpu::{CpuState, Reg, Step, MOS6502};
use crate::load::ld_step;
use crate::logical::{and_step, bit_step, eor_step, ora_step};
use crate::memory::Memory;
use crate::stack::{pha_step, php_step, pla_step, plp_step};
use crate::store::st_step;
use crate::transfer::{tax_state, tay_state, tsx_state, txa_state, txs_state, tya_state};

verus! {

/// Whether the byte `op` encodes an instruction of this core.
pub open spec fn is_opcode(op: u8) -> bool {
    match op {
        0x01 | 0x05 | 0x08 | 0x09 | 0x0D | 0x11 | 0x15 | 0x19 |
        0x1D | 0x21 | 0x24 | 0x25 | 0x28 | 0x29 | 0x2C | 0x2D |
        0x31 | 0x35 | 0x39 | 0x3D | 0x41 | 0x45 | 0x48 | 0x49 |
        0x4D | 0x51 | 0x55 | 0x59 | 0x5D | 0x61 | 0x65 | 0x68 |
        0x69 | 0x6D | 0x71 | 0x75 | 0x79 | 0x7D | 0x81 | 0x84 |
        0x85 | 0x86 | 0x8A | 0x8C | 0x8D | 0x8E | 0x91 | 0x94 |
        0x95 | 0x96 | 0x98 | 0x99 | 0x9A | 0x9D | 0xA0 | 0xA1 |
        0xA2 | 0xA4 | 0xA5 | 0xA6 | 0xA8 | 0xA9 | 0xAA | 0xAC |
        0xAD | 0xAE | 0xB1 | 0xB4 | 0xB5 | 0xB6 | 0xB9 | 0xBA |
        0xBC | 0xBD | 0xBE | 0xC0 | 0xC1 | 0xC4 | 0xC5 | 0xC9 |
        0xCC | 0xCD | 0xD1 | 0xD5 | 0xD9 | 0xDD | 0xE0 | 0xE1 |
        0xE4 | 0xE5 | 0xE9 | 0xEC | 0xED | 0xF1 | 0xF5 | 0xF9 |
        0xFD => true,
        _ => false,
    }
}

/// The effect of the instruction encoded by `op`, in a state whose
/// program counter is already past the opcode byte.  An unrecognized
/// opcode changes nothing and charges no further cycles.
pub open spec fn instr_step(op: u8, s: CpuState, m: Seq<u8>) -> Step {
    match op {
        0x01 => ora_step(s, m, Mode::Indx),  // ORA Indx
        0x05 => ora_step(s, m, Mode::Zp),  // ORA Zp
        0x08 => php_step(s, m),  // PHP
        0x09 => ora_step(s, m, Mode::Im),  // ORA Im
        0x0D => ora_step(s, m, Mode::Abs),  // ORA Abs
        0x11 => ora_step(s, m, Mode::Indy),  // ORA Indy
        0x15 => ora_step(s, m, Mode::Zpx),  // ORA Zpx
        0x19 => ora_step(s, m, Mode::Absy),  // ORA Absy
        0x1D => ora_step(s, m, Mode::Absx),  // ORA Absx
        0x21 => and_step(s, m, Mode::Indx),  // AND Indx
        0x24 => bit_step(s, m, Mode::Zp),  // BIT Zp
        0x25 => and_step(s, m, Mode::Zp),  // AND Zp
        0x28 => plp_step(s, m),  // PLP
        0x29 => and_step(s, m, Mode::Im),  // AND Im
        0x2C => bit_step(s, m, Mode::Abs),  // BIT Abs
        0x2D => and_step(s, m, Mode::Abs),  // AND Abs
        0x31 => and_step(s, m, Mode::Indy),  // AND Indy
        0x35 => and_step(s, m, Mode::Zpx),  // AND Zpx
        0x39 => and_step(s, m, Mode::Absy),  // AND Absy
        0x3D => and_step(s, m, Mode::Absx),  // AND Absx
        0x41 => eor_step(s, m, Mode::Indx),  // EOR Indx
        0x45 => eor_step(s, m, Mode::Zp),  // EOR Zp
        0x48 => pha_step(s, m),  // PHA
        0x49 => eor_step(s, m, Mode::Im),  // EOR Im
        0x4D => eor_step(s, m, Mode::Abs),  // EOR Abs
        0x51 => eor_step(s, m, Mode::Indy),  // EOR Indy
        0x55 => eor_step(s, m, Mode::Zpx),  // EOR Zpx
        0x59 => eor_step(s, m, Mode::Absy),  // EOR Absy
        0x5D => eor_step(s, m, Mode::Absx),  // EOR Absx
        0x61 => adc_step(s, m, Mode::Indx),  // ADC Indx
        0x65 => adc_step(s, m, Mode::Zp),  // ADC Zp
        0x68 => pla_step(s, m),  // PLA
        0x69 => adc_step(s, m, Mode::Im),  // ADC Im
        0x6D => adc_step(s, m, Mode::Abs),  // ADC Abs
        0x71 => adc_step(s, m, Mode::Indy),  // ADC Indy
        0x75 => adc_step(s, m, Mode::Zpx),  // ADC Zpx
        0x79 => adc_step(s, m, Mode::Absy),  // ADC Absy
        0x7D => adc_step(s, m, Mode::Absx),  // ADC Absx
        0x81 => st_step(s, m, Mode::Indx, Reg::A),  // STA Indx
        0x84 => st_step(s, m, Mode::Zp, Reg::Y),  // STY Zp
        0x85 => st_step(s, m, Mode::Zp, Reg::A),  // STA Zp
        0x86 => st_step(s, m, Mode::Zp, Reg::X),  // STX Zp
        0x8A => Step { s: txa_state(s), m: m, cycles: 1 },  // TXA
        0x8C => st_step(s, m, Mode::Abs, Reg::Y),  // STY Abs
        0x8D => st_step(s, m, Mode::Abs, Reg::A),  // STA Abs
        0x8E => st_step(s, m, Mode::Abs, Reg::X),  // STX Abs
        0x91 => st_step(s, m, Mode::Indy, Reg::A),  // STA Indy
        0x94 => st_step(s, m, Mode::Zpx, Reg::Y),  // STY Zpx
        0x95 => st_step(s, m, Mode::Zpx, Reg::A),  // STA Zpx
        0x96 => st_step(s, m, Mode::Zpy, Reg::X),  // STX Zpy
        0x98 => Step { s: tya_state(s), m: m, cycles: 1 },  // TYA
        0x99 => st_step(s, m, Mode::Absy, Reg::A),  // STA Absy
        0x9A => Step { s: txs_state(s), m: m, cycles: 1 },  // TXS
        0x9D => st_step(s, m, Mode::Absx, Reg::A),  // STA Absx
        0xA0 => ld_step(s, m, Mode::Im, Reg::Y),  // LDY Im
        0xA1 => ld_step(s, m, Mode::Indx, Reg::A),  // LDA Indx
        0xA2 => ld_step(s, m, Mode::Im, Reg::X),  // LDX Im
        0xA4 => ld_step(s, m, Mode::Zp, Reg::Y),  // LDY Zp
        0xA5 => ld_step(s, m, Mode::Zp, Reg::A),  // LDA Zp
        0xA6 => ld_step(s, m, Mode::Zp, Reg::X),  // LDX Zp
        0xA8 => Step { s: tay_state(s), m: m, cycles: 1 },  // TAY
        0xA9 => ld_step(s, m, Mode::Im, Reg::A),  // LDA Im
        0xAA => Step { s: tax_state(s), m: m, cycles: 1 },  // TAX
        0xAC => ld_step(s, m, Mode::Abs, Reg::Y),  // LDY Abs
        0xAD => ld_step(s, m, Mode::Abs, Reg::A),  // LDA Abs
        0xAE => ld_step(s, m, Mode::Abs, Reg::X),  // LDX Abs
        0xB1 => ld_step(s, m, Mode::Indy, Reg::A),  // LDA Indy
        0xB4 => ld_step(s, m, Mode::Zpx, Reg::Y),  // LDY Zpx
        0xB5 => ld_step(s, m, Mode::Zpx, Reg::A),  // LDA Zpx
        0xB6 => ld_step(s, m, Mode::Zpy, Reg::X),  // LDX Zpy
        0xB9 => ld_step(s, m, Mode::Absy, Reg::A),  // LDA Absy
        0xBA => Step { s: tsx_state(s), m: m, cycles: 1 },  // TSX
        0xBC => ld_step(s, m, Mode::Absx, Reg::Y),  // LDY Absx
        0xBD => ld_step(s, m, Mode::Absx, Reg::A),  // LDA Absx
        0xBE => ld_step(s, m, Mode::Absy, Reg::X),  // LDX Absy
        0xC0 => cp_step(s, m, Mode::Im, Reg::Y),  // CPY Im
        0xC1 => cp_step(s, m, Mode::Indx, Reg::A),  // CMP Indx
        0xC4 => cp_step(s, m, Mode::Zp, Reg::Y),  // CPY Zp
        0xC5 => cp_step(s, m, Mode::Zp, Reg::A),  // CMP Zp
        0xC9 => cp_step(s, m, Mode::Im, Reg::A),  // CMP Im
        0xCC => cp_step(s, m, Mode::Abs, Reg::Y),  // CPY Abs
        0xCD => cp_step(s, m, Mode::Abs, Reg::A),  // CMP Abs
        0xD1 => cp_step(s, m, Mode::Indy, Reg::A),  // CMP Indy
        0xD5 => cp_step(s, m, Mode::Zpx, Reg::A),  // CMP Zpx
        0xD9 => cp_step(s, m, Mode::Absy, Reg::A),  // CMP Absy
        0xDD => cp_step(s, m, Mode::Absx, Reg::A),  // CMP Absx
        0xE0 => cp_step(s, m, Mode::Im, Reg::X),  // CPX Im
        0xE1 => sbc_step(s, m, Mode::Indx),  // SBC Indx
        0xE4 => cp_step(s, m, Mode::Zp, Reg::X),  // CPX Zp
        0xE5 => sbc_step(s, m, Mode::Zp),  // SBC Zp
        0xE9 => sbc_step(s, m, Mode::Im),  // SBC Im
        0xEC => cp_step(s, m, Mode::Abs, Reg::X),  // CPX Abs
        0xED => sbc_step(s, m, Mode::Abs),  // SBC Abs
        0xF1 => sbc_step(s, m, Mode::Indy),  // SBC Indy
        0xF5 => sbc_step(s, m, Mode::Zpx),  // SBC Zpx
        0xF9 => sbc_step(s, m, Mode::Absy),  // SBC Absy
        0xFD => sbc_step(s, m, Mode::Absx),  // SBC Absx
        _ => Step { s: s, m: m, cycles: 0 },
    }
}

/// One step of the interpreter: fetch the opcode at the program counter,
/// advance past it, and apply the instruction's effect.  The returned
/// cycle count excludes the one cycle the opcode fetch itself costs.
pub open spec fn step(s: CpuState, m: Seq<u8>) -> Step {
    let op = m[s.pc as int];
    let s1 = CpuState { pc: s.pc.wrapping_add(1), ..s };
    instr_step(op, s1, m)
}

/// The state and memory after running with the cycle budget `budget`:
/// instructions execute until the budget is exhausted.  Each step debits
/// one cycle for the opcode fetch plus the instruction's own cycles; an
/// instruction that would exceed the remaining budget still completes.
pub open spec fn run(s: CpuState, m: Seq<u8>, budget: nat) -> (CpuState, Seq<u8>)
    decreases budget,
{
    if budget == 0 {
        (s, m)
    } else {
        let t = step(s, m);
        let spent: int = 1 + t.cycles;
        let left: nat = if budget >= spent {
            (budget - spent) as nat
        } else {
            0
        };
        run(t.s, t.m, left)
    }
}

/// The processor interface a host driver sees: fetching through the
/// program counter, plain reads, and the budgeted decode-and-execute
/// loop.  Every method carries the same contract the 6502 implementation
/// is proved against, stated over the implementor's architectural state.
pub trait CPU {
    /// The architectural state the implementor exposes.
    spec fn st(&self) -> CpuState;

    /// Fetches the byte the program counter points at and post-increments
    /// the program counter, wrapping modulo 2^16.
    fn fetch(&mut self, memory: &Memory) -> (r: u8)
        ensures
            r == memory@[old(self).st().pc as int],
            final(self).st() == (CpuState {
                pc: old(self).st().pc.wrapping_add(1),
                ..old(self).st()
            }),
    ;

    /// Reads the byte at `address`.
    fn read(&self, address: u16, memory: &Memory) -> (r: u8)
        ensures
            r == memory@[address as int],
    ;

    /// Runs instructions against `memory` until the cycle budget is
    /// exhausted, exactly as the interpreter `run` describes.
    fn execute(&mut self, cycles: u32, memory: &mut Memory)
        ensures
            ({
                let r = run(old(self).st(), old(memory)@, cycles as nat);
                final(self).st() == r.0 && final(memory)@ == r.1
            }),
    ;
}

impl CPU for MOS6502 {
    open spec fn st(&self) -> CpuState {
        self@
    }

    fn fetch(&mut self, memory: &Memory) -> (r: u8) {
        MOS6502::fetch(self, memory)
    }

    fn read(&self, address: u16, memory: &Memory) -> (r: u8) {
        MOS6502::read(self, address, memory)
    }

    fn execute(&mut self, cycles: u32, memory: &mut Memory) {
        MOS6502::execute(self, cycles, memory)
    }
}

impl MOS6502 {
    /// Runs instructions against `memory` until the cycle budget is
    /// exhausted, exactly as the interpreter `run` describes.  Each
    /// opcode fetch debits one cycle; a recognized instruction then
    /// debits its own cycle count, completing even when that overdraws
    /// the budget; an unrecognized opcode costs only its fetch and is
    /// skipped.
    #[verifier::rlimit(100)]
    pub fn execute(&mut self, cycles: u32, memory: &mut Memory)
        ensures
            ({
                let r = run(old(self)@, old(memory)@, cycles as nat);
                final(self)@ == r.0 && final(memory)@ == r.1
            }),
    {
        let mut cycles = cycles;
        let ghost start = self@;
        let ghost start_mem = memory@;
        let ghost budget = cycles as nat;
        while cycles > 0
            invariant
                run(start, start_mem, budget) == run(self@, memory@, cycles as nat),
            decreases cycles,
        {
            let instruction: u8 = self.fetch(memory);
            cycles = cycles - 1;
            let spent: u32 = match instruction {
                0x01 => self.ora_indx(memory),  // ORA Indx
                0x05 => self.ora_zp(memory),  // ORA Zp
                0x08 => self.php(memory),  // PHP
                0x09 => self.ora_im(memory),  // ORA Im
                0x0D => self.ora_abs(memory),  // ORA Abs
                0x11 => self.ora_indy(memory),  // ORA Indy
                0x15 => self.ora_zpx(memory),  // ORA Zpx
                0x19 => self.ora_absy(memory),  // ORA Absy
                0x1D => self.ora_absx(memory),  // ORA Absx
                0x21 => self.and_indx(memory),  // AND Indx
                0x24 => self.bit_zp(memory),  // BIT Zp
                0x25 => self.and_zp(memory),  // AND Zp
                0x28 => self.plp(memory),  // PLP
                0x29 => self.and_im(memory),  // AND Im
                0x2C => self.bit_abs(memory),  // BIT Abs
                0x2D => self.and_abs(memory),  // AND Abs
                0x31 => self.and_indy(memory),  // AND Indy
                0x35 => self.and_zpx(memory),  // AND Zpx
                0x39 => self.and_absy(memory),  // AND Absy
                0x3D => self.and_absx(memory),  // AND Absx
                0x41 => self.eor_indx(memory),  // EOR Indx
                0x45 => self.eor_zp(memory),  // EOR Zp
                0x48 => self.pha(memory),  // PHA
                0x49 => self.eor_im(memory),  // EOR Im
                0x4D => self.eor_abs(memory),  // EOR Abs
                0x51 => self.eor_indy(memory),  // EOR Indy
                0x55 => self.eor_zpx(memory),  // EOR Zpx
                0x59 => self.eor_absy(memory),  // EOR Absy
                0x5D => self.eor_absx(memory),  // EOR Absx
                0x61 => self.adc_indx(memory),  // ADC Indx
                0x65 => self.adc_zp(memory),  // ADC Zp
                0x68 => self.pla(memory),  // PLA
                0x69 => self.adc_im(memory),  // ADC Im
                0x6D => self.adc_abs(memory),  // ADC Abs
                0x71 => self.adc_indy(memory),  // ADC Indy
                0x75 => self.adc_zpx(memory),  // ADC Zpx
                0x79 => self.adc_absy(memory),  // ADC Absy
                0x7D => self.adc_absx(memory),  // ADC Absx
                0x81 => self.sta_indx(memory),  // STA Indx
                0x84 => self.sty_zp(memory),  // STY Zp
                0x85 => self.sta_zp(memory),  // STA Zp
                0x86 => self.stx_zp(memory),  // STX Zp
                0x8A => self.txa(),  // TXA
                0x8C => self.sty_abs(memory),  // STY Abs
                0x8D => self.sta_abs(memory),  // STA Abs
                0x8E => self.stx_abs(memory),  // STX Abs
                0x91 => self.sta_indy(memory),  // STA Indy
                0x94 => self.sty_zpx(memory),  // STY Zpx
                0x95 => self.sta_zpx(memory),  // STA Zpx
                0x96 => self.stx_zpy(memory),  // STX Zpy
                0x98 => self.tya(),  // TYA
                0x99 => self.sta_absy(memory),  // STA Absy
                0x9A => self.txs(),  // TXS
                0x9D => self.sta_absx(memory),  // STA Absx
                0xA0 => self.ldy_im(memory),  // LDY Im
                0xA1 => self.lda_indx(memory),  // LDA Indx
                0xA2 => self.ldx_im(memory),  // LDX Im
                0xA4 => self.ldy_zp(memory),  // LDY Zp
                0xA5 => self.lda_zp(memory),  // LDA Zp
                0xA6 => self.ldx_zp(memory),  // LDX Zp
                0xA8 => self.tay(),  // TAY
                0xA9 => self.lda_im(memory),  // LDA Im
                0xAA => self.tax(),  // TAX
                0xAC => self.ldy_abs(memory),  // LDY Abs
                0xAD => self.lda_abs(memory),  // LDA Abs
                0xAE => self.ldx_abs(memory),  // LDX Abs
                0xB1 => self.lda_indy(memory),  // LDA Indy
                0xB4 => self.ldy_zpx(memory),  // LDY Zpx
                0xB5 => self.lda_zpx(memory),  // LDA Zpx
                0xB6 => self.ldx_zpy(memory),  // LDX Zpy
                0xB9 => self.lda_absy(memory),  // LDA Absy
                0xBA => self.tsx(),  // TSX
                0xBC => self.ldy_absx(memory),  // LDY Absx
                0xBD => self.lda_absx(memory),  // LDA Absx
                0xBE => self.ldx_absy(memory),  // LDX Absy
                0xC0 => self.cpy_im(memory),  // CPY Im
                0xC1 => self.cmp_indx(memory),  // CMP Indx
                0xC4 => self.cpy_zp(memory),  // CPY Zp
                0xC5 => self.cmp_zp(memory),  // CMP Zp
                0xC9 => self.cmp_im(memory),  // CMP Im
                0xCC => self.cpy_abs(memory),  // CPY Abs
                0xCD => self.cmp_abs(memory),  // CMP Abs
                0xD1 => self.cmp_indy(memory),  // CMP Indy
                0xD5 => self.cmp_zpx(memory),  // CMP Zpx
                0xD9 => self.cmp_absy(memory),  // CMP Absy
                0xDD => self.cmp_absx(memory),  // CMP Absx
                0xE0 => self.cpx_im(memory),  // CPX Im
                0xE1 => self.sbc_indx(memory),  // SBC Indx
                0xE4 => self.cpx_zp(memory),  // CPX Zp
                0xE5 => self.sbc_zp(memory),  // SBC Zp
                0xE9 => self.sbc_im(memory),  // SBC Im
                0xEC => self.cpx_abs(memory),  // CPX Abs
                0xED => self.sbc_abs(memory),  // SBC Abs
                0xF1 => self.sbc_indy(memory),  // SBC Indy
                0xF5 => self.sbc_zpx(memory),  // SBC Zpx
                0xF9 => self.sbc_absy(memory),  // SBC Absy
                0xFD => self.sbc_absx(memory),  // SBC Absx
                _ => 0,
            };
            cycles = if spent > cycles {
                0
            } else {
                cycles - spent
            };
        }
    }
}

} // verus!
