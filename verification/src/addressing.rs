//! The addressing-mode resolver.
//!
//! Each mode consumes zero, one or two operand bytes through the program
//! counter and yields either the operand value (for reads) or an effective
//! address (for stores), together with the mode's non-fetch cycle count.

use vstd::prelude::*;

use crate::cpu::{CpuState, MOS6502};
use crate::memory::Memory;

verus! {

/// The nine addressing modes of this core.
#[derive(Copy, Clone)]
pub enum Mode {
    /// Immediate: the operand byte is the value.
    Im,
    /// Zero page: a one-byte address into page zero.
    Zp,
    /// Zero page indexed by X, wrapping within page zero.
    Zpx,
    /// Zero page indexed by Y, wrapping within page zero.
    Zpy,
    /// Absolute: a two-byte little-endian address.
    Abs,
    /// Absolute indexed by X.
    Absx,
    /// Absolute indexed by Y.
    Absy,
    /// Indexed indirect: a zero-page pointer found at `operand + X`.
    Indx,
    /// Indirect indexed: a zero-page pointer at `operand`, then add Y.
    Indy,
}

/// A resolved read operand: the value, the program counter after the
/// operand bytes, and the mode's non-fetch cycle count.
pub ghost struct ReadOperand {
    pub value: u8,
    pub pc: u16,
    pub cycles: u32,
}

/// A resolved store target: the effective address, the program counter
/// after the operand bytes, and the mode's non-fetch cycle count.
pub ghost struct StoreTarget {
    pub addr: u16,
    pub pc: u16,
    pub cycles: u32,
}

/// Whether `base` and `eff` lie on different 256-byte pages.
pub open spec fn page_crossed(base: u16, eff: u16) -> bool {
    base & 0xFF00 != eff & 0xFF00
}

/// The two-byte little-endian address following the opcode.
pub open spec fn abs_operand(m: Seq<u8>, pc: u16) -> u16 {
    ((m[pc.wrapping_add(1) as int] as u16) << 8) | (m[pc as int] as u16)
}

/// The zero-page address `operand + idx`, wrapping within page zero.
pub open spec fn zp_index_addr(m: Seq<u8>, pc: u16, idx: u8) -> u16 {
    m[pc as int].wrapping_add(idx) as u16
}

/// The pointer fetched for indexed indirect addressing: both pointer bytes
/// are read from page zero, wrapping at its end.
pub open spec fn indx_addr(m: Seq<u8>, pc: u16, x: u8) -> u16 {
    let ptr = m[pc as int].wrapping_add(x);
    ((m[ptr.wrapping_add(1) as int] as u16) << 8) | (m[ptr as int] as u16)
}

/// The base pointer fetched for indirect indexed addressing: the low byte
/// sits at the operand, the high byte at `operand + 1` wrapped within page
/// zero.
pub open spec fn indy_base(m: Seq<u8>, pc: u16) -> u16 {
    let ptr = m[pc as int];
    ((m[ptr.wrapping_add(1) as int] as u16) << 8) | (m[ptr as int] as u16)
}

/// The operand value a read through `mode` yields in state `s` with memory
/// `m`, with the program counter already past the opcode byte.  Reads
/// through the absolute indexed and indirect indexed modes pay one extra
/// cycle when the effective address crosses a page.
pub open spec fn read_operand(s: CpuState, m: Seq<u8>, mode: Mode) -> ReadOperand {
    match mode {
        Mode::Im => ReadOperand {
            value: m[s.pc as int],
            pc: s.pc.wrapping_add(1),
            cycles: 1,
        },
        Mode::Zp => ReadOperand {
            value: m[m[s.pc as int] as int],
            pc: s.pc.wrapping_add(1),
            cycles: 2,
        },
        Mode::Zpx => ReadOperand {
            value: m[zp_index_addr(m, s.pc, s.x) as int],
            pc: s.pc.wrapping_add(1),
            cycles: 3,
        },
        Mode::Zpy => ReadOperand {
            value: m[zp_index_addr(m, s.pc, s.y) as int],
            pc: s.pc.wrapping_add(1),
            cycles: 3,
        },
        Mode::Abs => ReadOperand {
            value: m[abs_operand(m, s.pc) as int],
            pc: s.pc.wrapping_add(2),
            cycles: 3,
        },
        Mode::Absx => {
            let base = abs_operand(m, s.pc);
            let eff = base.wrapping_add(s.x as u16);
            ReadOperand {
                value: m[eff as int],
                pc: s.pc.wrapping_add(2),
                cycles: if page_crossed(base, eff) { 4 } else { 3 },
            }
        },
        Mode::Absy => {
            let base = abs_operand(m, s.pc);
            let eff = base.wrapping_add(s.y as u16);
            ReadOperand {
                value: m[eff as int],
                pc: s.pc.wrapping_add(2),
                cycles: if page_crossed(base, eff) { 4 } else { 3 },
            }
        },
        Mode::Indx => ReadOperand {
            value: m[indx_addr(m, s.pc, s.x) as int],
            pc: s.pc.wrapping_add(1),
            cycles: 5,
        },
        Mode::Indy => {
            let base = indy_base(m, s.pc);
            let eff = base.wrapping_add(s.y as u16);
            ReadOperand {
                value: m[eff as int],
                pc: s.pc.wrapping_add(1),
                cycles: if page_crossed(base, eff) { 5 } else { 4 },
            }
        },
    }
}

/// The effective address a store through `mode` writes in state `s` with
/// memory `m`.  Stores never pay a page-cross surcharge: the indexed and
/// indirect modes always charge their worst-case cycle count.  The
/// immediate mode never stores; it resolves to a vacuous target.
pub open spec fn store_target(s: CpuState, m: Seq<u8>, mode: Mode) -> StoreTarget {
    match mode {
        Mode::Im => StoreTarget { addr: 0, pc: s.pc, cycles: 0 },
        Mode::Zp => StoreTarget {
            addr: m[s.pc as int] as u16,
            pc: s.pc.wrapping_add(1),
            cycles: 2,
        },
        Mode::Zpx => StoreTarget {
            addr: zp_index_addr(m, s.pc, s.x),
            pc: s.pc.wrapping_add(1),
            cycles: 3,
        },
        Mode::Zpy => StoreTarget {
            addr: zp_index_addr(m, s.pc, s.y),
            pc: s.pc.wrapping_add(1),
            cycles: 3,
        },
        Mode::Abs => StoreTarget {
            addr: abs_operand(m, s.pc),
            pc: s.pc.wrapping_add(2),
            cycles: 3,
        },
        Mode::Absx => StoreTarget {
            addr: abs_operand(m, s.pc).wrapping_add(s.x as u16),
            pc: s.pc.wrapping_add(2),
            cycles: 4,
        },
        Mode::Absy => StoreTarget {
            addr: abs_operand(m, s.pc).wrapping_add(s.y as u16),
            pc: s.pc.wrapping_add(2),
            cycles: 4,
        },
        Mode::Indx => StoreTarget {
            addr: indx_addr(m, s.pc, s.x),
            pc: s.pc.wrapping_add(1),
            cycles: 5,
        },
        Mode::Indy => StoreTarget {
            addr: indy_base(m, s.pc).wrapping_add(s.y as u16),
            pc: s.pc.wrapping_add(1),
            cycles: 5,
        },
    }
}

impl MOS6502 {
    /// Consumes the operand bytes of `mode` and returns the operand value
    /// together with the mode's non-fetch cycle count.
    pub(crate) fn operand(&mut self, memory: &Memory, mode: Mode) -> (r: (u8, u32))
        ensures
            ({
                let t = read_operand(old(self)@, memory@, mode);
                &&& final(self)@ == (CpuState { pc: t.pc, ..old(self)@ })
                &&& r.0 == t.value
                &&& r.1 == t.cycles
            }),
    {
        match mode {
            Mode::Im => {
                let value = self.fetch(memory);
                (value, 1)
            },
            Mode::Zp => {
                let addr = self.fetch(memory) as u16;
                (self.read(addr, memory), 2)
            },
            Mode::Zpx => {
                let base = self.fetch(memory);
                let eff = base.wrapping_add(self.x());
                (self.read(eff as u16, memory), 3)
            },
            Mode::Zpy => {
                let base = self.fetch(memory);
                let eff = base.wrapping_add(self.y());
                (self.read(eff as u16, memory), 3)
            },
            Mode::Abs => {
                let low_byte = self.fetch(memory);
                let high_byte = self.fetch(memory);
                let addr = ((high_byte as u16) << 8) | (low_byte as u16);
                (self.read(addr, memory), 3)
            },
            Mode::Absx => {
                let low_byte = self.fetch(memory);
                let high_byte = self.fetch(memory);
                let base = ((high_byte as u16) << 8) | (low_byte as u16);
                let eff = base.wrapping_add(self.x() as u16);
                let value = self.read(eff, memory);
                if (base & 0xFF00) != (eff & 0xFF00) {
                    (value, 4)
                } else {
                    (value, 3)
                }
            },
            Mode::Absy => {
                let low_byte = self.fetch(memory);
                let high_byte = self.fetch(memory);
                let base = ((high_byte as u16) << 8) | (low_byte as u16);
                let eff = base.wrapping_add(self.y() as u16);
                let value = self.read(eff, memory);
                if (base & 0xFF00) != (eff & 0xFF00) {
                    (value, 4)
                } else {
                    (value, 3)
                }
            },
            Mode::Indx => {
                let operand = self.fetch(memory);
                let ptr = operand.wrapping_add(self.x());
                let low_byte = self.read(ptr as u16, memory);
                let high_byte = self.read(ptr.wrapping_add(1) as u16, memory);
                let addr = ((high_byte as u16) << 8) | (low_byte as u16);
                (self.read(addr, memory), 5)
            },
            Mode::Indy => {
                let operand = self.fetch(memory);
                let low_byte = self.read(operand as u16, memory);
                let high_byte = self.read(operand.wrapping_add(1) as u16, memory);
                let base = ((high_byte as u16) << 8) | (low_byte as u16);
                let eff = base.wrapping_add(self.y() as u16);
                let value = self.read(eff, memory);
                if (base & 0xFF00) != (eff & 0xFF00) {
                    (value, 5)
                } else {
                    (value, 4)
                }
            },
        }
    }

    /// Consumes the operand bytes of `mode` and returns the effective store
    /// address together with the mode's non-fetch cycle count.
    pub(crate) fn target(&mut self, memory: &Memory, mode: Mode) -> (r: (u16, u32))
        ensures
            ({
                let t = store_target(old(self)@, memory@, mode);
                &&& final(self)@ == (CpuState { pc: t.pc, ..old(self)@ })
                &&& r.0 == t.addr
                &&& r.1 == t.cycles
            }),
    {
        match mode {
            Mode::Im => (0, 0),
            Mode::Zp => {
                let addr = self.fetch(memory) as u16;
                (addr, 2)
            },
            Mode::Zpx => {
                let base = self.fetch(memory);
                let eff = base.wrapping_add(self.x());
                (eff as u16, 3)
            },
            Mode::Zpy => {
                let base = self.fetch(memory);
                let eff = base.wrapping_add(self.y());
                (eff as u16, 3)
            },
            Mode::Abs => {
                let low_byte = self.fetch(memory);
                let high_byte = self.fetch(memory);
                let addr = ((high_byte as u16) << 8) | (low_byte as u16);
                (addr, 3)
            },
            Mode::Absx => {
                let low_byte = self.fetch(memory);
                let high_byte = self.fetch(memory);
                let base = ((high_byte as u16) << 8) | (low_byte as u16);
                (base.wrapping_add(self.x() as u16), 4)
            },
            Mode::Absy => {
                let low_byte = self.fetch(memory);
                let high_byte = self.fetch(memory);
                let base = ((high_byte as u16) << 8) | (low_byte as u16);
                (base.wrapping_add(self.y() as u16), 4)
            },
            Mode::Indx => {
                let operand = self.fetch(memory);
                let ptr = operand.wrapping_add(self.x());
                let low_byte = self.read(ptr as u16, memory);
                let high_byte = self.read(ptr.wrapping_add(1) as u16, memory);
                let addr = ((high_byte as u16) << 8) | (low_byte as u16);
                (addr, 5)
            },
            Mode::Indy => {
                let operand = self.fetch(memory);
                let low_byte = self.read(operand as u16, memory);
                let high_byte = self.read(operand.wrapping_add(1) as u16, memory);
                let base = ((high_byte as u16) << 8) | (low_byte as u16);
                (base.wrapping_add(self.y() as u16), 5)
            },
        }
    }
}

} // verus!
