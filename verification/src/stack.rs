//! The stack group: PHA, PHP, PLA and PLP.  The stack lives in page one;
//! the stack pointer wraps modulo 2^8.

use vstd::prelude::*;

use crate::cpu::{CpuState, Step, MOS6502};
use crate::memory::Memory;
use crate::status::{with_nz, ProcessorStatus, FLAG_B, FLAG_U};

verus! {

/// The page-one address the stack pointer `sp` selects.
pub open spec fn stack_addr(sp: u8) -> u16 {
    0x0100u16 | (sp as u16)
}

/// The effect of PHA: A is written at the stack address, then the stack
/// pointer is decremented, wrapping.  No flag changes.
pub open spec fn pha_step(s: CpuState, m: Seq<u8>) -> Step {
    Step {
        s: (CpuState { sp: s.sp.wrapping_sub(1), ..s }),
        m: m.update(stack_addr(s.sp) as int, s.a),
        cycles: 2,
    }
}

/// The effect of PHP: the status byte is pushed with the break flag and
/// the reserved bit forced set, then the stack pointer is decremented,
/// wrapping.  The status register itself does not change.
pub open spec fn php_step(s: CpuState, m: Seq<u8>) -> Step {
    Step {
        s: (CpuState { sp: s.sp.wrapping_sub(1), ..s }),
        m: m.update(stack_addr(s.sp) as int, s.p | (FLAG_B | FLAG_U)),
        cycles: 2,
    }
}

/// The effect of PLA: the stack pointer is incremented, wrapping, then A
/// is read from the stack address; Z and N reflect the pulled value.
pub open spec fn pla_step(s: CpuState, m: Seq<u8>) -> Step {
    let sp = s.sp.wrapping_add(1);
    let value = m[stack_addr(sp) as int];
    Step {
        s: (CpuState { sp: sp, a: value, p: with_nz(s.p, value), ..s }),
        m: m,
        cycles: 3,
    }
}

/// The effect of PLP: the stack pointer is incremented, wrapping, then the
/// status register is loaded from the stack address with the break flag
/// and the reserved bit masked out.
pub open spec fn plp_step(s: CpuState, m: Seq<u8>) -> Step {
    let sp = s.sp.wrapping_add(1);
    Step {
        s: (CpuState { sp: sp, p: m[stack_addr(sp) as int] & !(FLAG_B | FLAG_U), ..s }),
        m: m,
        cycles: 3,
    }
}

impl MOS6502 {
    pub fn pha(&mut self, memory: &mut Memory) -> (cycles: u32)
        ensures
            ({
                let t = pha_step(old(self)@, old(memory)@);
                final(self)@ == t.s && final(memory)@ == t.m && cycles == t.cycles
            }),
    {
        memory.write(0x0100u16 | (self.reg_sp as u16), self.reg_a);
        self.reg_sp = self.reg_sp.wrapping_sub(1);
        2
    }

    pub fn php(&mut self, memory: &mut Memory) -> (cycles: u32)
        ensures
            ({
                let t = php_step(old(self)@, old(memory)@);
                final(self)@ == t.s && final(memory)@ == t.m && cycles == t.cycles
            }),
    {
        let pushed = self.proc_status.to_byte() | (FLAG_B | FLAG_U);
        memory.write(0x0100u16 | (self.reg_sp as u16), pushed);
        self.reg_sp = self.reg_sp.wrapping_sub(1);
        2
    }

    pub fn pla(&mut self, memory: &mut Memory) -> (cycles: u32)
        ensures
            ({
                let t = pla_step(old(self)@, old(memory)@);
                final(self)@ == t.s && final(memory)@ == t.m && cycles == t.cycles
            }),
    {
        self.reg_sp = self.reg_sp.wrapping_add(1);
        self.reg_a = memory.read(0x0100u16 | (self.reg_sp as u16));
        if self.reg_a == 0 {
            self.proc_status.set_zero();
        } else {
            self.proc_status.clear_zero();
        }
        if self.reg_a & 0x80 != 0 {
            self.proc_status.set_negative();
        } else {
            self.proc_status.clear_negative();
        }
        3
    }

    pub fn plp(&mut self, memory: &mut Memory) -> (cycles: u32)
        ensures
            ({
                let t = plp_step(old(self)@, old(memory)@);
                final(self)@ == t.s && final(memory)@ == t.m && cycles == t.cycles
            }),
    {
        self.reg_sp = self.reg_sp.wrapping_add(1);
        let pulled = memory.read(0x0100u16 | (self.reg_sp as u16));
        self.proc_status = ProcessorStatus::from_byte(pulled & !(FLAG_B | FLAG_U));
        3
    }
}

} // verus!
