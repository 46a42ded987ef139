//! The register transfer group: TAX, TAY, TSX, TXA, TXS and TYA.

use vstd::prelude::*;

use crate::cpu::{CpuState, MOS6502};
use crate::status::{with_nz, ProcessorStatus, FLAG_N};

verus! {

/// Updates the zero and negative flags from the transferred byte `value`,
/// leaving every other flag unchanged.
pub fn on_ts_set_status(proc_status: &mut ProcessorStatus, value: u8)
    ensures
        final(proc_status)@ == with_nz(old(proc_status)@, value),
{
    if value == 0 {
        proc_status.set_zero();
    } else {
        proc_status.clear_zero();
    }
    if value & FLAG_N != 0 {
        proc_status.set_negative();
    } else {
        proc_status.clear_negative();
    }
}

/// The effect of TAX: X becomes A; Z and N reflect the copied value.
pub open spec fn tax_state(s: CpuState) -> CpuState {
    CpuState { x: s.a, p: with_nz(s.p, s.a), ..s }
}

/// The effect of TAY: Y becomes A; Z and N reflect the copied value.
pub open spec fn tay_state(s: CpuState) -> CpuState {
    CpuState { y: s.a, p: with_nz(s.p, s.a), ..s }
}

/// The effect of TSX: X becomes SP; Z and N reflect the copied value.
pub open spec fn tsx_state(s: CpuState) -> CpuState {
    CpuState { x: s.sp, p: with_nz(s.p, s.sp), ..s }
}

/// The effect of TXA: A becomes X; Z and N reflect the copied value.
pub open spec fn txa_state(s: CpuState) -> CpuState {
    CpuState { a: s.x, p: with_nz(s.p, s.x), ..s }
}

/// The effect of TXS: SP becomes X; no flag changes.
pub open spec fn txs_state(s: CpuState) -> CpuState {
    CpuState { sp: s.x, ..s }
}

/// The effect of TYA: A becomes Y; Z and N reflect the copied value.
pub open spec fn tya_state(s: CpuState) -> CpuState {
    CpuState { a: s.y, p: with_nz(s.p, s.y), ..s }
}

impl MOS6502 {
    pub fn tax(&mut self) -> (cycles: u32)
        ensures
            final(self)@ == tax_state(old(self)@),
            cycles == 1,
    {
        self.reg_x = self.reg_a;
        on_ts_set_status(&mut self.proc_status, self.reg_x);
        1
    }

    pub fn tay(&mut self) -> (cycles: u32)
        ensures
            final(self)@ == tay_state(old(self)@),
            cycles == 1,
    {
        self.reg_y = self.reg_a;
        on_ts_set_status(&mut self.proc_status, self.reg_y);
        1
    }

    pub fn tsx(&mut self) -> (cycles: u32)
        ensures
            final(self)@ == tsx_state(old(self)@),
            cycles == 1,
    {
        self.reg_x = self.reg_sp;
        on_ts_set_status(&mut self.proc_status, self.reg_x);
        1
    }

    pub fn txa(&mut self) -> (cycles: u32)
        ensures
            final(self)@ == txa_state(old(self)@),
            cycles == 1,
    {
        self.reg_a = self.reg_x;
        on_ts_set_status(&mut self.proc_status, self.reg_a);
        1
    }

    pub fn txs(&mut self) -> (cycles: u32)
        ensures
            final(self)@ == txs_state(old(self)@),
            cycles == 1,
    {
        self.reg_sp = self.reg_x;
        1
    }

    pub fn tya(&mut self) -> (cycles: u32)
        ensures
            final(self)@ == tya_state(old(self)@),
            cycles == 1,
    {
        self.reg_a = self.reg_y;
        on_ts_set_status(&mut self.proc_status, self.reg_a);
        1
    }
}

} // verus!
