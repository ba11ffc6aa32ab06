//! The compare instruction on a register of the caller's choice.

use crate::cpu::model::CpuState;
use crate::cpu::CPU;
use crate::fault::Fault;
use crate::flags::StatusFlags;
use crate::opscodes::AddressingMode;
use vstd::prelude::*;

verus! {

impl CpuState {
    /// A comparison of `compare_with` with the operand: it tells whether
    /// forming the operand's address crossed a page.
    pub open spec fn compare_op(self, mode: AddressingMode, compare_with: u8) -> (
        CpuState,
        Result<bool, Fault>,
    ) {
        let (s, operand) = self.fetch(mode);
        match operand {
            Err(fault) => (s, Err(fault)),
            Ok((value, crossed)) => (s.compare(compare_with, value), Ok(crossed)),
        }
    }
}

impl CPU {
    pub fn cmp(&mut self, mode: &AddressingMode, compare_with: u8) -> (r: Result<bool, Fault>)
        requires
            old(self).wf(),
        ensures
            final(self).wf(),
            final(self)@ == old(self)@.compare_op(*mode, compare_with).0,
            r == old(self)@.compare_op(*mode, compare_with).1,
    {
        let (value, crossed) = self.fetch_operand(mode)?;
        self.status.set(StatusFlags::CARRY, compare_with >= value);
        self.update_zero_and_negative_flags(compare_with.wrapping_sub(value));
        Ok(crossed)
    }
}

} // verus!
