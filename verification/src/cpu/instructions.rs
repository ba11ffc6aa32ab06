//! The instructions, one function each.

use crate::cpu::model::modified;
use crate::cpu::model::CpuState;
use crate::cpu::CPU;
use crate::fault::Fault;
use crate::flags::StatusFlags;
use crate::opscodes::AddressingMode;
use crate::opscodes::Operation;
use vstd::prelude::*;

verus! {

/// What a read-modify-write instruction makes of `value`, and the carry it
/// leaves.
pub fn modified_byte(op: Operation, value: u8, carry: bool) -> (r: (u8, bool))
    ensures
        r == modified(op, value, carry),
{
    let carry_in: u8 = if carry {
        1
    } else {
        0
    };
    match op {
        Operation::Asl | Operation::Slo => (value << 1, value & 0x80 != 0),
        Operation::Lsr | Operation::Sre => (value >> 1, value & 0x01 != 0),
        Operation::Rol | Operation::Rla => ((value << 1) | carry_in, value & 0x80 != 0),
        Operation::Ror | Operation::Rra => ((value >> 1) | (carry_in << 7), value & 0x01 != 0),
        Operation::Inc | Operation::Isb => (value.wrapping_add(1), carry),
        _ => (value.wrapping_sub(1), carry),
    }
}

impl CPU {
    fn load_a(&mut self, value: u8)
        ensures
            old(self).wf() ==> final(self).wf(),
            final(self)@ == old(self)@.set_a(value),
    {
        self.register_a = value;
        self.update_zero_and_negative_flags(value);
    }

    fn load_x(&mut self, value: u8)
        ensures
            old(self).wf() ==> final(self).wf(),
            final(self)@ == old(self)@.set_x(value),
    {
        self.register_x = value;
        self.update_zero_and_negative_flags(value);
    }

    fn load_y(&mut self, value: u8)
        ensures
            old(self).wf() ==> final(self).wf(),
            final(self)@ == old(self)@.set_y(value),
    {
        self.register_y = value;
        self.update_zero_and_negative_flags(value);
    }

    /// Compares `register` with `value`.
    fn compare(&mut self, register: u8, value: u8)
        ensures
            old(self).wf() ==> final(self).wf(),
            final(self)@ == old(self)@.compare(register, value),
    {
        self.status.set(StatusFlags::CARRY, register >= value);
        self.update_zero_and_negative_flags(register.wrapping_sub(value));
    }

    /// Shifts or rotates the accumulator.
    fn shift_accumulator(&mut self, op: Operation)
        ensures
            old(self).wf() ==> final(self).wf(),
            final(self)@ == old(self)@.shift_a(op),
    {
        let (result, carry) = modified_byte(
            op,
            self.register_a,
            self.status.contains(StatusFlags::CARRY),
        );
        self.status.set(StatusFlags::CARRY, carry);
        self.load_a(result);
    }

    /// Runs read-modify-write instruction `op` on its operand in memory.
    fn modify(&mut self, op: Operation, mode: &AddressingMode) -> (r: Result<u8, Fault>)
        requires
            old(self).wf(),
        ensures
            final(self).wf(),
            final(self)@ == old(self)@.modify(op, *mode).0,
            r == old(self)@.modify(op, *mode).1,
    {
        proof {
            reveal(CpuState::modify);
        }
        let (addr, _) = self.get_operand_address(mode)?;
        let value = self.mem_read(addr)?;
        let (result, carry) = modified_byte(op, value, self.status.contains(StatusFlags::CARRY));
        self.mem_write(addr, result)?;
        self.status.set(StatusFlags::CARRY, carry);
        match op {
            Operation::Slo => self.load_a(self.register_a | result),
            Operation::Rla => self.load_a(self.register_a & result),
            Operation::Sre => self.load_a(self.register_a ^ result),
            Operation::Rra => self.add_to_register_a(result),
            Operation::Isb => self.sub_from_register_a(result),
            Operation::Dcp => self.compare(self.register_a, result),
            _ => self.update_zero_and_negative_flags(result),
        }
        Ok(result)
    }

    /// Runs store instruction `op`.
    fn store(&mut self, op: Operation, mode: &AddressingMode) -> (r: Result<(), Fault>)
        requires
            old(self).wf(),
        ensures
            final(self).wf(),
            final(self)@ == old(self)@.store(op, *mode).0,
            r == old(self)@.store(op, *mode).1,
    {
        proof {
            reveal(CpuState::store);
        }
        let (addr, _) = self.get_operand_address(mode)?;
        let high: u8 = (addr >> 8) as u8;
        let data = match op {
            Operation::Sta => self.register_a,
            Operation::Stx => self.register_x,
            Operation::Sty => self.register_y,
            Operation::Sax => self.register_a & self.register_x,
            Operation::Ahx => self.register_a & self.register_x & high,
            Operation::Tas => {
                self.stack_pointer = self.register_a & self.register_x;
                high.wrapping_add(1) & self.register_a & self.register_x
            },
            Operation::Shx => self.register_x & high.wrapping_add(1),
            _ => self.register_y & high.wrapping_add(1),
        };
        self.mem_write(addr, data)
    }

    pub fn asl_accumulator(&mut self)
        ensures
            old(self).wf() ==> final(self).wf(),
            final(self)@ == old(self)@.implied(Operation::Asl),
    {
        proof {
            reveal(CpuState::implied);
        }
        self.shift_accumulator(Operation::Asl);
    }

    pub fn asl(&mut self, mode: &AddressingMode) -> (r: Result<u8, Fault>)
        requires
            old(self).wf(),
        ensures
            final(self).wf(),
            final(self)@ == old(self)@.modify(Operation::Asl, *mode).0,
            r == old(self)@.modify(Operation::Asl, *mode).1,
    {
        self.modify(Operation::Asl, mode)
    }

    pub fn lsr_accumulator(&mut self)
        ensures
            old(self).wf() ==> final(self).wf(),
            final(self)@ == old(self)@.implied(Operation::Lsr),
    {
        proof {
            reveal(CpuState::implied);
        }
        self.shift_accumulator(Operation::Lsr);
    }

    pub fn lsr(&mut self, mode: &AddressingMode) -> (r: Result<u8, Fault>)
        requires
            old(self).wf(),
        ensures
            final(self).wf(),
            final(self)@ == old(self)@.modify(Operation::Lsr, *mode).0,
            r == old(self)@.modify(Operation::Lsr, *mode).1,
    {
        self.modify(Operation::Lsr, mode)
    }

    pub fn ror_accumulator(&mut self)
        ensures
            old(self).wf() ==> final(self).wf(),
            final(self)@ == old(self)@.implied(Operation::Ror),
    {
        proof {
            reveal(CpuState::implied);
        }
        self.shift_accumulator(Operation::Ror);
    }

    pub fn ror(&mut self, mode: &AddressingMode) -> (r: Result<u8, Fault>)
        requires
            old(self).wf(),
        ensures
            final(self).wf(),
            final(self)@ == old(self)@.modify(Operation::Ror, *mode).0,
            r == old(self)@.modify(Operation::Ror, *mode).1,
    {
        self.modify(Operation::Ror, mode)
    }

    pub fn rol_accumulator(&mut self)
        ensures
            old(self).wf() ==> final(self).wf(),
            final(self)@ == old(self)@.implied(Operation::Rol),
    {
        proof {
            reveal(CpuState::implied);
        }
        self.shift_accumulator(Operation::Rol);
    }

    pub fn rol(&mut self, mode: &AddressingMode) -> (r: Result<u8, Fault>)
        requires
            old(self).wf(),
        ensures
            final(self).wf(),
            final(self)@ == old(self)@.modify(Operation::Rol, *mode).0,
            r == old(self)@.modify(Operation::Rol, *mode).1,
    {
        self.modify(Operation::Rol, mode)
    }

    pub fn inc(&mut self, mode: &AddressingMode) -> (r: Result<u8, Fault>)
        requires
            old(self).wf(),
        ensures
            final(self).wf(),
            final(self)@ == old(self)@.modify(Operation::Inc, *mode).0,
            r == old(self)@.modify(Operation::Inc, *mode).1,
    {
        self.modify(Operation::Inc, mode)
    }

    pub fn dec(&mut self, mode: &AddressingMode) -> (r: Result<u8, Fault>)
        requires
            old(self).wf(),
        ensures
            final(self).wf(),
            final(self)@ == old(self)@.modify(Operation::Dec, *mode).0,
            r == old(self)@.modify(Operation::Dec, *mode).1,
    {
        self.modify(Operation::Dec, mode)
    }

    pub fn slo(&mut self, mode: &AddressingMode) -> (r: Result<u8, Fault>)
        requires
            old(self).wf(),
        ensures
            final(self).wf(),
            final(self)@ == old(self)@.modify(Operation::Slo, *mode).0,
            r == old(self)@.modify(Operation::Slo, *mode).1,
    {
        self.modify(Operation::Slo, mode)
    }

    pub fn rla(&mut self, mode: &AddressingMode) -> (r: Result<u8, Fault>)
        requires
            old(self).wf(),
        ensures
            final(self).wf(),
            final(self)@ == old(self)@.modify(Operation::Rla, *mode).0,
            r == old(self)@.modify(Operation::Rla, *mode).1,
    {
        self.modify(Operation::Rla, mode)
    }

    pub fn sre(&mut self, mode: &AddressingMode) -> (r: Result<u8, Fault>)
        requires
            old(self).wf(),
        ensures
            final(self).wf(),
            final(self)@ == old(self)@.modify(Operation::Sre, *mode).0,
            r == old(self)@.modify(Operation::Sre, *mode).1,
    {
        self.modify(Operation::Sre, mode)
    }

    pub fn rra(&mut self, mode: &AddressingMode) -> (r: Result<u8, Fault>)
        requires
            old(self).wf(),
        ensures
            final(self).wf(),
            final(self)@ == old(self)@.modify(Operation::Rra, *mode).0,
            r == old(self)@.modify(Operation::Rra, *mode).1,
    {
        self.modify(Operation::Rra, mode)
    }

    pub fn isb(&mut self, mode: &AddressingMode) -> (r: Result<u8, Fault>)
        requires
            old(self).wf(),
        ensures
            final(self).wf(),
            final(self)@ == old(self)@.modify(Operation::Isb, *mode).0,
            r == old(self)@.modify(Operation::Isb, *mode).1,
    {
        self.modify(Operation::Isb, mode)
    }

    pub fn dcp(&mut self, mode: &AddressingMode) -> (r: Result<u8, Fault>)
        requires
            old(self).wf(),
        ensures
            final(self).wf(),
            final(self)@ == old(self)@.modify(Operation::Dcp, *mode).0,
            r == old(self)@.modify(Operation::Dcp, *mode).1,
    {
        self.modify(Operation::Dcp, mode)
    }

    pub fn lda(&mut self, mode: &AddressingMode) -> (r: Result<bool, Fault>)
        requires
            old(self).wf(),
        ensures
            final(self).wf(),
            final(self)@ == old(self)@.read_op(Operation::Lda, *mode).0,
            r == old(self)@.read_op(Operation::Lda, *mode).1,
    {
        proof {
            reveal(CpuState::read_op);
        }
        let (value, crossed) = self.fetch_operand(mode)?;
        self.load_a(value);
        Ok(crossed)
    }

    pub fn ldx(&mut self, mode: &AddressingMode) -> (r: Result<bool, Fault>)
        requires
            old(self).wf(),
        ensures
            final(self).wf(),
            final(self)@ == old(self)@.read_op(Operation::Ldx, *mode).0,
            r == old(self)@.read_op(Operation::Ldx, *mode).1,
    {
        proof {
            reveal(CpuState::read_op);
        }
        let (value, crossed) = self.fetch_operand(mode)?;
        self.load_x(value);
        Ok(crossed)
    }

    pub fn ldy(&mut self, mode: &AddressingMode) -> (r: Result<bool, Fault>)
        requires
            old(self).wf(),
        ensures
            final(self).wf(),
            final(self)@ == old(self)@.read_op(Operation::Ldy, *mode).0,
            r == old(self)@.read_op(Operation::Ldy, *mode).1,
    {
        proof {
            reveal(CpuState::read_op);
        }
        let (value, crossed) = self.fetch_operand(mode)?;
        self.load_y(value);
        Ok(crossed)
    }

    pub fn lax(&mut self, mode: &AddressingMode) -> (r: Result<bool, Fault>)
        requires
            old(self).wf(),
        ensures
            final(self).wf(),
            final(self)@ == old(self)@.read_op(Operation::Lax, *mode).0,
            r == old(self)@.read_op(Operation::Lax, *mode).1,
    {
        proof {
            reveal(CpuState::read_op);
        }
        let (value, crossed) = self.fetch_operand(mode)?;
        self.load_a(value);
        self.register_x = value;
        Ok(crossed)
    }

    pub fn lxa(&mut self, mode: &AddressingMode) -> (r: Result<bool, Fault>)
        requires
            old(self).wf(),
        ensures
            final(self).wf(),
            final(self)@ == old(self)@.read_op(Operation::Lxa, *mode).0,
            r == old(self)@.read_op(Operation::Lxa, *mode).1,
    {
        proof {
            reveal(CpuState::read_op);
        }
        let (value, crossed) = self.fetch_operand(mode)?;
        self.load_a(value);
        self.register_x = value;
        Ok(crossed)
    }

    pub fn xaa(&mut self, mode: &AddressingMode) -> (r: Result<bool, Fault>)
        requires
            old(self).wf(),
        ensures
            final(self).wf(),
            final(self)@ == old(self)@.read_op(Operation::Xaa, *mode).0,
            r == old(self)@.read_op(Operation::Xaa, *mode).1,
    {
        proof {
            reveal(CpuState::read_op);
        }
        let (value, crossed) = self.fetch_operand(mode)?;
        self.load_a(self.register_x & value);
        Ok(crossed)
    }

    pub fn las(&mut self, mode: &AddressingMode) -> (r: Result<bool, Fault>)
        requires
            old(self).wf(),
        ensures
            final(self).wf(),
            final(self)@ == old(self)@.read_op(Operation::Las, *mode).0,
            r == old(self)@.read_op(Operation::Las, *mode).1,
    {
        proof {
            reveal(CpuState::read_op);
        }
        let (value, crossed) = self.fetch_operand(mode)?;
        let data = value & self.stack_pointer;
        self.load_a(data);
        self.register_x = data;
        self.stack_pointer = data;
        Ok(crossed)
    }

    pub fn and(&mut self, mode: &AddressingMode) -> (r: Result<bool, Fault>)
        requires
            old(self).wf(),
        ensures
            final(self).wf(),
            final(self)@ == old(self)@.read_op(Operation::And, *mode).0,
            r == old(self)@.read_op(Operation::And, *mode).1,
    {
        proof {
            reveal(CpuState::read_op);
        }
        let (value, crossed) = self.fetch_operand(mode)?;
        self.load_a(self.register_a & value);
        Ok(crossed)
    }

    pub fn eor(&mut self, mode: &AddressingMode) -> (r: Result<bool, Fault>)
        requires
            old(self).wf(),
        ensures
            final(self).wf(),
            final(self)@ == old(self)@.read_op(Operation::Eor, *mode).0,
            r == old(self)@.read_op(Operation::Eor, *mode).1,
    {
        proof {
            reveal(CpuState::read_op);
        }
        let (value, crossed) = self.fetch_operand(mode)?;
        self.load_a(self.register_a ^ value);
        Ok(crossed)
    }

    pub fn ora(&mut self, mode: &AddressingMode) -> (r: Result<bool, Fault>)
        requires
            old(self).wf(),
        ensures
            final(self).wf(),
            final(self)@ == old(self)@.read_op(Operation::Ora, *mode).0,
            r == old(self)@.read_op(Operation::Ora, *mode).1,
    {
        proof {
            reveal(CpuState::read_op);
        }
        let (value, crossed) = self.fetch_operand(mode)?;
        self.load_a(self.register_a | value);
        Ok(crossed)
    }

    pub fn anc(&mut self, mode: &AddressingMode) -> (r: Result<bool, Fault>)
        requires
            old(self).wf(),
        ensures
            final(self).wf(),
            final(self)@ == old(self)@.read_op(Operation::Anc, *mode).0,
            r == old(self)@.read_op(Operation::Anc, *mode).1,
    {
        proof {
            reveal(CpuState::read_op);
        }
        let (value, crossed) = self.fetch_operand(mode)?;
        self.load_a(self.register_a & value);
        let negative = self.status.contains(StatusFlags::NEGATIVE);
        self.status.set(StatusFlags::CARRY, negative);
        Ok(crossed)
    }

    pub fn alr(&mut self, mode: &AddressingMode) -> (r: Result<bool, Fault>)
        requires
            old(self).wf(),
        ensures
            final(self).wf(),
            final(self)@ == old(self)@.read_op(Operation::Alr, *mode).0,
            r == old(self)@.read_op(Operation::Alr, *mode).1,
    {
        proof {
            reveal(CpuState::read_op);
            reveal(CpuState::implied);
        }
        let (value, crossed) = self.fetch_operand(mode)?;
        self.load_a(self.register_a & value);
        self.lsr_accumulator();
        Ok(crossed)
    }

    pub fn arr(&mut self, mode: &AddressingMode) -> (r: Result<bool, Fault>)
        requires
            old(self).wf(),
        ensures
            final(self).wf(),
            final(self)@ == old(self)@.read_op(Operation::Arr, *mode).0,
            r == old(self)@.read_op(Operation::Arr, *mode).1,
    {
        proof {
            reveal(CpuState::read_op);
            reveal(CpuState::implied);
        }
        let (value, crossed) = self.fetch_operand(mode)?;
        self.load_a(self.register_a & value);
        self.ror_accumulator();
        let result = self.register_a;
        self.status.set(StatusFlags::CARRY, result & 0x40 != 0);
        self.status.set(StatusFlags::OVERFLOW, ((result >> 5) ^ (result >> 6)) & 1 == 1);
        Ok(crossed)
    }

    pub fn axs(&mut self, mode: &AddressingMode) -> (r: Result<bool, Fault>)
        requires
            old(self).wf(),
        ensures
            final(self).wf(),
            final(self)@ == old(self)@.read_op(Operation::Axs, *mode).0,
            r == old(self)@.read_op(Operation::Axs, *mode).1,
    {
        proof {
            reveal(CpuState::read_op);
        }
        let (value, crossed) = self.fetch_operand(mode)?;
        let both = self.register_a & self.register_x;
        self.status.set(StatusFlags::CARRY, both >= value);
        self.load_x(both.wrapping_sub(value));
        Ok(crossed)
    }

    pub fn add_to_register_a(&mut self, data: u8)
        ensures
            old(self).wf() ==> final(self).wf(),
            final(self)@ == old(self)@.add_to_a(data),
    {
        let carry_in: u16 = if self.status.contains(StatusFlags::CARRY) {
            1
        } else {
            0
        };
        let sum: u16 = self.register_a as u16 + data as u16 + carry_in;
        let carry = sum > 0xff;
        let result: u8 = (sum % 256) as u8;
        let overflow = (data ^ result) & (result ^ self.register_a) & 0x80 != 0;
        self.status.set(StatusFlags::CARRY, carry);
        self.status.set(StatusFlags::OVERFLOW, overflow);
        self.load_a(result);
    }

    pub fn sub_from_register_a(&mut self, data: u8)
        ensures
            old(self).wf() ==> final(self).wf(),
            final(self)@ == old(self)@.sub_from_a(data),
    {
        self.add_to_register_a(255 - data);
    }

    pub fn adc(&mut self, mode: &AddressingMode) -> (r: Result<bool, Fault>)
        requires
            old(self).wf(),
        ensures
            final(self).wf(),
            final(self)@ == old(self)@.read_op(Operation::Adc, *mode).0,
            r == old(self)@.read_op(Operation::Adc, *mode).1,
    {
        proof {
            reveal(CpuState::read_op);
        }
        let (value, crossed) = self.fetch_operand(mode)?;
        self.add_to_register_a(value);
        Ok(crossed)
    }

    pub fn sbc(&mut self, mode: &AddressingMode) -> (r: Result<bool, Fault>)
        requires
            old(self).wf(),
        ensures
            final(self).wf(),
            final(self)@ == old(self)@.read_op(Operation::Sbc, *mode).0,
            r == old(self)@.read_op(Operation::Sbc, *mode).1,
    {
        proof {
            reveal(CpuState::read_op);
        }
        let (value, crossed) = self.fetch_operand(mode)?;
        self.sub_from_register_a(value);
        Ok(crossed)
    }

    pub fn bit(&mut self, mode: &AddressingMode) -> (r: Result<bool, Fault>)
        requires
            old(self).wf(),
        ensures
            final(self).wf(),
            final(self)@ == old(self)@.read_op(Operation::Bit, *mode).0,
            r == old(self)@.read_op(Operation::Bit, *mode).1,
    {
        proof {
            reveal(CpuState::read_op);
        }
        let (value, crossed) = self.fetch_operand(mode)?;
        self.status.set(StatusFlags::ZERO, self.register_a & value == 0);
        self.status.set(StatusFlags::OVERFLOW, value & 0x40 != 0);
        self.status.set(StatusFlags::NEGATIVE, value & 0x80 != 0);
        Ok(crossed)
    }

    pub fn cpx(&mut self, mode: &AddressingMode) -> (r: Result<bool, Fault>)
        requires
            old(self).wf(),
        ensures
            final(self).wf(),
            final(self)@ == old(self)@.read_op(Operation::Cpx, *mode).0,
            r == old(self)@.read_op(Operation::Cpx, *mode).1,
    {
        proof {
            reveal(CpuState::read_op);
        }
        let (value, crossed) = self.fetch_operand(mode)?;
        self.compare(self.register_x, value);
        Ok(crossed)
    }

    pub fn cpy(&mut self, mode: &AddressingMode) -> (r: Result<bool, Fault>)
        requires
            old(self).wf(),
        ensures
            final(self).wf(),
            final(self)@ == old(self)@.read_op(Operation::Cpy, *mode).0,
            r == old(self)@.read_op(Operation::Cpy, *mode).1,
    {
        proof {
            reveal(CpuState::read_op);
        }
        let (value, crossed) = self.fetch_operand(mode)?;
        self.compare(self.register_y, value);
        Ok(crossed)
    }

    pub fn sta(&mut self, mode: &AddressingMode) -> (r: Result<(), Fault>)
        requires
            old(self).wf(),
        ensures
            final(self).wf(),
            final(self)@ == old(self)@.store(Operation::Sta, *mode).0,
            r == old(self)@.store(Operation::Sta, *mode).1,
    {
        self.store(Operation::Sta, mode)
    }

    pub fn stx(&mut self, mode: &AddressingMode) -> (r: Result<(), Fault>)
        requires
            old(self).wf(),
        ensures
            final(self).wf(),
            final(self)@ == old(self)@.store(Operation::Stx, *mode).0,
            r == old(self)@.store(Operation::Stx, *mode).1,
    {
        self.store(Operation::Stx, mode)
    }

    pub fn sty(&mut self, mode: &AddressingMode) -> (r: Result<(), Fault>)
        requires
            old(self).wf(),
        ensures
            final(self).wf(),
            final(self)@ == old(self)@.store(Operation::Sty, *mode).0,
            r == old(self)@.store(Operation::Sty, *mode).1,
    {
        self.store(Operation::Sty, mode)
    }

    pub fn sax(&mut self, mode: &AddressingMode) -> (r: Result<(), Fault>)
        requires
            old(self).wf(),
        ensures
            final(self).wf(),
            final(self)@ == old(self)@.store(Operation::Sax, *mode).0,
            r == old(self)@.store(Operation::Sax, *mode).1,
    {
        self.store(Operation::Sax, mode)
    }

    pub fn ahx(&mut self, mode: &AddressingMode) -> (r: Result<(), Fault>)
        requires
            old(self).wf(),
        ensures
            final(self).wf(),
            final(self)@ == old(self)@.store(Operation::Ahx, *mode).0,
            r == old(self)@.store(Operation::Ahx, *mode).1,
    {
        self.store(Operation::Ahx, mode)
    }

    pub fn tas(&mut self, mode: &AddressingMode) -> (r: Result<(), Fault>)
        requires
            old(self).wf(),
        ensures
            final(self).wf(),
            final(self)@ == old(self)@.store(Operation::Tas, *mode).0,
            r == old(self)@.store(Operation::Tas, *mode).1,
    {
        self.store(Operation::Tas, mode)
    }

    pub fn shx(&mut self, mode: &AddressingMode) -> (r: Result<(), Fault>)
        requires
            old(self).wf(),
        ensures
            final(self).wf(),
            final(self)@ == old(self)@.store(Operation::Shx, *mode).0,
            r == old(self)@.store(Operation::Shx, *mode).1,
    {
        self.store(Operation::Shx, mode)
    }

    pub fn shy(&mut self, mode: &AddressingMode) -> (r: Result<(), Fault>)
        requires
            old(self).wf(),
        ensures
            final(self).wf(),
            final(self)@ == old(self)@.store(Operation::Shy, *mode).0,
            r == old(self)@.store(Operation::Shy, *mode).1,
    {
        self.store(Operation::Shy, mode)
    }

    pub fn tax(&mut self)
        ensures
            old(self).wf() ==> final(self).wf(),
            final(self)@ == old(self)@.implied(Operation::Tax),
    {
        proof {
            reveal(CpuState::implied);
        }
        self.load_x(self.register_a);
    }

    pub fn txa(&mut self)
        ensures
            old(self).wf() ==> final(self).wf(),
            final(self)@ == old(self)@.implied(Operation::Txa),
    {
        proof {
            reveal(CpuState::implied);
        }
        self.load_a(self.register_x);
    }

    pub fn tay(&mut self)
        ensures
            old(self).wf() ==> final(self).wf(),
            final(self)@ == old(self)@.implied(Operation::Tay),
    {
        proof {
            reveal(CpuState::implied);
        }
        self.load_y(self.register_a);
    }

    pub fn tya(&mut self)
        ensures
            old(self).wf() ==> final(self).wf(),
            final(self)@ == old(self)@.implied(Operation::Tya),
    {
        proof {
            reveal(CpuState::implied);
        }
        self.load_a(self.register_y);
    }

    pub fn tsx(&mut self)
        ensures
            old(self).wf() ==> final(self).wf(),
            final(self)@ == old(self)@.implied(Operation::Tsx),
    {
        proof {
            reveal(CpuState::implied);
        }
        self.load_x(self.stack_pointer);
    }

    pub fn txs(&mut self)
        ensures
            old(self).wf() ==> final(self).wf(),
            final(self)@ == old(self)@.implied(Operation::Txs),
    {
        proof {
            reveal(CpuState::implied);
        }
        self.stack_pointer = self.register_x;
    }

    pub fn inx(&mut self)
        ensures
            old(self).wf() ==> final(self).wf(),
            final(self)@ == old(self)@.implied(Operation::Inx),
    {
        proof {
            reveal(CpuState::implied);
        }
        self.load_x(self.register_x.wrapping_add(1));
    }

    pub fn iny(&mut self)
        ensures
            old(self).wf() ==> final(self).wf(),
            final(self)@ == old(self)@.implied(Operation::Iny),
    {
        proof {
            reveal(CpuState::implied);
        }
        self.load_y(self.register_y.wrapping_add(1));
    }

    pub fn dex(&mut self)
        ensures
            old(self).wf() ==> final(self).wf(),
            final(self)@ == old(self)@.implied(Operation::Dex),
    {
        proof {
            reveal(CpuState::implied);
        }
        self.load_x(self.register_x.wrapping_sub(1));
    }

    pub fn dey(&mut self)
        ensures
            old(self).wf() ==> final(self).wf(),
            final(self)@ == old(self)@.implied(Operation::Dey),
    {
        proof {
            reveal(CpuState::implied);
        }
        self.load_y(self.register_y.wrapping_sub(1));
    }

    pub fn jmp(&mut self) -> (r: Result<(), Fault>)
        requires
            old(self).wf(),
        ensures
            final(self).wf(),
            final(self)@ == old(self)@.jump(AddressingMode::Absolute).0,
            r == old(self)@.jump(AddressingMode::Absolute).1,
    {
        proof {
            reveal(CpuState::jump);
        }
        let (addr, _) = self.get_operand_address(&AddressingMode::Absolute)?;
        self.program_counter = addr;
        Ok(())
    }

    pub fn jmp_indirect(&mut self) -> (r: Result<(), Fault>)
        requires
            old(self).wf(),
        ensures
            final(self).wf(),
            final(self)@ == old(self)@.jump(AddressingMode::Indirect).0,
            r == old(self)@.jump(AddressingMode::Indirect).1,
    {
        proof {
            reveal(CpuState::jump);
        }
        let (addr, _) = self.get_operand_address(&AddressingMode::Indirect)?;
        self.program_counter = addr;
        Ok(())
    }

    pub fn branch(&mut self, condition: bool) -> (r: Result<u8, Fault>)
        requires
            old(self).wf(),
        ensures
            final(self).wf(),
            final(self)@ == old(self)@.branch(condition).0,
            r == old(self)@.branch(condition).1,
    {
        proof {
            reveal(CpuState::branch);
        }
        let next = self.program_counter.wrapping_add(1);
        if condition {
            let offset = self.mem_read(self.program_counter)?;
            let jump_addr = if offset < 0x80 {
                next.wrapping_add(offset as u16)
            } else {
                next.wrapping_sub(0x100 - offset as u16)
            };
            self.program_counter = jump_addr;
            if next / 256 != jump_addr / 256 {
                Ok(2)
            } else {
                Ok(1)
            }
        } else {
            self.program_counter = next;
            Ok(0)
        }
    }

    pub fn jsr(&mut self) -> (r: Result<(), Fault>)
        requires
            old(self).wf(),
        ensures
            final(self).wf(),
            final(self)@ == old(self)@.jsr().0,
            r == old(self)@.jsr().1,
    {
        proof {
            reveal(CpuState::jsr);
        }
        self.stack_push_u16(self.program_counter.wrapping_add(1));
        let target_address = self.mem_read_u16(self.program_counter)?;
        self.program_counter = target_address;
        Ok(())
    }

    pub fn rts(&mut self)
        requires
            old(self).wf(),
        ensures
            final(self).wf(),
            final(self)@ == old(self)@.implied(Operation::Rts),
    {
        proof {
            reveal(CpuState::implied);
        }
        let target_address = self.stack_pop_u16();
        self.program_counter = target_address.wrapping_add(1);
    }

    pub fn rti(&mut self)
        requires
            old(self).wf(),
        ensures
            final(self).wf(),
            final(self)@ == old(self)@.implied(Operation::Rti),
    {
        proof {
            reveal(CpuState::implied);
        }
        self.status = StatusFlags::from_bits_truncate(self.stack_pop());
        self.status.remove(StatusFlags::BREAK);
        self.status.insert(StatusFlags::RESERVED);
        self.program_counter = self.stack_pop_u16();
    }

    pub fn pha(&mut self)
        requires
            old(self).wf(),
        ensures
            final(self).wf(),
            final(self)@ == old(self)@.implied(Operation::Pha),
    {
        proof {
            reveal(CpuState::implied);
        }
        let a = self.register_a;
        self.stack_push(a);
    }

    pub fn pla(&mut self)
        requires
            old(self).wf(),
        ensures
            final(self).wf(),
            final(self)@ == old(self)@.implied(Operation::Pla),
    {
        proof {
            reveal(CpuState::implied);
        }
        let value = self.stack_pop();
        self.load_a(value);
    }

    pub fn php(&mut self)
        requires
            old(self).wf(),
        ensures
            final(self).wf(),
            final(self)@ == old(self)@.implied(Operation::Php),
    {
        proof {
            reveal(CpuState::implied);
        }
        let mut value = self.status;
        value.insert(StatusFlags::BREAK);
        value.insert(StatusFlags::RESERVED);
        self.stack_push(value.bits());
    }

    pub fn plp(&mut self)
        requires
            old(self).wf(),
        ensures
            final(self).wf(),
            final(self)@ == old(self)@.implied(Operation::Plp),
    {
        proof {
            reveal(CpuState::implied);
        }
        self.status = StatusFlags::from_bits_truncate(self.stack_pop());
        self.status.remove(StatusFlags::BREAK);
        self.status.insert(StatusFlags::RESERVED);
    }

    pub fn brk(&mut self)
        ensures
            old(self).wf() ==> final(self).wf(),
            final(self)@ == old(self)@.implied(Operation::Brk),
    {
        proof {
            reveal(CpuState::implied);
        }
        self.status.insert(StatusFlags::BREAK);
    }

    pub fn sec(&mut self)
        ensures
            old(self).wf() ==> final(self).wf(),
            final(self)@ == old(self)@.implied(Operation::Sec),
    {
        proof {
            reveal(CpuState::implied);
        }
        self.status.insert(StatusFlags::CARRY);
    }

    pub fn clc(&mut self)
        ensures
            old(self).wf() ==> final(self).wf(),
            final(self)@ == old(self)@.implied(Operation::Clc),
    {
        proof {
            reveal(CpuState::implied);
        }
        self.status.remove(StatusFlags::CARRY);
    }

    pub fn sed(&mut self)
        ensures
            old(self).wf() ==> final(self).wf(),
            final(self)@ == old(self)@.implied(Operation::Sed),
    {
        proof {
            reveal(CpuState::implied);
        }
        self.status.insert(StatusFlags::DECIMAL_MODE);
    }

    pub fn cld(&mut self)
        ensures
            old(self).wf() ==> final(self).wf(),
            final(self)@ == old(self)@.implied(Operation::Cld),
    {
        proof {
            reveal(CpuState::implied);
        }
        self.status.remove(StatusFlags::DECIMAL_MODE);
    }

    pub fn sei(&mut self)
        ensures
            old(self).wf() ==> final(self).wf(),
            final(self)@ == old(self)@.implied(Operation::Sei),
    {
        proof {
            reveal(CpuState::implied);
        }
        self.status.insert(StatusFlags::INTERRUPT_DISABLE);
    }

    pub fn cli(&mut self)
        ensures
            old(self).wf() ==> final(self).wf(),
            final(self)@ == old(self)@.implied(Operation::Cli),
    {
        proof {
            reveal(CpuState::implied);
        }
        self.status.remove(StatusFlags::INTERRUPT_DISABLE);
    }

    pub fn clv(&mut self)
        ensures
            old(self).wf() ==> final(self).wf(),
            final(self)@ == old(self)@.implied(Operation::Clv),
    {
        proof {
            reveal(CpuState::implied);
        }
        self.status.remove(StatusFlags::OVERFLOW);
    }

    pub fn nop(&self) {
    }
}

} // verus!
