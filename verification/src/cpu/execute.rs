//! Fetch, decode, execute: one step of the processor, and runs of steps.

use crate::cpu::model::CpuState;
use crate::cpu::CPU;
use crate::fault::Fault;
use crate::flags::StatusFlags;
use crate::opscodes::decode;
use crate::opscodes::decode_high;
use crate::opscodes::decode_low;
use crate::opscodes::AddressingMode;
use crate::opscodes::OpCode;
use crate::opscodes::Operation;
use vstd::prelude::*;

verus! {

/// The bytes that the operand of an instruction takes in each mode.
pub open spec fn operand_width(mode: AddressingMode) -> int {
    match mode {
        AddressingMode::NonAddressing => 0,
        AddressingMode::Absolute
        | AddressingMode::Absolute_X
        | AddressingMode::Absolute_Y
        | AddressingMode::Indirect => 2,
        _ => 1,
    }
}

/// Every opcode byte has its own entry in the instruction table. An
/// instruction is as long as its opcode and the operand of its mode, and
/// takes two to eight cycles before penalties.
pub proof fn lemma_decode_bounds(code: u8)
    ensures
        decode(code).code == code,
        decode(code).bytes_len == 1 + operand_width(decode(code).mode),
        2 <= decode(code).cycles <= 8,
{
    if code < 0x80 {
        assert(decode_low(code).bytes_len == 1 + operand_width(decode_low(code).mode) && 2
            <= decode_low(code).cycles <= 8 && decode_low(code).code == code);
    } else {
        assert(decode_high(code).bytes_len == 1 + operand_width(decode_high(code).mode) && 2
            <= decode_high(code).cycles <= 8 && decode_high(code).code == code);
    }
}

/// Reading an operand changes no register.
pub proof fn lemma_fetch_keeps_registers(s: CpuState, mode: AddressingMode)
    ensures
        s.fetch(mode).0.a == s.a,
        s.fetch(mode).0.x == s.x,
        s.fetch(mode).0.y == s.y,
        s.fetch(mode).0.status == s.status,
        s.fetch(mode).0.pc == s.pc,
        s.fetch(mode).0.sp == s.sp,
{
    reveal(CpuState::fetch);
}

/// An instruction takes at most two cycles beyond its base cycles.
pub proof fn lemma_extra_cycles(s: CpuState, op: OpCode)
    ensures
        s.execute(op).1 is Ok ==> s.execute(op).1->Ok_0 <= 2,
{
    reveal(CpuState::branch);
}

/// The families of instructions.
#[derive(Clone, Copy, Debug, PartialEq, Eq, Structural)]
pub enum Family {
    /// Instructions that read their operand from memory.
    Read,
    /// Instructions that read a byte, modify it and write it back.
    Modify,
    /// Instructions that write to memory.
    Store,
    /// Branches, jumps and calls.
    Flow,
    /// Transfers between registers, increments and decrements.
    Register,
    /// Pushes, pulls and returns.
    Stack,
    /// Instructions that set or clear one flag.
    Flag,
}

impl Operation {
    /// The family of the instruction.
    pub open spec fn family(self) -> Family {
        match self {
            Operation::Lda
            | Operation::Ldx
            | Operation::Ldy
            | Operation::And
            | Operation::Eor
            | Operation::Ora
            | Operation::Adc
            | Operation::Sbc
            | Operation::Cmp
            | Operation::Cpx
            | Operation::Cpy
            | Operation::Bit
            | Operation::Lax
            | Operation::Lxa
            | Operation::Xaa
            | Operation::Las
            | Operation::Anc
            | Operation::Alr
            | Operation::Arr
            | Operation::Axs
            | Operation::Nop => Family::Read,
            Operation::Asl
            | Operation::Lsr
            | Operation::Rol
            | Operation::Ror
            | Operation::Inc
            | Operation::Dec
            | Operation::Slo
            | Operation::Rla
            | Operation::Sre
            | Operation::Rra
            | Operation::Isb
            | Operation::Dcp => Family::Modify,
            Operation::Sta
            | Operation::Stx
            | Operation::Sty
            | Operation::Sax
            | Operation::Ahx
            | Operation::Tas
            | Operation::Shx
            | Operation::Shy => Family::Store,
            Operation::Bcs
            | Operation::Bcc
            | Operation::Beq
            | Operation::Bne
            | Operation::Bvs
            | Operation::Bvc
            | Operation::Bmi
            | Operation::Bpl
            | Operation::Jmp
            | Operation::Jsr => Family::Flow,
            Operation::Tax
            | Operation::Txa
            | Operation::Tay
            | Operation::Tya
            | Operation::Tsx
            | Operation::Txs
            | Operation::Inx
            | Operation::Iny
            | Operation::Dex
            | Operation::Dey => Family::Register,
            Operation::Pha
            | Operation::Pla
            | Operation::Php
            | Operation::Plp
            | Operation::Rts
            | Operation::Rti => Family::Stack,
            _ => Family::Flag,
        }
    }

    #[verifier::when_used_as_spec(family)]
    pub fn family_of(self) -> (f: Family)
        ensures
            f == self.family(),
    {
        match self {
            Operation::Lda
            | Operation::Ldx
            | Operation::Ldy
            | Operation::And
            | Operation::Eor
            | Operation::Ora
            | Operation::Adc
            | Operation::Sbc
            | Operation::Cmp
            | Operation::Cpx
            | Operation::Cpy
            | Operation::Bit
            | Operation::Lax
            | Operation::Lxa
            | Operation::Xaa
            | Operation::Las
            | Operation::Anc
            | Operation::Alr
            | Operation::Arr
            | Operation::Axs
            | Operation::Nop => Family::Read,
            Operation::Asl
            | Operation::Lsr
            | Operation::Rol
            | Operation::Ror
            | Operation::Inc
            | Operation::Dec
            | Operation::Slo
            | Operation::Rla
            | Operation::Sre
            | Operation::Rra
            | Operation::Isb
            | Operation::Dcp => Family::Modify,
            Operation::Sta
            | Operation::Stx
            | Operation::Sty
            | Operation::Sax
            | Operation::Ahx
            | Operation::Tas
            | Operation::Shx
            | Operation::Shy => Family::Store,
            Operation::Bcs
            | Operation::Bcc
            | Operation::Beq
            | Operation::Bne
            | Operation::Bvs
            | Operation::Bvc
            | Operation::Bmi
            | Operation::Bpl
            | Operation::Jmp
            | Operation::Jsr => Family::Flow,
            Operation::Tax
            | Operation::Txa
            | Operation::Tay
            | Operation::Tya
            | Operation::Tsx
            | Operation::Txs
            | Operation::Inx
            | Operation::Iny
            | Operation::Dex
            | Operation::Dey => Family::Register,
            Operation::Pha
            | Operation::Pla
            | Operation::Php
            | Operation::Plp
            | Operation::Rts
            | Operation::Rti => Family::Stack,
            _ => Family::Flag,
        }
    }
}

/// The extra cycle of a page penalty.
fn penalty(op: &OpCode, crossed: bool) -> (extra: u8)
    ensures
        extra == CpuState::penalty(*op, crossed),
{
    if op.page_penalty && crossed {
        1
    } else {
        0
    }
}

impl CPU {
    /// Executes an instruction that reads its operand from memory.
    fn execute_read(&mut self, op: &OpCode) -> (r: Result<u8, Fault>)
        requires
            old(self).wf(),
            op.operation.family() == Family::Read,
        ensures
            final(self).wf(),
            final(self)@ == old(self)@.execute(*op).0,
            r == old(self)@.execute(*op).1,
    {
        proof {
            lemma_fetch_keeps_registers(self@, op.mode);
            assert(self@.read_op(Operation::Cmp, op.mode) == self@.compare_op(
                op.mode,
                self@.a,
            )) by {
                reveal(CpuState::read_op);
            }
            assert(self@.read_op(Operation::Nop, op.mode) == (
                self@.fetch(op.mode).0,
                match self@.fetch(op.mode).1 {
                    Ok(operand) => Ok::<bool, Fault>(operand.1),
                    Err(fault) => Err(fault),
                },
            )) by {
                reveal(CpuState::read_op);
            }
        }
        let mode = &op.mode;
        match op.operation {
            Operation::Lda => Ok(penalty(op, self.lda(mode)?)),
            Operation::Ldx => Ok(penalty(op, self.ldx(mode)?)),
            Operation::Ldy => Ok(penalty(op, self.ldy(mode)?)),
            Operation::And => Ok(penalty(op, self.and(mode)?)),
            Operation::Eor => Ok(penalty(op, self.eor(mode)?)),
            Operation::Ora => Ok(penalty(op, self.ora(mode)?)),
            Operation::Adc => Ok(penalty(op, self.adc(mode)?)),
            Operation::Sbc => Ok(penalty(op, self.sbc(mode)?)),
            Operation::Cmp => {
                let register = self.register_a;
                Ok(penalty(op, self.cmp(mode, register)?))
            },
            Operation::Cpx => Ok(penalty(op, self.cpx(mode)?)),
            Operation::Cpy => Ok(penalty(op, self.cpy(mode)?)),
            Operation::Bit => Ok(penalty(op, self.bit(mode)?)),
            Operation::Lax => Ok(penalty(op, self.lax(mode)?)),
            Operation::Lxa => Ok(penalty(op, self.lxa(mode)?)),
            Operation::Xaa => Ok(penalty(op, self.xaa(mode)?)),
            Operation::Las => Ok(penalty(op, self.las(mode)?)),
            Operation::Anc => Ok(penalty(op, self.anc(mode)?)),
            Operation::Alr => Ok(penalty(op, self.alr(mode)?)),
            Operation::Arr => Ok(penalty(op, self.arr(mode)?)),
            Operation::Axs => Ok(penalty(op, self.axs(mode)?)),
            _ => {
                match mode {
                    AddressingMode::NonAddressing | AddressingMode::Immediate => {
                        self.nop();
                        Ok(0)
                    },
                    _ => {
                        let (_, crossed) = self.fetch_operand(mode)?;
                        Ok(penalty(op, crossed))
                    },
                }
            },
        }
    }

    /// Executes a read-modify-write instruction, or a shift of the accumulator.
    fn execute_modify(&mut self, op: &OpCode) -> (r: Result<u8, Fault>)
        requires
            old(self).wf(),
            op.operation.family() == Family::Modify,
        ensures
            final(self).wf(),
            final(self)@ == old(self)@.execute(*op).0,
            r == old(self)@.execute(*op).1,
    {
        let mode = &op.mode;
        match op.operation {
            Operation::Asl => {
                match mode {
                    AddressingMode::NonAddressing => self.asl_accumulator(),
                    _ => {
                        self.asl(mode)?;
                    },
                }
                Ok(0)
            },
            Operation::Lsr => {
                match mode {
                    AddressingMode::NonAddressing => self.lsr_accumulator(),
                    _ => {
                        self.lsr(mode)?;
                    },
                }
                Ok(0)
            },
            Operation::Rol => {
                match mode {
                    AddressingMode::NonAddressing => self.rol_accumulator(),
                    _ => {
                        self.rol(mode)?;
                    },
                }
                Ok(0)
            },
            Operation::Ror => {
                match mode {
                    AddressingMode::NonAddressing => self.ror_accumulator(),
                    _ => {
                        self.ror(mode)?;
                    },
                }
                Ok(0)
            },
            Operation::Inc => {
                self.inc(mode)?;
                Ok(0)
            },
            Operation::Dec => {
                self.dec(mode)?;
                Ok(0)
            },
            Operation::Slo => {
                self.slo(mode)?;
                Ok(0)
            },
            Operation::Rla => {
                self.rla(mode)?;
                Ok(0)
            },
            Operation::Sre => {
                self.sre(mode)?;
                Ok(0)
            },
            Operation::Rra => {
                self.rra(mode)?;
                Ok(0)
            },
            Operation::Isb => {
                self.isb(mode)?;
                Ok(0)
            },
            _ => {
                self.dcp(mode)?;
                Ok(0)
            },
        }
    }

    /// Executes an instruction that writes to memory.
    fn execute_store(&mut self, op: &OpCode) -> (r: Result<u8, Fault>)
        requires
            old(self).wf(),
            op.operation.family() == Family::Store,
        ensures
            final(self).wf(),
            final(self)@ == old(self)@.execute(*op).0,
            r == old(self)@.execute(*op).1,
    {
        let mode = &op.mode;
        match op.operation {
            Operation::Sta => {
                self.sta(mode)?;
                Ok(0)
            },
            Operation::Stx => {
                self.stx(mode)?;
                Ok(0)
            },
            Operation::Sty => {
                self.sty(mode)?;
                Ok(0)
            },
            Operation::Sax => {
                self.sax(mode)?;
                Ok(0)
            },
            Operation::Ahx => {
                self.ahx(mode)?;
                Ok(0)
            },
            Operation::Tas => {
                self.tas(mode)?;
                Ok(0)
            },
            Operation::Shx => {
                self.shx(mode)?;
                Ok(0)
            },
            _ => {
                self.shy(mode)?;
                Ok(0)
            },
        }
    }

    /// Executes a branch, a jump or a call.
    fn execute_flow(&mut self, op: &OpCode) -> (r: Result<u8, Fault>)
        requires
            old(self).wf(),
            op.operation.family() == Family::Flow,
        ensures
            final(self).wf(),
            final(self)@ == old(self)@.execute(*op).0,
            r == old(self)@.execute(*op).1,
    {
        let mode = &op.mode;
        match op.operation {
            Operation::Bcs => self.branch(self.status.contains(StatusFlags::CARRY)),
            Operation::Bcc => self.branch(!self.status.contains(StatusFlags::CARRY)),
            Operation::Beq => self.branch(self.status.contains(StatusFlags::ZERO)),
            Operation::Bne => self.branch(!self.status.contains(StatusFlags::ZERO)),
            Operation::Bvs => self.branch(self.status.contains(StatusFlags::OVERFLOW)),
            Operation::Bvc => self.branch(!self.status.contains(StatusFlags::OVERFLOW)),
            Operation::Bmi => self.branch(self.status.contains(StatusFlags::NEGATIVE)),
            Operation::Bpl => self.branch(!self.status.contains(StatusFlags::NEGATIVE)),
            Operation::Jmp => {
                match mode {
                    AddressingMode::Indirect => self.jmp_indirect()?,
                    _ => self.jmp()?,
                }
                Ok(0)
            },
            _ => {
                self.jsr()?;
                Ok(0)
            },
        }
    }

    /// Executes a transfer, an increment or a decrement of a register.
    fn execute_register(&mut self, op: &OpCode) -> (r: Result<u8, Fault>)
        requires
            old(self).wf(),
            op.operation.family() == Family::Register,
        ensures
            final(self).wf(),
            final(self)@ == old(self)@.execute(*op).0,
            r == old(self)@.execute(*op).1,
    {
        let mode = &op.mode;
        match op.operation {
            Operation::Tax => {
                self.tax();
                Ok(0)
            },
            Operation::Txa => {
                self.txa();
                Ok(0)
            },
            Operation::Tay => {
                self.tay();
                Ok(0)
            },
            Operation::Tya => {
                self.tya();
                Ok(0)
            },
            Operation::Tsx => {
                self.tsx();
                Ok(0)
            },
            Operation::Txs => {
                self.txs();
                Ok(0)
            },
            Operation::Inx => {
                self.inx();
                Ok(0)
            },
            Operation::Iny => {
                self.iny();
                Ok(0)
            },
            Operation::Dex => {
                self.dex();
                Ok(0)
            },
            _ => {
                self.dey();
                Ok(0)
            },
        }
    }

    /// Executes a push, a pull or a return.
    fn execute_stack(&mut self, op: &OpCode) -> (r: Result<u8, Fault>)
        requires
            old(self).wf(),
            op.operation.family() == Family::Stack,
        ensures
            final(self).wf(),
            final(self)@ == old(self)@.execute(*op).0,
            r == old(self)@.execute(*op).1,
    {
        let mode = &op.mode;
        match op.operation {
            Operation::Pha => {
                self.pha();
                Ok(0)
            },
            Operation::Pla => {
                self.pla();
                Ok(0)
            },
            Operation::Php => {
                self.php();
                Ok(0)
            },
            Operation::Plp => {
                self.plp();
                Ok(0)
            },
            Operation::Rts => {
                self.rts();
                Ok(0)
            },
            _ => {
                self.rti();
                Ok(0)
            },
        }
    }

    /// Executes an instruction that sets or clears one flag.
    fn execute_flag(&mut self, op: &OpCode) -> (r: Result<u8, Fault>)
        requires
            old(self).wf(),
            op.operation.family() == Family::Flag,
        ensures
            final(self).wf(),
            final(self)@ == old(self)@.execute(*op).0,
            r == old(self)@.execute(*op).1,
    {
        let mode = &op.mode;
        match op.operation {
            Operation::Brk => {
                self.brk();
                Ok(0)
            },
            Operation::Sec => {
                self.sec();
                Ok(0)
            },
            Operation::Clc => {
                self.clc();
                Ok(0)
            },
            Operation::Sed => {
                self.sed();
                Ok(0)
            },
            Operation::Cld => {
                self.cld();
                Ok(0)
            },
            Operation::Sei => {
                self.sei();
                Ok(0)
            },
            Operation::Cli => {
                self.cli();
                Ok(0)
            },
            _ => {
                self.clv();
                Ok(0)
            },
        }
    }

    /// Executes instruction `op`, whose opcode was just fetched, and
    /// returns the cycles it takes beyond its base cycles.
    pub fn execute(&mut self, op: &OpCode) -> (r: Result<u8, Fault>)
        requires
            old(self).wf(),
        ensures
            final(self).wf(),
            final(self)@ == old(self)@.execute(*op).0,
            r == old(self)@.execute(*op).1,
            r is Ok ==> r->Ok_0 <= 2,
    {
        proof {
            lemma_extra_cycles(self@, *op);
        }
        match op.operation.family_of() {
            Family::Read => self.execute_read(op),
            Family::Modify => self.execute_modify(op),
            Family::Store => self.execute_store(op),
            Family::Flow => self.execute_flow(op),
            Family::Register => self.execute_register(op),
            Family::Stack => self.execute_stack(op),
            Family::Flag => self.execute_flag(op),
        }
    }
}

} // verus!
