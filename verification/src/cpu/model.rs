//! The processor as a mathematical state machine: what each instruction
//! does to registers, flags and memory.

use crate::bus::BusState;
use crate::fault::Fault;
use crate::flags::StatusFlags;
use crate::opscodes::decode;
use crate::opscodes::AddressingMode;
use crate::opscodes::OpCode;
use crate::opscodes::Operation;
use vstd::prelude::*;

verus! {

/// The registers of the processor and everything on its bus, as plain
/// values.
#[verifier::ext_equal]
pub struct CpuState {
    pub a: u8,
    pub x: u8,
    pub y: u8,
    pub status: StatusFlags,
    pub pc: u16,
    pub sp: u8,
    pub bus: BusState,
}

/// A fault together with the address of the instruction that ran into it.
#[derive(Clone, Copy, Debug, PartialEq, Eq, Structural)]
pub struct CpuFault {
    pub fault: Fault,
    pub pc: u16,
}

/// What one step of the processor came to.
#[derive(Clone, Copy, Debug, PartialEq, Eq, Structural)]
pub struct Step {
    /// The instruction was `BRK`, which halts the processor.
    pub halted: bool,
    /// The step raised the vertical-blank interrupt: a frame is ready to
    /// be rendered and shown.
    pub frame_ready: bool,
    /// The processor cycles of the instruction, penalties included.
    pub cycles: u8,
}

/// Why a run ended without a fault.
#[derive(Clone, Copy, Debug, PartialEq, Eq, Structural)]
pub enum Halt {
    /// A `BRK` was executed.
    Break,
    /// The instructions granted to the run were used up.
    StepLimit,
}

/// Why a run towards the next frame ended without a fault.
#[derive(Clone, Copy, Debug, PartialEq, Eq, Structural)]
pub enum Pause {
    /// A frame became ready.
    Frame,
    /// A `BRK` was executed.
    Break,
    /// The instructions granted to the run were used up.
    StepLimit,
}

/// Whether two addresses lie in different pages of 256 bytes.
pub open spec fn page_crossed(from: u16, to: u16) -> bool {
    from / 256 != to / 256
}

/// The sum of accumulator, operand and carry: the low eight bits, the
/// carry out of them, and whether the signed sum overflowed.
pub open spec fn adc_result(a: u8, operand: u8, carry: bool) -> (u8, bool, bool) {
    let sum = a + operand + if carry { 1int } else { 0int };
    let result = (sum % 256) as u8;
    (result, sum >= 256, (operand ^ result) & (result ^ a) & 0x80 != 0)
}

/// The accumulator minus the operand minus the borrow, which is the
/// inverse of carry: the low eight bits, whether no borrow was needed, and
/// whether the signed difference overflowed.
pub open spec fn sbc_result(a: u8, operand: u8, carry: bool) -> (u8, bool, bool) {
    let difference = a - operand - if carry { 0int } else { 1int };
    let result = (difference % 256) as u8;
    (result, difference >= 0, ((255 - operand) as u8 ^ result) & (result ^ a) & 0x80 != 0)
}

/// The byte that a read-modify-write instruction puts back, and the carry
/// it leaves. `INC` and `DEC` leave the carry alone.
pub open spec fn modified(op: Operation, value: u8, carry: bool) -> (u8, bool) {
    let carry_in: u8 = if carry { 1 } else { 0 };
    match op {
        Operation::Asl | Operation::Slo => (value << 1, value & 0x80 != 0),
        Operation::Lsr | Operation::Sre => (value >> 1, value & 0x01 != 0),
        Operation::Rol | Operation::Rla => ((value << 1) | carry_in, value & 0x80 != 0),
        Operation::Ror | Operation::Rra => ((value >> 1) | (carry_in << 7), value & 0x01 != 0),
        Operation::Inc | Operation::Isb => (value.wrapping_add(1), carry),
        _ => (value.wrapping_sub(1), carry),
    }
}

impl CpuState {
    pub open spec fn wf(self) -> bool {
        self.bus.wf()
    }

    /// A read through the bus.
    pub open spec fn read(self, addr: u16) -> (CpuState, Result<u8, Fault>) {
        (CpuState { bus: self.bus.read(addr).0, ..self }, self.bus.read(addr).1)
    }

    /// A write through the bus.
    pub open spec fn write(self, addr: u16, data: u8) -> (CpuState, Result<(), Fault>) {
        (CpuState { bus: self.bus.write(addr, data).0, ..self }, self.bus.write(addr, data).1)
    }

    /// A little-endian 16-bit read through the bus.
    pub open spec fn read_u16(self, pos: u16) -> (CpuState, Result<u16, Fault>) {
        (CpuState { bus: self.bus.read_u16(pos).0, ..self }, self.bus.read_u16(pos).1)
    }

    /// A little-endian 16-bit write through the bus.
    pub open spec fn write_u16(self, pos: u16, data: u16) -> (CpuState, Result<(), Fault>) {
        (
            CpuState { bus: self.bus.write_u16(pos, data).0, ..self },
            self.bus.write_u16(pos, data).1,
        )
    }

    /// With `data` pushed: it is written at `$0100` plus the stack pointer,
    /// which then moves down by one, from 0 to 255.
    pub open spec fn push(self, data: u8) -> CpuState {
        CpuState {
            sp: self.sp.wrapping_sub(1),
            bus: BusState { ram: self.bus.ram.update(0x0100 + self.sp, data), ..self.bus },
            ..self
        }
    }

    /// The byte that a pop returns: the one above the stack pointer.
    pub open spec fn top(self) -> u8 {
        self.bus.ram[0x0100 + self.sp.wrapping_add(1)]
    }

    /// With one byte popped: the stack pointer has moved up by one, from
    /// 255 to 0.
    pub open spec fn pop(self) -> CpuState {
        CpuState { sp: self.sp.wrapping_add(1), ..self }
    }

    /// With a word pushed, high byte first.
    pub open spec fn push_u16(self, data: u16) -> CpuState {
        self.push((data >> 8) as u8).push((data & 0xff) as u8)
    }

    /// The word that a 16-bit pop returns: low byte first.
    pub open spec fn top_u16(self) -> u16 {
        ((self.pop().top() as u16) << 8) | (self.top() as u16)
    }

    /// The word in page zero at `ptr`: its high byte is the byte after
    /// `ptr` within page zero.
    pub open spec fn zero_page_word(self, ptr: u8) -> u16 {
        ((self.bus.ram[ptr.wrapping_add(1) as int] as u16) << 8) | (self.bus.ram[ptr as int] as u16)
    }

    /// The address, and whether forming it crossed a page, for a mode
    /// whose operand is the single byte `operand`.
    pub open spec fn address_from_byte(self, mode: AddressingMode, operand: u8) -> (u16, bool) {
        match mode {
            AddressingMode::ZeroPage_X => (operand.wrapping_add(self.x) as u16, false),
            AddressingMode::ZeroPage_Y => (operand.wrapping_add(self.y) as u16, false),
            AddressingMode::Indirect_X => (
                self.zero_page_word(operand.wrapping_add(self.x)),
                false,
            ),
            AddressingMode::Indirect_Y => {
                let base = self.zero_page_word(operand);
                let addr = base.wrapping_add(self.y as u16);
                (addr, page_crossed(base, addr))
            },
            _ => (operand as u16, false),
        }
    }

    /// The address, and whether forming it crossed a page, for a mode
    /// whose operand is the word `operand`.
    pub open spec fn address_from_word(self, mode: AddressingMode, operand: u16) -> (u16, bool) {
        match mode {
            AddressingMode::Absolute_X => {
                let addr = operand.wrapping_add(self.x as u16);
                (addr, page_crossed(operand, addr))
            },
            AddressingMode::Absolute_Y => {
                let addr = operand.wrapping_add(self.y as u16);
                (addr, page_crossed(operand, addr))
            },
            _ => (operand, false),
        }
    }

    /// The word that an indirect jump finds at `ptr`. Its high byte comes
    /// from the byte after `ptr` within the same page: when `ptr` is the
    /// last byte of a page, from the first byte of that page.
    pub open spec fn read_pointer(self, ptr: u16) -> (CpuState, Result<u16, Fault>) {
        let (s1, lo) = self.read(ptr);
        match lo {
            Err(fault) => (s1, Err(fault)),
            Ok(lo) => {
                let (s2, hi) = s1.read((ptr / 256 * 256 + (ptr + 1) % 256) as u16);
                match hi {
                    Err(fault) => (s2, Err(fault)),
                    Ok(hi) => (s2, Ok(((hi as u16) << 8) | (lo as u16))),
                }
            },
        }
    }

    /// The effective address of an operand that stands at `addr`, and
    /// whether forming it crossed a page. Modes without an address give
    /// `addr` itself.
    pub open spec fn absolute_address(self, mode: AddressingMode, addr: u16) -> (
        CpuState,
        Result<(u16, bool), Fault>,
    ) {
        match mode {
            AddressingMode::ZeroPage
            | AddressingMode::ZeroPage_X
            | AddressingMode::ZeroPage_Y
            | AddressingMode::Indirect_X
            | AddressingMode::Indirect_Y => {
                let (s, operand) = self.read(addr);
                match operand {
                    Err(fault) => (s, Err(fault)),
                    Ok(operand) => (s, Ok(s.address_from_byte(mode, operand))),
                }
            },
            AddressingMode::Absolute | AddressingMode::Absolute_X | AddressingMode::Absolute_Y => {
                let (s, operand) = self.read_u16(addr);
                match operand {
                    Err(fault) => (s, Err(fault)),
                    Ok(operand) => (s, Ok(s.address_from_word(mode, operand))),
                }
            },
            AddressingMode::Indirect => {
                let (s, ptr) = self.read_u16(addr);
                match ptr {
                    Err(fault) => (s, Err(fault)),
                    Ok(ptr) => {
                        let (s2, target) = s.read_pointer(ptr);
                        match target {
                            Err(fault) => (s2, Err(fault)),
                            Ok(target) => (s2, Ok((target, false))),
                        }
                    },
                }
            },
            _ => (self, Ok((addr, false))),
        }
    }

    /// The effective address of the operand of the instruction whose
    /// opcode was just fetched: the program counter stands at the operand.
    pub open spec fn operand_address(self, mode: AddressingMode) -> (
        CpuState,
        Result<(u16, bool), Fault>,
    ) {
        self.absolute_address(mode, self.pc)
    }

    /// The operand of the instruction, and whether forming its address
    /// crossed a page.
    #[verifier::opaque]
    pub open spec fn fetch(self, mode: AddressingMode) -> (CpuState, Result<(u8, bool), Fault>) {
        let (s, target) = self.operand_address(mode);
        match target {
            Err(fault) => (s, Err(fault)),
            Ok((addr, crossed)) => {
                let (s2, value) = s.read(addr);
                match value {
                    Err(fault) => (s2, Err(fault)),
                    Ok(value) => (s2, Ok((value, crossed))),
                }
            },
        }
    }

    /// With `value` in the accumulator and Zero and Negative set from it.
    pub open spec fn set_a(self, value: u8) -> CpuState {
        CpuState { a: value, status: self.status.with_zn(value), ..self }
    }

    /// With `value` in X and Zero and Negative set from it.
    pub open spec fn set_x(self, value: u8) -> CpuState {
        CpuState { x: value, status: self.status.with_zn(value), ..self }
    }

    /// With `value` in Y and Zero and Negative set from it.
    pub open spec fn set_y(self, value: u8) -> CpuState {
        CpuState { y: value, status: self.status.with_zn(value), ..self }
    }

    /// With Carry set to `carry`.
    pub open spec fn set_carry(self, carry: bool) -> CpuState {
        CpuState { status: self.status.assign(0x01, carry), ..self }
    }

    /// After adding `data` and the carry to the accumulator. The decimal
    /// flag plays no part.
    pub open spec fn add_to_a(self, data: u8) -> CpuState {
        let (result, carry, overflow) = adc_result(self.a, data, self.status.has(0x01));
        CpuState {
            a: result,
            status: self.status.assign(0x01, carry).assign(0x40, overflow).with_zn(result),
            ..self
        }
    }

    /// After subtracting `data` and the borrow from the accumulator. The
    /// decimal flag plays no part.
    pub open spec fn sub_from_a(self, data: u8) -> CpuState {
        let (result, carry, overflow) = sbc_result(self.a, data, self.status.has(0x01));
        CpuState {
            a: result,
            status: self.status.assign(0x01, carry).assign(0x40, overflow).with_zn(result),
            ..self
        }
    }

    /// After comparing `register` with `value`: Carry tells whether
    /// `register` is at least `value`, Zero and Negative describe the
    /// difference.
    pub open spec fn compare(self, register: u8, value: u8) -> CpuState {
        CpuState {
            status: self.status.assign(0x01, register >= value).with_zn(
                register.wrapping_sub(value),
            ),
            ..self
        }
    }

    /// After the accumulator went through shift or rotate `op`.
    pub open spec fn shift_a(self, op: Operation) -> CpuState {
        let (result, carry) = modified(op, self.a, self.status.has(0x01));
        self.set_carry(carry).set_a(result)
    }

    /// After instruction `op` took in its operand `value`. These are the
    /// instructions that only read memory.
    pub open spec fn apply(self, op: Operation, value: u8) -> CpuState {
        match op {
            Operation::Lda => self.set_a(value),
            Operation::Ldx => self.set_x(value),
            Operation::Ldy => self.set_y(value),
            Operation::And => self.set_a(self.a & value),
            Operation::Eor => self.set_a(self.a ^ value),
            Operation::Ora => self.set_a(self.a | value),
            Operation::Adc => self.add_to_a(value),
            Operation::Sbc => self.sub_from_a(value),
            Operation::Cmp => self.compare(self.a, value),
            Operation::Cpx => self.compare(self.x, value),
            Operation::Cpy => self.compare(self.y, value),
            Operation::Bit => CpuState {
                status: self.status.assign(0x02, self.a & value == 0).assign(
                    0x40,
                    value & 0x40 != 0,
                ).assign(0x80, value & 0x80 != 0),
                ..self
            },
            Operation::Lax | Operation::Lxa => CpuState { x: value, ..self.set_a(value) },
            Operation::Xaa => self.set_a(self.x & value),
            Operation::Las => CpuState {
                x: value & self.sp,
                sp: value & self.sp,
                ..self.set_a(value & self.sp)
            },
            Operation::Anc => {
                let s = self.set_a(self.a & value);
                s.set_carry(s.status.has(0x80))
            },
            Operation::Alr => self.set_a(self.a & value).shift_a(Operation::Lsr),
            Operation::Arr => {
                let s = self.set_a(self.a & value).shift_a(Operation::Ror);
                CpuState {
                    status: s.status.assign(0x01, s.a & 0x40 != 0).assign(
                        0x40,
                        ((s.a >> 5) ^ (s.a >> 6)) & 1 == 1,
                    ),
                    ..s
                }
            },
            Operation::Axs => self.set_carry((self.a & self.x) >= value).set_x(
                (self.a & self.x).wrapping_sub(value),
            ),
            _ => self,
        }
    }

    /// An instruction that only reads memory: it takes in its operand and
    /// tells whether forming the operand's address crossed a page.
    #[verifier::opaque]
    pub open spec fn read_op(self, op: Operation, mode: AddressingMode) -> (
        CpuState,
        Result<bool, Fault>,
    ) {
        let (s, operand) = self.fetch(mode);
        match operand {
            Err(fault) => (s, Err(fault)),
            Ok((value, crossed)) => (s.apply(op, value), Ok(crossed)),
        }
    }

    /// After a read-modify-write instruction put `result` back: the
    /// shifts, `INC` and `DEC` set Zero and Negative from it, the
    /// undocumented combinations go on to combine it with the accumulator.
    pub open spec fn combine(self, op: Operation, result: u8) -> CpuState {
        match op {
            Operation::Slo => self.set_a(self.a | result),
            Operation::Rla => self.set_a(self.a & result),
            Operation::Sre => self.set_a(self.a ^ result),
            Operation::Rra => self.add_to_a(result),
            Operation::Isb => self.sub_from_a(result),
            Operation::Dcp => self.compare(self.a, result),
            _ => CpuState { status: self.status.with_zn(result), ..self },
        }
    }

    /// A read-modify-write instruction: it reads its operand, writes the
    /// modified byte back to the same address, and returns that byte.
    #[verifier::opaque]
    pub open spec fn modify(self, op: Operation, mode: AddressingMode) -> (
        CpuState,
        Result<u8, Fault>,
    ) {
        let (s, target) = self.operand_address(mode);
        match target {
            Err(fault) => (s, Err(fault)),
            Ok((addr, _)) => {
                let (s2, value) = s.read(addr);
                match value {
                    Err(fault) => (s2, Err(fault)),
                    Ok(value) => {
                        let (result, carry) = modified(op, value, s2.status.has(0x01));
                        let (s3, written) = s2.write(addr, result);
                        match written {
                            Err(fault) => (s3, Err(fault)),
                            Ok(_) => (s3.set_carry(carry).combine(op, result), Ok(result)),
                        }
                    },
                }
            },
        }
    }

    /// The byte that store instruction `op` writes at `addr`.
    pub open spec fn stored(self, op: Operation, addr: u16) -> u8 {
        let high = ((addr >> 8) as u8);
        match op {
            Operation::Sta => self.a,
            Operation::Stx => self.x,
            Operation::Sty => self.y,
            Operation::Sax => self.a & self.x,
            Operation::Ahx => self.a & self.x & high,
            Operation::Tas => high.wrapping_add(1) & self.a & self.x,
            Operation::Shx => self.x & high.wrapping_add(1),
            _ => self.y & high.wrapping_add(1),
        }
    }

    /// A store instruction: it writes a byte made of the registers at the
    /// operand's address. `TAS` first loads the stack pointer with the
    /// accumulator ANDed with X.
    #[verifier::opaque]
    pub open spec fn store(self, op: Operation, mode: AddressingMode) -> (
        CpuState,
        Result<(), Fault>,
    ) {
        let (s, target) = self.operand_address(mode);
        match target {
            Err(fault) => (s, Err(fault)),
            Ok((addr, _)) => {
                let s1 = if op == Operation::Tas {
                    CpuState { sp: s.a & s.x, ..s }
                } else {
                    s
                };
                s1.write(addr, s1.stored(op, addr))
            },
        }
    }

    /// The address that the signed distance `offset` leads to from the
    /// instruction behind a branch whose operand stands at `self.pc`.
    pub open spec fn branch_target(self, offset: u8) -> u16 {
        if offset < 0x80 {
            self.pc.wrapping_add(1).wrapping_add(offset as u16)
        } else {
            self.pc.wrapping_add(1).wrapping_sub((0x100 - offset) as u16)
        }
    }

    /// A branch: taken, it costs one cycle more, and another if the target
    /// lies in another page than the instruction behind the branch; not
    /// taken, execution goes on behind the operand.
    #[verifier::opaque]
    pub open spec fn branch(self, condition: bool) -> (CpuState, Result<u8, Fault>) {
        if condition {
            let (s, offset) = self.read(self.pc);
            match offset {
                Err(fault) => (s, Err(fault)),
                Ok(offset) => {
                    let target = s.branch_target(offset);
                    (
                        CpuState { pc: target, ..s },
                        Ok(
                            if page_crossed(s.pc.wrapping_add(1), target) {
                                2u8
                            } else {
                                1u8
                            },
                        ),
                    )
                },
            }
        } else {
            (CpuState { pc: self.pc.wrapping_add(1), ..self }, Ok(0u8))
        }
    }

    /// Whether branch instruction `op` is taken.
    pub open spec fn branch_condition(self, op: Operation) -> bool {
        match op {
            Operation::Bcs => self.status.has(0x01),
            Operation::Bcc => !self.status.has(0x01),
            Operation::Beq => self.status.has(0x02),
            Operation::Bne => !self.status.has(0x02),
            Operation::Bvs => self.status.has(0x40),
            Operation::Bvc => !self.status.has(0x40),
            Operation::Bmi => self.status.has(0x80),
            _ => !self.status.has(0x80),
        }
    }

    /// A jump: execution goes on at the operand's address.
    #[verifier::opaque]
    pub open spec fn jump(self, mode: AddressingMode) -> (CpuState, Result<(), Fault>) {
        let (s, target) = self.operand_address(mode);
        match target {
            Err(fault) => (s, Err(fault)),
            Ok((addr, _)) => (CpuState { pc: addr, ..s }, Ok(())),
        }
    }

    /// A call: the address of the last byte of the instruction is pushed,
    /// then execution goes on at the operand.
    #[verifier::opaque]
    pub open spec fn jsr(self) -> (CpuState, Result<(), Fault>) {
        let s = self.push_u16(self.pc.wrapping_add(1));
        let (s2, target) = s.read_u16(s.pc);
        match target {
            Err(fault) => (s2, Err(fault)),
            Ok(target) => (CpuState { pc: target, ..s2 }, Ok(())),
        }
    }

    /// A return from a call: execution goes on behind the popped address.
    pub open spec fn rts(self) -> CpuState {
        CpuState { pc: self.top_u16().wrapping_add(1), ..self.pop().pop() }
    }

    /// The status byte as it is after being pulled from the stack: Break
    /// is cleared and the reserved bit set.
    pub open spec fn pulled_status(value: u8) -> StatusFlags {
        StatusFlags { bits: value }.without(0x10).with(0x20)
    }

    /// A return from an interrupt: the status is popped, then the program
    /// counter.
    pub open spec fn rti(self) -> CpuState {
        let s = CpuState { status: CpuState::pulled_status(self.top()), ..self.pop() };
        CpuState { pc: s.top_u16(), ..s.pop().pop() }
    }

    /// After an instruction without operand.
    #[verifier::opaque]
    pub open spec fn implied(self, op: Operation) -> CpuState {
        match op {
            Operation::Tax => self.set_x(self.a),
            Operation::Txa => self.set_a(self.x),
            Operation::Tay => self.set_y(self.a),
            Operation::Tya => self.set_a(self.y),
            Operation::Tsx => self.set_x(self.sp),
            Operation::Txs => CpuState { sp: self.x, ..self },
            Operation::Inx => self.set_x(self.x.wrapping_add(1)),
            Operation::Iny => self.set_y(self.y.wrapping_add(1)),
            Operation::Dex => self.set_x(self.x.wrapping_sub(1)),
            Operation::Dey => self.set_y(self.y.wrapping_sub(1)),
            Operation::Pha => self.push(self.a),
            Operation::Php => self.push(self.status.with(0x10).with(0x20).bits),
            Operation::Pla => self.pop().set_a(self.top()),
            Operation::Plp => CpuState {
                status: CpuState::pulled_status(self.top()),
                ..self.pop()
            },
            Operation::Rts => self.rts(),
            Operation::Rti => self.rti(),
            Operation::Brk => CpuState { status: self.status.with(0x10), ..self },
            Operation::Sec => CpuState { status: self.status.with(0x01), ..self },
            Operation::Clc => CpuState { status: self.status.without(0x01), ..self },
            Operation::Sed => CpuState { status: self.status.with(0x08), ..self },
            Operation::Cld => CpuState { status: self.status.without(0x08), ..self },
            Operation::Sei => CpuState { status: self.status.with(0x04), ..self },
            Operation::Cli => CpuState { status: self.status.without(0x04), ..self },
            Operation::Clv => CpuState { status: self.status.without(0x40), ..self },
            Operation::Asl | Operation::Lsr | Operation::Rol | Operation::Ror => self.shift_a(op),
            _ => self,
        }
    }

    /// The extra cycle of an instruction with a page penalty whose operand
    /// address crossed a page.
    pub open spec fn penalty(op: OpCode, crossed: bool) -> u8 {
        if op.page_penalty && crossed {
            1
        } else {
            0
        }
    }

    /// The instruction `op`, with the program counter at its operand: the
    /// processor afterwards and the cycles it takes beyond its base
    /// cycles.
    pub open spec fn execute(self, op: OpCode) -> (CpuState, Result<u8, Fault>) {
        match op.operation {
            Operation::Lda
            | Operation::Ldx
            | Operation::Ldy
            | Operation::And
            | Operation::Eor
            | Operation::Ora
            | Operation::Adc
            | Operation::Sbc
            | Operation::Cmp
            | Operation::Cpx
            | Operation::Cpy
            | Operation::Bit
            | Operation::Lax
            | Operation::Lxa
            | Operation::Xaa
            | Operation::Las
            | Operation::Anc
            | Operation::Alr
            | Operation::Arr
            | Operation::Axs => {
                let (s, crossed) = self.read_op(op.operation, op.mode);
                match crossed {
                    Err(fault) => (s, Err(fault)),
                    Ok(crossed) => (s, Ok(CpuState::penalty(op, crossed))),
                }
            },
            Operation::Nop => {
                if op.mode == AddressingMode::NonAddressing || op.mode
                    == AddressingMode::Immediate {
                    (self, Ok(0u8))
                } else {
                    let (s, crossed) = self.read_op(op.operation, op.mode);
                    match crossed {
                        Err(fault) => (s, Err(fault)),
                        Ok(crossed) => (s, Ok(CpuState::penalty(op, crossed))),
                    }
                }
            },
            Operation::Asl | Operation::Lsr | Operation::Rol | Operation::Ror => {
                if op.mode == AddressingMode::NonAddressing {
                    (self.implied(op.operation), Ok(0u8))
                } else {
                    let (s, result) = self.modify(op.operation, op.mode);
                    match result {
                        Err(fault) => (s, Err(fault)),
                        Ok(_) => (s, Ok(0u8)),
                    }
                }
            },
            Operation::Inc
            | Operation::Dec
            | Operation::Slo
            | Operation::Rla
            | Operation::Sre
            | Operation::Rra
            | Operation::Isb
            | Operation::Dcp => {
                let (s, result) = self.modify(op.operation, op.mode);
                match result {
                    Err(fault) => (s, Err(fault)),
                    Ok(_) => (s, Ok(0u8)),
                }
            },
            Operation::Sta
            | Operation::Stx
            | Operation::Sty
            | Operation::Sax
            | Operation::Ahx
            | Operation::Tas
            | Operation::Shx
            | Operation::Shy => {
                let (s, written) = self.store(op.operation, op.mode);
                match written {
                    Err(fault) => (s, Err(fault)),
                    Ok(_) => (s, Ok(0u8)),
                }
            },
            Operation::Bcc
            | Operation::Bcs
            | Operation::Beq
            | Operation::Bmi
            | Operation::Bne
            | Operation::Bpl
            | Operation::Bvc
            | Operation::Bvs => self.branch(self.branch_condition(op.operation)),
            Operation::Jmp => {
                let (s, jumped) = self.jump(
                    if op.mode == AddressingMode::Indirect {
                        AddressingMode::Indirect
                    } else {
                        AddressingMode::Absolute
                    },
                );
                match jumped {
                    Err(fault) => (s, Err(fault)),
                    Ok(_) => (s, Ok(0u8)),
                }
            },
            Operation::Jsr => {
                let (s, jumped) = self.jsr();
                match jumped {
                    Err(fault) => (s, Err(fault)),
                    Ok(_) => (s, Ok(0u8)),
                }
            },
            _ => (self.implied(op.operation), Ok(0u8)),
        }
    }

    /// After the reset signal: the registers are cleared, the stack
    /// pointer is `$FD`, the status `0010 0100`, and execution starts at
    /// the address found at `$FFFC`. If that read faults the program
    /// counter stays.
    pub open spec fn reset(self) -> (CpuState, Result<(), Fault>) {
        let s = CpuState {
            a: 0,
            x: 0,
            y: 0,
            status: StatusFlags { bits: 0x24 },
            sp: 0xfd,
            ..self
        };
        let (s2, start) = s.read_u16(0xfffc);
        match start {
            Err(fault) => (s2, Err(fault)),
            Ok(start) => (CpuState { pc: start, ..s2 }, Ok(())),
        }
    }

    /// Entering the interrupt handler if the picture-processing unit has
    /// raised the interrupt: the program counter and the status (Break
    /// cleared, reserved bit set) are pushed, interrupts are disabled, and
    /// execution goes on at the address found at `$FFFA`.
    pub open spec fn service_nmi(self) -> (CpuState, Result<(), Fault>) {
        if self.bus.ppu.nmi is Some {
            let taken = CpuState { bus: self.bus.take_nmi(), ..self };
            let pushed = taken.push_u16(taken.pc).push(
                taken.status.without(0x10).with(0x20).bits,
            );
            let s = CpuState { status: pushed.status.with(0x04), ..pushed };
            let (s2, handler) = s.read_u16(0xfffa);
            match handler {
                Err(fault) => (s2, Err(fault)),
                Ok(handler) => (CpuState { pc: handler, ..s2 }, Ok(())),
            }
        } else {
            (self, Ok(()))
        }
    }

    /// After the bus was ticked by `cycles`.
    pub open spec fn tick(self, cycles: u8) -> CpuState {
        CpuState { bus: self.bus.tick(cycles), ..self }
    }

    /// One step: a pending interrupt is entered, then one instruction is
    /// fetched, decoded and executed, the program counter is moved behind
    /// it unless the instruction set it, and the bus is ticked by the
    /// instruction's cycles. A fault ends the step where it occurs and is
    /// reported with the address of the instruction.
    pub open spec fn step(self) -> (CpuState, Result<Step, CpuFault>) {
        let (s0, entered) = self.service_nmi();
        match entered {
            Err(fault) => (s0, Err(CpuFault { fault, pc: s0.pc })),
            Ok(_) => {
                let at = s0.pc;
                let (s1, code) = s0.read(at);
                match code {
                    Err(fault) => (s1, Err(CpuFault { fault, pc: at })),
                    Ok(code) => {
                        let op = decode(code);
                        let s2 = CpuState { pc: at.wrapping_add(1), ..s1 };
                        let (s3, extra) = s2.execute(op);
                        match extra {
                            Err(fault) => (s3, Err(CpuFault { fault, pc: at })),
                            Ok(extra) => {
                                let s4 = if op.operation.sets_pc() {
                                    s3
                                } else {
                                    CpuState {
                                        pc: s3.pc.wrapping_add((op.bytes_len - 1) as u16),
                                        ..s3
                                    }
                                };
                                let cycles = (op.cycles + extra) as u8;
                                (
                                    s4.tick(cycles),
                                    Ok(
                                        Step {
                                            halted: op.operation == Operation::Brk,
                                            frame_ready: s4.bus.frame_ready(cycles),
                                            cycles,
                                        },
                                    ),
                                )
                            },
                        }
                    },
                }
            },
        }
    }

    /// Up to `limit` steps: the run ends with the first `BRK`, with the
    /// first fault, or when the steps are used up.
    pub open spec fn run(self, limit: nat) -> (CpuState, Result<Halt, CpuFault>)
        decreases limit,
    {
        if limit == 0 {
            (self, Ok(Halt::StepLimit))
        } else {
            let (next, outcome) = self.step();
            match outcome {
                Err(fault) => (next, Err(fault)),
                Ok(step) => if step.halted {
                    (next, Ok(Halt::Break))
                } else {
                    next.run((limit - 1) as nat)
                },
            }
        }
    }

    /// Up to `limit` steps towards the next frame: the run ends with the
    /// first step that makes a frame ready, with the first `BRK`, with the
    /// first fault, or when the steps are used up. The second component
    /// tells whether the last step made a frame ready.
    pub open spec fn run_to_frame(self, limit: nat) -> (CpuState, bool, Result<Pause, CpuFault>)
        decreases limit,
    {
        if limit == 0 {
            (self, false, Ok(Pause::StepLimit))
        } else {
            let (next, outcome) = self.step();
            match outcome {
                Err(fault) => (next, false, Err(fault)),
                Ok(step) => if step.halted {
                    (next, step.frame_ready, Ok(Pause::Break))
                } else if step.frame_ready {
                    (next, true, Ok(Pause::Frame))
                } else {
                    next.run_to_frame((limit - 1) as nat)
                },
            }
        }
    }

    /// Loading `program`, the reset signal, and a run of up to `limit`
    /// steps, up to the first fault. A fault of loading or of the reset is
    /// reported with the program counter as it stands.
    pub open spec fn load_and_run(self, program: Seq<u8>, limit: nat) -> (
        CpuState,
        Result<Halt, CpuFault>,
    ) {
        let (s, loaded) = self.load(program);
        match loaded {
            Err(fault) => (s, Err(CpuFault { fault, pc: s.pc })),
            Ok(_) => {
                let (s2, started) = s.reset();
                match started {
                    Err(fault) => (s2, Err(CpuFault { fault, pc: s2.pc })),
                    Ok(_) => s2.run(limit),
                }
            },
        }
    }

    /// With the bytes of `program` from index `from` on written through
    /// the bus at `base + from` and upwards, up to the first fault.
    pub open spec fn poke_all(self, base: u16, program: Seq<u8>, from: nat) -> (
        CpuState,
        Result<(), Fault>,
    )
        decreases program.len() - from,
    {
        if from >= program.len() {
            (self, Ok(()))
        } else {
            let (s, written) = self.write((base + from) as u16, program[from as int]);
            match written {
                Err(fault) => (s, Err(fault)),
                Ok(_) => s.poke_all(base, program, from + 1),
            }
        }
    }

    /// With `program` written at `$8000` and upwards and `$8000` written
    /// to the reset vector at `$FFFC`, up to the first fault.
    pub open spec fn load(self, program: Seq<u8>) -> (CpuState, Result<(), Fault>) {
        let (s, written) = self.poke_all(0x8000, program, 0);
        match written {
            Err(fault) => (s, Err(fault)),
            Ok(_) => s.write_u16(0xfffc, 0x8000),
        }
    }
}

} // verus!
