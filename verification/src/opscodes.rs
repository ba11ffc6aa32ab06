//! The instruction set: what each of the 256 opcode bytes stands for.

use crate::fault::Fault;
use vstd::prelude::*;

verus! {

/// How an instruction finds its operand.
#[allow(non_camel_case_types)]
#[derive(Clone, Copy, Debug, PartialEq, Eq, Structural)]
pub enum AddressingMode {
    /// The operand is the byte behind the opcode.
    Immediate,
    /// The byte behind the opcode is an address in page zero.
    ZeroPage,
    /// That address plus X, within page zero.
    ZeroPage_X,
    /// That address plus Y, within page zero.
    ZeroPage_Y,
    /// The two bytes behind the opcode are the address.
    Absolute,
    /// That address plus X.
    Absolute_X,
    /// That address plus Y.
    Absolute_Y,
    /// The two bytes behind the opcode point at the address.
    Indirect,
    /// The byte behind the opcode plus X points, within page zero, at the
    /// address.
    Indirect_X,
    /// The byte behind the opcode points, within page zero, at an address,
    /// to which Y is added.
    Indirect_Y,
    /// The byte behind the opcode is a signed distance from the
    /// instruction after this one.
    Relative,
    /// The instruction works on the accumulator or needs no operand.
    NonAddressing,
}

/// Something that can turn the operand of an instruction into an
/// effective address.
pub trait AddressingModeConverter {
    /// The converter, and the memory it reads, as plain values.
    type State;

    /// The converter as it stands.
    spec fn converter_state(&self) -> Self::State;

    /// Whether the converter is in a state that its operations keep.
    spec fn converter_valid(&self) -> bool;

    /// The effective address of an operand that stands at `addr`, and
    /// whether forming it crossed a page, with the state after the reads
    /// that this took.
    spec fn address_of(state: Self::State, mode: AddressingMode, addr: u16) -> (
        Self::State,
        Result<(u16, bool), Fault>,
    );

    /// Where the operand of the instruction at hand stands.
    spec fn operand_position(state: Self::State) -> u16;

    fn get_absolute_address(&mut self, mode: &AddressingMode, addr: u16) -> (r: Result<
        (u16, bool),
        Fault,
    >)
        requires
            old(self).converter_valid(),
        ensures
            final(self).converter_valid(),
            final(self).converter_state() == Self::address_of(
                old(self).converter_state(),
                *mode,
                addr,
            ).0,
            r == Self::address_of(old(self).converter_state(), *mode, addr).1,
    ;

    fn get_operand_address(&mut self, mode: &AddressingMode) -> (r: Result<(u16, bool), Fault>)
        requires
            old(self).converter_valid(),
        ensures
            final(self).converter_valid(),
            final(self).converter_state() == Self::address_of(
                old(self).converter_state(),
                *mode,
                Self::operand_position(old(self).converter_state()),
            ).0,
            r == Self::address_of(
                old(self).converter_state(),
                *mode,
                Self::operand_position(old(self).converter_state()),
            ).1,
    ;
}

/// What an instruction does. The first group is the documented
/// instruction set, the second the undocumented instructions.
#[derive(Clone, Copy, Debug, PartialEq, Eq, Structural)]
pub enum Operation {
    Adc,
    And,
    Asl,
    Bcc,
    Bcs,
    Beq,
    Bit,
    Bmi,
    Bne,
    Bpl,
    Brk,
    Bvc,
    Bvs,
    Clc,
    Cld,
    Cli,
    Clv,
    Cmp,
    Cpx,
    Cpy,
    Dec,
    Dex,
    Dey,
    Eor,
    Inc,
    Inx,
    Iny,
    Jmp,
    Jsr,
    Lda,
    Ldx,
    Ldy,
    Lsr,
    Nop,
    Ora,
    Pha,
    Php,
    Pla,
    Plp,
    Rol,
    Ror,
    Rti,
    Rts,
    Sbc,
    Sec,
    Sed,
    Sei,
    Sta,
    Stx,
    Sty,
    Tax,
    Tay,
    Tsx,
    Txa,
    Txs,
    Tya,
    Ahx,
    Alr,
    Anc,
    Arr,
    Axs,
    Dcp,
    Isb,
    Las,
    Lax,
    Lxa,
    Rla,
    Rra,
    Sax,
    Shx,
    Shy,
    Slo,
    Sre,
    Tas,
    Xaa,
}

impl AddressingMode {
    /// Whether forming the address can carry into another page: an index
    /// register is added to a 16-bit address.
    pub open spec fn can_cross_page(self) -> bool {
        self == AddressingMode::Absolute_X || self == AddressingMode::Absolute_Y || self
            == AddressingMode::Indirect_Y
    }

    #[verifier::when_used_as_spec(can_cross_page)]
    pub fn crosses(self) -> (b: bool)
        ensures
            b == self.can_cross_page(),
    {
        match self {
            AddressingMode::Absolute_X | AddressingMode::Absolute_Y | AddressingMode::Indirect_Y => true,
            _ => false,
        }
    }
}

impl Operation {
    /// Whether the instruction only reads its operand, so that it takes
    /// one more cycle when forming the operand's address crosses a page.
    pub open spec fn reads_operand(self) -> bool {
        match self {
            Operation::Lda
            | Operation::Ldx
            | Operation::Ldy
            | Operation::Eor
            | Operation::And
            | Operation::Ora
            | Operation::Adc
            | Operation::Sbc
            | Operation::Cmp
            | Operation::Lax
            | Operation::Las
            | Operation::Nop => true,
            _ => false,
        }
    }

    #[verifier::when_used_as_spec(reads_operand)]
    pub fn is_read(self) -> (b: bool)
        ensures
            b == self.reads_operand(),
    {
        match self {
            Operation::Lda
            | Operation::Ldx
            | Operation::Ldy
            | Operation::Eor
            | Operation::And
            | Operation::Ora
            | Operation::Adc
            | Operation::Sbc
            | Operation::Cmp
            | Operation::Lax
            | Operation::Las
            | Operation::Nop => true,
            _ => false,
        }
    }

    /// Whether the instruction itself decides where execution goes on:
    /// branches, jumps, calls and returns.
    pub open spec fn sets_pc(self) -> bool {
        match self {
            Operation::Bcc
            | Operation::Bcs
            | Operation::Beq
            | Operation::Bmi
            | Operation::Bne
            | Operation::Bpl
            | Operation::Bvc
            | Operation::Bvs
            | Operation::Jmp
            | Operation::Jsr
            | Operation::Rts
            | Operation::Rti => true,
            _ => false,
        }
    }

    #[verifier::when_used_as_spec(sets_pc)]
    pub fn is_control_flow(self) -> (b: bool)
        ensures
            b == self.sets_pc(),
    {
        match self {
            Operation::Bcc
            | Operation::Bcs
            | Operation::Beq
            | Operation::Bmi
            | Operation::Bne
            | Operation::Bpl
            | Operation::Bvc
            | Operation::Bvs
            | Operation::Jmp
            | Operation::Jsr
            | Operation::Rts
            | Operation::Rti => true,
            _ => false,
        }
    }
}

/// One entry of the instruction table.
#[derive(Clone, Copy, Debug)]
pub struct OpCode {
    /// The mnemonic, with a leading `*` on undocumented instructions.
    pub name: &'static str,
    pub code: u8,
    /// The length of the instruction in bytes, opcode included.
    pub bytes_len: u8,
    /// The cycles the instruction takes at least.
    pub cycles: u8,
    pub mode: AddressingMode,
    pub operation: Operation,
    /// Whether the instruction takes one more cycle when forming the
    /// operand's address crosses a page.
    pub page_penalty: bool,
}

impl OpCode {
    /// The entry made of these parts. The page penalty follows from
    /// operation and mode.
    pub open spec fn entry(
        name: &'static str,
        code: u8,
        bytes_len: u8,
        cycles: u8,
        mode: AddressingMode,
        operation: Operation,
    ) -> OpCode {
        OpCode {
            name,
            code,
            bytes_len,
            cycles,
            mode,
            operation,
            page_penalty: operation.reads_operand() && mode.can_cross_page(),
        }
    }

    pub fn new(
        name: &'static str,
        code: u8,
        bytes_len: u8,
        cycles: u8,
        mode: AddressingMode,
        operation: Operation,
    ) -> (op: OpCode)
        ensures
            op == OpCode::entry(name, code, bytes_len, cycles, mode, operation),
    {
        OpCode {
            name,
            code,
            bytes_len,
            cycles,
            mode,
            operation,
            page_penalty: operation.is_read() && mode.crosses(),
        }
    }

    /// The table entry of opcode byte `code`.
    pub fn lookup(code: u8) -> (op: OpCode)
        ensures
            op == decode(code),
    {
        if code < 0x80 {
            OpCode::lookup_low(code)
        } else {
            OpCode::lookup_high(code)
        }
    }

    #[verifier::rlimit(50)]
    fn lookup_low(code: u8) -> (op: OpCode)
        requires
            code < 0x80,
        ensures
            op == decode_low(code),
    {
        match code {
        0x01 => OpCode::new("ORA", 0x01, 2, 6, AddressingMode::Indirect_X, Operation::Ora),
        0x02 => OpCode::new("*NOP", 0x02, 1, 2, AddressingMode::NonAddressing, Operation::Nop),
        0x03 => OpCode::new("*SLO", 0x03, 2, 8, AddressingMode::Indirect_X, Operation::Slo),
        0x04 => OpCode::new("*NOP", 0x04, 2, 3, AddressingMode::ZeroPage, Operation::Nop),
        0x05 => OpCode::new("ORA", 0x05, 2, 3, AddressingMode::ZeroPage, Operation::Ora),
        0x06 => OpCode::new("ASL", 0x06, 2, 5, AddressingMode::ZeroPage, Operation::Asl),
        0x07 => OpCode::new("*SLO", 0x07, 2, 5, AddressingMode::ZeroPage, Operation::Slo),
        0x08 => OpCode::new("PHP", 0x08, 1, 3, AddressingMode::NonAddressing, Operation::Php),
        0x09 => OpCode::new("ORA", 0x09, 2, 2, AddressingMode::Immediate, Operation::Ora),
        0x0a => OpCode::new("ASL", 0x0a, 1, 2, AddressingMode::NonAddressing, Operation::Asl),
        0x0b => OpCode::new("*ANC", 0x0b, 2, 2, AddressingMode::Immediate, Operation::Anc),
        0x0c => OpCode::new("*NOP", 0x0c, 3, 4, AddressingMode::Absolute, Operation::Nop),
        0x0d => OpCode::new("ORA", 0x0d, 3, 4, AddressingMode::Absolute, Operation::Ora),
        0x0e => OpCode::new("ASL", 0x0e, 3, 6, AddressingMode::Absolute, Operation::Asl),
        0x0f => OpCode::new("*SLO", 0x0f, 3, 6, AddressingMode::Absolute, Operation::Slo),
        0x10 => OpCode::new("BPL", 0x10, 2, 2, AddressingMode::Relative, Operation::Bpl),
        0x11 => OpCode::new("ORA", 0x11, 2, 5, AddressingMode::Indirect_Y, Operation::Ora),
        0x12 => OpCode::new("*NOP", 0x12, 1, 2, AddressingMode::NonAddressing, Operation::Nop),
        0x13 => OpCode::new("*SLO", 0x13, 2, 8, AddressingMode::Indirect_Y, Operation::Slo),
        0x14 => OpCode::new("*NOP", 0x14, 2, 4, AddressingMode::ZeroPage_X, Operation::Nop),
        0x15 => OpCode::new("ORA", 0x15, 2, 4, AddressingMode::ZeroPage_X, Operation::Ora),
        0x16 => OpCode::new("ASL", 0x16, 2, 6, AddressingMode::ZeroPage_X, Operation::Asl),
        0x17 => OpCode::new("*SLO", 0x17, 2, 6, AddressingMode::ZeroPage_X, Operation::Slo),
        0x18 => OpCode::new("CLC", 0x18, 1, 2, AddressingMode::NonAddressing, Operation::Clc),
        0x19 => OpCode::new("ORA", 0x19, 3, 4, AddressingMode::Absolute_Y, Operation::Ora),
        0x1a => OpCode::new("*NOP", 0x1a, 1, 2, AddressingMode::NonAddressing, Operation::Nop),
        0x1b => OpCode::new("*SLO", 0x1b, 3, 7, AddressingMode::Absolute_Y, Operation::Slo),
        0x1c => OpCode::new("*NOP", 0x1c, 3, 4, AddressingMode::Absolute_X, Operation::Nop),
        0x1d => OpCode::new("ORA", 0x1d, 3, 4, AddressingMode::Absolute_X, Operation::Ora),
        0x1e => OpCode::new("ASL", 0x1e, 3, 7, AddressingMode::Absolute_X, Operation::Asl),
        0x1f => OpCode::new("*SLO", 0x1f, 3, 7, AddressingMode::Absolute_X, Operation::Slo),
        0x20 => OpCode::new("JSR", 0x20, 3, 6, AddressingMode::Absolute, Operation::Jsr),
        0x21 => OpCode::new("AND", 0x21, 2, 6, AddressingMode::Indirect_X, Operation::And),
        0x22 => OpCode::new("*NOP", 0x22, 1, 2, AddressingMode::NonAddressing, Operation::Nop),
        0x23 => OpCode::new("*RLA", 0x23, 2, 8, AddressingMode::Indirect_X, Operation::Rla),
        0x24 => OpCode::new("BIT", 0x24, 2, 3, AddressingMode::ZeroPage, Operation::Bit),
        0x25 => OpCode::new("AND", 0x25, 2, 3, AddressingMode::ZeroPage, Operation::And),
        0x26 => OpCode::new("ROL", 0x26, 2, 5, AddressingMode::ZeroPage, Operation::Rol),
        0x27 => OpCode::new("*RLA", 0x27, 2, 5, AddressingMode::ZeroPage, Operation::Rla),
        0x28 => OpCode::new("PLP", 0x28, 1, 4, AddressingMode::NonAddressing, Operation::Plp),
        0x29 => OpCode::new("AND", 0x29, 2, 2, AddressingMode::Immediate, Operation::And),
        0x2a => OpCode::new("ROL", 0x2a, 1, 2, AddressingMode::NonAddressing, Operation::Rol),
        0x2b => OpCode::new("*ANC", 0x2b, 2, 2, AddressingMode::Immediate, Operation::Anc),
        0x2c => OpCode::new("BIT", 0x2c, 3, 4, AddressingMode::Absolute, Operation::Bit),
        0x2d => OpCode::new("AND", 0x2d, 3, 4, AddressingMode::Absolute, Operation::And),
        0x2e => OpCode::new("ROL", 0x2e, 3, 6, AddressingMode::Absolute, Operation::Rol),
        0x2f => OpCode::new("*RLA", 0x2f, 3, 6, AddressingMode::Absolute, Operation::Rla),
        0x30 => OpCode::new("BMI", 0x30, 2, 2, AddressingMode::Relative, Operation::Bmi),
        0x31 => OpCode::new("AND", 0x31, 2, 5, AddressingMode::Indirect_Y, Operation::And),
        0x32 => OpCode::new("*NOP", 0x32, 1, 2, AddressingMode::NonAddressing, Operation::Nop),
        0x33 => OpCode::new("*RLA", 0x33, 2, 8, AddressingMode::Indirect_Y, Operation::Rla),
        0x34 => OpCode::new("*NOP", 0x34, 2, 4, AddressingMode::ZeroPage_X, Operation::Nop),
        0x35 => OpCode::new("AND", 0x35, 2, 4, AddressingMode::ZeroPage_X, Operation::And),
        0x36 => OpCode::new("ROL", 0x36, 2, 6, AddressingMode::ZeroPage_X, Operation::Rol),
        0x37 => OpCode::new("*RLA", 0x37, 2, 6, AddressingMode::ZeroPage_X, Operation::Rla),
        0x38 => OpCode::new("SEC", 0x38, 1, 2, AddressingMode::NonAddressing, Operation::Sec),
        0x39 => OpCode::new("AND", 0x39, 3, 4, AddressingMode::Absolute_Y, Operation::And),
        0x3a => OpCode::new("*NOP", 0x3a, 1, 2, AddressingMode::NonAddressing, Operation::Nop),
        0x3b => OpCode::new("*RLA", 0x3b, 3, 7, AddressingMode::Absolute_Y, Operation::Rla),
        0x3c => OpCode::new("*NOP", 0x3c, 3, 4, AddressingMode::Absolute_X, Operation::Nop),
        0x3d => OpCode::new("AND", 0x3d, 3, 4, AddressingMode::Absolute_X, Operation::And),
        0x3e => OpCode::new("ROL", 0x3e, 3, 7, AddressingMode::Absolute_X, Operation::Rol),
        0x3f => OpCode::new("*RLA", 0x3f, 3, 7, AddressingMode::Absolute_X, Operation::Rla),
        0x40 => OpCode::new("RTI", 0x40, 1, 6, AddressingMode::NonAddressing, Operation::Rti),
        0x41 => OpCode::new("EOR", 0x41, 2, 6, AddressingMode::Indirect_X, Operation::Eor),
        0x42 => OpCode::new("*NOP", 0x42, 1, 2, AddressingMode::NonAddressing, Operation::Nop),
        0x43 => OpCode::new("*SRE", 0x43, 2, 8, AddressingMode::Indirect_X, Operation::Sre),
        0x44 => OpCode::new("*NOP", 0x44, 2, 3, AddressingMode::ZeroPage, Operation::Nop),
        0x45 => OpCode::new("EOR", 0x45, 2, 3, AddressingMode::ZeroPage, Operation::Eor),
        0x46 => OpCode::new("LSR", 0x46, 2, 5, AddressingMode::ZeroPage, Operation::Lsr),
        0x47 => OpCode::new("*SRE", 0x47, 2, 5, AddressingMode::ZeroPage, Operation::Sre),
        0x48 => OpCode::new("PHA", 0x48, 1, 3, AddressingMode::NonAddressing, Operation::Pha),
        0x49 => OpCode::new("EOR", 0x49, 2, 2, AddressingMode::Immediate, Operation::Eor),
        0x4a => OpCode::new("LSR", 0x4a, 1, 2, AddressingMode::NonAddressing, Operation::Lsr),
        0x4b => OpCode::new("*ALR", 0x4b, 2, 2, AddressingMode::Immediate, Operation::Alr),
        0x4c => OpCode::new("JMP", 0x4c, 3, 3, AddressingMode::Absolute, Operation::Jmp),
        0x4d => OpCode::new("EOR", 0x4d, 3, 4, AddressingMode::Absolute, Operation::Eor),
        0x4e => OpCode::new("LSR", 0x4e, 3, 6, AddressingMode::Absolute, Operation::Lsr),
        0x4f => OpCode::new("*SRE", 0x4f, 3, 6, AddressingMode::Absolute, Operation::Sre),
        0x50 => OpCode::new("BVC", 0x50, 2, 2, AddressingMode::Relative, Operation::Bvc),
        0x51 => OpCode::new("EOR", 0x51, 2, 5, AddressingMode::Indirect_Y, Operation::Eor),
        0x52 => OpCode::new("*NOP", 0x52, 1, 2, AddressingMode::NonAddressing, Operation::Nop),
        0x53 => OpCode::new("*SRE", 0x53, 2, 8, AddressingMode::Indirect_Y, Operation::Sre),
        0x54 => OpCode::new("*NOP", 0x54, 2, 4, AddressingMode::ZeroPage_X, Operation::Nop),
        0x55 => OpCode::new("EOR", 0x55, 2, 4, AddressingMode::ZeroPage_X, Operation::Eor),
        0x56 => OpCode::new("LSR", 0x56, 2, 6, AddressingMode::ZeroPage_X, Operation::Lsr),
        0x57 => OpCode::new("*SRE", 0x57, 2, 6, AddressingMode::ZeroPage_X, Operation::Sre),
        0x58 => OpCode::new("CLI", 0x58, 1, 2, AddressingMode::NonAddressing, Operation::Cli),
        0x59 => OpCode::new("EOR", 0x59, 3, 4, AddressingMode::Absolute_Y, Operation::Eor),
        0x5a => OpCode::new("*NOP", 0x5a, 1, 2, AddressingMode::NonAddressing, Operation::Nop),
        0x5b => OpCode::new("*SRE", 0x5b, 3, 7, AddressingMode::Absolute_Y, Operation::Sre),
        0x5c => OpCode::new("*NOP", 0x5c, 3, 4, AddressingMode::Absolute_X, Operation::Nop),
        0x5d => OpCode::new("EOR", 0x5d, 3, 4, AddressingMode::Absolute_X, Operation::Eor),
        0x5e => OpCode::new("LSR", 0x5e, 3, 7, AddressingMode::Absolute_X, Operation::Lsr),
        0x5f => OpCode::new("*SRE", 0x5f, 3, 7, AddressingMode::Absolute_X, Operation::Sre),
        0x60 => OpCode::new("RTS", 0x60, 1, 6, AddressingMode::NonAddressing, Operation::Rts),
        0x61 => OpCode::new("ADC", 0x61, 2, 6, AddressingMode::Indirect_X, Operation::Adc),
        0x62 => OpCode::new("*NOP", 0x62, 1, 2, AddressingMode::NonAddressing, Operation::Nop),
        0x63 => OpCode::new("*RRA", 0x63, 2, 8, AddressingMode::Indirect_X, Operation::Rra),
        0x64 => OpCode::new("*NOP", 0x64, 2, 3, AddressingMode::ZeroPage, Operation::Nop),
        0x65 => OpCode::new("ADC", 0x65, 2, 3, AddressingMode::ZeroPage, Operation::Adc),
        0x66 => OpCode::new("ROR", 0x66, 2, 5, AddressingMode::ZeroPage, Operation::Ror),
        0x67 => OpCode::new("*RRA", 0x67, 2, 5, AddressingMode::ZeroPage, Operation::Rra),
        0x68 => OpCode::new("PLA", 0x68, 1, 4, AddressingMode::NonAddressing, Operation::Pla),
        0x69 => OpCode::new("ADC", 0x69, 2, 2, AddressingMode::Immediate, Operation::Adc),
        0x6a => OpCode::new("ROR", 0x6a, 1, 2, AddressingMode::NonAddressing, Operation::Ror),
        0x6b => OpCode::new("*ARR", 0x6b, 2, 2, AddressingMode::Immediate, Operation::Arr),
        0x6c => OpCode::new("JMP", 0x6c, 3, 5, AddressingMode::Indirect, Operation::Jmp),
        0x6d => OpCode::new("ADC", 0x6d, 3, 4, AddressingMode::Absolute, Operation::Adc),
        0x6e => OpCode::new("ROR", 0x6e, 3, 6, AddressingMode::Absolute, Operation::Ror),
        0x6f => OpCode::new("*RRA", 0x6f, 3, 6, AddressingMode::Absolute, Operation::Rra),
        0x70 => OpCode::new("BVS", 0x70, 2, 2, AddressingMode::Relative, Operation::Bvs),
        0x71 => OpCode::new("ADC", 0x71, 2, 5, AddressingMode::Indirect_Y, Operation::Adc),
        0x72 => OpCode::new("*NOP", 0x72, 1, 2, AddressingMode::NonAddressing, Operation::Nop),
        0x73 => OpCode::new("*RRA", 0x73, 2, 8, AddressingMode::Indirect_Y, Operation::Rra),
        0x74 => OpCode::new("*NOP", 0x74, 2, 4, AddressingMode::ZeroPage_X, Operation::Nop),
        0x75 => OpCode::new("ADC", 0x75, 2, 4, AddressingMode::ZeroPage_X, Operation::Adc),
        0x76 => OpCode::new("ROR", 0x76, 2, 6, AddressingMode::ZeroPage_X, Operation::Ror),
        0x77 => OpCode::new("*RRA", 0x77, 2, 6, AddressingMode::ZeroPage_X, Operation::Rra),
        0x78 => OpCode::new("SEI", 0x78, 1, 2, AddressingMode::NonAddressing, Operation::Sei),
        0x79 => OpCode::new("ADC", 0x79, 3, 4, AddressingMode::Absolute_Y, Operation::Adc),
        0x7a => OpCode::new("*NOP", 0x7a, 1, 2, AddressingMode::NonAddressing, Operation::Nop),
        0x7b => OpCode::new("*RRA", 0x7b, 3, 7, AddressingMode::Absolute_Y, Operation::Rra),
        0x7c => OpCode::new("*NOP", 0x7c, 3, 4, AddressingMode::Absolute_X, Operation::Nop),
        0x7d => OpCode::new("ADC", 0x7d, 3, 4, AddressingMode::Absolute_X, Operation::Adc),
        0x7e => OpCode::new("ROR", 0x7e, 3, 7, AddressingMode::Absolute_X, Operation::Ror),
        0x7f => OpCode::new("*RRA", 0x7f, 3, 7, AddressingMode::Absolute_X, Operation::Rra),
        _ => OpCode::new("BRK", 0x00, 1, 7, AddressingMode::NonAddressing, Operation::Brk),
        }
    }

    #[verifier::rlimit(50)]
    fn lookup_high(code: u8) -> (op: OpCode)
        requires
            code >= 0x80,
        ensures
            op == decode_high(code),
    {
        match code {
        0x81 => OpCode::new("STA", 0x81, 2, 6, AddressingMode::Indirect_X, Operation::Sta),
        0x82 => OpCode::new("*NOP", 0x82, 2, 2, AddressingMode::Immediate, Operation::Nop),
        0x83 => OpCode::new("*SAX", 0x83, 2, 6, AddressingMode::Indirect_X, Operation::Sax),
        0x84 => OpCode::new("STY", 0x84, 2, 3, AddressingMode::ZeroPage, Operation::Sty),
        0x85 => OpCode::new("STA", 0x85, 2, 3, AddressingMode::ZeroPage, Operation::Sta),
        0x86 => OpCode::new("STX", 0x86, 2, 3, AddressingMode::ZeroPage, Operation::Stx),
        0x87 => OpCode::new("*SAX", 0x87, 2, 3, AddressingMode::ZeroPage, Operation::Sax),
        0x88 => OpCode::new("DEY", 0x88, 1, 2, AddressingMode::NonAddressing, Operation::Dey),
        0x89 => OpCode::new("*NOP", 0x89, 2, 2, AddressingMode::Immediate, Operation::Nop),
        0x8a => OpCode::new("TXA", 0x8a, 1, 2, AddressingMode::NonAddressing, Operation::Txa),
        0x8b => OpCode::new("*XAA", 0x8b, 2, 2, AddressingMode::Immediate, Operation::Xaa),
        0x8c => OpCode::new("STY", 0x8c, 3, 4, AddressingMode::Absolute, Operation::Sty),
        0x8d => OpCode::new("STA", 0x8d, 3, 4, AddressingMode::Absolute, Operation::Sta),
        0x8e => OpCode::new("STX", 0x8e, 3, 4, AddressingMode::Absolute, Operation::Stx),
        0x8f => OpCode::new("*SAX", 0x8f, 3, 4, AddressingMode::Absolute, Operation::Sax),
        0x90 => OpCode::new("BCC", 0x90, 2, 2, AddressingMode::Relative, Operation::Bcc),
        0x91 => OpCode::new("STA", 0x91, 2, 6, AddressingMode::Indirect_Y, Operation::Sta),
        0x92 => OpCode::new("*NOP", 0x92, 1, 2, AddressingMode::NonAddressing, Operation::Nop),
        0x93 => OpCode::new("*AHX", 0x93, 2, 8, AddressingMode::Indirect_Y, Operation::Ahx),
        0x94 => OpCode::new("STY", 0x94, 2, 4, AddressingMode::ZeroPage_X, Operation::Sty),
        0x95 => OpCode::new("STA", 0x95, 2, 4, AddressingMode::ZeroPage_X, Operation::Sta),
        0x96 => OpCode::new("STX", 0x96, 2, 4, AddressingMode::ZeroPage_Y, Operation::Stx),
        0x97 => OpCode::new("*SAX", 0x97, 2, 4, AddressingMode::ZeroPage_Y, Operation::Sax),
        0x98 => OpCode::new("TYA", 0x98, 1, 2, AddressingMode::NonAddressing, Operation::Tya),
        0x99 => OpCode::new("STA", 0x99, 3, 5, AddressingMode::Absolute_Y, Operation::Sta),
        0x9a => OpCode::new("TXS", 0x9a, 1, 2, AddressingMode::NonAddressing, Operation::Txs),
        0x9b => OpCode::new("*TAS", 0x9b, 3, 5, AddressingMode::Absolute_Y, Operation::Tas),
        0x9c => OpCode::new("*SHY", 0x9c, 3, 4, AddressingMode::Absolute_X, Operation::Shy),
        0x9d => OpCode::new("STA", 0x9d, 3, 5, AddressingMode::Absolute_X, Operation::Sta),
        0x9e => OpCode::new("*SHX", 0x9e, 3, 4, AddressingMode::Absolute_Y, Operation::Shx),
        0x9f => OpCode::new("*AHX", 0x9f, 3, 4, AddressingMode::Absolute_Y, Operation::Ahx),
        0xa0 => OpCode::new("LDY", 0xa0, 2, 2, AddressingMode::Immediate, Operation::Ldy),
        0xa1 => OpCode::new("LDA", 0xa1, 2, 6, AddressingMode::Indirect_X, Operation::Lda),
        0xa2 => OpCode::new("LDX", 0xa2, 2, 2, AddressingMode::Immediate, Operation::Ldx),
        0xa3 => OpCode::new("*LAX", 0xa3, 2, 6, AddressingMode::Indirect_X, Operation::Lax),
        0xa4 => OpCode::new("LDY", 0xa4, 2, 3, AddressingMode::ZeroPage, Operation::Ldy),
        0xa5 => OpCode::new("LDA", 0xa5, 2, 3, AddressingMode::ZeroPage, Operation::Lda),
        0xa6 => OpCode::new("LDX", 0xa6, 2, 3, AddressingMode::ZeroPage, Operation::Ldx),
        0xa7 => OpCode::new("*LAX", 0xa7, 2, 3, AddressingMode::ZeroPage, Operation::Lax),
        0xa8 => OpCode::new("TAY", 0xa8, 1, 2, AddressingMode::NonAddressing, Operation::Tay),
        0xa9 => OpCode::new("LDA", 0xa9, 2, 2, AddressingMode::Immediate, Operation::Lda),
        0xaa => OpCode::new("TAX", 0xaa, 1, 2, AddressingMode::NonAddressing, Operation::Tax),
        0xab => OpCode::new("*LXA", 0xab, 2, 2, AddressingMode::Immediate, Operation::Lxa),
        0xac => OpCode::new("LDY", 0xac, 3, 4, AddressingMode::Absolute, Operation::Ldy),
        0xad => OpCode::new("LDA", 0xad, 3, 4, AddressingMode::Absolute, Operation::Lda),
        0xae => OpCode::new("LDX", 0xae, 3, 4, AddressingMode::Absolute, Operation::Ldx),
        0xaf => OpCode::new("*LAX", 0xaf, 3, 4, AddressingMode::Absolute, Operation::Lax),
        0xb0 => OpCode::new("BCS", 0xb0, 2, 2, AddressingMode::Relative, Operation::Bcs),
        0xb1 => OpCode::new("LDA", 0xb1, 2, 5, AddressingMode::Indirect_Y, Operation::Lda),
        0xb2 => OpCode::new("*NOP", 0xb2, 1, 2, AddressingMode::NonAddressing, Operation::Nop),
        0xb3 => OpCode::new("*LAX", 0xb3, 2, 5, AddressingMode::Indirect_Y, Operation::Lax),
        0xb4 => OpCode::new("LDY", 0xb4, 2, 4, AddressingMode::ZeroPage_X, Operation::Ldy),
        0xb5 => OpCode::new("LDA", 0xb5, 2, 4, AddressingMode::ZeroPage_X, Operation::Lda),
        0xb6 => OpCode::new("LDX", 0xb6, 2, 4, AddressingMode::ZeroPage_Y, Operation::Ldx),
        0xb7 => OpCode::new("*LAX", 0xb7, 2, 4, AddressingMode::ZeroPage_Y, Operation::Lax),
        0xb8 => OpCode::new("CLV", 0xb8, 1, 2, AddressingMode::NonAddressing, Operation::Clv),
        0xb9 => OpCode::new("LDA", 0xb9, 3, 4, AddressingMode::Absolute_Y, Operation::Lda),
        0xba => OpCode::new("TSX", 0xba, 1, 2, AddressingMode::NonAddressing, Operation::Tsx),
        0xbb => OpCode::new("*LAS", 0xbb, 3, 4, AddressingMode::Absolute_Y, Operation::Las),
        0xbc => OpCode::new("LDY", 0xbc, 3, 4, AddressingMode::Absolute_X, Operation::Ldy),
        0xbd => OpCode::new("LDA", 0xbd, 3, 4, AddressingMode::Absolute_X, Operation::Lda),
        0xbe => OpCode::new("LDX", 0xbe, 3, 4, AddressingMode::Absolute_Y, Operation::Ldx),
        0xbf => OpCode::new("*LAX", 0xbf, 3, 4, AddressingMode::Absolute_Y, Operation::Lax),
        0xc0 => OpCode::new("CPY", 0xc0, 2, 2, AddressingMode::Immediate, Operation::Cpy),
        0xc1 => OpCode::new("CMP", 0xc1, 2, 6, AddressingMode::Indirect_X, Operation::Cmp),
        0xc2 => OpCode::new("*NOP", 0xc2, 2, 2, AddressingMode::Immediate, Operation::Nop),
        0xc3 => OpCode::new("*DCP", 0xc3, 2, 8, AddressingMode::Indirect_X, Operation::Dcp),
        0xc4 => OpCode::new("CPY", 0xc4, 2, 3, AddressingMode::ZeroPage, Operation::Cpy),
        0xc5 => OpCode::new("CMP", 0xc5, 2, 3, AddressingMode::ZeroPage, Operation::Cmp),
        0xc6 => OpCode::new("DEC", 0xc6, 2, 5, AddressingMode::ZeroPage, Operation::Dec),
        0xc7 => OpCode::new("*DCP", 0xc7, 2, 5, AddressingMode::ZeroPage, Operation::Dcp),
        0xc8 => OpCode::new("INY", 0xc8, 1, 2, AddressingMode::NonAddressing, Operation::Iny),
        0xc9 => OpCode::new("CMP", 0xc9, 2, 2, AddressingMode::Immediate, Operation::Cmp),
        0xca => OpCode::new("DEX", 0xca, 1, 2, AddressingMode::NonAddressing, Operation::Dex),
        0xcb => OpCode::new("*AXS", 0xcb, 2, 2, AddressingMode::Immediate, Operation::Axs),
        0xcc => OpCode::new("CPY", 0xcc, 3, 4, AddressingMode::Absolute, Operation::Cpy),
        0xcd => OpCode::new("CMP", 0xcd, 3, 4, AddressingMode::Absolute, Operation::Cmp),
        0xce => OpCode::new("DEC", 0xce, 3, 6, AddressingMode::Absolute, Operation::Dec),
        0xcf => OpCode::new("*DCP", 0xcf, 3, 6, AddressingMode::Absolute, Operation::Dcp),
        0xd0 => OpCode::new("BNE", 0xd0, 2, 2, AddressingMode::Relative, Operation::Bne),
        0xd1 => OpCode::new("CMP", 0xd1, 2, 5, AddressingMode::Indirect_Y, Operation::Cmp),
        0xd2 => OpCode::new("*NOP", 0xd2, 1, 2, AddressingMode::NonAddressing, Operation::Nop),
        0xd3 => OpCode::new("*DCP", 0xd3, 2, 8, AddressingMode::Indirect_Y, Operation::Dcp),
        0xd4 => OpCode::new("*NOP", 0xd4, 2, 4, AddressingMode::ZeroPage_X, Operation::Nop),
        0xd5 => OpCode::new("CMP", 0xd5, 2, 4, AddressingMode::ZeroPage_X, Operation::Cmp),
        0xd6 => OpCode::new("DEC", 0xd6, 2, 6, AddressingMode::ZeroPage_X, Operation::Dec),
        0xd7 => OpCode::new("*DCP", 0xd7, 2, 6, AddressingMode::ZeroPage_X, Operation::Dcp),
        0xd8 => OpCode::new("CLD", 0xd8, 1, 2, AddressingMode::NonAddressing, Operation::Cld),
        0xd9 => OpCode::new("CMP", 0xd9, 3, 4, AddressingMode::Absolute_Y, Operation::Cmp),
        0xda => OpCode::new("*NOP", 0xda, 1, 2, AddressingMode::NonAddressing, Operation::Nop),
        0xdb => OpCode::new("*DCP", 0xdb, 3, 7, AddressingMode::Absolute_Y, Operation::Dcp),
        0xdc => OpCode::new("*NOP", 0xdc, 3, 4, AddressingMode::Absolute_X, Operation::Nop),
        0xdd => OpCode::new("CMP", 0xdd, 3, 4, AddressingMode::Absolute_X, Operation::Cmp),
        0xde => OpCode::new("DEC", 0xde, 3, 7, AddressingMode::Absolute_X, Operation::Dec),
        0xdf => OpCode::new("*DCP", 0xdf, 3, 7, AddressingMode::Absolute_X, Operation::Dcp),
        0xe0 => OpCode::new("CPX", 0xe0, 2, 2, AddressingMode::Immediate, Operation::Cpx),
        0xe1 => OpCode::new("SBC", 0xe1, 2, 6, AddressingMode::Indirect_X, Operation::Sbc),
        0xe2 => OpCode::new("*NOP", 0xe2, 2, 2, AddressingMode::Immediate, Operation::Nop),
        0xe3 => OpCode::new("*ISB", 0xe3, 2, 8, AddressingMode::Indirect_X, Operation::Isb),
        0xe4 => OpCode::new("CPX", 0xe4, 2, 3, AddressingMode::ZeroPage, Operation::Cpx),
        0xe5 => OpCode::new("SBC", 0xe5, 2, 3, AddressingMode::ZeroPage, Operation::Sbc),
        0xe6 => OpCode::new("INC", 0xe6, 2, 5, AddressingMode::ZeroPage, Operation::Inc),
        0xe7 => OpCode::new("*ISB", 0xe7, 2, 5, AddressingMode::ZeroPage, Operation::Isb),
        0xe8 => OpCode::new("INX", 0xe8, 1, 2, AddressingMode::NonAddressing, Operation::Inx),
        0xe9 => OpCode::new("SBC", 0xe9, 2, 2, AddressingMode::Immediate, Operation::Sbc),
        0xea => OpCode::new("NOP", 0xea, 1, 2, AddressingMode::NonAddressing, Operation::Nop),
        0xeb => OpCode::new("*SBC", 0xeb, 2, 2, AddressingMode::Immediate, Operation::Sbc),
        0xec => OpCode::new("CPX", 0xec, 3, 4, AddressingMode::Absolute, Operation::Cpx),
        0xed => OpCode::new("SBC", 0xed, 3, 4, AddressingMode::Absolute, Operation::Sbc),
        0xee => OpCode::new("INC", 0xee, 3, 6, AddressingMode::Absolute, Operation::Inc),
        0xef => OpCode::new("*ISB", 0xef, 3, 6, AddressingMode::Absolute, Operation::Isb),
        0xf0 => OpCode::new("BEQ", 0xf0, 2, 2, AddressingMode::Relative, Operation::Beq),
        0xf1 => OpCode::new("SBC", 0xf1, 2, 5, AddressingMode::Indirect_Y, Operation::Sbc),
        0xf2 => OpCode::new("*NOP", 0xf2, 1, 2, AddressingMode::NonAddressing, Operation::Nop),
        0xf3 => OpCode::new("*ISB", 0xf3, 2, 8, AddressingMode::Indirect_Y, Operation::Isb),
        0xf4 => OpCode::new("*NOP", 0xf4, 2, 4, AddressingMode::ZeroPage_X, Operation::Nop),
        0xf5 => OpCode::new("SBC", 0xf5, 2, 4, AddressingMode::ZeroPage_X, Operation::Sbc),
        0xf6 => OpCode::new("INC", 0xf6, 2, 6, AddressingMode::ZeroPage_X, Operation::Inc),
        0xf7 => OpCode::new("*ISB", 0xf7, 2, 6, AddressingMode::ZeroPage_X, Operation::Isb),
        0xf8 => OpCode::new("SED", 0xf8, 1, 2, AddressingMode::NonAddressing, Operation::Sed),
        0xf9 => OpCode::new("SBC", 0xf9, 3, 4, AddressingMode::Absolute_Y, Operation::Sbc),
        0xfa => OpCode::new("*NOP", 0xfa, 1, 2, AddressingMode::NonAddressing, Operation::Nop),
        0xfb => OpCode::new("*ISB", 0xfb, 3, 7, AddressingMode::Absolute_Y, Operation::Isb),
        0xfc => OpCode::new("*NOP", 0xfc, 3, 4, AddressingMode::Absolute_X, Operation::Nop),
        0xfd => OpCode::new("SBC", 0xfd, 3, 4, AddressingMode::Absolute_X, Operation::Sbc),
        0xfe => OpCode::new("INC", 0xfe, 3, 7, AddressingMode::Absolute_X, Operation::Inc),
        0xff => OpCode::new("*ISB", 0xff, 3, 7, AddressingMode::Absolute_X, Operation::Isb),
        _ => OpCode::new("*NOP", 0x80, 2, 2, AddressingMode::Immediate, Operation::Nop),
        }
    }
}

/// The instruction table: the entry of opcode byte `code`.
pub open spec fn decode(code: u8) -> OpCode {
    if code < 0x80 {
        decode_low(code)
    } else {
        decode_high(code)
    }
}

/// The lower half of the instruction table.
pub open spec fn decode_low(code: u8) -> OpCode {
    match code {
        0x01 => OpCode::entry("ORA", 0x01, 2, 6, AddressingMode::Indirect_X, Operation::Ora),
        0x02 => OpCode::entry("*NOP", 0x02, 1, 2, AddressingMode::NonAddressing, Operation::Nop),
        0x03 => OpCode::entry("*SLO", 0x03, 2, 8, AddressingMode::Indirect_X, Operation::Slo),
        0x04 => OpCode::entry("*NOP", 0x04, 2, 3, AddressingMode::ZeroPage, Operation::Nop),
        0x05 => OpCode::entry("ORA", 0x05, 2, 3, AddressingMode::ZeroPage, Operation::Ora),
        0x06 => OpCode::entry("ASL", 0x06, 2, 5, AddressingMode::ZeroPage, Operation::Asl),
        0x07 => OpCode::entry("*SLO", 0x07, 2, 5, AddressingMode::ZeroPage, Operation::Slo),
        0x08 => OpCode::entry("PHP", 0x08, 1, 3, AddressingMode::NonAddressing, Operation::Php),
        0x09 => OpCode::entry("ORA", 0x09, 2, 2, AddressingMode::Immediate, Operation::Ora),
        0x0a => OpCode::entry("ASL", 0x0a, 1, 2, AddressingMode::NonAddressing, Operation::Asl),
        0x0b => OpCode::entry("*ANC", 0x0b, 2, 2, AddressingMode::Immediate, Operation::Anc),
        0x0c => OpCode::entry("*NOP", 0x0c, 3, 4, AddressingMode::Absolute, Operation::Nop),
        0x0d => OpCode::entry("ORA", 0x0d, 3, 4, AddressingMode::Absolute, Operation::Ora),
        0x0e => OpCode::entry("ASL", 0x0e, 3, 6, AddressingMode::Absolute, Operation::Asl),
        0x0f => OpCode::entry("*SLO", 0x0f, 3, 6, AddressingMode::Absolute, Operation::Slo),
        0x10 => OpCode::entry("BPL", 0x10, 2, 2, AddressingMode::Relative, Operation::Bpl),
        0x11 => OpCode::entry("ORA", 0x11, 2, 5, AddressingMode::Indirect_Y, Operation::Ora),
        0x12 => OpCode::entry("*NOP", 0x12, 1, 2, AddressingMode::NonAddressing, Operation::Nop),
        0x13 => OpCode::entry("*SLO", 0x13, 2, 8, AddressingMode::Indirect_Y, Operation::Slo),
        0x14 => OpCode::entry("*NOP", 0x14, 2, 4, AddressingMode::ZeroPage_X, Operation::Nop),
        0x15 => OpCode::entry("ORA", 0x15, 2, 4, AddressingMode::ZeroPage_X, Operation::Ora),
        0x16 => OpCode::entry("ASL", 0x16, 2, 6, AddressingMode::ZeroPage_X, Operation::Asl),
        0x17 => OpCode::entry("*SLO", 0x17, 2, 6, AddressingMode::ZeroPage_X, Operation::Slo),
        0x18 => OpCode::entry("CLC", 0x18, 1, 2, AddressingMode::NonAddressing, Operation::Clc),
        0x19 => OpCode::entry("ORA", 0x19, 3, 4, AddressingMode::Absolute_Y, Operation::Ora),
        0x1a => OpCode::entry("*NOP", 0x1a, 1, 2, AddressingMode::NonAddressing, Operation::Nop),
        0x1b => OpCode::entry("*SLO", 0x1b, 3, 7, AddressingMode::Absolute_Y, Operation::Slo),
        0x1c => OpCode::entry("*NOP", 0x1c, 3, 4, AddressingMode::Absolute_X, Operation::Nop),
        0x1d => OpCode::entry("ORA", 0x1d, 3, 4, AddressingMode::Absolute_X, Operation::Ora),
        0x1e => OpCode::entry("ASL", 0x1e, 3, 7, AddressingMode::Absolute_X, Operation::Asl),
        0x1f => OpCode::entry("*SLO", 0x1f, 3, 7, AddressingMode::Absolute_X, Operation::Slo),
        0x20 => OpCode::entry("JSR", 0x20, 3, 6, AddressingMode::Absolute, Operation::Jsr),
        0x21 => OpCode::entry("AND", 0x21, 2, 6, AddressingMode::Indirect_X, Operation::And),
        0x22 => OpCode::entry("*NOP", 0x22, 1, 2, AddressingMode::NonAddressing, Operation::Nop),
        0x23 => OpCode::entry("*RLA", 0x23, 2, 8, AddressingMode::Indirect_X, Operation::Rla),
        0x24 => OpCode::entry("BIT", 0x24, 2, 3, AddressingMode::ZeroPage, Operation::Bit),
        0x25 => OpCode::entry("AND", 0x25, 2, 3, AddressingMode::ZeroPage, Operation::And),
        0x26 => OpCode::entry("ROL", 0x26, 2, 5, AddressingMode::ZeroPage, Operation::Rol),
        0x27 => OpCode::entry("*RLA", 0x27, 2, 5, AddressingMode::ZeroPage, Operation::Rla),
        0x28 => OpCode::entry("PLP", 0x28, 1, 4, AddressingMode::NonAddressing, Operation::Plp),
        0x29 => OpCode::entry("AND", 0x29, 2, 2, AddressingMode::Immediate, Operation::And),
        0x2a => OpCode::entry("ROL", 0x2a, 1, 2, AddressingMode::NonAddressing, Operation::Rol),
        0x2b => OpCode::entry("*ANC", 0x2b, 2, 2, AddressingMode::Immediate, Operation::Anc),
        0x2c => OpCode::entry("BIT", 0x2c, 3, 4, AddressingMode::Absolute, Operation::Bit),
        0x2d => OpCode::entry("AND", 0x2d, 3, 4, AddressingMode::Absolute, Operation::And),
        0x2e => OpCode::entry("ROL", 0x2e, 3, 6, AddressingMode::Absolute, Operation::Rol),
        0x2f => OpCode::entry("*RLA", 0x2f, 3, 6, AddressingMode::Absolute, Operation::Rla),
        0x30 => OpCode::entry("BMI", 0x30, 2, 2, AddressingMode::Relative, Operation::Bmi),
        0x31 => OpCode::entry("AND", 0x31, 2, 5, AddressingMode::Indirect_Y, Operation::And),
        0x32 => OpCode::entry("*NOP", 0x32, 1, 2, AddressingMode::NonAddressing, Operation::Nop),
        0x33 => OpCode::entry("*RLA", 0x33, 2, 8, AddressingMode::Indirect_Y, Operation::Rla),
        0x34 => OpCode::entry("*NOP", 0x34, 2, 4, AddressingMode::ZeroPage_X, Operation::Nop),
        0x35 => OpCode::entry("AND", 0x35, 2, 4, AddressingMode::ZeroPage_X, Operation::And),
        0x36 => OpCode::entry("ROL", 0x36, 2, 6, AddressingMode::ZeroPage_X, Operation::Rol),
        0x37 => OpCode::entry("*RLA", 0x37, 2, 6, AddressingMode::ZeroPage_X, Operation::Rla),
        0x38 => OpCode::entry("SEC", 0x38, 1, 2, AddressingMode::NonAddressing, Operation::Sec),
        0x39 => OpCode::entry("AND", 0x39, 3, 4, AddressingMode::Absolute_Y, Operation::And),
        0x3a => OpCode::entry("*NOP", 0x3a, 1, 2, AddressingMode::NonAddressing, Operation::Nop),
        0x3b => OpCode::entry("*RLA", 0x3b, 3, 7, AddressingMode::Absolute_Y, Operation::Rla),
        0x3c => OpCode::entry("*NOP", 0x3c, 3, 4, AddressingMode::Absolute_X, Operation::Nop),
        0x3d => OpCode::entry("AND", 0x3d, 3, 4, AddressingMode::Absolute_X, Operation::And),
        0x3e => OpCode::entry("ROL", 0x3e, 3, 7, AddressingMode::Absolute_X, Operation::Rol),
        0x3f => OpCode::entry("*RLA", 0x3f, 3, 7, AddressingMode::Absolute_X, Operation::Rla),
        0x40 => OpCode::entry("RTI", 0x40, 1, 6, AddressingMode::NonAddressing, Operation::Rti),
        0x41 => OpCode::entry("EOR", 0x41, 2, 6, AddressingMode::Indirect_X, Operation::Eor),
        0x42 => OpCode::entry("*NOP", 0x42, 1, 2, AddressingMode::NonAddressing, Operation::Nop),
        0x43 => OpCode::entry("*SRE", 0x43, 2, 8, AddressingMode::Indirect_X, Operation::Sre),
        0x44 => OpCode::entry("*NOP", 0x44, 2, 3, AddressingMode::ZeroPage, Operation::Nop),
        0x45 => OpCode::entry("EOR", 0x45, 2, 3, AddressingMode::ZeroPage, Operation::Eor),
        0x46 => OpCode::entry("LSR", 0x46, 2, 5, AddressingMode::ZeroPage, Operation::Lsr),
        0x47 => OpCode::entry("*SRE", 0x47, 2, 5, AddressingMode::ZeroPage, Operation::Sre),
        0x48 => OpCode::entry("PHA", 0x48, 1, 3, AddressingMode::NonAddressing, Operation::Pha),
        0x49 => OpCode::entry("EOR", 0x49, 2, 2, AddressingMode::Immediate, Operation::Eor),
        0x4a => OpCode::entry("LSR", 0x4a, 1, 2, AddressingMode::NonAddressing, Operation::Lsr),
        0x4b => OpCode::entry("*ALR", 0x4b, 2, 2, AddressingMode::Immediate, Operation::Alr),
        0x4c => OpCode::entry("JMP", 0x4c, 3, 3, AddressingMode::Absolute, Operation::Jmp),
        0x4d => OpCode::entry("EOR", 0x4d, 3, 4, AddressingMode::Absolute, Operation::Eor),
        0x4e => OpCode::entry("LSR", 0x4e, 3, 6, AddressingMode::Absolute, Operation::Lsr),
        0x4f => OpCode::entry("*SRE", 0x4f, 3, 6, AddressingMode::Absolute, Operation::Sre),
        0x50 => OpCode::entry("BVC", 0x50, 2, 2, AddressingMode::Relative, Operation::Bvc),
        0x51 => OpCode::entry("EOR", 0x51, 2, 5, AddressingMode::Indirect_Y, Operation::Eor),
        0x52 => OpCode::entry("*NOP", 0x52, 1, 2, AddressingMode::NonAddressing, Operation::Nop),
        0x53 => OpCode::entry("*SRE", 0x53, 2, 8, AddressingMode::Indirect_Y, Operation::Sre),
        0x54 => OpCode::entry("*NOP", 0x54, 2, 4, AddressingMode::ZeroPage_X, Operation::Nop),
        0x55 => OpCode::entry("EOR", 0x55, 2, 4, AddressingMode::ZeroPage_X, Operation::Eor),
        0x56 => OpCode::entry("LSR", 0x56, 2, 6, AddressingMode::ZeroPage_X, Operation::Lsr),
        0x57 => OpCode::entry("*SRE", 0x57, 2, 6, AddressingMode::ZeroPage_X, Operation::Sre),
        0x58 => OpCode::entry("CLI", 0x58, 1, 2, AddressingMode::NonAddressing, Operation::Cli),
        0x59 => OpCode::entry("EOR", 0x59, 3, 4, AddressingMode::Absolute_Y, Operation::Eor),
        0x5a => OpCode::entry("*NOP", 0x5a, 1, 2, AddressingMode::NonAddressing, Operation::Nop),
        0x5b => OpCode::entry("*SRE", 0x5b, 3, 7, AddressingMode::Absolute_Y, Operation::Sre),
        0x5c => OpCode::entry("*NOP", 0x5c, 3, 4, AddressingMode::Absolute_X, Operation::Nop),
        0x5d => OpCode::entry("EOR", 0x5d, 3, 4, AddressingMode::Absolute_X, Operation::Eor),
        0x5e => OpCode::entry("LSR", 0x5e, 3, 7, AddressingMode::Absolute_X, Operation::Lsr),
        0x5f => OpCode::entry("*SRE", 0x5f, 3, 7, AddressingMode::Absolute_X, Operation::Sre),
        0x60 => OpCode::entry("RTS", 0x60, 1, 6, AddressingMode::NonAddressing, Operation::Rts),
        0x61 => OpCode::entry("ADC", 0x61, 2, 6, AddressingMode::Indirect_X, Operation::Adc),
        0x62 => OpCode::entry("*NOP", 0x62, 1, 2, AddressingMode::NonAddressing, Operation::Nop),
        0x63 => OpCode::entry("*RRA", 0x63, 2, 8, AddressingMode::Indirect_X, Operation::Rra),
        0x64 => OpCode::entry("*NOP", 0x64, 2, 3, AddressingMode::ZeroPage, Operation::Nop),
        0x65 => OpCode::entry("ADC", 0x65, 2, 3, AddressingMode::ZeroPage, Operation::Adc),
        0x66 => OpCode::entry("ROR", 0x66, 2, 5, AddressingMode::ZeroPage, Operation::Ror),
        0x67 => OpCode::entry("*RRA", 0x67, 2, 5, AddressingMode::ZeroPage, Operation::Rra),
        0x68 => OpCode::entry("PLA", 0x68, 1, 4, AddressingMode::NonAddressing, Operation::Pla),
        0x69 => OpCode::entry("ADC", 0x69, 2, 2, AddressingMode::Immediate, Operation::Adc),
        0x6a => OpCode::entry("ROR", 0x6a, 1, 2, AddressingMode::NonAddressing, Operation::Ror),
        0x6b => OpCode::entry("*ARR", 0x6b, 2, 2, AddressingMode::Immediate, Operation::Arr),
        0x6c => OpCode::entry("JMP", 0x6c, 3, 5, AddressingMode::Indirect, Operation::Jmp),
        0x6d => OpCode::entry("ADC", 0x6d, 3, 4, AddressingMode::Absolute, Operation::Adc),
        0x6e => OpCode::entry("ROR", 0x6e, 3, 6, AddressingMode::Absolute, Operation::Ror),
        0x6f => OpCode::entry("*RRA", 0x6f, 3, 6, AddressingMode::Absolute, Operation::Rra),
        0x70 => OpCode::entry("BVS", 0x70, 2, 2, AddressingMode::Relative, Operation::Bvs),
        0x71 => OpCode::entry("ADC", 0x71, 2, 5, AddressingMode::Indirect_Y, Operation::Adc),
        0x72 => OpCode::entry("*NOP", 0x72, 1, 2, AddressingMode::NonAddressing, Operation::Nop),
        0x73 => OpCode::entry("*RRA", 0x73, 2, 8, AddressingMode::Indirect_Y, Operation::Rra),
        0x74 => OpCode::entry("*NOP", 0x74, 2, 4, AddressingMode::ZeroPage_X, Operation::Nop),
        0x75 => OpCode::entry("ADC", 0x75, 2, 4, AddressingMode::ZeroPage_X, Operation::Adc),
        0x76 => OpCode::entry("ROR", 0x76, 2, 6, AddressingMode::ZeroPage_X, Operation::Ror),
        0x77 => OpCode::entry("*RRA", 0x77, 2, 6, AddressingMode::ZeroPage_X, Operation::Rra),
        0x78 => OpCode::entry("SEI", 0x78, 1, 2, AddressingMode::NonAddressing, Operation::Sei),
        0x79 => OpCode::entry("ADC", 0x79, 3, 4, AddressingMode::Absolute_Y, Operation::Adc),
        0x7a => OpCode::entry("*NOP", 0x7a, 1, 2, AddressingMode::NonAddressing, Operation::Nop),
        0x7b => OpCode::entry("*RRA", 0x7b, 3, 7, AddressingMode::Absolute_Y, Operation::Rra),
        0x7c => OpCode::entry("*NOP", 0x7c, 3, 4, AddressingMode::Absolute_X, Operation::Nop),
        0x7d => OpCode::entry("ADC", 0x7d, 3, 4, AddressingMode::Absolute_X, Operation::Adc),
        0x7e => OpCode::entry("ROR", 0x7e, 3, 7, AddressingMode::Absolute_X, Operation::Ror),
        0x7f => OpCode::entry("*RRA", 0x7f, 3, 7, AddressingMode::Absolute_X, Operation::Rra),
        _ => OpCode::entry("BRK", 0x00, 1, 7, AddressingMode::NonAddressing, Operation::Brk),
    }
}

/// The upper half of the instruction table.
pub open spec fn decode_high(code: u8) -> OpCode {
    match code {
        0x81 => OpCode::entry("STA", 0x81, 2, 6, AddressingMode::Indirect_X, Operation::Sta),
        0x82 => OpCode::entry("*NOP", 0x82, 2, 2, AddressingMode::Immediate, Operation::Nop),
        0x83 => OpCode::entry("*SAX", 0x83, 2, 6, AddressingMode::Indirect_X, Operation::Sax),
        0x84 => OpCode::entry("STY", 0x84, 2, 3, AddressingMode::ZeroPage, Operation::Sty),
        0x85 => OpCode::entry("STA", 0x85, 2, 3, AddressingMode::ZeroPage, Operation::Sta),
        0x86 => OpCode::entry("STX", 0x86, 2, 3, AddressingMode::ZeroPage, Operation::Stx),
        0x87 => OpCode::entry("*SAX", 0x87, 2, 3, AddressingMode::ZeroPage, Operation::Sax),
        0x88 => OpCode::entry("DEY", 0x88, 1, 2, AddressingMode::NonAddressing, Operation::Dey),
        0x89 => OpCode::entry("*NOP", 0x89, 2, 2, AddressingMode::Immediate, Operation::Nop),
        0x8a => OpCode::entry("TXA", 0x8a, 1, 2, AddressingMode::NonAddressing, Operation::Txa),
        0x8b => OpCode::entry("*XAA", 0x8b, 2, 2, AddressingMode::Immediate, Operation::Xaa),
        0x8c => OpCode::entry("STY", 0x8c, 3, 4, AddressingMode::Absolute, Operation::Sty),
        0x8d => OpCode::entry("STA", 0x8d, 3, 4, AddressingMode::Absolute, Operation::Sta),
        0x8e => OpCode::entry("STX", 0x8e, 3, 4, AddressingMode::Absolute, Operation::Stx),
        0x8f => OpCode::entry("*SAX", 0x8f, 3, 4, AddressingMode::Absolute, Operation::Sax),
        0x90 => OpCode::entry("BCC", 0x90, 2, 2, AddressingMode::Relative, Operation::Bcc),
        0x91 => OpCode::entry("STA", 0x91, 2, 6, AddressingMode::Indirect_Y, Operation::Sta),
        0x92 => OpCode::entry("*NOP", 0x92, 1, 2, AddressingMode::NonAddressing, Operation::Nop),
        0x93 => OpCode::entry("*AHX", 0x93, 2, 8, AddressingMode::Indirect_Y, Operation::Ahx),
        0x94 => OpCode::entry("STY", 0x94, 2, 4, AddressingMode::ZeroPage_X, Operation::Sty),
        0x95 => OpCode::entry("STA", 0x95, 2, 4, AddressingMode::ZeroPage_X, Operation::Sta),
        0x96 => OpCode::entry("STX", 0x96, 2, 4, AddressingMode::ZeroPage_Y, Operation::Stx),
        0x97 => OpCode::entry("*SAX", 0x97, 2, 4, AddressingMode::ZeroPage_Y, Operation::Sax),
        0x98 => OpCode::entry("TYA", 0x98, 1, 2, AddressingMode::NonAddressing, Operation::Tya),
        0x99 => OpCode::entry("STA", 0x99, 3, 5, AddressingMode::Absolute_Y, Operation::Sta),
        0x9a => OpCode::entry("TXS", 0x9a, 1, 2, AddressingMode::NonAddressing, Operation::Txs),
        0x9b => OpCode::entry("*TAS", 0x9b, 3, 5, AddressingMode::Absolute_Y, Operation::Tas),
        0x9c => OpCode::entry("*SHY", 0x9c, 3, 4, AddressingMode::Absolute_X, Operation::Shy),
        0x9d => OpCode::entry("STA", 0x9d, 3, 5, AddressingMode::Absolute_X, Operation::Sta),
        0x9e => OpCode::entry("*SHX", 0x9e, 3, 4, AddressingMode::Absolute_Y, Operation::Shx),
        0x9f => OpCode::entry("*AHX", 0x9f, 3, 4, AddressingMode::Absolute_Y, Operation::Ahx),
        0xa0 => OpCode::entry("LDY", 0xa0, 2, 2, AddressingMode::Immediate, Operation::Ldy),
        0xa1 => OpCode::entry("LDA", 0xa1, 2, 6, AddressingMode::Indirect_X, Operation::Lda),
        0xa2 => OpCode::entry("LDX", 0xa2, 2, 2, AddressingMode::Immediate, Operation::Ldx),
        0xa3 => OpCode::entry("*LAX", 0xa3, 2, 6, AddressingMode::Indirect_X, Operation::Lax),
        0xa4 => OpCode::entry("LDY", 0xa4, 2, 3, AddressingMode::ZeroPage, Operation::Ldy),
        0xa5 => OpCode::entry("LDA", 0xa5, 2, 3, AddressingMode::ZeroPage, Operation::Lda),
        0xa6 => OpCode::entry("LDX", 0xa6, 2, 3, AddressingMode::ZeroPage, Operation::Ldx),
        0xa7 => OpCode::entry("*LAX", 0xa7, 2, 3, AddressingMode::ZeroPage, Operation::Lax),
        0xa8 => OpCode::entry("TAY", 0xa8, 1, 2, AddressingMode::NonAddressing, Operation::Tay),
        0xa9 => OpCode::entry("LDA", 0xa9, 2, 2, AddressingMode::Immediate, Operation::Lda),
        0xaa => OpCode::entry("TAX", 0xaa, 1, 2, AddressingMode::NonAddressing, Operation::Tax),
        0xab => OpCode::entry("*LXA", 0xab, 2, 2, AddressingMode::Immediate, Operation::Lxa),
        0xac => OpCode::entry("LDY", 0xac, 3, 4, AddressingMode::Absolute, Operation::Ldy),
        0xad => OpCode::entry("LDA", 0xad, 3, 4, AddressingMode::Absolute, Operation::Lda),
        0xae => OpCode::entry("LDX", 0xae, 3, 4, AddressingMode::Absolute, Operation::Ldx),
        0xaf => OpCode::entry("*LAX", 0xaf, 3, 4, AddressingMode::Absolute, Operation::Lax),
        0xb0 => OpCode::entry("BCS", 0xb0, 2, 2, AddressingMode::Relative, Operation::Bcs),
        0xb1 => OpCode::entry("LDA", 0xb1, 2, 5, AddressingMode::Indirect_Y, Operation::Lda),
        0xb2 => OpCode::entry("*NOP", 0xb2, 1, 2, AddressingMode::NonAddressing, Operation::Nop),
        0xb3 => OpCode::entry("*LAX", 0xb3, 2, 5, AddressingMode::Indirect_Y, Operation::Lax),
        0xb4 => OpCode::entry("LDY", 0xb4, 2, 4, AddressingMode::ZeroPage_X, Operation::Ldy),
        0xb5 => OpCode::entry("LDA", 0xb5, 2, 4, AddressingMode::ZeroPage_X, Operation::Lda),
        0xb6 => OpCode::entry("LDX", 0xb6, 2, 4, AddressingMode::ZeroPage_Y, Operation::Ldx),
        0xb7 => OpCode::entry("*LAX", 0xb7, 2, 4, AddressingMode::ZeroPage_Y, Operation::Lax),
        0xb8 => OpCode::entry("CLV", 0xb8, 1, 2, AddressingMode::NonAddressing, Operation::Clv),
        0xb9 => OpCode::entry("LDA", 0xb9, 3, 4, AddressingMode::Absolute_Y, Operation::Lda),
        0xba => OpCode::entry("TSX", 0xba, 1, 2, AddressingMode::NonAddressing, Operation::Tsx),
        0xbb => OpCode::entry("*LAS", 0xbb, 3, 4, AddressingMode::Absolute_Y, Operation::Las),
        0xbc => OpCode::entry("LDY", 0xbc, 3, 4, AddressingMode::Absolute_X, Operation::Ldy),
        0xbd => OpCode::entry("LDA", 0xbd, 3, 4, AddressingMode::Absolute_X, Operation::Lda),
        0xbe => OpCode::entry("LDX", 0xbe, 3, 4, AddressingMode::Absolute_Y, Operation::Ldx),
        0xbf => OpCode::entry("*LAX", 0xbf, 3, 4, AddressingMode::Absolute_Y, Operation::Lax),
        0xc0 => OpCode::entry("CPY", 0xc0, 2, 2, AddressingMode::Immediate, Operation::Cpy),
        0xc1 => OpCode::entry("CMP", 0xc1, 2, 6, AddressingMode::Indirect_X, Operation::Cmp),
        0xc2 => OpCode::entry("*NOP", 0xc2, 2, 2, AddressingMode::Immediate, Operation::Nop),
        0xc3 => OpCode::entry("*DCP", 0xc3, 2, 8, AddressingMode::Indirect_X, Operation::Dcp),
        0xc4 => OpCode::entry("CPY", 0xc4, 2, 3, AddressingMode::ZeroPage, Operation::Cpy),
        0xc5 => OpCode::entry("CMP", 0xc5, 2, 3, AddressingMode::ZeroPage, Operation::Cmp),
        0xc6 => OpCode::entry("DEC", 0xc6, 2, 5, AddressingMode::ZeroPage, Operation::Dec),
        0xc7 => OpCode::entry("*DCP", 0xc7, 2, 5, AddressingMode::ZeroPage, Operation::Dcp),
        0xc8 => OpCode::entry("INY", 0xc8, 1, 2, AddressingMode::NonAddressing, Operation::Iny),
        0xc9 => OpCode::entry("CMP", 0xc9, 2, 2, AddressingMode::Immediate, Operation::Cmp),
        0xca => OpCode::entry("DEX", 0xca, 1, 2, AddressingMode::NonAddressing, Operation::Dex),
        0xcb => OpCode::entry("*AXS", 0xcb, 2, 2, AddressingMode::Immediate, Operation::Axs),
        0xcc => OpCode::entry("CPY", 0xcc, 3, 4, AddressingMode::Absolute, Operation::Cpy),
        0xcd => OpCode::entry("CMP", 0xcd, 3, 4, AddressingMode::Absolute, Operation::Cmp),
        0xce => OpCode::entry("DEC", 0xce, 3, 6, AddressingMode::Absolute, Operation::Dec),
        0xcf => OpCode::entry("*DCP", 0xcf, 3, 6, AddressingMode::Absolute, Operation::Dcp),
        0xd0 => OpCode::entry("BNE", 0xd0, 2, 2, AddressingMode::Relative, Operation::Bne),
        0xd1 => OpCode::entry("CMP", 0xd1, 2, 5, AddressingMode::Indirect_Y, Operation::Cmp),
        0xd2 => OpCode::entry("*NOP", 0xd2, 1, 2, AddressingMode::NonAddressing, Operation::Nop),
        0xd3 => OpCode::entry("*DCP", 0xd3, 2, 8, AddressingMode::Indirect_Y, Operation::Dcp),
        0xd4 => OpCode::entry("*NOP", 0xd4, 2, 4, AddressingMode::ZeroPage_X, Operation::Nop),
        0xd5 => OpCode::entry("CMP", 0xd5, 2, 4, AddressingMode::ZeroPage_X, Operation::Cmp),
        0xd6 => OpCode::entry("DEC", 0xd6, 2, 6, AddressingMode::ZeroPage_X, Operation::Dec),
        0xd7 => OpCode::entry("*DCP", 0xd7, 2, 6, AddressingMode::ZeroPage_X, Operation::Dcp),
        0xd8 => OpCode::entry("CLD", 0xd8, 1, 2, AddressingMode::NonAddressing, Operation::Cld),
        0xd9 => OpCode::entry("CMP", 0xd9, 3, 4, AddressingMode::Absolute_Y, Operation::Cmp),
        0xda => OpCode::entry("*NOP", 0xda, 1, 2, AddressingMode::NonAddressing, Operation::Nop),
        0xdb => OpCode::entry("*DCP", 0xdb, 3, 7, AddressingMode::Absolute_Y, Operation::Dcp),
        0xdc => OpCode::entry("*NOP", 0xdc, 3, 4, AddressingMode::Absolute_X, Operation::Nop),
        0xdd => OpCode::entry("CMP", 0xdd, 3, 4, AddressingMode::Absolute_X, Operation::Cmp),
        0xde => OpCode::entry("DEC", 0xde, 3, 7, AddressingMode::Absolute_X, Operation::Dec),
        0xdf => OpCode::entry("*DCP", 0xdf, 3, 7, AddressingMode::Absolute_X, Operation::Dcp),
        0xe0 => OpCode::entry("CPX", 0xe0, 2, 2, AddressingMode::Immediate, Operation::Cpx),
        0xe1 => OpCode::entry("SBC", 0xe1, 2, 6, AddressingMode::Indirect_X, Operation::Sbc),
        0xe2 => OpCode::entry("*NOP", 0xe2, 2, 2, AddressingMode::Immediate, Operation::Nop),
        0xe3 => OpCode::entry("*ISB", 0xe3, 2, 8, AddressingMode::Indirect_X, Operation::Isb),
        0xe4 => OpCode::entry("CPX", 0xe4, 2, 3, AddressingMode::ZeroPage, Operation::Cpx),
        0xe5 => OpCode::entry("SBC", 0xe5, 2, 3, AddressingMode::ZeroPage, Operation::Sbc),
        0xe6 => OpCode::entry("INC", 0xe6, 2, 5, AddressingMode::ZeroPage, Operation::Inc),
        0xe7 => OpCode::entry("*ISB", 0xe7, 2, 5, AddressingMode::ZeroPage, Operation::Isb),
        0xe8 => OpCode::entry("INX", 0xe8, 1, 2, AddressingMode::NonAddressing, Operation::Inx),
        0xe9 => OpCode::entry("SBC", 0xe9, 2, 2, AddressingMode::Immediate, Operation::Sbc),
        0xea => OpCode::entry("NOP", 0xea, 1, 2, AddressingMode::NonAddressing, Operation::Nop),
        0xeb => OpCode::entry("*SBC", 0xeb, 2, 2, AddressingMode::Immediate, Operation::Sbc),
        0xec => OpCode::entry("CPX", 0xec, 3, 4, AddressingMode::Absolute, Operation::Cpx),
        0xed => OpCode::entry("SBC", 0xed, 3, 4, AddressingMode::Absolute, Operation::Sbc),
        0xee => OpCode::entry("INC", 0xee, 3, 6, AddressingMode::Absolute, Operation::Inc),
        0xef => OpCode::entry("*ISB", 0xef, 3, 6, AddressingMode::Absolute, Operation::Isb),
        0xf0 => OpCode::entry("BEQ", 0xf0, 2, 2, AddressingMode::Relative, Operation::Beq),
        0xf1 => OpCode::entry("SBC", 0xf1, 2, 5, AddressingMode::Indirect_Y, Operation::Sbc),
        0xf2 => OpCode::entry("*NOP", 0xf2, 1, 2, AddressingMode::NonAddressing, Operation::Nop),
        0xf3 => OpCode::entry("*ISB", 0xf3, 2, 8, AddressingMode::Indirect_Y, Operation::Isb),
        0xf4 => OpCode::entry("*NOP", 0xf4, 2, 4, AddressingMode::ZeroPage_X, Operation::Nop),
        0xf5 => OpCode::entry("SBC", 0xf5, 2, 4, AddressingMode::ZeroPage_X, Operation::Sbc),
        0xf6 => OpCode::entry("INC", 0xf6, 2, 6, AddressingMode::ZeroPage_X, Operation::Inc),
        0xf7 => OpCode::entry("*ISB", 0xf7, 2, 6, AddressingMode::ZeroPage_X, Operation::Isb),
        0xf8 => OpCode::entry("SED", 0xf8, 1, 2, AddressingMode::NonAddressing, Operation::Sed),
        0xf9 => OpCode::entry("SBC", 0xf9, 3, 4, AddressingMode::Absolute_Y, Operation::Sbc),
        0xfa => OpCode::entry("*NOP", 0xfa, 1, 2, AddressingMode::NonAddressing, Operation::Nop),
        0xfb => OpCode::entry("*ISB", 0xfb, 3, 7, AddressingMode::Absolute_Y, Operation::Isb),
        0xfc => OpCode::entry("*NOP", 0xfc, 3, 4, AddressingMode::Absolute_X, Operation::Nop),
        0xfd => OpCode::entry("SBC", 0xfd, 3, 4, AddressingMode::Absolute_X, Operation::Sbc),
        0xfe => OpCode::entry("INC", 0xfe, 3, 7, AddressingMode::Absolute_X, Operation::Inc),
        0xff => OpCode::entry("*ISB", 0xff, 3, 7, AddressingMode::Absolute_X, Operation::Isb),
        _ => OpCode::entry("*NOP", 0x80, 2, 2, AddressingMode::Immediate, Operation::Nop),
    }
}

} // verus!
