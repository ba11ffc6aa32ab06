//! The processor: a 6502 without decimal mode, driving the bus one
//! instruction at a time.

pub mod compare;
pub mod execute;
pub mod instructions;
pub mod laws;
pub mod model;
pub mod run;

use crate::bus::Bus;
use crate::bus::BusState;
use crate::cartridge::rom::Mirroring;
use crate::cartridge::rom::ROM;
use crate::cpu::model::CpuState;
use crate::fault::Fault;
use crate::flags::StatusFlags;
use crate::opscodes::AddressingMode;
use crate::opscodes::AddressingModeConverter;
use vstd::prelude::*;

verus! {

/// The page that holds the stack.
pub const STACK_BASE: u16 = 0x0100;

/// Where the address of the interrupt handler stands.
pub const NMI_VECTOR: u16 = 0xfffa;

/// Where the address stands at which execution starts after a reset.
pub const RESET_VECTOR: u16 = 0xfffc;

/// Where `load` puts programs.
pub const PROGRAM_BASE: u16 = 0x8000;

pub struct CPU {
    pub register_a: u8,
    pub register_x: u8,
    pub register_y: u8,
    pub status: StatusFlags,
    pub program_counter: u16,
    pub stack_pointer: u8,
    pub bus: Bus,
}

impl View for CPU {
    type V = CpuState;

    open spec fn view(&self) -> CpuState {
        CpuState {
            a: self.register_a,
            x: self.register_x,
            y: self.register_y,
            status: self.status,
            pc: self.program_counter,
            sp: self.stack_pointer,
            bus: self.bus@,
        }
    }
}

impl CPU {
    pub open spec fn wf(&self) -> bool {
        self@.wf()
    }

    /// Whether the processor and its bus are in a state that their
    /// operations keep: this can only fail after a field was assigned to
    /// from outside.
    pub fn is_wf(&self) -> (ok: bool)
        ensures
            ok == self.wf(),
    {
        self.bus.is_wf()
    }

    /// A processor on `bus`, as it is before the reset signal.
    pub fn new(bus: Bus) -> (cpu: CPU)
        ensures
            cpu@ == (CpuState {
                a: 0,
                x: 0,
                y: 0,
                status: StatusFlags { bits: 0x24 },
                pc: 0,
                sp: 0,
                bus: bus@,
            }),
            bus.wf() ==> cpu.wf(),
    {
        CPU {
            register_a: 0,
            register_x: 0,
            register_y: 0,
            status: StatusFlags::from_bits_truncate(0x24),
            program_counter: 0,
            stack_pointer: 0,
            bus,
        }
    }

    /// A processor on a bus with the blank cartridge, whose program memory
    /// is writable: what `load` needs.
    pub fn new_test() -> (cpu: CPU)
        ensures
            cpu.wf(),
            cpu@ == (CpuState {
                a: 0,
                x: 0,
                y: 0,
                status: StatusFlags { bits: 0x24 },
                pc: 0,
                sp: 0,
                bus: BusState::power_on(
                    Seq::new(0x8000, |i: int| 0u8),
                    true,
                    Seq::<u8>::empty(),
                    0,
                    Mirroring::Vertical,
                ),
            }),
    {
        let rom = ROM::blank();
        assert(rom.chr_rom@ =~= Seq::<u8>::empty());
        CPU::new(Bus::new(rom))
    }

    pub fn mem_read(&mut self, addr: u16) -> (r: Result<u8, Fault>)
        requires
            old(self).wf(),
        ensures
            final(self).wf(),
            final(self)@ == old(self)@.read(addr).0,
            r == old(self)@.read(addr).1,
    {
        self.bus.mem_read(addr)
    }

    pub fn mem_write(&mut self, addr: u16, data: u8) -> (r: Result<(), Fault>)
        requires
            old(self).wf(),
        ensures
            final(self).wf(),
            final(self)@ == old(self)@.write(addr, data).0,
            r == old(self)@.write(addr, data).1,
    {
        self.bus.mem_write(addr, data)
    }

    pub fn mem_read_u16(&mut self, pos: u16) -> (r: Result<u16, Fault>)
        requires
            old(self).wf(),
        ensures
            final(self).wf(),
            final(self)@ == old(self)@.read_u16(pos).0,
            r == old(self)@.read_u16(pos).1,
    {
        self.bus.mem_read_u16(pos)
    }

    pub fn mem_write_u16(&mut self, pos: u16, data: u16) -> (r: Result<(), Fault>)
        requires
            old(self).wf(),
        ensures
            final(self).wf(),
            final(self)@ == old(self)@.write_u16(pos, data).0,
            r == old(self)@.write_u16(pos, data).1,
    {
        self.bus.mem_write_u16(pos, data)
    }

    pub fn stack_push(&mut self, data: u8)
        requires
            old(self).wf(),
        ensures
            final(self).wf(),
            final(self)@ == old(self)@.push(data),
    {
        let written = self.bus.mem_write(STACK_BASE + self.stack_pointer as u16, data);
        assert(written is Ok);
        self.stack_pointer = self.stack_pointer.wrapping_sub(1);
    }

    pub fn stack_pop(&mut self) -> (data: u8)
        requires
            old(self).wf(),
        ensures
            final(self).wf(),
            final(self)@ == old(self)@.pop(),
            data == old(self)@.top(),
    {
        self.stack_pointer = self.stack_pointer.wrapping_add(1);
        match self.bus.mem_read(STACK_BASE + self.stack_pointer as u16) {
            Ok(data) => data,
            Err(_) => 0,
        }
    }

    pub fn stack_push_u16(&mut self, data: u16)
        requires
            old(self).wf(),
        ensures
            final(self).wf(),
            final(self)@ == old(self)@.push_u16(data),
    {
        let hi_bits: u8 = (data >> 8) as u8;
        let lo_bits: u8 = (data & 0xff) as u8;
        self.stack_push(hi_bits);
        self.stack_push(lo_bits);
    }

    pub fn stack_pop_u16(&mut self) -> (data: u16)
        requires
            old(self).wf(),
        ensures
            final(self).wf(),
            final(self)@ == old(self)@.pop().pop(),
            data == old(self)@.top_u16(),
    {
        let lo_bits = self.stack_pop();
        let hi_bits = self.stack_pop();
        ((hi_bits as u16) << 8) | (lo_bits as u16)
    }

    /// The word in page zero at `ptr`.
    fn zero_page_word(&mut self, ptr: u8) -> (word: u16)
        requires
            old(self).wf(),
        ensures
            final(self).wf(),
            final(self)@ == old(self)@,
            word == old(self)@.zero_page_word(ptr),
    {
        let lo = match self.bus.mem_read(ptr as u16) {
            Ok(lo) => lo,
            Err(_) => 0,
        };
        let hi = match self.bus.mem_read(ptr.wrapping_add(1) as u16) {
            Ok(hi) => hi,
            Err(_) => 0,
        };
        ((hi as u16) << 8) | (lo as u16)
    }

    pub fn get_absolute_address(&mut self, mode: &AddressingMode, addr: u16) -> (r: Result<
        (u16, bool),
        Fault,
    >)
        requires
            old(self).wf(),
        ensures
            final(self).wf(),
            final(self)@ == old(self)@.absolute_address(*mode, addr).0,
            r == old(self)@.absolute_address(*mode, addr).1,
    {
        match mode {
            AddressingMode::ZeroPage => {
                let pos = self.mem_read(addr)?;
                Ok((pos as u16, false))
            },
            AddressingMode::ZeroPage_X => {
                let pos = self.mem_read(addr)?;
                Ok((pos.wrapping_add(self.register_x) as u16, false))
            },
            AddressingMode::ZeroPage_Y => {
                let pos = self.mem_read(addr)?;
                Ok((pos.wrapping_add(self.register_y) as u16, false))
            },
            AddressingMode::Absolute => {
                let base = self.mem_read_u16(addr)?;
                Ok((base, false))
            },
            AddressingMode::Absolute_X => {
                let base = self.mem_read_u16(addr)?;
                let target = base.wrapping_add(self.register_x as u16);
                Ok((target, base / 256 != target / 256))
            },
            AddressingMode::Absolute_Y => {
                let base = self.mem_read_u16(addr)?;
                let target = base.wrapping_add(self.register_y as u16);
                Ok((target, base / 256 != target / 256))
            },
            AddressingMode::Indirect => {
                let ptr = self.mem_read_u16(addr)?;
                let lo = self.mem_read(ptr)?;
                let hi = self.mem_read(ptr / 256 * 256 + ptr.wrapping_add(1) % 256)?;
                Ok((((hi as u16) << 8) | (lo as u16), false))
            },
            AddressingMode::Indirect_X => {
                let base = self.mem_read(addr)?;
                let ptr: u8 = base.wrapping_add(self.register_x);
                Ok((self.zero_page_word(ptr), false))
            },
            AddressingMode::Indirect_Y => {
                let base = self.mem_read(addr)?;
                let deref_base = self.zero_page_word(base);
                let deref = deref_base.wrapping_add(self.register_y as u16);
                Ok((deref, deref_base / 256 != deref / 256))
            },
            _ => Ok((addr, false)),
        }
    }

    pub fn get_operand_address(&mut self, mode: &AddressingMode) -> (r: Result<(u16, bool), Fault>)
        requires
            old(self).wf(),
        ensures
            final(self).wf(),
            final(self)@ == old(self)@.operand_address(*mode).0,
            r == old(self)@.operand_address(*mode).1,
    {
        self.get_absolute_address(mode, self.program_counter)
    }

    /// Reads the operand of the instruction at hand.
    pub fn fetch_operand(&mut self, mode: &AddressingMode) -> (r: Result<(u8, bool), Fault>)
        requires
            old(self).wf(),
        ensures
            final(self).wf(),
            final(self)@ == old(self)@.fetch(*mode).0,
            r == old(self)@.fetch(*mode).1,
    {
        proof {
            reveal(CpuState::fetch);
        }
        let (addr, crossed) = self.get_operand_address(mode)?;
        let value = self.mem_read(addr)?;
        Ok((value, crossed))
    }

    pub fn update_zero_and_negative_flags(&mut self, value: u8)
        ensures
            final(self)@ == (CpuState { status: old(self)@.status.with_zn(value), ..old(self)@ }),
            old(self).wf() ==> final(self).wf(),
    {
        self.status.update_zero_and_negative(value);
    }
}

impl AddressingModeConverter for CPU {
    type State = CpuState;

    open spec fn converter_state(&self) -> CpuState {
        self@
    }

    open spec fn converter_valid(&self) -> bool {
        self.wf()
    }

    open spec fn address_of(state: CpuState, mode: AddressingMode, addr: u16) -> (
        CpuState,
        Result<(u16, bool), Fault>,
    ) {
        state.absolute_address(mode, addr)
    }

    open spec fn operand_position(state: CpuState) -> u16 {
        state.pc
    }

    fn get_absolute_address(&mut self, mode: &AddressingMode, addr: u16) -> (r: Result<
        (u16, bool),
        Fault,
    >) {
        CPU::get_absolute_address(self, mode, addr)
    }

    fn get_operand_address(&mut self, mode: &AddressingMode) -> (r: Result<(u16, bool), Fault>) {
        CPU::get_operand_address(self, mode)
    }
}

} // verus!
