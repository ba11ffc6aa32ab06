//! What the processor asks of memory and of its stack, as traits, so that
//! code can be written against anything that answers reads and writes.

use crate::bus::Bus;
use crate::bus::BusState;
use crate::cpu::model::CpuState;
use crate::cpu::CPU;
use crate::fault::Fault;
use vstd::prelude::*;

verus! {

/// Memory that is read and written a byte at a time, where a read may
/// change what is behind the address.
pub trait Mem {
    /// The memory as plain values.
    type State;

    /// The memory as it stands.
    spec fn state(&self) -> Self::State;

    /// Whether the memory is in a state that its operations keep.
    spec fn valid(&self) -> bool;

    /// The memory after a read at `addr`, and the byte read or the fault.
    spec fn read_of(state: Self::State, addr: u16) -> (Self::State, Result<u8, Fault>);

    /// The memory after a write of `data` at `addr`, and the fault if
    /// there was one.
    spec fn write_of(state: Self::State, addr: u16, data: u8) -> (Self::State, Result<(), Fault>);

    fn mem_read(&mut self, addr: u16) -> (r: Result<u8, Fault>)
        requires
            old(self).valid(),
        ensures
            final(self).valid(),
            final(self).state() == Self::read_of(old(self).state(), addr).0,
            r == Self::read_of(old(self).state(), addr).1,
    ;

    fn mem_write(&mut self, addr: u16, data: u8) -> (r: Result<(), Fault>)
        requires
            old(self).valid(),
        ensures
            final(self).valid(),
            final(self).state() == Self::write_of(old(self).state(), addr, data).0,
            r == Self::write_of(old(self).state(), addr, data).1,
    ;

    /// Reads a little-endian word: the low byte at `pos`, then the high
    /// byte at the address after it.
    fn mem_read_u16(&mut self, pos: u16) -> (r: Result<u16, Fault>)
        requires
            old(self).valid(),
        ensures
            final(self).valid(),
            ({
                let (s1, lo) = Self::read_of(old(self).state(), pos);
                match lo {
                    Err(fault) => final(self).state() == s1 && r == Err::<u16, Fault>(fault),
                    Ok(lo) => {
                        let (s2, hi) = Self::read_of(s1, pos.wrapping_add(1));
                        &&& final(self).state() == s2
                        &&& r == match hi {
                            Err(fault) => Err::<u16, Fault>(fault),
                            Ok(hi) => Ok(((hi as u16) << 8) | (lo as u16)),
                        }
                    },
                }
            }),
    {
        let lo = self.mem_read(pos)?;
        let hi = self.mem_read(pos.wrapping_add(1))?;
        Ok(((hi as u16) << 8) | (lo as u16))
    }

    /// Writes a little-endian word: the low byte at `pos`, then the high
    /// byte at the address after it.
    fn mem_write_u16(&mut self, pos: u16, data: u16) -> (r: Result<(), Fault>)
        requires
            old(self).valid(),
        ensures
            final(self).valid(),
            ({
                let (s1, first) = Self::write_of(old(self).state(), pos, (data & 0xff) as u8);
                match first {
                    Err(fault) => final(self).state() == s1 && r == Err::<(), Fault>(fault),
                    Ok(_) => {
                        let (s2, second) = Self::write_of(
                            s1,
                            pos.wrapping_add(1),
                            (data >> 8) as u8,
                        );
                        final(self).state() == s2 && r == second
                    },
                }
            }),
    {
        let hi_bits: u8 = (data >> 8) as u8;
        let lo_bits: u8 = (data & 0xff) as u8;
        self.mem_write(pos, lo_bits)?;
        self.mem_write(pos.wrapping_add(1), hi_bits)
    }
}

/// A stack of bytes.
pub trait Stack {
    /// The stack, and what it lives in, as plain values.
    type State;

    /// The stack as it stands.
    spec fn stack_state(&self) -> Self::State;

    /// Whether the stack is in a state that its operations keep.
    spec fn stack_valid(&self) -> bool;

    /// The stack after a push of `data`.
    spec fn pushed(state: Self::State, data: u8) -> Self::State;

    /// The stack after a pop, and the byte popped.
    spec fn popped(state: Self::State) -> (Self::State, u8);

    fn stack_pop(&mut self) -> (data: u8)
        requires
            old(self).stack_valid(),
        ensures
            final(self).stack_valid(),
            final(self).stack_state() == Self::popped(old(self).stack_state()).0,
            data == Self::popped(old(self).stack_state()).1,
    ;

    fn stack_push(&mut self, data: u8)
        requires
            old(self).stack_valid(),
        ensures
            final(self).stack_valid(),
            final(self).stack_state() == Self::pushed(old(self).stack_state(), data),
    ;

    /// Pops a word: the low byte first.
    fn stack_pop_u16(&mut self) -> (data: u16)
        requires
            old(self).stack_valid(),
        ensures
            final(self).stack_valid(),
            final(self).stack_state() == Self::popped(
                Self::popped(old(self).stack_state()).0,
            ).0,
            data == ((Self::popped(Self::popped(old(self).stack_state()).0).1 as u16) << 8) | (
            Self::popped(old(self).stack_state()).1 as u16),
    {
        let lo_bits = self.stack_pop();
        let hi_bits = self.stack_pop();
        ((hi_bits as u16) << 8) | (lo_bits as u16)
    }

    /// Pushes a word: the high byte first.
    fn stack_push_u16(&mut self, data: u16)
        requires
            old(self).stack_valid(),
        ensures
            final(self).stack_valid(),
            final(self).stack_state() == Self::pushed(
                Self::pushed(old(self).stack_state(), (data >> 8) as u8),
                (data & 0xff) as u8,
            ),
    {
        let hi_bits: u8 = (data >> 8) as u8;
        let lo_bits: u8 = (data & 0xff) as u8;
        self.stack_push(hi_bits);
        self.stack_push(lo_bits)
    }
}

impl Mem for Bus {
    type State = BusState;

    open spec fn state(&self) -> BusState {
        self@
    }

    open spec fn valid(&self) -> bool {
        self.wf()
    }

    open spec fn read_of(state: BusState, addr: u16) -> (BusState, Result<u8, Fault>) {
        state.read(addr)
    }

    open spec fn write_of(state: BusState, addr: u16, data: u8) -> (BusState, Result<(), Fault>) {
        state.write(addr, data)
    }

    fn mem_read(&mut self, addr: u16) -> (r: Result<u8, Fault>) {
        Bus::mem_read(self, addr)
    }

    fn mem_write(&mut self, addr: u16, data: u8) -> (r: Result<(), Fault>) {
        Bus::mem_write(self, addr, data)
    }
}

impl Mem for CPU {
    type State = CpuState;

    open spec fn state(&self) -> CpuState {
        self@
    }

    open spec fn valid(&self) -> bool {
        self.wf()
    }

    open spec fn read_of(state: CpuState, addr: u16) -> (CpuState, Result<u8, Fault>) {
        state.read(addr)
    }

    open spec fn write_of(state: CpuState, addr: u16, data: u8) -> (CpuState, Result<(), Fault>) {
        state.write(addr, data)
    }

    fn mem_read(&mut self, addr: u16) -> (r: Result<u8, Fault>) {
        CPU::mem_read(self, addr)
    }

    fn mem_write(&mut self, addr: u16, data: u8) -> (r: Result<(), Fault>) {
        CPU::mem_write(self, addr, data)
    }
}

impl Stack for CPU {
    type State = CpuState;

    open spec fn stack_state(&self) -> CpuState {
        self@
    }

    open spec fn stack_valid(&self) -> bool {
        self.wf()
    }

    open spec fn pushed(state: CpuState, data: u8) -> CpuState {
        state.push(data)
    }

    open spec fn popped(state: CpuState) -> (CpuState, u8) {
        (state.pop(), state.top())
    }

    fn stack_pop(&mut self) -> (data: u8) {
        CPU::stack_pop(self)
    }

    fn stack_push(&mut self, data: u8) {
        CPU::stack_push(self, data)
    }
}

} // verus!
