//! Reset, interrupt entry, single steps, and runs of steps.

use crate::cpu::execute::lemma_decode_bounds;
use crate::cpu::model::CpuFault;
use crate::cpu::model::Halt;
use crate::cpu::model::Pause;
use crate::cpu::model::Step;
use crate::cpu::CPU;
use crate::cpu::NMI_VECTOR;
use crate::cpu::PROGRAM_BASE;
use crate::cpu::RESET_VECTOR;
use crate::fault::Fault;
use crate::flags::StatusFlags;
use crate::opscodes::OpCode;
use crate::opscodes::Operation;
use crate::render::render;
use crate::render::rendered;
use crate::rendering::frame::Frame;
use vstd::prelude::*;

verus! {

impl CPU {
    /// The reset signal.
    pub fn reset(&mut self) -> (r: Result<(), Fault>)
        requires
            old(self).wf(),
        ensures
            final(self).wf(),
            final(self)@ == old(self)@.reset().0,
            r == old(self)@.reset().1,
            r is Ok ==> final(self).stack_pointer == 0xfd && old(self)@.bus.read_u16(0xfffc).1
                == Ok::<u16, Fault>(final(self).program_counter),
    {
        self.register_a = 0;
        self.register_x = 0;
        self.register_y = 0;
        self.status = StatusFlags::from_bits_truncate(0x24);
        self.stack_pointer = 0xfd;
        self.program_counter = self.mem_read_u16(RESET_VECTOR)?;
        Ok(())
    }

    /// Enters the interrupt handler if the picture-processing unit has
    /// raised the interrupt.
    pub fn interrupt_nmi(&mut self) -> (r: Result<(), Fault>)
        requires
            old(self).wf(),
        ensures
            final(self).wf(),
            final(self)@ == old(self)@.service_nmi().0,
            r == old(self)@.service_nmi().1,
    {
        match self.bus.poll_nmi_status() {
            None => {
                assert(self@ =~~= old(self)@);
                Ok(())
            },
            Some(_) => {
                self.stack_push_u16(self.program_counter);
                let mut flag = self.status;
                flag.remove(StatusFlags::BREAK);
                flag.insert(StatusFlags::RESERVED);
                self.stack_push(flag.bits());
                self.status.insert(StatusFlags::INTERRUPT_DISABLE);
                self.program_counter = self.mem_read_u16(NMI_VECTOR)?;
                Ok(())
            },
        }
    }

    /// One step of the processor.
    pub fn step(&mut self) -> (r: Result<Step, CpuFault>)
        requires
            old(self).wf(),
        ensures
            final(self).wf(),
            final(self)@ == old(self)@.step().0,
            r == old(self)@.step().1,
    {
        match self.interrupt_nmi() {
            Ok(_) => {},
            Err(fault) => {
                return Err(CpuFault { fault, pc: self.program_counter });
            },
        }
        let at = self.program_counter;
        let code = match self.mem_read(at) {
            Ok(code) => code,
            Err(fault) => {
                return Err(CpuFault { fault, pc: at });
            },
        };
        let op = OpCode::lookup(code);
        proof {
            lemma_decode_bounds(code);
        }
        self.program_counter = at.wrapping_add(1);
        let extra = match self.execute(&op) {
            Ok(extra) => extra,
            Err(fault) => {
                return Err(CpuFault { fault, pc: at });
            },
        };
        if !op.operation.is_control_flow() {
            self.program_counter = self.program_counter.wrapping_add((op.bytes_len - 1) as u16);
        }
        let cycles: u8 = op.cycles + extra;
        let frame_ready = self.bus.tick(cycles);
        Ok(Step { halted: op.operation == Operation::Brk, frame_ready, cycles })
    }

    /// Runs up to `limit` steps, calling `callback` before each.
    fn run_bounded<F: Fn(&CPU)>(&mut self, limit: u64, callback: F) -> (r: Result<Halt, CpuFault>)
        requires
            old(self).wf(),
            forall|cpu: &CPU| call_requires(callback, (cpu,)),
        ensures
            final(self).wf(),
            final(self)@ == old(self)@.run(limit as nat).0,
            r == old(self)@.run(limit as nat).1,
    {
        let mut done: u64 = 0;
        while done < limit
            invariant
                done <= limit,
                self.wf(),
                forall|cpu: &CPU| call_requires(callback, (cpu,)),
                old(self)@.run(limit as nat) == self@.run((limit - done) as nat),
            decreases limit - done,
        {
            callback(self);
            match self.step() {
                Err(fault) => {
                    return Err(fault);
                },
                Ok(step) => {
                    if step.halted {
                        return Ok(Halt::Break);
                    }
                },
            }
            done = done + 1;
        }
        Ok(Halt::StepLimit)
    }

    /// Runs until a `BRK`, a fault, or the end of `limit` steps.
    pub fn run_for(&mut self, limit: u64) -> (r: Result<Halt, CpuFault>)
        requires
            old(self).wf(),
        ensures
            final(self).wf(),
            final(self)@ == old(self)@.run(limit as nat).0,
            r == old(self)@.run(limit as nat).1,
    {
        self.run_bounded(limit, |cpu: &CPU| {})
    }

    /// Runs until a `BRK` or a fault, calling `callback` with the
    /// processor before each instruction. The run also ends after
    /// `u64::MAX` steps.
    pub fn run_with_callback<F: Fn(&CPU)>(&mut self, callback: F) -> (r: Result<Halt, CpuFault>)
        requires
            old(self).wf(),
            forall|cpu: &CPU| call_requires(callback, (cpu,)),
        ensures
            final(self).wf(),
            final(self)@ == old(self)@.run(u64::MAX as nat).0,
            r == old(self)@.run(u64::MAX as nat).1,
    {
        self.run_bounded(u64::MAX, callback)
    }

    /// Runs until a `BRK` or a fault. The run also ends after `u64::MAX`
    /// steps.
    pub fn run(&mut self) -> (r: Result<Halt, CpuFault>)
        requires
            old(self).wf(),
        ensures
            final(self).wf(),
            final(self)@ == old(self)@.run(u64::MAX as nat).0,
            r == old(self)@.run(u64::MAX as nat).1,
    {
        self.run_for(u64::MAX)
    }

    /// Runs until a frame is ready, and draws it onto `frame`; the run
    /// also ends with a `BRK`, a fault, or the end of `limit` steps. The
    /// frame is drawn whenever the last step made one ready, and only then.
    pub fn run_frame(&mut self, frame: &mut Frame, limit: u64) -> (r: Result<Pause, CpuFault>)
        requires
            old(self).wf(),
            old(frame).wf(),
        ensures
            final(self).wf(),
            final(frame).wf(),
            final(self)@ == old(self)@.run_to_frame(limit as nat).0,
            r == old(self)@.run_to_frame(limit as nat).2,
            final(frame)@ == if old(self)@.run_to_frame(limit as nat).1 {
                rendered(final(self)@.bus.ppu, old(frame)@)
            } else {
                old(frame)@
            },
    {
        let mut done: u64 = 0;
        while done < limit
            invariant
                done <= limit,
                self.wf(),
                frame.wf(),
                frame@ == old(frame)@,
                old(self)@.run_to_frame(limit as nat) == self@.run_to_frame((limit - done) as nat),
            decreases limit - done,
        {
            match self.step() {
                Err(fault) => {
                    return Err(fault);
                },
                Ok(step) => {
                    if step.frame_ready {
                        render(&self.bus.ppu, frame);
                    }
                    if step.halted {
                        return Ok(Pause::Break);
                    }
                    if step.frame_ready {
                        return Ok(Pause::Frame);
                    }
                },
            }
            done = done + 1;
        }
        Ok(Pause::StepLimit)
    }

    /// Writes `program` into program memory from `$8000` on and makes the
    /// reset vector point at it. This needs a cartridge whose program
    /// memory is writable.
    pub fn load(&mut self, program: Vec<u8>) -> (r: Result<(), Fault>)
        requires
            old(self).wf(),
            program.len() <= 0x8000,
        ensures
            final(self).wf(),
            final(self)@ == old(self)@.load(program@).0,
            r == old(self)@.load(program@).1,
    {
        let mut i: usize = 0;
        while i < program.len()
            invariant
                i <= program.len() <= 0x8000,
                self.wf(),
                old(self)@.poke_all(0x8000, program@, 0) == self@.poke_all(
                    0x8000,
                    program@,
                    i as nat,
                ),
            decreases program.len() - i,
        {
            match self.mem_write(PROGRAM_BASE + i as u16, program[i]) {
                Ok(_) => {},
                Err(fault) => {
                    return Err(fault);
                },
            }
            i = i + 1;
        }
        self.mem_write_u16(RESET_VECTOR, PROGRAM_BASE)
    }

    /// Loads `program`, resets the processor and runs it.
    pub fn load_and_run(&mut self, program: Vec<u8>) -> (r: Result<Halt, CpuFault>)
        requires
            old(self).wf(),
            program.len() <= 0x8000,
        ensures
            final(self).wf(),
            final(self)@ == old(self)@.load_and_run(program@, u64::MAX as nat).0,
            r == old(self)@.load_and_run(program@, u64::MAX as nat).1,
    {
        match self.load(program) {
            Ok(_) => {},
            Err(fault) => {
                return Err(CpuFault { fault, pc: self.program_counter });
            },
        }
        match self.reset() {
            Ok(_) => {},
            Err(fault) => {
                return Err(CpuFault { fault, pc: self.program_counter });
            },
        }
        self.run()
    }
}

} // verus!
