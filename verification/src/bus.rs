//! The memory bus: it routes the processor's 16-bit addresses to work RAM,
//! the ports of the picture-processing unit, the controller and the
//! cartridge, and keeps the two processors in step.

use crate::cartridge::rom::Mirroring;
use crate::cartridge::rom::ROM;
use crate::fault::Fault;
use crate::joypad::Joypad;
use crate::ppu::NesPPU;
use crate::ppu::PpuState;
use vstd::prelude::*;

verus! {

/// The last address of work RAM and its mirrors.
pub const RAM_MIRRORS_END: u16 = 0x1fff;

/// The last address of the mirrored ports of the picture-processing unit.
pub const PPU_REGISTERS_MIRRORS_END: u16 = 0x3fff;

/// The processor cycles that a sprite DMA costs.
pub const OAM_DMA_CYCLES: usize = 513;

pub struct Bus {
    /// 2 KiB of work RAM.
    pub cpu_vram: Vec<u8>,
    pub rom: ROM,
    pub ppu: NesPPU,
    pub joypad: Joypad,
    /// Processor cycles since power-on, modulo the width of the counter.
    pub cycles: usize,
}

/// The state of everything on the bus as plain values.
#[verifier::ext_equal]
pub struct BusState {
    pub ram: Seq<u8>,
    /// The program memory of the cartridge.
    pub prg: Seq<u8>,
    pub prg_writable: bool,
    /// The pattern memory that the cartridge came with. The
    /// picture-processing unit works on its own copy.
    pub cartridge_chr: Seq<u8>,
    pub mapper: u8,
    pub screen_mirroring: Mirroring,
    pub ppu: PpuState,
    pub joypad: Joypad,
    pub cycles: usize,
}

impl View for Bus {
    type V = BusState;

    open spec fn view(&self) -> BusState {
        BusState {
            ram: self.cpu_vram@,
            prg: self.rom.prg_rom@,
            prg_writable: self.rom.prg_writable,
            cartridge_chr: self.rom.chr_rom@,
            mapper: self.rom.mapper,
            screen_mirroring: self.rom.screen_mirroring,
            ppu: self.ppu@,
            joypad: self.joypad,
            cycles: self.cycles,
        }
    }
}

impl BusState {
    pub open spec fn wf(self) -> bool {
        &&& self.ram.len() == 2048
        &&& self.ppu.wf()
    }

    /// The bus as it is when power comes on, around a cartridge with
    /// program memory `prg`, pattern memory `chr`, mapper number `mapper`
    /// and nametable wiring `mirroring`. A cartridge without pattern
    /// memory gets 8 KiB of pattern RAM.
    pub open spec fn power_on(
        prg: Seq<u8>,
        prg_writable: bool,
        chr: Seq<u8>,
        mapper: u8,
        mirroring: Mirroring,
    ) -> BusState {
        BusState {
            ram: Seq::new(2048, |i: int| 0u8),
            prg,
            prg_writable,
            cartridge_chr: chr,
            mapper,
            screen_mirroring: mirroring,
            ppu: if chr.len() == 0 {
                PpuState::power_on(Seq::new(0x2000, |i: int| 0u8), true, mirroring.to_ppu())
            } else {
                PpuState::power_on(chr, false, mirroring.to_ppu())
            },
            joypad: Joypad {
                button_status: crate::joypad::JoypadButton { bits: 0 },
                strobe: false,
                index: 0,
            },
            cycles: 0,
        }
    }

    /// Where in program memory cartridge address `addr` (`$8000` and up)
    /// lies, if anywhere: a 16 KiB image answers in both halves of the
    /// cartridge space.
    pub open spec fn prg_index(self, addr: u16) -> Option<int> {
        let offset = addr - 0x8000;
        let index = if self.prg.len() == 0x4000 {
            offset % 0x4000
        } else {
            offset
        };
        if addr >= 0x8000 && index < self.prg.len() {
            Some(index)
        } else {
            None
        }
    }

    /// A read of port `port` (0 to 7) of the picture-processing unit. The
    /// control port reads as the byte last written to it, the status,
    /// sprite data and data ports as the unit answers, the others as 0.
    pub open spec fn read_port(self, port: int) -> (BusState, Result<u8, Fault>) {
        if port == 0 {
            (self, Ok(self.ppu.control.bits))
        } else if port == 2 {
            (BusState { ppu: self.ppu.read_status(), ..self }, Ok(self.ppu.status.bits))
        } else if port == 4 {
            (self, Ok(self.ppu.oam[self.ppu.oam_addr as int]))
        } else if port == 7 {
            (
                BusState { ppu: self.ppu.read_data(), ..self },
                match self.ppu.data_fault() {
                    Some(fault) => Err(fault),
                    None => Ok(self.ppu.read_data_value()),
                },
            )
        } else {
            (self, Ok(0u8))
        }
    }

    /// A read at `addr`: the bus afterwards and the byte read. Work RAM
    /// repeats every `$0800` up to `$1FFF`, the eight ports every 8 bytes
    /// from `$2000` up to `$3FFF`, `$4016` is the controller, the sound
    /// registers and `$6000..=$7FFF` read as 0, nothing answers in
    /// `$4018..=$5FFF`, and the cartridge answers from `$8000` on.
    pub open spec fn read(self, addr: u16) -> (BusState, Result<u8, Fault>) {
        if addr < 0x2000 {
            (self, Ok(self.ram[(addr % 0x0800) as int]))
        } else if addr < 0x4000 {
            self.read_port((addr % 8) as int)
        } else if addr == 0x4016 {
            (BusState { joypad: self.joypad.after_read(), ..self }, Ok(self.joypad.read_value()))
        } else if addr < 0x4018 {
            (self, Ok(0u8))
        } else if addr < 0x6000 {
            (self, Err(Fault::Unmapped { addr }))
        } else if addr < 0x8000 {
            (self, Ok(0u8))
        } else {
            match self.prg_index(addr) {
                Some(index) => (self, Ok(self.prg[index])),
                None => (self, Err(Fault::Unmapped { addr })),
            }
        }
    }

    /// A write of `data` to port `port` (0 to 7) of the picture-processing
    /// unit. The status port ignores writes.
    pub open spec fn write_port(self, port: int, data: u8) -> (BusState, Result<(), Fault>) {
        if port == 0 {
            (BusState { ppu: self.ppu.write_control(data), ..self }, Ok(()))
        } else if port == 1 {
            (BusState { ppu: self.ppu.write_mask(data), ..self }, Ok(()))
        } else if port == 3 {
            (BusState { ppu: self.ppu.write_oam_addr(data), ..self }, Ok(()))
        } else if port == 4 {
            (BusState { ppu: self.ppu.write_oam_data(data), ..self }, Ok(()))
        } else if port == 5 {
            (BusState { ppu: self.ppu.write_scroll(data), ..self }, Ok(()))
        } else if port == 6 {
            (BusState { ppu: self.ppu.write_addr(data), ..self }, Ok(()))
        } else if port == 7 {
            (
                BusState { ppu: self.ppu.write_data(data), ..self },
                match self.ppu.data_fault() {
                    Some(fault) => Err(fault),
                    None => Ok(()),
                },
            )
        } else {
            (self, Ok(()))
        }
    }

    /// The first `n` reads of a sprite DMA from page `page`: the bus after
    /// them and the bytes read at `page * 256`, `page * 256 + 1` and so on,
    /// or the first fault, at which reading stops.
    pub open spec fn dma_gather(self, page: u8, n: nat) -> (BusState, Result<Seq<u8>, Fault>)
        decreases n,
    {
        if n == 0 {
            (self, Ok(Seq::<u8>::empty()))
        } else {
            let (before, gathered) = self.dma_gather(page, (n - 1) as nat);
            match gathered {
                Err(fault) => (before, Err(fault)),
                Ok(bytes) => {
                    let (after, byte) = before.read((page * 256 + (n - 1)) as u16);
                    match byte {
                        Err(fault) => (after, Err(fault)),
                        Ok(b) => (after, Ok(bytes.push(b))),
                    }
                },
            }
        }
    }

    /// A sprite DMA from page `page`: 256 reads through the bus, then the
    /// bytes go to sprite memory from the sprite address on, and the cycle
    /// counter moves on by the 513 cycles that this costs. The
    /// picture-processing unit is not advanced: only a tick does that. A
    /// faulting read ends the DMA with sprite memory and cycle counter
    /// untouched.
    pub open spec fn oam_dma(self, page: u8) -> (BusState, Result<(), Fault>) {
        let (after, gathered) = self.dma_gather(page, 256);
        match gathered {
            Err(fault) => (after, Err(fault)),
            Ok(bytes) => (
                BusState {
                    ppu: after.ppu.write_oam_dma(bytes),
                    cycles: after.cycles.wrapping_add(513),
                    ..after
                },
                Ok(()),
            ),
        }
    }

    /// A write of `data` at `addr`: the bus afterwards and whether the
    /// write was fatal. `$4014` starts a sprite DMA, `$4016` sets the
    /// controller's strobe, the sound registers and `$6000..=$7FFF` ignore
    /// writes, nothing answers in `$4018..=$5FFF`, and program memory takes
    /// a write only where the cartridge makes it writable.
    pub open spec fn write(self, addr: u16, data: u8) -> (BusState, Result<(), Fault>) {
        if addr < 0x2000 {
            (BusState { ram: self.ram.update((addr % 0x0800) as int, data), ..self }, Ok(()))
        } else if addr < 0x4000 {
            self.write_port((addr % 8) as int, data)
        } else if addr == 0x4014 {
            self.oam_dma(data)
        } else if addr == 0x4016 {
            (BusState { joypad: self.joypad.after_write(data), ..self }, Ok(()))
        } else if addr < 0x4018 {
            (self, Ok(()))
        } else if addr < 0x6000 {
            (self, Err(Fault::Unmapped { addr }))
        } else if addr < 0x8000 {
            (self, Ok(()))
        } else if !self.prg_writable {
            (self, Err(Fault::ReadOnly { addr }))
        } else {
            match self.prg_index(addr) {
                Some(index) => (BusState { prg: self.prg.update(index, data), ..self }, Ok(())),
                None => (self, Err(Fault::Unmapped { addr })),
            }
        }
    }

    /// A little-endian 16-bit read: the low byte at `pos`, then the high
    /// byte at the address after it. The first fault ends it.
    pub open spec fn read_u16(self, pos: u16) -> (BusState, Result<u16, Fault>) {
        let (s1, lo) = self.read(pos);
        match lo {
            Err(fault) => (s1, Err(fault)),
            Ok(lo) => {
                let (s2, hi) = s1.read(pos.wrapping_add(1));
                match hi {
                    Err(fault) => (s2, Err(fault)),
                    Ok(hi) => (s2, Ok(((hi as u16) << 8) | (lo as u16))),
                }
            },
        }
    }

    /// A little-endian 16-bit write: the low byte at `pos`, then the high
    /// byte at the address after it. The first fault ends it.
    pub open spec fn write_u16(self, pos: u16, data: u16) -> (BusState, Result<(), Fault>) {
        let (s1, first) = self.write(pos, (data & 0xff) as u8);
        match first {
            Err(fault) => (s1, Err(fault)),
            Ok(_) => s1.write(pos.wrapping_add(1), (data >> 8) as u8),
        }
    }

    /// After a tick of `cycles` processor cycles: the cycle counter has
    /// moved on by them and the picture-processing unit has run three dots
    /// for each.
    pub open spec fn tick(self, cycles: u8) -> BusState {
        BusState {
            cycles: self.cycles.wrapping_add(cycles as usize),
            ppu: self.ppu.tick(3 * cycles as nat),
            ..self
        }
    }

    /// Whether a tick of `cycles` raises the vertical-blank interrupt: none
    /// is pending before it and one is after it. That is the moment a
    /// frame is ready to be shown.
    pub open spec fn frame_ready(self, cycles: u8) -> bool {
        self.ppu.nmi is None && self.tick(cycles).ppu.nmi is Some
    }

    /// With the pending interrupt taken.
    pub open spec fn take_nmi(self) -> BusState {
        BusState { ppu: PpuState { nmi: None, ..self.ppu }, ..self }
    }
}

impl Bus {
    pub open spec fn wf(&self) -> bool {
        self@.wf()
    }

    /// Whether the bus is in a state that its operations keep: this can
    /// only fail after a field was assigned to from outside.
    pub fn is_wf(&self) -> (ok: bool)
        ensures
            ok == self.wf(),
    {
        self.cpu_vram.len() == 2048 && self.ppu.is_wf()
    }

    /// A bus around the cartridge `rom`, with cleared work RAM. A cartridge
    /// without pattern memory gets 8 KiB of pattern RAM.
    pub fn new(rom: ROM) -> (bus: Bus)
        ensures
            bus.wf(),
            bus@ == BusState::power_on(
                rom.prg_rom@,
                rom.prg_writable,
                rom.chr_rom@,
                rom.mapper,
                rom.screen_mirroring,
            ),
    {
        let ppu = if rom.chr_rom.len() == 0 {
            NesPPU::new_chr_ram(rom.to_PPUMirroring())
        } else {
            NesPPU::new(rom.chr_rom.clone(), rom.to_PPUMirroring())
        };
        let bus = Bus {
            cpu_vram: vec![0u8; 2048],
            rom,
            ppu,
            joypad: Joypad::new(),
            cycles: 0,
        };
        assert(bus@.ram =~= Seq::new(2048, |i: int| 0u8));
        bus
    }

    /// The byte of program memory at cartridge address `addr`.
    pub fn read_prg_rom(&self, addr: u16) -> (r: Result<u8, Fault>)
        ensures
            r == match self@.prg_index(addr) {
                Some(index) => Ok::<u8, Fault>(self@.prg[index]),
                None => Err(Fault::Unmapped { addr }),
            },
    {
        if addr < 0x8000 {
            return Err(Fault::Unmapped { addr });
        }
        let mut index: u16 = addr - 0x8000;
        if self.rom.prg_rom.len() == 0x4000 && index >= 0x4000 {
            index = index % 0x4000;
        }
        if (index as usize) < self.rom.prg_rom.len() {
            Ok(self.rom.prg_rom[index as usize])
        } else {
            Err(Fault::Unmapped { addr })
        }
    }

    pub fn mem_read(&mut self, addr: u16) -> (r: Result<u8, Fault>)
        requires
            old(self).wf(),
        ensures
            final(self).wf(),
            final(self)@ == old(self)@.read(addr).0,
            r == old(self)@.read(addr).1,
    {
        if addr <= RAM_MIRRORS_END {
            let mirror_down_addr: u16 = addr & 0x07ff;
            assert(mirror_down_addr == addr % 0x0800) by (bit_vector)
                requires
                    mirror_down_addr == addr & 0x07ff,
            ;
            Ok(self.cpu_vram[mirror_down_addr as usize])
        } else if addr <= PPU_REGISTERS_MIRRORS_END {
            let port: u16 = addr & 0x0007;
            assert(port == addr % 8) by (bit_vector)
                requires
                    port == addr & 0x0007,
            ;
            if port == 0 {
                Ok(self.ppu.control_reg.bits())
            } else if port == 2 {
                Ok(self.ppu.read_status())
            } else if port == 4 {
                Ok(self.ppu.read_oam_data())
            } else if port == 7 {
                self.ppu.read_data()
            } else {
                Ok(0)
            }
        } else if addr == 0x4016 {
            Ok(self.joypad.read())
        } else if addr < 0x4018 {
            Ok(0)
        } else if addr < 0x6000 {
            Err(Fault::Unmapped { addr })
        } else if addr < 0x8000 {
            Ok(0)
        } else {
            self.read_prg_rom(addr)
        }
    }

    /// Copies 256 bytes from page `page` of the processor's address space
    /// into sprite memory.
    fn oam_dma(&mut self, page: u8) -> (r: Result<(), Fault>)
        requires
            old(self).wf(),
        ensures
            final(self).wf(),
            final(self)@ == old(self)@.oam_dma(page).0,
            r == old(self)@.oam_dma(page).1,
    {
        let ghost start = self@;
        let mut buffer: [u8; 256] = [0u8; 256];
        let hi: u16 = page as u16 * 256;
        let mut i: u16 = 0;
        while i < 256
            invariant
                i <= 256,
                hi == page * 256,
                self.wf(),
                start == old(self)@,
                start.dma_gather(page, i as nat).0 == self@,
                start.dma_gather(page, i as nat).1 is Ok,
                start.dma_gather(page, i as nat).1->Ok_0.len() == i,
                forall|j: int|
                    0 <= j < i ==> #[trigger] buffer@[j] == start.dma_gather(
                        page,
                        i as nat,
                    ).1->Ok_0[j],
            decreases 256 - i,
        {
            let ghost before = self@;
            let byte = self.mem_read(hi + i);
            assert(start.dma_gather(page, (i + 1) as nat) == (
                self@,
                match byte {
                    Ok(b) => Ok::<Seq<u8>, Fault>(start.dma_gather(page, i as nat).1->Ok_0.push(b)),
                    Err(fault) => Err(fault),
                },
            )) by {
                assert(before.read((page * 256 + i) as u16) == (self@, byte));
            }
            match byte {
                Ok(byte) => {
                    buffer[i as usize] = byte;
                },
                Err(fault) => {
                    proof {
                        lemma_dma_fault_stays(start, page, (i + 1) as nat, 256);
                    }
                    return Err(fault);
                },
            }
            i = i + 1;
        }
        assert(buffer@ =~= start.dma_gather(page, 256).1->Ok_0);
        self.ppu.write_to_oam_dma(&buffer);
        self.cycles = self.cycles.wrapping_add(OAM_DMA_CYCLES);
        Ok(())
    }

    pub fn mem_write(&mut self, addr: u16, data: u8) -> (r: Result<(), Fault>)
        requires
            old(self).wf(),
        ensures
            final(self).wf(),
            final(self)@ == old(self)@.write(addr, data).0,
            r == old(self)@.write(addr, data).1,
    {
        if addr <= RAM_MIRRORS_END {
            let mirror_down_addr: u16 = addr & 0x07ff;
            assert(mirror_down_addr == addr % 0x0800) by (bit_vector)
                requires
                    mirror_down_addr == addr & 0x07ff,
            ;
            self.cpu_vram.set(mirror_down_addr as usize, data);
            Ok(())
        } else if addr <= PPU_REGISTERS_MIRRORS_END {
            let port: u16 = addr & 0x0007;
            assert(port == addr % 8) by (bit_vector)
                requires
                    port == addr & 0x0007,
            ;
            if port == 0 {
                self.ppu.write_to_control_reg(data);
                Ok(())
            } else if port == 1 {
                self.ppu.write_to_mask_reg(data);
                Ok(())
            } else if port == 3 {
                self.ppu.write_to_oam_addr(data);
                Ok(())
            } else if port == 4 {
                self.ppu.write_to_oam_data(data);
                Ok(())
            } else if port == 5 {
                self.ppu.write_to_scroll_reg(data);
                Ok(())
            } else if port == 6 {
                self.ppu.write_to_ppu_addr(data);
                Ok(())
            } else if port == 7 {
                self.ppu.write_to_data(data)
            } else {
                Ok(())
            }
        } else if addr == 0x4014 {
            self.oam_dma(data)
        } else if addr == 0x4016 {
            self.joypad.write(data);
            Ok(())
        } else if addr < 0x4018 {
            Ok(())
        } else if addr < 0x6000 {
            Err(Fault::Unmapped { addr })
        } else if addr < 0x8000 {
            Ok(())
        } else if !self.rom.prg_writable {
            Err(Fault::ReadOnly { addr })
        } else {
            let mut index: u16 = addr - 0x8000;
            if self.rom.prg_rom.len() == 0x4000 && index >= 0x4000 {
                index = index % 0x4000;
            }
            if (index as usize) < self.rom.prg_rom.len() {
                self.rom.prg_rom.set(index as usize, data);
                Ok(())
            } else {
                Err(Fault::Unmapped { addr })
            }
        }
    }

    pub fn mem_read_u16(&mut self, pos: u16) -> (r: Result<u16, Fault>)
        requires
            old(self).wf(),
        ensures
            final(self).wf(),
            final(self)@ == old(self)@.read_u16(pos).0,
            r == old(self)@.read_u16(pos).1,
    {
        let lo = match self.mem_read(pos) {
            Ok(lo) => lo,
            Err(fault) => {
                return Err(fault);
            },
        };
        let hi = match self.mem_read(pos.wrapping_add(1)) {
            Ok(hi) => hi,
            Err(fault) => {
                return Err(fault);
            },
        };
        Ok(((hi as u16) << 8) | (lo as u16))
    }

    pub fn mem_write_u16(&mut self, pos: u16, data: u16) -> (r: Result<(), Fault>)
        requires
            old(self).wf(),
        ensures
            final(self).wf(),
            final(self)@ == old(self)@.write_u16(pos, data).0,
            r == old(self)@.write_u16(pos, data).1,
    {
        let hi_bits: u8 = (data >> 8) as u8;
        let lo_bits: u8 = (data & 0xff) as u8;
        match self.mem_write(pos, lo_bits) {
            Ok(_) => {},
            Err(fault) => {
                return Err(fault);
            },
        }
        self.mem_write(pos.wrapping_add(1), hi_bits)
    }

    /// Accounts for `cycles` processor cycles, runs the picture-processing
    /// unit for three dots each, and tells whether a frame became ready to
    /// be shown.
    pub fn tick(&mut self, cycles: u8) -> (frame_ready: bool)
        requires
            old(self).wf(),
        ensures
            final(self).wf(),
            final(self)@ == old(self)@.tick(cycles),
            frame_ready == old(self)@.frame_ready(cycles),
    {
        self.cycles = self.cycles.wrapping_add(cycles as usize);
        let nmi_before = self.ppu.nmi_interrupt.is_some();
        self.ppu.tick(cycles as u16 * 3);
        let nmi_after = self.ppu.nmi_interrupt.is_some();
        !nmi_before && nmi_after
    }

    /// Takes the pending interrupt, if there is one.
    pub fn poll_nmi_status(&mut self) -> (nmi: Option<u8>)
        ensures
            nmi == old(self)@.ppu.nmi,
            final(self)@ == old(self)@.take_nmi(),
            old(self).wf() ==> final(self).wf(),
    {
        self.ppu.nmi_interrupt.take()
    }
}

/// Once a read of a sprite DMA has faulted, reading on changes nothing.
proof fn lemma_dma_fault_stays(s: BusState, page: u8, n: nat, m: nat)
    requires
        n <= m,
        s.dma_gather(page, n).1 is Err,
    ensures
        s.dma_gather(page, m) == s.dma_gather(page, n),
    decreases m,
{
    if n < m {
        lemma_dma_fault_stays(s, page, n, (m - 1) as nat);
    }
}

/// The ports of the picture-processing unit repeat every 8 bytes: a read
/// or a write anywhere in `$2008..=$3FFF` is the same read or write at the
/// port in `$2000..=$2007` with the same offset.
pub proof fn lemma_ppu_ports_mirror(s: BusState, addr: u16, data: u8)
    requires
        0x2008 <= addr <= 0x3fff,
    ensures
        s.read(addr) == s.read((0x2000 + addr % 8) as u16),
        s.write(addr, data) == s.write((0x2000 + addr % 8) as u16, data),
{
}

/// Work RAM repeats every `$0800` bytes: a read or a write anywhere in
/// `$0000..=$1FFF` is the same read or write at the address modulo
/// `$0800`.
pub proof fn lemma_ram_mirrors(s: BusState, addr: u16, data: u8)
    requires
        addr <= 0x1fff,
    ensures
        s.read(addr) == s.read((addr % 0x0800) as u16),
        s.write(addr, data) == s.write((addr % 0x0800) as u16, data),
{
}


/// A frame becomes ready exactly when a tick passes the start of vertical
/// blanking while the interrupt is enabled and none is pending: once in
/// each frame of 262 scanlines.
pub proof fn lemma_frame_ready_at_vblank(s: BusState, cycles: u8)
    requires
        s.wf(),
    ensures
        s.frame_ready(cycles) <==> s.ppu.nmi is None && s.ppu.control.nmi_enabled()
            && crate::ppu::passes_vblank_start(
            s.ppu.frame_position(),
            3 * cycles as int,
        ),
{
    if s.ppu.nmi is None {
        crate::ppu::lemma_tick_raises_nmi_at_vblank(s.ppu, 3 * cycles as nat);
    }
}

/// A tick of `n` cycles moves the cycle counter on by exactly `n`, modulo
/// its width, and the picture-processing unit by exactly `3 * n` dots
/// within its frame, and touches nothing else.
pub proof fn lemma_tick_is_three_dots_a_cycle(s: BusState, cycles: u8)
    requires
        s.wf(),
    ensures
        s.tick(cycles).cycles == if s.cycles + cycles <= usize::MAX {
            s.cycles + cycles
        } else {
            s.cycles + cycles - usize::MAX - 1
        },
        s.tick(cycles).ppu.frame_position() == (s.ppu.frame_position() + 3 * cycles) % 89342,
        s.tick(cycles) == (BusState {
            cycles: s.tick(cycles).cycles,
            ppu: s.ppu.tick(3 * cycles as nat),
            ..s
        }),
        s.tick(cycles).wf(),
{
    crate::ppu::lemma_tick_position(s.ppu, 3 * cycles as nat);
}

/// Reading the status port, at `$2002` or any of its mirrors, returns the
/// status byte and clears the vertical-blank bit and the write toggle
/// shared by the address and scroll ports.
pub proof fn lemma_status_port_read(s: BusState, addr: u16)
    requires
        0x2000 <= addr <= 0x3fff,
        addr % 8 == 2,
    ensures
        s.read(addr).1 == Ok::<u8, Fault>(s.ppu.status.bits),
        s.read(addr).0.ppu.addr.hi_ptr,
        !s.read(addr).0.ppu.scroll.latch,
        !s.read(addr).0.ppu.status.in_vblank(),
        s.read(addr).0.ppu.status.has(0x40) == s.ppu.status.has(0x40),
        s.read(addr).0.ppu.status.has(0x20) == s.ppu.status.has(0x20),
{
    crate::ppu::lemma_read_status_clears(s.ppu);
}


/// The 256 bytes of page `page` of work RAM and its mirrors.
pub open spec fn ram_page(s: BusState, page: u8) -> Seq<u8> {
    Seq::new(256, |i: int| s.ram[(page * 256 + i) % 0x0800])
}

/// Gathering a sprite DMA from work RAM reads the page and changes
/// nothing.
proof fn lemma_dma_gather_from_ram(s: BusState, page: u8, n: nat)
    requires
        s.wf(),
        page < 0x20,
        n <= 256,
    ensures
        s.dma_gather(page, n).0 == s,
        s.dma_gather(page, n).1 == Ok::<Seq<u8>, Fault>(ram_page(s, page).subrange(0, n as int)),
    decreases n,
{
    if n > 0 {
        lemma_dma_gather_from_ram(s, page, (n - 1) as nat);
        let before = ram_page(s, page).subrange(0, n - 1);
        assert(before.push(s.ram[(page * 256 + (n - 1)) % 0x0800]) =~= ram_page(
            s,
            page,
        ).subrange(0, n as int));
    } else {
        assert(Seq::<u8>::empty() =~= ram_page(s, page).subrange(0, 0));
    }
}

/// A sprite DMA from a page of work RAM never faults: afterwards sprite
/// byte `i` places past the sprite address, wrapping after 255, is byte
/// `i` of the page, the cycle counter is 513 cycles on, modulo its width,
/// and nothing else has changed.
pub proof fn lemma_oam_dma_from_ram(s: BusState, page: u8, i: int)
    requires
        s.wf(),
        page < 0x20,
        0 <= i < 256,
    ensures
        s.write(0x4014, page).1 is Ok,
        s.write(0x4014, page).0 == (BusState {
            ppu: s.ppu.write_oam_dma(ram_page(s, page)),
            cycles: s.cycles.wrapping_add(513),
            ..s
        }),
        s.write(0x4014, page).0.cycles == if s.cycles + 513 <= usize::MAX {
            s.cycles + 513
        } else {
            s.cycles + 513 - usize::MAX - 1
        },
        s.write(0x4014, page).0.ppu.oam[(s.ppu.oam_addr + i) % 256] == s.ram[(page * 256 + i)
            % 0x0800],
        s.write(0x4014, page).0.ppu.oam_addr == s.ppu.oam_addr,
{
    lemma_dma_gather_from_ram(s, page, 256);
    assert(ram_page(s, page).subrange(0, 256) =~= ram_page(s, page));
    let j = (s.ppu.oam_addr + i) % 256;
    assert((j - s.ppu.oam_addr + 256) % 256 == i);
}


/// A read changes nothing of the cartridge.
pub proof fn lemma_read_keeps_cartridge(s: BusState, addr: u16)
    ensures
        s.read(addr).0.prg == s.prg,
        s.read(addr).0.prg_writable == s.prg_writable,
        s.read(addr).0.cartridge_chr == s.cartridge_chr,
        s.read(addr).0.mapper == s.mapper,
        s.read(addr).0.screen_mirroring == s.screen_mirroring,
{
}

/// The reads of a sprite DMA change nothing of the cartridge.
proof fn lemma_dma_gather_keeps_cartridge(s: BusState, page: u8, n: nat)
    ensures
        s.dma_gather(page, n).0.prg == s.prg,
        s.dma_gather(page, n).0.prg_writable == s.prg_writable,
        s.dma_gather(page, n).0.cartridge_chr == s.cartridge_chr,
        s.dma_gather(page, n).0.mapper == s.mapper,
        s.dma_gather(page, n).0.screen_mirroring == s.screen_mirroring,
    decreases n,
{
    if n > 0 {
        lemma_dma_gather_keeps_cartridge(s, page, (n - 1) as nat);
        lemma_read_keeps_cartridge(
            s.dma_gather(page, (n - 1) as nat).0,
            (page * 256 + (n - 1)) as u16,
        );
    }
}

/// Program ROM is read-only. On a cartridge whose program memory is not
/// writable, a write at `$8000` or above fails with `ReadOnly` and leaves
/// the bus as it was, and no write anywhere, sprite DMA included, changes
/// program memory: a read at `$8000` or above returns after it what it
/// returned before.
pub proof fn lemma_prg_rom_is_read_only(s: BusState, addr: u16, data: u8, at: u16)
    requires
        !s.prg_writable,
        at >= 0x8000,
    ensures
        addr >= 0x8000 ==> s.write(addr, data) == (s, Err::<(), Fault>(Fault::ReadOnly { addr })),
        s.write(addr, data).0.prg == s.prg,
        !s.write(addr, data).0.prg_writable,
        s.write(addr, data).0.read(at).1 == s.read(at).1,
{
    lemma_dma_gather_keeps_cartridge(s, data, 256);
}

/// Neither a read nor a tick changes program memory: a read at `$8000` or
/// above returns after them what it returned before.
pub proof fn lemma_prg_reads_are_stable(s: BusState, addr: u16, cycles: u8, at: u16)
    requires
        at >= 0x8000,
    ensures
        s.read(addr).0.read(at).1 == s.read(at).1,
        s.tick(cycles).read(at).1 == s.read(at).1,
        s.take_nmi().read(at).1 == s.read(at).1,
{
}

} // verus!
