//! The picture-processing unit: video memory, the registers behind its
//! eight ports, and the scanline counter that raises the vertical-blank
//! interrupt.

pub mod mask_register;
pub mod register;

use crate::fault::Fault;
use crate::ppu::mask_register::MaskRegister;
use crate::ppu::register::addr_register::AddrRegister;
use crate::ppu::register::control_register::ControlRegister;
use crate::ppu::register::scroll_register::ScrollRegister;
use crate::ppu::register::status_register::StatusRegister;
use vstd::prelude::*;

verus! {

/// Dots in one scanline.
pub const PPU_CYCLE_PER_SCAN_LINE: usize = 341;

/// The scanline at whose second dot vertical blanking starts.
pub const PPU_START_VBLANK: u16 = 241;

/// The pre-render scanline, at whose second dot the status flags clear.
pub const PPU_PRE_RENDER: u16 = 261;

/// Scanlines in one frame.
pub const PPU_MAX_SCANLINE: u16 = 262;

/// How the cartridge wires the four logical nametables onto the two
/// physical ones.
#[derive(Clone, Copy, Debug, PartialEq, Eq, Structural)]
pub enum PPUMirroring {
    Horizontal,
    Vertical,
    FourScreen,
}

impl PPUMirroring {
    /// The physical nametable (0 or 1) behind logical nametable `table`.
    /// Four-screen wiring is not emulated and behaves as vertical.
    pub open spec fn physical_table(self, table: int) -> int {
        match self {
            PPUMirroring::Horizontal => if table == 0 || table == 1 {
                0
            } else {
                1
            },
            _ => if table == 0 || table == 2 {
                0
            } else {
                1
            },
        }
    }

    /// The index into the 2 KiB of nametable memory that video address
    /// `addr` resolves to. Only the low twelve bits of `addr` count, so the
    /// range `$3000..$3EFF` lands where `$2000..$2EFF` does.
    pub open spec fn resolve(self, addr: u16) -> int {
        let index = (addr & 0x0fff) as int;
        self.physical_table(index / 0x400) * 0x400 + index % 0x400
    }
}

pub struct NesPPU {
    /// The pattern tables of the cartridge.
    pub chr_rom: Vec<u8>,
    /// Whether the pattern tables are RAM that the data port can write.
    pub chr_writable: bool,
    /// The 32 palette entries.
    pub palette_table: Vec<u8>,
    /// The two physical nametables.
    pub vram: Vec<u8>,
    /// 64 sprites of four bytes: y, tile, attributes, x.
    pub oam_data: Vec<u8>,
    pub oam_addr: u8,
    pub mirroring: PPUMirroring,
    pub control_reg: ControlRegister,
    pub mask_reg: MaskRegister,
    pub status_reg: StatusRegister,
    pub scroll_register: ScrollRegister,
    pub addr_reg: AddrRegister,
    /// The dot within the scanline.
    pub cycles: usize,
    pub scanlines: u16,
    pub internal_data_buf: u8,
    /// The interrupt raised and not yet taken.
    pub nmi_interrupt: Option<u8>,
}

/// The state of the unit as plain values.
#[verifier::ext_equal]
pub struct PpuState {
    pub chr: Seq<u8>,
    pub chr_writable: bool,
    pub palette: Seq<u8>,
    pub vram: Seq<u8>,
    pub oam: Seq<u8>,
    pub oam_addr: u8,
    pub mirroring: PPUMirroring,
    pub control: ControlRegister,
    pub mask: MaskRegister,
    pub status: StatusRegister,
    pub scroll: ScrollRegister,
    pub addr: AddrRegister,
    pub dot: int,
    pub scanline: int,
    pub buffer: u8,
    pub nmi: Option<u8>,
}

impl View for NesPPU {
    type V = PpuState;

    open spec fn view(&self) -> PpuState {
        PpuState {
            chr: self.chr_rom@,
            chr_writable: self.chr_writable,
            palette: self.palette_table@,
            vram: self.vram@,
            oam: self.oam_data@,
            oam_addr: self.oam_addr,
            mirroring: self.mirroring,
            control: self.control_reg,
            mask: self.mask_reg,
            status: self.status_reg,
            scroll: self.scroll_register,
            addr: self.addr_reg,
            dot: self.cycles as int,
            scanline: self.scanlines as int,
            buffer: self.internal_data_buf,
            nmi: self.nmi_interrupt,
        }
    }
}

/// The palette entry behind video address `addr` in `$3F00..=$3F1F`: the
/// entries `$10`, `$14`, `$18` and `$1C` are those at `$00`, `$04`, `$08`
/// and `$0C`.
pub open spec fn palette_index(addr: u16) -> int {
    let index = addr - 0x3f00;
    if index == 0x10 || index == 0x14 || index == 0x18 || index == 0x1c {
        index - 0x10
    } else {
        index
    }
}

impl PpuState {
    /// The memories have their sizes, the counters are in range, the
    /// address fits video memory, and the address and scroll ports share
    /// one write toggle.
    pub open spec fn wf(self) -> bool {
        &&& self.palette.len() == 32
        &&& self.vram.len() == 2048
        &&& self.oam.len() == 256
        &&& self.addr.wf()
        &&& self.addr.hi_ptr == !self.scroll.latch
        &&& 0 <= self.dot < 341
        &&& 0 <= self.scanline < 262
    }

    /// The unit as it is when power comes on.
    pub open spec fn power_on(chr: Seq<u8>, chr_writable: bool, mirroring: PPUMirroring) -> PpuState {
        PpuState {
            chr,
            chr_writable,
            palette: Seq::new(32, |i: int| 0u8),
            vram: Seq::new(2048, |i: int| 0u8),
            oam: Seq::new(256, |i: int| 0u8),
            oam_addr: 0,
            mirroring,
            control: ControlRegister { bits: 0 },
            mask: MaskRegister { bits: 0 },
            status: StatusRegister { bits: 0 },
            scroll: ScrollRegister {
                scroll_x: 0,
                scroll_y: 0,
                latch: false,
                fine_scroll_x: 0,
                fine_scroll_y: 0,
            },
            addr: AddrRegister { value: (0, 0), hi_ptr: true },
            dot: 0,
            scanline: 0,
            buffer: 0,
            nmi: None,
        }
    }

    /// The byte of the pattern tables at `index`, 0 past their end.
    pub open spec fn chr_byte(self, index: int) -> u8 {
        if 0 <= index < self.chr.len() {
            self.chr[index]
        } else {
            0
        }
    }

    /// After a write to the control port: the byte is stored, and turning
    /// the interrupt on while vertical blanking is reported raises it at
    /// once.
    pub open spec fn write_control(self, value: u8) -> PpuState {
        let control = ControlRegister { bits: value };
        let raise = !self.control.nmi_enabled() && control.nmi_enabled()
            && self.status.in_vblank();
        PpuState { control, nmi: if raise { Some(1u8) } else { self.nmi }, ..self }
    }

    pub open spec fn write_mask(self, value: u8) -> PpuState {
        PpuState { mask: MaskRegister { bits: value }, ..self }
    }

    pub open spec fn write_oam_addr(self, value: u8) -> PpuState {
        PpuState { oam_addr: value, ..self }
    }

    /// After a write to the sprite data port: the byte lands at the sprite
    /// address, which then moves on by one, wrapping after 255.
    pub open spec fn write_oam_data(self, value: u8) -> PpuState {
        PpuState {
            oam: self.oam.update(self.oam_addr as int, value),
            oam_addr: ((self.oam_addr + 1) % 256) as u8,
            ..self
        }
    }

    /// After a write to the scroll port, which flips the shared toggle.
    pub open spec fn write_scroll(self, value: u8) -> PpuState {
        let scroll = self.scroll.after_write(value);
        PpuState { scroll, addr: AddrRegister { hi_ptr: !scroll.latch, ..self.addr }, ..self }
    }

    /// After a write to the address port, which flips the shared toggle.
    pub open spec fn write_addr(self, value: u8) -> PpuState {
        let addr = self.addr.after_update(value);
        PpuState { addr, scroll: ScrollRegister { latch: !addr.hi_ptr, ..self.scroll }, ..self }
    }

    /// With the video address moved on by 1 or 32, as the control register
    /// says.
    pub open spec fn advance_addr(self) -> PpuState {
        PpuState { addr: self.addr.after_increment(self.control.vram_increment()), ..self }
    }

    /// Whether an access through the data port at the current video
    /// address is fatal: the address lies past the palette entries.
    pub open spec fn data_fault(self) -> Option<Fault> {
        let addr = self.addr.addr();
        if addr >= 0x3f20 {
            Some(Fault::Palette { addr })
        } else {
            None
        }
    }

    /// After a write to the data port. Pattern memory takes the byte only
    /// when it is RAM, nametable memory takes it where the mirroring puts
    /// the address, and the palette takes it at its entry. The address
    /// then moves on; a fatal write changes nothing.
    pub open spec fn write_data(self, value: u8) -> PpuState {
        let addr = self.addr.addr();
        if self.data_fault() is Some {
            self
        } else if addr < 0x2000 {
            if self.chr_writable && addr < self.chr.len() {
                PpuState { chr: self.chr.update(addr as int, value), ..self }.advance_addr()
            } else {
                self.advance_addr()
            }
        } else if addr < 0x3f00 {
            PpuState {
                vram: self.vram.update(self.mirroring.resolve(addr), value),
                ..self
            }.advance_addr()
        } else {
            PpuState {
                palette: self.palette.update(palette_index(addr), value),
                ..self
            }.advance_addr()
        }
    }

    /// What a read of the data port returns: below the palette the byte
    /// buffered by the read before it, in the palette the entry itself.
    pub open spec fn read_data_value(self) -> u8 {
        let addr = self.addr.addr();
        if addr < 0x3f00 {
            self.buffer
        } else if addr < 0x3f20 {
            self.palette[palette_index(addr)]
        } else {
            0
        }
    }

    /// After a read of the data port: the address has moved on, and below
    /// the palette the buffer holds the byte at the address read.
    pub open spec fn read_data(self) -> PpuState {
        let addr = self.addr.addr();
        let next = self.advance_addr();
        if addr < 0x2000 {
            PpuState { buffer: self.chr_byte(addr as int), ..next }
        } else if addr < 0x3f00 {
            PpuState { buffer: self.vram[self.mirroring.resolve(addr)], ..next }
        } else {
            next
        }
    }

    /// After a read of the status port: the vertical-blank bit and the
    /// shared write toggle are cleared, the sprite bits stay.
    pub open spec fn read_status(self) -> PpuState {
        PpuState {
            status: self.status.assign(0x80, false),
            addr: AddrRegister { hi_ptr: true, ..self.addr },
            scroll: ScrollRegister { latch: false, ..self.scroll },
            ..self
        }
    }

    /// After a sprite DMA of the 256 bytes `page`: byte `i` lands at the
    /// sprite address plus `i`, wrapping after 255, and the sprite address
    /// ends where it started.
    pub open spec fn write_oam_dma(self, page: Seq<u8>) -> PpuState {
        PpuState {
            oam: Seq::new(256, |j: int| page[(j - self.oam_addr + 256) % 256]),
            ..self
        }
    }

    /// After one dot. The dot counter wraps after 341 dots into the next
    /// scanline, and the scanline after 262 into the next frame. Reaching
    /// dot 1 of scanline 241 starts vertical blanking and raises the
    /// interrupt if the control register enables it; reaching dot 1 of
    /// scanline 261 clears vertical blank, sprite-0 hit, sprite overflow
    /// and a pending interrupt.
    pub open spec fn dot_step(self) -> PpuState {
        let wrap = self.dot + 1 == 341;
        let dot = if wrap { 0 } else { self.dot + 1 };
        let scanline = if !wrap {
            self.scanline
        } else if self.scanline + 1 == 262 {
            0
        } else {
            self.scanline + 1
        };
        if dot == 1 && scanline == 241 {
            PpuState {
                dot,
                scanline,
                status: self.status.assign(0x80, true),
                nmi: if self.control.nmi_enabled() { Some(1u8) } else { self.nmi },
                ..self
            }
        } else if dot == 1 && scanline == 261 {
            PpuState {
                dot,
                scanline,
                status: self.status.assign(0x80, false).assign(0x40, false).assign(0x20, false),
                nmi: None,
                ..self
            }
        } else {
            PpuState { dot, scanline, ..self }
        }
    }

    /// After `n` dots.
    pub open spec fn tick(self, n: nat) -> PpuState
        decreases n,
    {
        if n == 0 {
            self
        } else {
            self.tick((n - 1) as nat).dot_step()
        }
    }

    /// How many dots into its frame the unit is.
    pub open spec fn frame_position(self) -> int {
        self.scanline * 341 + self.dot
    }
}

impl NesPPU {
    pub open spec fn wf(&self) -> bool {
        self@.wf()
    }

    /// Whether the unit is in a state that its operations keep: this can
    /// only fail after a field was assigned to from outside.
    pub fn is_wf(&self) -> (ok: bool)
        ensures
            ok == self.wf(),
    {
        self.palette_table.len() == 32 && self.vram.len() == 2048 && self.oam_data.len() == 256
            && self.addr_reg.value.0 <= 0x3f && self.addr_reg.hi_ptr
            != self.scroll_register.latch && self.cycles < PPU_CYCLE_PER_SCAN_LINE
            && self.scanlines < PPU_MAX_SCANLINE
    }

    pub fn new(chr_rom: Vec<u8>, mirroring: PPUMirroring) -> (ppu: NesPPU)
        ensures
            ppu@ == PpuState::power_on(chr_rom@, false, mirroring),
            ppu.wf(),
    {
        let ppu = NesPPU {
            chr_rom,
            chr_writable: false,
            mirroring,
            palette_table: vec![0u8; 32],
            vram: vec![0u8; 2048],
            oam_data: vec![0u8; 256],
            oam_addr: 0,
            control_reg: ControlRegister::new(),
            addr_reg: AddrRegister::new(),
            mask_reg: MaskRegister::new(),
            status_reg: StatusRegister::new(),
            scroll_register: ScrollRegister::new(),
            scanlines: 0,
            cycles: 0,
            internal_data_buf: 0,
            nmi_interrupt: None,
        };
        assert(ppu@ =~= PpuState::power_on(chr_rom@, false, mirroring));
        ppu
    }

    /// A unit whose pattern tables are 8 KiB of RAM, for cartridges that
    /// bring none.
    pub fn new_chr_ram(mirroring: PPUMirroring) -> (ppu: NesPPU)
        ensures
            ppu@ == PpuState::power_on(Seq::new(0x2000, |i: int| 0u8), true, mirroring),
            ppu.wf(),
    {
        let mut ppu = NesPPU::new(vec![0u8; 0x2000], mirroring);
        ppu.chr_writable = true;
        assert(ppu@ =~= PpuState::power_on(Seq::new(0x2000, |i: int| 0u8), true, mirroring));
        ppu
    }

    pub fn new_empty_rom() -> (ppu: NesPPU)
        ensures
            ppu@ == PpuState::power_on(
                Seq::new(2048, |i: int| 0u8),
                false,
                PPUMirroring::Horizontal,
            ),
            ppu.wf(),
    {
        let ppu = NesPPU::new(vec![0u8; 2048], PPUMirroring::Horizontal);
        assert(ppu@ =~= PpuState::power_on(
            Seq::new(2048, |i: int| 0u8),
            false,
            PPUMirroring::Horizontal,
        ));
        ppu
    }

    /// The byte of the pattern tables at `index`, 0 past their end.
    pub fn chr_at(&self, index: usize) -> (byte: u8)
        ensures
            byte == self@.chr_byte(index as int),
    {
        if index < self.chr_rom.len() {
            self.chr_rom[index]
        } else {
            0
        }
    }

    pub fn increment_vram_addr(&mut self)
        ensures
            final(self)@ == old(self)@.advance_addr(),
            old(self).wf() ==> final(self).wf(),
    {
        self.addr_reg.increment(self.control_reg.get_vram_addr_increment_value());
    }

    pub fn get_mirror_vram_addr(&self, addr: u16) -> (index: u16)
        ensures
            index == self.mirroring.resolve(addr),
            index < 2048,
    {
        let vram_index: u16 = addr & 0x0fff;
        assert(vram_index <= 0x0fff) by (bit_vector)
            requires
                vram_index == addr & 0x0fff,
        ;
        let name_table_index: u16 = vram_index / 0x400;
        match (self.mirroring, name_table_index) {
            (PPUMirroring::Horizontal, 1) | (PPUMirroring::Horizontal, 2) => vram_index - 0x400,
            (PPUMirroring::Horizontal, 3) => vram_index - 0x800,
            (PPUMirroring::Horizontal, _) => vram_index,
            (_, 2) | (_, 3) => vram_index - 0x800,
            _ => vram_index,
        }
    }
}


impl NesPPU {
    pub fn write_to_control_reg(&mut self, value: u8)
        ensures
            final(self)@ == old(self)@.write_control(value),
            old(self).wf() ==> final(self).wf(),
    {
        let before_nmi_status = self.control_reg.is_generate_vblank_nmi_on();
        self.control_reg.update(value);
        if !before_nmi_status && self.control_reg.is_generate_vblank_nmi_on()
            && self.status_reg.is_in_vblank() {
            self.nmi_interrupt = Some(1);
        }
    }

    pub fn write_to_mask_reg(&mut self, value: u8)
        ensures
            final(self)@ == old(self)@.write_mask(value),
            old(self).wf() ==> final(self).wf(),
    {
        self.mask_reg.update(value);
    }

    pub fn write_to_oam_addr(&mut self, value: u8)
        ensures
            final(self)@ == old(self)@.write_oam_addr(value),
            old(self).wf() ==> final(self).wf(),
    {
        self.oam_addr = value;
    }

    pub fn write_to_oam_data(&mut self, value: u8)
        requires
            old(self).wf(),
        ensures
            final(self)@ == old(self)@.write_oam_data(value),
            final(self).wf(),
    {
        self.oam_data.set(self.oam_addr as usize, value);
        self.oam_addr = self.oam_addr.wrapping_add(1);
    }

    pub fn write_to_scroll_reg(&mut self, value: u8)
        ensures
            final(self)@ == old(self)@.write_scroll(value),
            old(self).wf() ==> final(self).wf(),
    {
        self.scroll_register.write(value);
        self.addr_reg.hi_ptr = !self.scroll_register.latch;
    }

    pub fn write_to_ppu_addr(&mut self, value: u8)
        ensures
            final(self)@ == old(self)@.write_addr(value),
            old(self).wf() ==> final(self).wf(),
    {
        self.addr_reg.update(value);
        self.scroll_register.latch = !self.addr_reg.hi_ptr;
    }

    pub fn write_to_data(&mut self, value: u8) -> (r: Result<(), Fault>)
        requires
            old(self).wf(),
        ensures
            final(self).wf(),
            final(self)@ == old(self)@.write_data(value),
            r == match old(self)@.data_fault() {
                Some(fault) => Err::<(), Fault>(fault),
                None => Ok(()),
            },
    {
        let addr = self.addr_reg.get_addr();
        if addr >= 0x3f20 {
            return Err(Fault::Palette { addr });
        }
        if addr < 0x2000 {
            if self.chr_writable && (addr as usize) < self.chr_rom.len() {
                self.chr_rom.set(addr as usize, value);
            }
        } else if addr < 0x3f00 {
            let index = self.get_mirror_vram_addr(addr);
            self.vram.set(index as usize, value);
        } else {
            let entry: u16 = addr - 0x3f00;
            if entry == 0x10 || entry == 0x14 || entry == 0x18 || entry == 0x1c {
                self.palette_table.set((entry - 0x10) as usize, value);
            } else {
                self.palette_table.set(entry as usize, value);
            }
        }
        self.increment_vram_addr();
        Ok(())
    }

    pub fn read_data(&mut self) -> (r: Result<u8, Fault>)
        requires
            old(self).wf(),
        ensures
            final(self).wf(),
            final(self)@ == old(self)@.read_data(),
            r == match old(self)@.data_fault() {
                Some(fault) => Err::<u8, Fault>(fault),
                None => Ok(old(self)@.read_data_value()),
            },
    {
        let addr = self.addr_reg.get_addr();
        self.increment_vram_addr();
        if addr < 0x2000 {
            let result = self.internal_data_buf;
            self.internal_data_buf = if (addr as usize) < self.chr_rom.len() {
                self.chr_rom[addr as usize]
            } else {
                0
            };
            Ok(result)
        } else if addr < 0x3f00 {
            let result = self.internal_data_buf;
            let index = self.get_mirror_vram_addr(addr);
            self.internal_data_buf = self.vram[index as usize];
            Ok(result)
        } else if addr < 0x3f20 {
            let entry: u16 = addr - 0x3f00;
            if entry == 0x10 || entry == 0x14 || entry == 0x18 || entry == 0x1c {
                Ok(self.palette_table[(entry - 0x10) as usize])
            } else {
                Ok(self.palette_table[entry as usize])
            }
        } else {
            Err(Fault::Palette { addr })
        }
    }

    pub fn read_status(&mut self) -> (value: u8)
        ensures
            value == old(self).status_reg.bits,
            final(self)@ == old(self)@.read_status(),
            old(self).wf() ==> final(self).wf(),
    {
        let value = self.status_reg.snapshot();
        self.status_reg.reset_vblank_status();
        self.addr_reg.reset_latch();
        self.scroll_register.reset_latch();
        value
    }

    pub fn read_oam_data(&self) -> (value: u8)
        requires
            self.wf(),
        ensures
            value == self@.oam[self.oam_addr as int],
    {
        self.oam_data[self.oam_addr as usize]
    }

    pub fn write_to_oam_dma(&mut self, value: &[u8; 256])
        requires
            old(self).wf(),
        ensures
            final(self)@ == old(self)@.write_oam_dma(value@),
            final(self).wf(),
    {
        let ghost start = self@;
        let mut i: usize = 0;
        while i < 256
            invariant
                i <= 256,
                self.wf(),
                self.oam_addr as int == (start.oam_addr + i) % 256,
                self@ == (PpuState { oam: self@.oam, oam_addr: self.oam_addr, ..start }),
                forall|j: int|
                    0 <= j < 256 ==> #[trigger] self@.oam[j] == if (j - start.oam_addr + 256) % 256
                        < i {
                        value@[(j - start.oam_addr + 256) % 256]
                    } else {
                        start.oam[j]
                    },
            decreases 256 - i,
        {
            self.oam_data.set(self.oam_addr as usize, value[i]);
            self.oam_addr = self.oam_addr.wrapping_add(1);
            i = i + 1;
        }
        assert(self@.oam =~= start.write_oam_dma(value@).oam);
    }

    /// Advances the unit by `cycles` dots and tells whether a frame was
    /// completed on the way, that is whether the scanline counter wrapped.
    pub fn tick(&mut self, cycles: u16) -> (frame_done: bool)
        requires
            old(self).wf(),
        ensures
            final(self).wf(),
            final(self)@ == old(self)@.tick(cycles as nat),
            frame_done == (old(self)@.frame_position() + cycles >= 262 * 341),
    {
        let ghost start = self@;
        let mut frame_done = false;
        let mut i: u16 = 0;
        while i < cycles
            invariant
                i <= cycles,
                self.wf(),
                self@ == start.tick(i as nat),
                start.wf(),
                frame_done == (start.frame_position() + i >= 262 * 341),
                self@.frame_position() == if frame_done {
                    start.frame_position() + i - 262 * 341
                } else {
                    start.frame_position() + i
                },
            decreases cycles - i,
        {
            self.cycles = self.cycles + 1;
            if self.cycles == PPU_CYCLE_PER_SCAN_LINE {
                self.cycles = 0;
                self.scanlines = self.scanlines + 1;
                if self.scanlines == PPU_MAX_SCANLINE {
                    self.scanlines = 0;
                    frame_done = true;
                }
            }
            if self.cycles == 1 && self.scanlines == PPU_START_VBLANK {
                self.status_reg.update_vertical_blank_started(true);
                if self.control_reg.is_generate_vblank_nmi_on() {
                    self.nmi_interrupt = Some(1);
                }
            } else if self.cycles == 1 && self.scanlines == PPU_PRE_RENDER {
                self.status_reg.reset_vblank_status();
                self.status_reg.update_sprite_0_hit(false);
                self.status_reg.update_sprite_overflow(false);
                self.nmi_interrupt = None;
            }
            i = i + 1;
        }
        frame_done
    }
}

/// In any state the two addresses of a mirrored palette pair read the same
/// byte through the data port.
pub proof fn lemma_palette_pair_reads_alike(s: PpuState, low: u16)
    requires
        low == 0x3f00 || low == 0x3f04 || low == 0x3f08 || low == 0x3f0c,
    ensures
        (PpuState { addr: s.addr.with_addr(low), ..s }).read_data_value() == (PpuState {
            addr: s.addr.with_addr((low + 0x10) as u16),
            ..s
        }).read_data_value(),
        (PpuState { addr: s.addr.with_addr(low), ..s }).data_fault() is None,
        (PpuState { addr: s.addr.with_addr((low + 0x10) as u16), ..s }).data_fault() is None,
{
    let high: u16 = (low + 0x10) as u16;
    assert(forall|a: u16|
        a <= 0x3fff ==> ((((((a >> 8) & 0x3f) as u8) as u16) << 8) | (((a & 0xff) as u8) as u16))
            == a) by (bit_vector);
    assert(s.addr.with_addr(low).addr() == low);
    assert(s.addr.with_addr(high).addr() == high);
}

/// The operations behind the eight ports, as the bus needs them.
pub trait PPU {
    /// The unit as plain values.
    spec fn ppu_state(&self) -> PpuState;

    fn write_to_control_reg(&mut self, value: u8)
        requires
            old(self).ppu_state().wf(),
        ensures
            final(self).ppu_state().wf(),
            final(self).ppu_state() == old(self).ppu_state().write_control(value),
    ;

    fn write_to_mask_reg(&mut self, value: u8)
        requires
            old(self).ppu_state().wf(),
        ensures
            final(self).ppu_state().wf(),
            final(self).ppu_state() == old(self).ppu_state().write_mask(value),
    ;

    fn write_to_oam_data(&mut self, value: u8)
        requires
            old(self).ppu_state().wf(),
        ensures
            final(self).ppu_state().wf(),
            final(self).ppu_state() == old(self).ppu_state().write_oam_data(value),
    ;

    fn write_to_oam_addr(&mut self, value: u8)
        requires
            old(self).ppu_state().wf(),
        ensures
            final(self).ppu_state().wf(),
            final(self).ppu_state() == old(self).ppu_state().write_oam_addr(value),
    ;

    fn write_to_scroll_reg(&mut self, value: u8)
        requires
            old(self).ppu_state().wf(),
        ensures
            final(self).ppu_state().wf(),
            final(self).ppu_state() == old(self).ppu_state().write_scroll(value),
    ;

    fn write_to_ppu_addr(&mut self, value: u8)
        requires
            old(self).ppu_state().wf(),
        ensures
            final(self).ppu_state().wf(),
            final(self).ppu_state() == old(self).ppu_state().write_addr(value),
    ;

    fn write_to_data(&mut self, value: u8) -> (r: Result<(), Fault>)
        requires
            old(self).ppu_state().wf(),
        ensures
            final(self).ppu_state().wf(),
            final(self).ppu_state() == old(self).ppu_state().write_data(value),
            r == match old(self).ppu_state().data_fault() {
                Some(fault) => Err::<(), Fault>(fault),
                None => Ok(()),
            },
    ;

    fn read_data(&mut self) -> (r: Result<u8, Fault>)
        requires
            old(self).ppu_state().wf(),
        ensures
            final(self).ppu_state().wf(),
            final(self).ppu_state() == old(self).ppu_state().read_data(),
            r == match old(self).ppu_state().data_fault() {
                Some(fault) => Err::<u8, Fault>(fault),
                None => Ok(old(self).ppu_state().read_data_value()),
            },
    ;

    fn read_status(&mut self) -> (value: u8)
        requires
            old(self).ppu_state().wf(),
        ensures
            final(self).ppu_state().wf(),
            final(self).ppu_state() == old(self).ppu_state().read_status(),
            value == old(self).ppu_state().status.bits,
    ;

    fn read_oam_data(&self) -> (value: u8)
        requires
            self.ppu_state().wf(),
        ensures
            value == self.ppu_state().oam[self.ppu_state().oam_addr as int],
    ;

    fn write_to_oam_dma(&mut self, value: &[u8; 256])
        requires
            old(self).ppu_state().wf(),
        ensures
            final(self).ppu_state().wf(),
            final(self).ppu_state() == old(self).ppu_state().write_oam_dma(value@),
    ;
}

impl PPU for NesPPU {
    open spec fn ppu_state(&self) -> PpuState {
        self@
    }

    fn write_to_control_reg(&mut self, value: u8) {
        NesPPU::write_to_control_reg(self, value)
    }

    fn write_to_mask_reg(&mut self, value: u8) {
        NesPPU::write_to_mask_reg(self, value)
    }

    fn write_to_oam_data(&mut self, value: u8) {
        NesPPU::write_to_oam_data(self, value)
    }

    fn write_to_oam_addr(&mut self, value: u8) {
        NesPPU::write_to_oam_addr(self, value)
    }

    fn write_to_scroll_reg(&mut self, value: u8) {
        NesPPU::write_to_scroll_reg(self, value)
    }

    fn write_to_ppu_addr(&mut self, value: u8) {
        NesPPU::write_to_ppu_addr(self, value)
    }

    fn write_to_data(&mut self, value: u8) -> (r: Result<(), Fault>) {
        NesPPU::write_to_data(self, value)
    }

    fn read_data(&mut self) -> (r: Result<u8, Fault>) {
        NesPPU::read_data(self)
    }

    fn read_status(&mut self) -> (value: u8) {
        NesPPU::read_status(self)
    }

    fn read_oam_data(&self) -> (value: u8) {
        NesPPU::read_oam_data(self)
    }

    fn write_to_oam_dma(&mut self, value: &[u8; 256]) {
        NesPPU::write_to_oam_dma(self, value)
    }
}

/// Reading the status port clears the write toggle shared by the address
/// and scroll ports and the vertical-blank bit, and leaves the sprite-0
/// hit and sprite overflow bits alone.
pub proof fn lemma_read_status_clears(s: PpuState)
    ensures
        s.read_status().addr.hi_ptr,
        !s.read_status().scroll.latch,
        !s.read_status().status.in_vblank(),
        s.read_status().status.has(0x40) == s.status.has(0x40),
        s.read_status().status.has(0x20) == s.status.has(0x20),
{
    crate::ppu::register::status_register::lemma_reset_vblank_keeps_sprite_bits(s.status);
}

/// After a status read the next write to the address port loads the high
/// byte and the next write to the scroll port the horizontal scroll,
/// whatever was written before.
pub proof fn lemma_read_status_restarts_writes(s: PpuState, value: u8)
    ensures
        s.read_status().write_addr(value).addr.value == (value & 0x3f, s.addr.value.1),
        s.read_status().write_scroll(value).scroll.scroll_x == value,
{
}

/// The palette entries `$3F10`, `$3F14`, `$3F18` and `$3F1C` are the
/// entries `$3F00`, `$3F04`, `$3F08` and `$3F0C`: after a write to either
/// address of such a pair, a read through either returns the byte written.
pub proof fn lemma_palette_mirrors(s: PpuState, low: u16, value: u8, through_high: bool)
    requires
        s.wf(),
        low == 0x3f00 || low == 0x3f04 || low == 0x3f08 || low == 0x3f0c,
    ensures
        ({
            let written_at = if through_high { (low + 0x10) as u16 } else { low };
            let after = PpuState { addr: s.addr.with_addr(written_at), ..s }.write_data(value);
            let at_low = PpuState { addr: s.addr.with_addr(low), ..after };
            let at_high = PpuState { addr: s.addr.with_addr((low + 0x10) as u16), ..after };
            &&& at_low.data_fault() is None
            &&& at_high.data_fault() is None
            &&& at_low.read_data_value() == value
            &&& at_high.read_data_value() == value
        }),
{
    let high: u16 = (low + 0x10) as u16;
    assert(forall|a: u16|
        a <= 0x3fff ==> ((((((a >> 8) & 0x3f) as u8) as u16) << 8) | (((a & 0xff) as u8) as u16))
            == a) by (bit_vector);
    assert(s.addr.with_addr(low).addr() == low);
    assert(s.addr.with_addr(high).addr() == high);
}


/// Ticking keeps the unit well formed and moves it `n` dots on within its
/// frame of 262 scanlines of 341 dots.
pub proof fn lemma_tick_position(s: PpuState, n: nat)
    requires
        s.wf(),
    ensures
        s.tick(n).wf(),
        s.tick(n).frame_position() == (s.frame_position() + n) % 89342,
    decreases n,
{
    if n > 0 {
        lemma_tick_position(s, (n - 1) as nat);
    }
}

/// Every 341 dots advance the scanline by one, to scanline 0 after
/// scanline 261, and leave the dot within the scanline where it was.
pub proof fn lemma_scanline_every_341_dots(s: PpuState)
    requires
        s.wf(),
    ensures
        s.tick(341).dot == s.dot,
        s.tick(341).scanline == (s.scanline + 1) % 262,
{
    lemma_tick_position(s, 341);
}

/// 262 scanlines of dots complete one frame: the unit is back at the
/// scanline and dot it started from.
pub proof fn lemma_frame_every_262_scanlines(s: PpuState)
    requires
        s.wf(),
    ensures
        s.tick(262 * 341).dot == s.dot,
        s.tick(262 * 341).scanline == s.scanline,
{
    lemma_tick_position(s, 262 * 341);
}

/// Ticking `a` dots and then `b` is ticking `a + b`.
pub proof fn lemma_tick_adds(s: PpuState, a: nat, b: nat)
    ensures
        s.tick(a).tick(b) == s.tick(a + b),
    decreases b,
{
    if b > 0 {
        lemma_tick_adds(s, a, (b - 1) as nat);
        assert(s.tick(a + b) == s.tick((a + b - 1) as nat).dot_step());
    }
}


/// The position within the frame of dot 1 of scanline 241, where vertical
/// blanking starts.
pub open spec fn vblank_position() -> int {
    82182
}

/// Whether `n` dots from position `from` within the frame pass the start
/// of vertical blanking.
pub open spec fn passes_vblank_start(from: int, n: int) -> bool {
    from < vblank_position() <= from + n || from + n >= vblank_position() + 89342
}

/// A tick raises the interrupt exactly when it passes the start of
/// vertical blanking with the interrupt enabled. This holds of ticks
/// shorter than the 20 scanlines between the start of vertical blanking
/// and the pre-render line that clears the interrupt again, which every
/// tick of the bus is.
pub proof fn lemma_tick_raises_nmi_at_vblank(s: PpuState, n: nat)
    requires
        s.wf(),
        s.nmi is None,
        n < 20 * 341,
    ensures
        s.tick(n).nmi is Some <==> s.control.nmi_enabled() && passes_vblank_start(
            s.frame_position(),
            n as int,
        ),
        s.tick(n).control == s.control,
    decreases n,
{
    if n > 0 {
        let before = s.tick((n - 1) as nat);
        lemma_tick_raises_nmi_at_vblank(s, (n - 1) as nat);
        lemma_tick_position(s, (n - 1) as nat);
        lemma_tick_position(s, n);
        let after = before.dot_step();
        assert(after.frame_position() == vblank_position() <==> after.dot == 1 && after.scanline
            == 241);
        assert(after.frame_position() == 89002 <==> after.dot == 1 && after.scanline == 261);
    }
}

} // verus!
