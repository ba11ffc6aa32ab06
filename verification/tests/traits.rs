//! Memory, stack, addressing and the ports through their traits.

use nes_core::bus::Bus;
use nes_core::cartridge::rom::ROM;
use nes_core::cpu::CPU;
use nes_core::fault::Fault;
use nes_core::mem::Mem;
use nes_core::mem::Stack;
use nes_core::opscodes::AddressingMode;
use nes_core::opscodes::AddressingModeConverter;
use nes_core::ppu::NesPPU;
use nes_core::ppu::PPU;

fn poke<M: Mem>(memory: &mut M, addr: u16, word: u16) -> Result<u16, Fault> {
    memory.mem_write_u16(addr, word)?;
    memory.mem_read_u16(addr)
}

fn swap_top<S: Stack>(stack: &mut S) {
    let first = stack.stack_pop();
    let second = stack.stack_pop();
    stack.stack_push(first);
    stack.stack_push(second);
}

fn operand<C: AddressingModeConverter>(converter: &mut C, mode: AddressingMode) -> u16 {
    converter.get_operand_address(&mode).unwrap().0
}

fn fill<P: PPU>(ppu: &mut P, addr: u16, bytes: &[u8]) {
    ppu.read_status();
    ppu.write_to_ppu_addr((addr >> 8) as u8);
    ppu.write_to_ppu_addr((addr & 0xff) as u8);
    for byte in bytes {
        ppu.write_to_data(*byte).unwrap();
    }
}

#[test]
fn memory_through_the_trait() {
    let mut bus = Bus::new(ROM::blank());
    assert_eq!(poke(&mut bus, 0x0123, 0xcafe), Ok(0xcafe));
    assert_eq!(bus.cpu_vram[0x0123], 0xfe);
    assert_eq!(bus.cpu_vram[0x0124], 0xca);
    assert_eq!(poke(&mut bus, 0x5000, 1), Err(Fault::Unmapped { addr: 0x5000 }));
    let mut cpu = CPU::new_test();
    assert_eq!(poke(&mut cpu, 0x9000, 0x1234), Ok(0x1234));
    assert_eq!(Mem::mem_read(&mut cpu, 0x9001), Ok(0x12));
    assert_eq!(Mem::mem_write(&mut cpu, 0x4018, 0), Err(Fault::Unmapped { addr: 0x4018 }));
}

#[test]
fn the_stack_through_the_trait() {
    let mut cpu = CPU::new_test();
    cpu.stack_pointer = 0xfd;
    Stack::stack_push_u16(&mut cpu, 0xa1b2);
    assert_eq!(cpu.mem_read(0x01fd), Ok(0xa1));
    assert_eq!(cpu.mem_read(0x01fc), Ok(0xb2));
    swap_top(&mut cpu);
    assert_eq!(Stack::stack_pop_u16(&mut cpu), 0xb2a1);
    assert_eq!(cpu.stack_pointer, 0xfd);
}

#[test]
fn addressing_through_the_trait() {
    let mut cpu = CPU::new_test();
    cpu.program_counter = 0x0010;
    cpu.register_x = 2;
    cpu.mem_write(0x0010, 0x80).unwrap();
    cpu.mem_write(0x0011, 0x03).unwrap();
    assert_eq!(operand(&mut cpu, AddressingMode::Immediate), 0x0010);
    assert_eq!(operand(&mut cpu, AddressingMode::ZeroPage_X), 0x0082);
    assert_eq!(operand(&mut cpu, AddressingMode::Absolute_X), 0x0382);
    assert_eq!(
        AddressingModeConverter::get_absolute_address(&mut cpu, &AddressingMode::Absolute, 0x0010),
        Ok((0x0380, false))
    );
}

#[test]
fn the_ports_through_the_trait() {
    let mut ppu = NesPPU::new_empty_rom();
    fill(&mut ppu, 0x2000, &[1, 2, 3]);
    assert_eq!(&ppu.vram[0..3], &[1, 2, 3]);
    PPU::write_to_control_reg(&mut ppu, 0x04);
    PPU::write_to_mask_reg(&mut ppu, 0x1e);
    PPU::write_to_oam_addr(&mut ppu, 0x10);
    PPU::write_to_oam_data(&mut ppu, 0x77);
    PPU::write_to_scroll_reg(&mut ppu, 0x05);
    PPU::write_to_scroll_reg(&mut ppu, 0x06);
    assert_eq!(ppu.control_reg.bits(), 0x04);
    assert_eq!(ppu.mask_reg.bits(), 0x1e);
    assert_eq!(ppu.oam_data[0x10], 0x77);
    assert_eq!((ppu.scroll_register.scroll_x, ppu.scroll_register.scroll_y), (5, 6));
    PPU::write_to_oam_addr(&mut ppu, 0x10);
    assert_eq!(PPU::read_oam_data(&ppu), 0x77);
    fill(&mut ppu, 0x2000, &[]);
    assert_eq!(PPU::read_data(&mut ppu), Ok(0));
    assert_eq!(PPU::read_data(&mut ppu), Ok(1));
    assert_eq!(ppu.addr_reg.get_addr(), 0x2040);
    let mut page = [0u8; 256];
    page[0] = 9;
    page[255] = 8;
    PPU::write_to_oam_dma(&mut ppu, &page);
    assert_eq!(ppu.oam_data[0x10], 9);
    assert_eq!(ppu.oam_data[0x0f], 8);
}
