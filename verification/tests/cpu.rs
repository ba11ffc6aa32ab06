//! The instruction set, exercised through small programs.

use nes_core::cpu::CPU;
use nes_core::flags::StatusFlags;

#[test]
fn test_0x9a_lda_immediate_load_data() {
    let mut cpu = CPU::new_test();
    cpu.load_and_run(vec![0xA9, 0x05, 0x00]).unwrap();
    assert_eq!(cpu.register_a, 0x05);
    assert_eq!(cpu.status.bits() & StatusFlags::ZERO, 0b00);
    assert!(cpu.status.bits() & StatusFlags::NEGATIVE == 0b00);
}

#[test]
fn test_0xa9_lda_zero_flag() {
    let mut cpu = CPU::new_test();
    cpu.load_and_run(vec![0xA9, 0x00, 0x00]).unwrap();
    assert_eq!(cpu.register_a, 0x00);
    assert!(cpu.status.bits() & 0b0000_0010 == 0b10);
}

#[test]
fn test_0xaa_tax_move_a_to_x() {
    let mut cpu = CPU::new_test();
    cpu.register_a = 10;
    cpu.load_and_run(vec![0xa9, 0x0a, 0xAA, 0x00]).unwrap();
    assert_eq!(cpu.register_x, 10);
}

#[test]
fn test_5_ops_working_together() {
    let mut cpu = CPU::new_test();
    cpu.load_and_run(vec![0xa9, 0xc0, 0xaa, 0xe8, 0x00]).unwrap();
    assert_eq!(cpu.register_x, 0xc1);
}

#[test]
fn test_inx_overflow() {
    let mut cpu = CPU::new_test();
    cpu.register_x = 0xff;
    cpu.load_and_run(vec![0xa9, 0xff, 0xaa, 0xe8, 0xe8, 0x00]).unwrap();
    assert_eq!(cpu.register_x, 1);
}

#[test]
fn test_inc() {
    let mut cpu = CPU::new_test();
    cpu.load(vec![0xe6, 0x01, 0x00]).unwrap();
    cpu.reset().unwrap();
    cpu.mem_write(0x01, 0x01).unwrap();
    cpu.run().unwrap();
    let value = cpu.mem_read(0x01).unwrap();
    assert_eq!(value, 2);
}

#[test]
fn test_iny() {
    let mut cpu = CPU::new_test();
    cpu.load(vec![0xc8, 0x00]).unwrap();
    cpu.reset().unwrap();
    cpu.register_y = 0x01;
    cpu.run().unwrap();
    assert_eq!(cpu.register_y, 2);
}

#[test]
fn test_lda_from_memory() {
    let mut cpu = CPU::new_test();
    cpu.mem_write(0x10, 0x55).unwrap();
    cpu.load_and_run(vec![0xa5, 0x10, 0x00]).unwrap();
    assert_eq!(cpu.register_a, 0x55);
}

#[test]
fn test_ldx() {
    let mut cpu = CPU::new_test();
    cpu.load(vec![0xA2, 0x10, 0x00]).unwrap();
    cpu.reset().unwrap();
    cpu.run().unwrap();
    assert_eq!(cpu.register_x, 0x10);
}

#[test]
fn test_ldy() {
    let mut cpu = CPU::new_test();
    cpu.load(vec![0xa0, 0xff, 0x00]).unwrap();
    cpu.reset().unwrap();
    cpu.run().unwrap();
    assert_eq!(cpu.register_y, 0xff);
}

#[test]
fn test_adc_from_memory() {
    let mut cpu = CPU::new_test();
    cpu.load(vec![0x69, 0x00]).unwrap();
    cpu.reset().unwrap();
    cpu.register_a = 0x01;
    cpu.mem_write(0x8001, 0x01).unwrap();
    cpu.run().unwrap();
    assert_eq!(cpu.status.bits() & 0b0000_0001, 0);
    assert_eq!(cpu.register_a, 0x2);
}

#[test]
fn test_adc_from_memory_with_carry() {
    let mut cpu = CPU::new_test();
    cpu.load(vec![0x69, 0x00]).unwrap();
    cpu.reset().unwrap();
    cpu.status = StatusFlags::from_bits_truncate(StatusFlags::CARRY);
    cpu.register_a = 0x01;
    cpu.mem_write(0x8001, 0x01).unwrap();
    cpu.run().unwrap();
    assert_eq!(cpu.status.bits() & 0b0000_0001, 0);
    assert_eq!(cpu.register_a, 0x3);
}

#[test]
fn test_adc_from_memory_should_overflow() {
    let mut cpu = CPU::new_test();
    cpu.load(vec![0x69, 0x00]).unwrap();
    cpu.reset().unwrap();
    cpu.register_a = 0x01;
    cpu.mem_write(0x8001, 0xff).unwrap();
    cpu.run().unwrap();
    // is carry flag is true
    // 0000_0000 ^ 0000_0001 = 0000_0001 & 1000_0000
    assert_eq!(cpu.status.bits() & 0b0000_0001, 1);
    assert_eq!(cpu.register_a, 0x0);
}

#[test]
fn test_adc_from_memory_with_has_carry_should_overflow() {
    let mut cpu = CPU::new_test();
    cpu.load(vec![0x69, 0x00]).unwrap();
    cpu.reset().unwrap();
    cpu.register_a = 0x7f;
    cpu.status = StatusFlags::from_bits_truncate(StatusFlags::CARRY);
    cpu.mem_write(0x8001, 0x7f).unwrap();
    cpu.run().unwrap();
    assert_eq!(cpu.status.bits() & 0b0000_0001, 0);
    assert_eq!(cpu.status.bits() & 0b0100_0000, 0x40);
    assert_eq!(cpu.register_a, 0xff);
}

#[test]
fn test_adc_from_memory_with_plus() {
    let mut cpu = CPU::new_test();
    cpu.load(vec![0x69, 0x00]).unwrap();
    cpu.reset().unwrap();
    cpu.register_a = 0x50;
    cpu.status = StatusFlags::from_bits_truncate(0b00000000);
    cpu.mem_write(0x8001, 0x90).unwrap();
    cpu.run().unwrap();
    assert_eq!(cpu.register_a, 0xe0);
}

#[test]
fn test_adc_from_memory_with_minus() {
    let mut cpu = CPU::new_test();
    cpu.load(vec![0x69, 0x00]).unwrap();
    cpu.reset().unwrap();
    cpu.register_a = 0b0101_0000; //80
    cpu.status = StatusFlags::from_bits_truncate(0b00000000);
    cpu.mem_write(0x8001, 0b1111_0000).unwrap(); // -112
    cpu.run().unwrap();
    // 0101_0000 + 1111_0000 = 1_0100_0000 => 0100_0000 cast as u8
    // occur overflow not negative value
    assert_eq!(cpu.status.bits() & 0b0000_0001, 1);
    assert_eq!(cpu.status.bits() & 0b0100_0000, 0x0);
    assert_eq!(cpu.register_a, 0x40);
}

#[test]
fn test_sbc_from_memory() {
    let mut cpu = CPU::new_test();
    cpu.load(vec![0xe9, 0x10, 0x00]).unwrap();
    cpu.reset().unwrap();
    cpu.register_a = 0x20;
    cpu.run().unwrap();
    assert_eq!(cpu.status.bits() & 0b0000_0001, 1);
    assert_eq!(cpu.register_a, 0x0f);
}

#[test]
fn test_sbc_from_memory_with_carry() {
    let mut cpu = CPU::new_test();
    cpu.load(vec![0xe9, 0x10, 0x00]).unwrap();
    cpu.reset().unwrap();
    cpu.register_a = 0x20;
    cpu.status = StatusFlags::from_bits_truncate(StatusFlags::CARRY);
    cpu.run().unwrap();
    assert_eq!(cpu.status.bits() & 0b0000_0001, 1);
    assert_eq!(cpu.register_a, 0x10);
}

#[test]
fn test_sbc_from_memory_overflow() {
    let mut cpu = CPU::new_test();
    cpu.load(vec![0xe9, 0x00, 0x00]).unwrap();
    cpu.reset().unwrap();
    cpu.register_a = 0x0;
    cpu.run().unwrap();
    assert_eq!(cpu.status.bits() & 0b0000_0000, 0);
    assert_eq!(cpu.register_a, 0xff);
}

#[test]
fn test_sbc_from_memory_overflow_with_carry() {
    let mut cpu = CPU::new_test();
    cpu.load(vec![0xe9, 0x00, 0x00]).unwrap();
    cpu.reset().unwrap();
    cpu.register_a = 0x0;
    cpu.status = StatusFlags::from_bits_truncate(StatusFlags::CARRY);
    cpu.run().unwrap();
    assert_eq!(cpu.status.bits() & 0b0000_0000, 0);
    assert_eq!(cpu.register_a, 0x0);
}

#[test]
fn test_sbc_from_memory_with_minus() {
    let mut cpu = CPU::new_test();
    cpu.load(vec![0xe9, 0xf0, 0x00]).unwrap(); // decimal: -112
    cpu.reset().unwrap();
    cpu.register_a = 0x00; // decimal: 80
                           // 0 - (70) = -70
    cpu.run().unwrap();
    // 0101_0000 + 1111_0000 = 1_0100_0000 => 0100_0000 cast as u8
    // occur overflow not negative value
    assert_eq!(cpu.status.bits() & 0b0000_0001, 0);
    assert_eq!(cpu.status.bits() & 0b0100_0000, 0x0);
    assert_eq!(cpu.register_a, 0x0f);
}

#[test]
fn test_sbc_from_memory_with_minus_with_carry() {
    let mut cpu = CPU::new_test();
    cpu.load(vec![0xe9, 0xf0, 0x00]).unwrap(); // decimal: -70
    cpu.reset().unwrap();
    cpu.register_a = 0xf0; // decimal: -70
    cpu.status = StatusFlags::from_bits_truncate(StatusFlags::CARRY);
    cpu.run().unwrap();
    // 0101_0000 + 1111_0000 = 1_0100_0000 => 0100_0000 cast as u8
    // occur overflow not negative value
    assert_eq!(cpu.status.bits() & 0b0000_0001, 1);
    assert_eq!(cpu.status.bits() & 0b0100_0000, 0x0);
    assert_eq!(cpu.register_a, 0x0);
}

#[test]
fn test_sbc_from_memory_with_plus() {
    let mut cpu = CPU::new_test();
    cpu.load(vec![0xe9, 0x20, 0x00]).unwrap();
    cpu.reset().unwrap();
    cpu.register_a = 0x10;
    cpu.run().unwrap();
    assert_eq!(cpu.status.bits() & 0b0000_0001, 0);
    assert_eq!(cpu.status.bits() & 0b1000_0000, 0x80);
    assert_eq!(cpu.register_a, 0xef);
}

#[test]
fn test_sbc_from_memory_with_plus_with_carry() {
    let mut cpu = CPU::new_test();
    cpu.load(vec![0xe9, 0x20, 0x00]).unwrap();
    cpu.reset().unwrap();
    cpu.register_a = 0x10;
    cpu.status = StatusFlags::from_bits_truncate(StatusFlags::CARRY);
    cpu.run().unwrap();
    assert_eq!(cpu.status.bits() & 0b0000_0001, 0);
    assert_eq!(cpu.status.bits() & 0b1000_0000, 0x80);
    assert_eq!(cpu.register_a, 0xf0);
}

#[test]
fn test_sbc_from_memory_with_plus_with_overflow() {
    let mut cpu = CPU::new_test();
    cpu.load(vec![0xe9, 0x70, 0x00]).unwrap();
    cpu.reset().unwrap();
    cpu.register_a = 0x70;
    cpu.run().unwrap();
    assert_eq!(cpu.status.bits() & 0b0000_0001, 0);
    assert_eq!(cpu.status.bits() & 0b1000_0000, 0x80);
    assert_eq!(cpu.register_a, 0xff);
}

#[test]
fn test_sbc_from_memory_with_plus_with_overflow_with_carry() {
    let mut cpu = CPU::new_test();
    cpu.load(vec![0xe9, 0x70, 0x00]).unwrap();
    cpu.reset().unwrap();
    cpu.register_a = 0x70;
    cpu.status = StatusFlags::from_bits_truncate(StatusFlags::CARRY);
    cpu.run().unwrap();
    assert_eq!(cpu.status.bits() & 0b0000_0001, 1);
    assert_eq!(cpu.status.bits() & 0b1000_0000, 0x0);
    assert_eq!(cpu.register_a, 0x00);
}

#[test]
fn test_and_from_memory() {
    let mut cpu = CPU::new_test();
    cpu.load(vec![0x29, 0x10, 0x00]).unwrap();
    cpu.reset().unwrap();
    cpu.register_a = 0x10;
    cpu.run().unwrap();
    assert_eq!(cpu.register_a, 0x10);
}

#[test]
fn test_eor_from_memory() {
    let mut cpu = CPU::new_test();
    cpu.load(vec![0x49, 0x10, 0x00]).unwrap();
    cpu.reset().unwrap();
    cpu.register_a = 0x08;
    cpu.run().unwrap();
    assert_eq!(cpu.register_a, 0x18);
}

#[test]
fn test_ora_from_memory() {
    let mut cpu = CPU::new_test();
    cpu.load(vec![0x09, 0x10, 0x00]).unwrap();
    cpu.reset().unwrap();
    cpu.register_a = 0x08;
    cpu.run().unwrap();
    assert_eq!(cpu.register_a, 0x18);
}

#[test]
fn test_bit_all_false() {
    let mut cpu = CPU::new_test();
    cpu.load(vec![0x24, 0x01, 0x00]).unwrap();
    cpu.reset().unwrap();
    cpu.mem_write(0x01, 0x01).unwrap();
    cpu.register_a = 0x01;
    cpu.run().unwrap();
    assert_eq!(cpu.status.bits() & 0b0000_0010, 0);
    assert_eq!(cpu.status.bits() & 0b1000_0000, 0);
    assert_eq!(cpu.status.bits() & 0b0100_0000, 0);
}

#[test]
fn test_bit_zero_true() {
    let mut cpu = CPU::new_test();
    cpu.load(vec![0x24, 0x01, 0x00]).unwrap();
    cpu.reset().unwrap();
    cpu.mem_write(0x01, 0x00).unwrap();
    cpu.register_a = 0x01;
    cpu.run().unwrap();
    assert_eq!(cpu.status.bits() & 0b0000_0010, 0b10);
    assert_eq!(cpu.status.bits() & 0b1000_0000, 0);
    assert_eq!(cpu.status.bits() & 0b0100_0000, 0);
}

#[test]
fn test_bit_zero_true_overflow_true() {
    let mut cpu = CPU::new_test();
    cpu.load(vec![0x24, 0x01, 0x00]).unwrap();
    cpu.reset().unwrap();
    cpu.mem_write(0x01, 0x42).unwrap();
    cpu.register_a = 0x01;
    cpu.run().unwrap();
    assert_eq!(cpu.status.bits() & 0b0000_0010, 0b10);
    assert_eq!(cpu.status.bits() & 0b1000_0000, 0);
    assert_eq!(
        cpu.status.bits() & 0b0100_0000,
        StatusFlags::OVERFLOW
    );
}

#[test]
fn test_bit_zero_true_overflow_true_negative_true() {
    let mut cpu = CPU::new_test();
    cpu.load(vec![0x24, 0x01, 0x00]).unwrap();
    cpu.reset().unwrap();
    cpu.mem_write(0x01, 0xC2).unwrap();
    cpu.register_a = 0x01;
    cpu.run().unwrap();
    assert_eq!(cpu.status.bits() & 0b0000_0010, 0b10);
    assert_eq!(cpu.status.bits() & 0b1000_0000, 0b1000_0000);
    assert_eq!(
        cpu.status.bits() & 0b0100_0000,
        StatusFlags::OVERFLOW
    );
}

#[test]
fn test_brk() {
    let mut cpu = CPU::new_test();
    cpu.load(vec![0x00]).unwrap();
    cpu.reset().unwrap();
    cpu.run().unwrap();
    assert_eq!(cpu.status.bits() & 0b0001_0000, StatusFlags::BREAK);
}

#[test]
fn test_sec() {
    let mut cpu = CPU::new_test();
    cpu.load(vec![0x38, 0x00]).unwrap();
    cpu.reset().unwrap();
    cpu.run().unwrap();
    assert_eq!(cpu.status.bits() & 0b0000_0001, StatusFlags::CARRY);
}

#[test]
fn test_clc() {
    let mut cpu = CPU::new_test();
    cpu.load(vec![0x18, 0x00]).unwrap();
    cpu.reset().unwrap();
    cpu.run().unwrap();
    assert_eq!(cpu.status.bits() & 0b0000_0001, 0);
}

#[test]
fn test_sed() {
    let mut cpu = CPU::new_test();
    cpu.load(vec![0xf8, 0x00]).unwrap();
    cpu.reset().unwrap();
    cpu.run().unwrap();
    assert_eq!(cpu.status.bits() & 0b0000_1000, 0b0000_1000);
}

#[test]
fn test_cld() {
    let mut cpu = CPU::new_test();
    cpu.load(vec![0xD8, 0x00]).unwrap();
    cpu.status = StatusFlags::from_bits_truncate(0b0000_1000);
    cpu.reset().unwrap();
    cpu.run().unwrap();
    assert_eq!(cpu.status.bits() & 0b0000_1000, 0);
}

#[test]
fn test_sei() {
    let mut cpu = CPU::new_test();
    cpu.load(vec![0x78, 0x00]).unwrap();
    cpu.reset().unwrap();
    cpu.run().unwrap();
    assert_eq!(cpu.status.bits() & 0b0000_0100, 0b0000_0100);
}

#[test]
fn test_cli() {
    let mut cpu = CPU::new_test();
    cpu.load(vec![0x58, 0x00]).unwrap();
    cpu.status = StatusFlags::from_bits_truncate(0b0000_0100);
    cpu.reset().unwrap();
    cpu.run().unwrap();
    assert_eq!(cpu.status.bits() & 0b0000_0100, 0);
}

#[test]
fn test_clv() {
    let mut cpu = CPU::new_test();
    cpu.load(vec![0xB8, 0x00]).unwrap();
    cpu.status = StatusFlags::from_bits_truncate(0b0100_0000);
    cpu.reset().unwrap();
    cpu.run().unwrap();
    assert_eq!(cpu.status.bits() & 0b0100_0000, 0);
}
