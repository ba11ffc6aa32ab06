//! The picture that a program keeps in work RAM.

use nes_core::cpu::CPU;
use nes_core::utils::screen::read_screen_state;

fn shade(byte: u8) -> (u8, u8, u8) {
    (byte, byte.wrapping_mul(2), 255 - byte)
}

#[test]
fn the_screen_follows_memory() {
    let mut cpu = CPU::new_test();
    let mut frame = [0u8; 3072];
    // every cell is 0, whose colour (0, 0, 255) differs from the empty frame
    assert!(read_screen_state(&mut cpu, &mut frame, shade));
    assert_eq!(&frame[0..3], &[0, 0, 255]);
    assert_eq!(&frame[3069..3072], &[0, 0, 255]);
    assert!(!read_screen_state(&mut cpu, &mut frame, shade));
    cpu.mem_write(0x0200, 7).unwrap();
    cpu.mem_write(0x05ff, 9).unwrap();
    cpu.mem_write(0x0600, 1).unwrap();
    cpu.mem_write(0x01ff, 1).unwrap();
    let before = frame;
    assert!(read_screen_state(&mut cpu, &mut frame, shade));
    assert_eq!(&frame[0..3], &[7, 14, 248]);
    assert_eq!(&frame[3069..3072], &[9, 18, 246]);
    assert_eq!(&frame[3..3069], &before[3..3069]);
    assert!(!read_screen_state(&mut cpu, &mut frame, shade));
    assert_eq!(cpu.program_counter, 0);
    assert_eq!(cpu.bus.cycles, 0);
}
