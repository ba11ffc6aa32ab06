//! The controller.

use nes_core::joypad::Joypad;
use nes_core::joypad::JoypadButton;

fn button(mask: u8) -> JoypadButton {
    JoypadButton::from_bits_truncate(mask)
}

#[test]
fn a_new_controller_has_no_button_down() {
    let joypad = Joypad::new();
    assert_eq!(joypad.button_status.bits(), 0);
    assert!(!joypad.strobe);
    assert_eq!(joypad.index, 0);
}

#[test]
fn buttons_are_read_in_order() {
    let mut joypad = Joypad::new();
    joypad.set_button_pressed_status(button(JoypadButton::BUTTON_B), true);
    joypad.set_button_pressed_status(button(JoypadButton::UP), true);
    joypad.set_button_pressed_status(button(JoypadButton::RIGHT), true);
    joypad.write(1);
    joypad.write(0);
    let read: Vec<u8> = (0..8).map(|_| joypad.read()).collect();
    assert_eq!(read, vec![0, 1, 0, 0, 1, 0, 0, 1]);
    assert_eq!(joypad.index, 8);
    assert_eq!(joypad.read(), 1);
    assert_eq!(joypad.read(), 1);
    assert_eq!(joypad.index, 8);
}

#[test]
fn the_strobe_holds_the_first_button() {
    let mut joypad = Joypad::new();
    joypad.set_button_pressed_status(button(JoypadButton::BUTTON_A), true);
    joypad.write(0);
    joypad.read();
    joypad.read();
    assert_eq!(joypad.index, 2);
    joypad.write(0x81);
    assert!(joypad.strobe);
    assert_eq!(joypad.index, 0);
    assert_eq!(joypad.read(), 1);
    assert_eq!(joypad.read(), 1);
    assert_eq!(joypad.index, 0);
    joypad.set_button_pressed_status(button(JoypadButton::BUTTON_A), false);
    assert_eq!(joypad.read(), 0);
    // bit 0 clear releases the strobe and keeps the index
    joypad.write(0xfe);
    assert!(!joypad.strobe);
    assert_eq!(joypad.read(), 0);
    assert_eq!(joypad.index, 1);
}

#[test]
fn releasing_a_button_keeps_the_others() {
    let mut joypad = Joypad::new();
    joypad.set_button_pressed_status(button(JoypadButton::SELECT | JoypadButton::DOWN), true);
    joypad.set_button_pressed_status(button(JoypadButton::LEFT), true);
    joypad.set_button_pressed_status(button(JoypadButton::DOWN), false);
    assert_eq!(joypad.button_status.bits(), JoypadButton::SELECT | JoypadButton::LEFT);
    assert!(joypad.button_status.contains(button(JoypadButton::SELECT)));
    assert!(!joypad.button_status.contains(button(JoypadButton::DOWN)));
}
