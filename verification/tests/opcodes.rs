//! The instruction table.

use nes_core::opscodes::AddressingMode;
use nes_core::opscodes::OpCode;
use nes_core::opscodes::Operation;

#[test]
fn every_byte_decodes_to_its_own_entry() {
    for code in 0..=255u8 {
        let op = OpCode::lookup(code);
        assert_eq!(op.code, code);
        let operand = match op.mode {
            AddressingMode::NonAddressing => 0,
            AddressingMode::Absolute
            | AddressingMode::Absolute_X
            | AddressingMode::Absolute_Y
            | AddressingMode::Indirect => 2,
            _ => 1,
        };
        assert_eq!(op.bytes_len, 1 + operand, "length of {:#04x}", code);
        assert!(op.cycles >= 2 && op.cycles <= 8);
    }
}

#[test]
fn documented_entries() {
    let lda = OpCode::lookup(0xa9);
    assert_eq!(lda.name, "LDA");
    assert_eq!((lda.bytes_len, lda.cycles), (2, 2));
    assert_eq!(lda.mode, AddressingMode::Immediate);
    assert_eq!(lda.operation, Operation::Lda);
    assert!(!lda.page_penalty);
    let lda = OpCode::lookup(0xb1);
    assert_eq!((lda.bytes_len, lda.cycles), (2, 5));
    assert_eq!(lda.mode, AddressingMode::Indirect_Y);
    assert!(lda.page_penalty);
    let sta = OpCode::lookup(0x9d);
    assert_eq!(sta.name, "STA");
    assert_eq!((sta.bytes_len, sta.cycles), (3, 5));
    assert_eq!(sta.mode, AddressingMode::Absolute_X);
    assert!(!sta.page_penalty);
    let brk = OpCode::lookup(0x00);
    assert_eq!((brk.name, brk.bytes_len, brk.cycles), ("BRK", 1, 7));
    let jmp = OpCode::lookup(0x6c);
    assert_eq!((jmp.name, jmp.bytes_len, jmp.cycles), ("JMP", 3, 5));
    assert_eq!(jmp.mode, AddressingMode::Indirect);
    let jsr = OpCode::lookup(0x20);
    assert_eq!((jsr.name, jsr.bytes_len, jsr.cycles), ("JSR", 3, 6));
    let bne = OpCode::lookup(0xd0);
    assert_eq!(bne.mode, AddressingMode::Relative);
    assert_eq!(bne.operation, Operation::Bne);
}

#[test]
fn undocumented_entries() {
    let lax = OpCode::lookup(0xb3);
    assert_eq!(lax.name, "*LAX");
    assert_eq!(lax.operation, Operation::Lax);
    assert!(lax.page_penalty);
    let sax = OpCode::lookup(0x87);
    assert_eq!(sax.name, "*SAX");
    assert_eq!(sax.operation, Operation::Sax);
    let isb = OpCode::lookup(0xe7);
    assert_eq!(isb.name, "*ISB");
    let sbc = OpCode::lookup(0xeb);
    assert_eq!(sbc.name, "*SBC");
    assert_eq!(sbc.operation, Operation::Sbc);
    let nop = OpCode::lookup(0x1c);
    assert_eq!((nop.name, nop.bytes_len, nop.cycles), ("*NOP", 3, 4));
    assert!(nop.page_penalty);
    let dcp = OpCode::lookup(0xd3);
    assert_eq!((dcp.name, dcp.bytes_len, dcp.cycles), ("*DCP", 2, 8));
    assert!(!dcp.page_penalty);
}

#[test]
fn new_derives_the_page_penalty() {
    let op = OpCode::new("LDA", 0xbd, 3, 4, AddressingMode::Absolute_X, Operation::Lda);
    assert!(op.page_penalty);
    let op = OpCode::new("LDA", 0xad, 3, 4, AddressingMode::Absolute, Operation::Lda);
    assert!(!op.page_penalty);
    let op = OpCode::new("INC", 0xfe, 3, 7, AddressingMode::Absolute_X, Operation::Inc);
    assert!(!op.page_penalty);
}
