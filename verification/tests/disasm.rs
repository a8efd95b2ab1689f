//! The disassembled text of every instruction group: the mnemonic padded
//! to four columns, register operands in upper case, immediates in
//! zero-padded lower-case hexadecimal.

use chip8::chip8::Chip8;
use chip8::isa::{decode, Instr};

fn dis(op: u16) -> String {
    Chip8::decode_instruction(&op)
}

#[test]
fn disassembles_bare_mnemonics() {
    assert_eq!(dis(0x00E0), "CLS");
    assert_eq!(dis(0x00EE), "RET");
    assert_eq!(dis(0x0123), ""); // the legacy machine-code escape
    assert_eq!(dis(0x0120), ""); // only the exact 0x00E0 is CLS
    assert_eq!(dis(0x012E), ""); // only the exact 0x00EE is RET
}

#[test]
fn disassembles_addresses() {
    assert_eq!(dis(0x11A2), "JP   1a2");
    assert_eq!(dis(0x2400), "CALL 400");
    assert_eq!(dis(0xA0FE), "LD   I, 0fe");
    assert_eq!(dis(0xB012), "JP   V0, 012");
}

#[test]
fn disassembles_byte_immediates() {
    assert_eq!(dis(0x330A), "SE   V3, 0a");
    assert_eq!(dis(0x4CFF), "SNE  VC, ff");
    assert_eq!(dis(0x6D07), "LD   VD, 07");
    assert_eq!(dis(0x7E10), "ADD  VE, 10");
    assert_eq!(dis(0xC5B0), "RND  V5, b0");
}

#[test]
fn disassembles_register_pairs() {
    assert_eq!(dis(0x5120), "SE   V1, V2");
    assert_eq!(dis(0x9AB0), "SNE  VA, VB");
    assert_eq!(dis(0x8120), "LD   V1, V2");
    assert_eq!(dis(0x8121), "OR   V1, V2");
    assert_eq!(dis(0x8122), "AND  V1, V2");
    assert_eq!(dis(0x8123), "XOR  V1, V2");
    assert_eq!(dis(0x8124), "ADD  V1, V2");
    assert_eq!(dis(0x8125), "SUB  V1, V2");
    assert_eq!(dis(0x8126), "SHR  V1, V2");
    assert_eq!(dis(0x8127), "SUBN V1, V2");
    assert_eq!(dis(0x812E), "SHL  V1, V2");
}

#[test]
fn disassembles_draw_and_keys() {
    assert_eq!(dis(0xD78F), "DRW  V7, V8, f");
    assert_eq!(dis(0xE29E), "SKP  V2");
    assert_eq!(dis(0xE2A1), "SKNP V2");
}

#[test]
fn disassembles_the_f_group() {
    assert_eq!(dis(0xF107), "LD   V1, DT");
    assert_eq!(dis(0xF10A), "LD   V1, K");
    assert_eq!(dis(0xF115), "LD   DT, V1");
    assert_eq!(dis(0xF118), "LD   ST, V1");
    assert_eq!(dis(0xF11E), "ADD  I, V1");
    assert_eq!(dis(0xF129), "LD   F, V1");
    assert_eq!(dis(0xF133), "LD   B, V1");
    assert_eq!(dis(0xF155), "LD   [I], V1");
    assert_eq!(dis(0xF165), "LD   V1, [I]");
}

#[test]
fn decode_classifies_unrecognized_patterns() {
    assert!(matches!(decode(0x8129), Instr::Unknown));
    assert!(matches!(decode(0xE100), Instr::Unknown));
    assert!(matches!(decode(0xF112), Instr::Unknown));
    assert!(matches!(decode(0x5121), Instr::Unknown)); // only 5xy0 is a skip
    assert!(matches!(decode(0x9AB3), Instr::Unknown)); // only 9xy0 is a skip
    assert!(matches!(decode(0x012E), Instr::Sys)); // not the return encoding
    assert!(matches!(decode(0x812E), Instr::ShiftLeft { x: 1, y: 2 }));
}
