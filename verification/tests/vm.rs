//! Behavior of the virtual-machine core, one instruction at a time.

use chip8::chip8::Chip8;

/// A fresh machine with the given opcode placed at the entry point.
fn machine_with(op: u16) -> Chip8 {
    let mut c = Chip8::new();
    c.memory[0x200] = (op >> 8) as u8;
    c.memory[0x201] = (op & 0xFF) as u8;
    c
}

#[test]
fn new_machine_initial_state() {
    let c = Chip8::new();
    assert_eq!(c.pc, 0x200);
    assert_eq!(c.sp, 0);
    assert_eq!(c.I, 0);
    assert_eq!(c.V, [0u8; 16]);
    assert_eq!(c.delay_timer, 0);
    assert_eq!(c.sound_timer, 0);
    assert!(!c.make_beep);
    // the glyph table sits at the bottom of memory
    assert_eq!(c.memory[0x00], 0xF0); // top row of the 0 glyph
    assert_eq!(c.memory[0x4F], 0x80); // bottom row of the F glyph
    assert_eq!(&c.memory[0x32..0x37], &[0xF0, 0x90, 0xF0, 0x90, 0x90]); // A
    assert!(c.memory[0x50..].iter().all(|&b| b == 0));
    assert!(c.gfx.iter().all(|&p| !p));
}

#[test]
fn fetch_combines_big_endian() {
    let c = machine_with(0x1ABC);
    assert_eq!(c.get_opcode(), 0x1ABC);
}

#[test]
fn add_byte_wraps_without_flag() {
    let mut c = machine_with(0x73FF); // ADD V3, ff
    c.V[3] = 0x02;
    c.V[15] = 0x77; // must stay untouched
    c.tick();
    assert_eq!(c.V[3], 0x01);
    assert_eq!(c.V[15], 0x77);
    assert_eq!(c.pc, 0x202);
}

#[test]
fn add_byte_round_trip_restores_register() {
    // adding kk and then (256 - kk) % 256 restores the register
    let mut c = machine_with(0x7330); // ADD V3, 30
    c.memory[0x202] = 0x73; // ADD V3, d0
    c.memory[0x203] = 0xD0;
    c.V[3] = 0x42;
    c.tick();
    assert_eq!(c.V[3], 0x72);
    c.tick();
    assert_eq!(c.V[3], 0x42);
}

#[test]
fn add_reg_sets_carry_on_overflow() {
    let mut c = machine_with(0x8014); // ADD V0, V1
    c.V[0] = 0xFF;
    c.V[1] = 0x01;
    c.tick();
    assert_eq!(c.V[0], 0x00);
    assert_eq!(c.V[15], 1);
}

#[test]
fn add_reg_clears_carry_without_overflow() {
    let mut c = machine_with(0x8014); // ADD V0, V1
    c.V[0] = 0x70;
    c.V[1] = 0x0F;
    c.V[15] = 1;
    c.tick();
    assert_eq!(c.V[0], 0x7F);
    assert_eq!(c.V[15], 0);
}

#[test]
fn sub_reg_borrow_clears_flag() {
    let mut c = machine_with(0x8015); // SUB V0, V1
    c.V[0] = 0x05;
    c.V[1] = 0x0A;
    c.tick();
    assert_eq!(c.V[0], 0xFB);
    assert_eq!(c.V[15], 0);
}

#[test]
fn sub_reg_no_borrow_sets_flag() {
    let mut c = machine_with(0x8015); // SUB V0, V1
    c.V[0] = 0x0A;
    c.V[1] = 0x0A;
    c.tick();
    assert_eq!(c.V[0], 0x00);
    assert_eq!(c.V[15], 1);
}

#[test]
fn subn_reg_reverses_operands() {
    let mut c = machine_with(0x8017); // SUBN V0, V1
    c.V[0] = 0x01;
    c.V[1] = 0x0A;
    c.tick();
    assert_eq!(c.V[0], 0x09);
    assert_eq!(c.V[15], 1);
}

#[test]
fn shift_right_keeps_low_bit_in_flag() {
    let mut c = machine_with(0x8006); // SHR V0
    c.V[0] = 0x03;
    c.tick();
    assert_eq!(c.V[0], 0x01);
    assert_eq!(c.V[15], 1);
}

#[test]
fn shift_left_keeps_high_bit_in_flag() {
    let mut c = machine_with(0x800E); // SHL V0
    c.V[0] = 0x81;
    c.tick();
    assert_eq!(c.V[0], 0x02);
    assert_eq!(c.V[15], 1);
}

#[test]
fn bitwise_register_ops() {
    let mut c = machine_with(0x8121); // OR V1, V2
    c.memory[0x202] = 0x81; // AND V1, V2
    c.memory[0x203] = 0x22;
    c.memory[0x204] = 0x81; // XOR V1, V2
    c.memory[0x205] = 0x23;
    c.V[1] = 0b1010;
    c.V[2] = 0b0110;
    c.tick();
    assert_eq!(c.V[1], 0b1110);
    c.tick();
    assert_eq!(c.V[1], 0b0110);
    c.tick();
    assert_eq!(c.V[1], 0b0000);
}

#[test]
fn load_instructions_copy_values() {
    let mut c = machine_with(0x6442); // LD V4, 42
    c.memory[0x202] = 0x85; // LD V5, V4
    c.memory[0x203] = 0x40;
    c.memory[0x204] = 0xA1; // LD I, 123
    c.memory[0x205] = 0x23;
    c.tick();
    assert_eq!(c.V[4], 0x42);
    c.tick();
    assert_eq!(c.V[5], 0x42);
    c.tick();
    assert_eq!(c.I, 0x123);
    assert_eq!(c.pc, 0x206);
}

#[test]
fn skip_if_equal_byte_skips() {
    let mut c = machine_with(0x3307); // SE V3, 07
    c.V[3] = 0x07;
    c.tick();
    assert_eq!(c.pc, 0x204);
    let mut c = machine_with(0x3307);
    c.V[3] = 0x08;
    c.tick();
    assert_eq!(c.pc, 0x202);
}

#[test]
fn skip_if_not_equal_byte_skips() {
    let mut c = machine_with(0x4307); // SNE V3, 07
    c.V[3] = 0x08;
    c.tick();
    assert_eq!(c.pc, 0x204);
    let mut c = machine_with(0x4307);
    c.V[3] = 0x07;
    c.tick();
    assert_eq!(c.pc, 0x202);
}

#[test]
fn skip_register_comparisons() {
    let mut c = machine_with(0x5120); // SE V1, V2
    c.V[1] = 5;
    c.V[2] = 5;
    c.tick();
    assert_eq!(c.pc, 0x204);
    let mut c = machine_with(0x9120); // SNE V1, V2
    c.V[1] = 5;
    c.V[2] = 6;
    c.tick();
    assert_eq!(c.pc, 0x204);
}

#[test]
fn jump_sets_pc_without_advance() {
    let mut c = machine_with(0x1ABC); // JP abc
    c.tick();
    assert_eq!(c.pc, 0xABC);
}

#[test]
fn jump_v0_adds_register() {
    let mut c = machine_with(0xB300); // JP V0, 300
    c.V[0] = 0x21;
    c.tick();
    assert_eq!(c.pc, 0x321);
}

#[test]
fn call_and_return_round_trip() {
    let mut c = machine_with(0x2400); // CALL 400
    c.memory[0x400] = 0x00; // RET
    c.memory[0x401] = 0xEE;
    c.tick();
    assert_eq!(c.pc, 0x400);
    assert_eq!(c.sp, 1);
    assert_eq!(c.stack[0], 0x200);
    c.tick();
    assert_eq!(c.pc, 0x202);
    assert_eq!(c.sp, 0);
}

#[test]
fn call_return_round_trip_all_sixteen_depths() {
    // sixteen nested calls: 0x200 -> 0x400 -> 0x402 -> ... -> 0x41E
    let mut c = Chip8::new();
    c.memory[0x200] = 0x24; // CALL 400
    c.memory[0x201] = 0x00;
    for depth in 0..15usize {
        let target = 0x402 + 2 * depth as u16;
        let at = 0x400 + 2 * depth;
        c.memory[at] = 0x20 | (target >> 8) as u8;
        c.memory[at + 1] = (target & 0xFF) as u8;
    }
    c.memory[0x41E] = 0x00; // RET at the deepest level
    c.memory[0x41F] = 0xEE;
    for depth in 0..16u16 {
        assert_eq!(c.sp, depth);
        assert!(c.can_tick());
        c.tick();
    }
    assert_eq!(c.sp, 16);
    assert_eq!(c.pc, 0x41E);
    c.tick(); // the deepest return
    assert_eq!(c.sp, 15);
    assert_eq!(c.pc, 0x41E); // just past the sixteenth call site
}

#[test]
fn call_beyond_sixteen_levels_is_refused() {
    let mut c = machine_with(0x2400); // CALL 400
    c.sp = 16;
    assert!(!c.can_tick());
    c.sp = 15;
    assert!(c.can_tick());
}

#[test]
fn return_without_call_is_refused() {
    let c = machine_with(0x00EE); // RET with empty stack
    assert!(!c.can_tick());
}

#[test]
fn unknown_patterns_are_refused() {
    assert!(!machine_with(0x8128).can_tick()); // no 8xy8 sub-case
    assert!(!machine_with(0xE1A2).can_tick()); // no Ex.2 sub-case
    assert!(!machine_with(0xF1FF).can_tick()); // no FxFF sub-case
    assert!(!machine_with(0x5121).can_tick()); // only 5xy0 skips
    assert!(!machine_with(0x9AB3).can_tick()); // only 9xy0 skips
}

#[test]
fn sys_opcode_is_benign_advance() {
    let mut c = machine_with(0x0123); // SYS 123
    assert!(c.can_tick());
    c.tick();
    assert_eq!(c.pc, 0x202);
}

#[test]
fn sys_opcode_ending_in_zero_is_not_clear_screen() {
    let mut c = machine_with(0x0120); // SYS 120, not CLS
    c.gfx[5] = true;
    c.tick();
    assert!(c.gfx[5]); // the screen is untouched
    assert_eq!(c.pc, 0x202); // a pure advance
}

#[test]
fn sys_opcode_ending_in_e_is_not_return() {
    let mut c = machine_with(0x012E); // SYS 12e, not RET
    assert!(c.can_tick()); // fine on an empty stack
    c.tick();
    assert_eq!(c.sp, 0);
    assert_eq!(c.pc, 0x202);
}

#[test]
fn clear_screen_blanks_every_pixel() {
    let mut c = machine_with(0x00E0); // CLS
    for p in 0..2048 {
        c.gfx[p] = p % 3 == 0;
    }
    c.tick();
    assert!(c.gfx.iter().all(|&p| !p));
    assert_eq!(c.pc, 0x202);
}

#[test]
fn random_masks_with_immediate() {
    let mut c = machine_with(0xC50F); // RND V5, 0f
    c.tick();
    assert_eq!(c.V[5] & 0xF0, 0); // whatever was drawn, the mask holds
    assert_eq!(c.pc, 0x202);
}

#[test]
fn draw_sets_pixels_and_collision() {
    let mut c = machine_with(0xD015); // DRW V0, V1, 5 — the 0 glyph
    c.V[0] = 0;
    c.V[1] = 0;
    c.I = 0; // glyph table: the 0 digit
    c.tick();
    // top row of the glyph: 0xF0 = four lit pixels
    for col in 0..4 {
        assert!(c.gfx[col]);
    }
    for col in 4..8 {
        assert!(!c.gfx[col]);
    }
    assert_eq!(c.V[15], 0); // empty screen: no collision
}

#[test]
fn draw_twice_restores_screen_and_reports_collision() {
    let mut c = machine_with(0xD015); // DRW V0, V1, 5
    c.memory[0x202] = 0xD0; // the same draw again
    c.memory[0x203] = 0x15;
    c.I = 0;
    c.tick();
    assert!(c.gfx.iter().any(|&p| p));
    assert_eq!(c.V[15], 0);
    c.tick();
    assert!(c.gfx.iter().all(|&p| !p)); // the XOR blit undid itself
    assert_eq!(c.V[15], 1); // and everything it met was lit
}

#[test]
fn draw_wraps_around_the_right_edge() {
    let mut c = machine_with(0xD011); // DRW V0, V1, 1
    c.V[0] = 60;
    c.V[1] = 0;
    c.I = 0x300;
    c.memory[0x300] = 0xFF; // one full row
    c.tick();
    // columns 60..63 and 0..3 of row 0, and nothing else
    for col in 0..64 {
        let expect = col >= 60 || col < 4;
        assert_eq!(c.gfx[col], expect, "column {col}");
    }
    assert!(c.gfx[64..].iter().all(|&p| !p));
}

#[test]
fn draw_wraps_around_the_bottom_edge() {
    let mut c = machine_with(0xD012); // DRW V0, V1, 2
    c.V[0] = 0;
    c.V[1] = 31;
    c.I = 0x300;
    c.memory[0x300] = 0x80; // row 31
    c.memory[0x301] = 0x80; // wraps to row 0
    c.tick();
    assert!(c.gfx[31 * 64]);
    assert!(c.gfx[0]);
}

#[test]
fn skip_key_instructions_check_latch() {
    let mut c = machine_with(0xE19E); // SKP V1
    c.V[1] = 4;
    c.key_states[4] = true;
    c.tick();
    assert_eq!(c.pc, 0x204);
    let mut c = machine_with(0xE1A1); // SKNP V1
    c.V[1] = 4;
    c.tick();
    assert_eq!(c.pc, 0x204);
}

#[test]
fn wait_key_holds_until_a_key_is_pressed() {
    let mut c = machine_with(0xF30A); // LD V3, K
    c.tick();
    assert_eq!(c.pc, 0x200); // no key: the instruction runs again
    c.key_states[0x9] = true;
    c.tick();
    assert_eq!(c.pc, 0x202);
    assert_eq!(c.V[3], 0x9);
}

#[test]
fn wait_key_takes_the_highest_pressed_key() {
    let mut c = machine_with(0xF30A); // LD V3, K
    c.key_states[0x2] = true;
    c.key_states[0xB] = true;
    c.tick();
    assert_eq!(c.V[3], 0xB);
}

#[test]
fn timer_transfers() {
    let mut c = machine_with(0xF115); // LD DT, V1
    c.memory[0x202] = 0xF2; // LD V2, DT
    c.memory[0x203] = 0x07;
    c.memory[0x204] = 0xF1; // LD ST, V1
    c.memory[0x205] = 0x18;
    c.V[1] = 9;
    c.tick();
    assert_eq!(c.delay_timer, 8); // set to 9, then one decay
    c.tick();
    assert_eq!(c.V[2], 8);
    c.tick();
    assert_eq!(c.sound_timer, 8);
}

#[test]
fn timer_edge_beeps_exactly_once() {
    let mut c = machine_with(0x0123); // SYS: nothing but the timers move
    c.memory[0x202] = 0x01;
    c.memory[0x203] = 0x23;
    c.sound_timer = 1;
    c.tick();
    assert_eq!(c.sound_timer, 0);
    assert!(c.make_beep);
    c.make_beep = false; // the driver observes and clears the signal
    c.tick();
    assert_eq!(c.sound_timer, 0); // no decrement below zero
    assert!(!c.make_beep); // and no second signal
}

#[test]
fn add_index_accumulates() {
    let mut c = machine_with(0xF11E); // ADD I, V1
    c.I = 0x100;
    c.V[1] = 0x22;
    c.tick();
    assert_eq!(c.I, 0x122);
}

#[test]
fn glyph_addressing_is_five_bytes_per_digit() {
    let mut c = machine_with(0xF029); // LD F, V0
    c.V[0] = 0xA;
    c.tick();
    assert_eq!(c.I, 50); // the A glyph starts at 0xA * 5
}

#[test]
fn store_bcd_writes_decimal_digits() {
    let mut c = machine_with(0xF033); // LD B, V0
    c.V[0] = 156;
    c.I = 0x300;
    c.tick();
    assert_eq!(c.memory[0x300], 1);
    assert_eq!(c.memory[0x301], 5);
    assert_eq!(c.memory[0x302], 6);
}

#[test]
fn store_registers_sweeps_v0_through_vx() {
    let mut c = machine_with(0xF355); // LD [I], V3
    c.V[0] = 10;
    c.V[1] = 11;
    c.V[2] = 12;
    c.V[3] = 13;
    c.V[4] = 99; // beyond x: not stored
    c.I = 0x300;
    c.tick();
    assert_eq!(&c.memory[0x300..0x304], &[10, 11, 12, 13]);
    assert_eq!(c.memory[0x304], 0);
}

#[test]
fn load_registers_sweeps_v0_through_vx() {
    let mut c = machine_with(0xF365); // LD V3, [I]
    c.I = 0x300;
    c.memory[0x300] = 20;
    c.memory[0x301] = 21;
    c.memory[0x302] = 22;
    c.memory[0x303] = 23;
    c.memory[0x304] = 99; // beyond x: not loaded
    c.tick();
    assert_eq!(&c.V[0..4], &[20, 21, 22, 23]);
    assert_eq!(c.V[4], 0);
}

#[test]
fn flag_register_as_destination_receives_flag_last() {
    let mut c = machine_with(0x8F14); // ADD VF, V1
    c.V[0xF] = 0xFF;
    c.V[1] = 0x01;
    c.tick();
    assert_eq!(c.V[0xF], 1); // the carry flag wins over the sum
}

#[test]
fn default_matches_new() {
    let a: Chip8 = Default::default();
    let b = Chip8::new();
    assert_eq!(a.pc, b.pc);
    assert_eq!(a.memory, b.memory);
}
