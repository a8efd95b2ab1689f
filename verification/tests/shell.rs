//! The emulator shell: program loading, keyboard snapshots, pacing
//! defaults, and the RGBA rendering of the logical screen.

use chip8::emu::{Emu, REFRESH_RATE, SCALE, SCREEN_HEIGHT, SCREEN_WIDTH, WINDOW_HEIGHT,
    WINDOW_WIDTH};

#[test]
fn default_emulator_settings() {
    let e = Emu::default();
    assert_eq!(e.cpu.pc, 0x200);
    assert!(e.run_steps);
    assert_eq!(e.clock_rate, 600);
    assert_eq!(SCREEN_WIDTH, 64);
    assert_eq!(SCREEN_HEIGHT, 32);
    assert_eq!(SCALE, 16);
    assert_eq!(REFRESH_RATE, 60);
    assert_eq!(WINDOW_WIDTH, 1024);
    assert_eq!(WINDOW_HEIGHT, 512);
}

#[test]
fn load_rom_copies_bytes_to_the_entry_point() {
    let mut e = Emu::default();
    e.load_rom(&[0x60, 0x42, 0x12, 0x02]);
    assert_eq!(&e.cpu.memory[0x200..0x204], &[0x60, 0x42, 0x12, 0x02]);
    assert_eq!(e.cpu.memory[0x204], 0);
    assert_eq!(e.cpu.memory[0x00], 0xF0); // the glyph table is untouched
}

#[test]
fn update_keystates_replaces_the_whole_snapshot() {
    let mut e = Emu::default();
    let mut keys = [false; 16];
    keys[3] = true;
    keys[9] = true;
    e.update_keystates(keys);
    assert_eq!(e.cpu.key_states, keys);
    e.update_keystates([false; 16]);
    assert_eq!(e.cpu.key_states, [false; 16]);
}

#[test]
fn progress_runs_one_cycle() {
    let mut e = Emu::default();
    e.load_rom(&[0x63, 0x55]); // LD V3, 55
    assert!(e.cpu.can_tick());
    e.progress();
    assert_eq!(e.cpu.V[3], 0x55);
    assert_eq!(e.cpu.pc, 0x202);
}

#[test]
fn progress_leaves_the_beep_flag_for_the_driver() {
    let mut e = Emu::default();
    e.load_rom(&[0x01, 0x23]); // SYS: only the timers move
    e.cpu.sound_timer = 1;
    e.progress();
    assert!(e.cpu.make_beep);
    e.cpu.make_beep = false; // the driver signals and clears
}

#[test]
fn draw_scales_each_cell_to_a_white_block() {
    let mut e = Emu::default();
    e.cpu.gfx[0] = true; // logical cell (0, 0)
    let mut frame = vec![0u8; 4 * 1024 * 512];
    e.draw(&mut frame);
    // window pixel (0, 0): white, opaque
    assert_eq!(&frame[0..4], &[0xFF, 0xFF, 0xFF, 0xFF]);
    // window pixel (15, 15) is still inside the magnified cell
    let inside = 4 * (15 * 1024 + 15);
    assert_eq!(&frame[inside..inside + 4], &[0xFF, 0xFF, 0xFF, 0xFF]);
    // window pixel (16, 0) belongs to the dark neighbor cell
    let outside = 4 * 16;
    assert_eq!(&frame[outside..outside + 4], &[0x11, 0x11, 0x11, 0xFF]);
    // and the last byte of the frame is the alpha of a dark cell
    assert_eq!(frame[frame.len() - 1], 0xFF);
    assert_eq!(frame[frame.len() - 2], 0x11);
}
