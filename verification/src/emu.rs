//! The emulator shell around the core: the driver-facing pacing knobs,
//! keyboard snapshots, program loading, and the rendering of the logical
//! screen into an RGBA frame for presentation.

use vstd::prelude::*;

use crate::chip8::{initial_state, spec_fetch, step, step_ok, tick_timers, Chip8, State};
use crate::isa::decode_op;

verus! {

/// Width of the logical screen in pixels.
pub const SCREEN_WIDTH: u32 = 64;

/// Height of the logical screen in pixels.
pub const SCREEN_HEIGHT: u32 = 32;

/// Magnification from logical pixels to window pixels.
pub const SCALE: u32 = 16;

/// Frames per second the presentation loop aims for.
pub const REFRESH_RATE: u64 = 60;

/// Height of the window frame in physical pixels.
pub const WINDOW_HEIGHT: u32 = SCREEN_HEIGHT * SCALE;

/// Width of the window frame in physical pixels.
pub const WINDOW_WIDTH: u32 = SCREEN_WIDTH * SCALE;

/// The emulator: the virtual-machine core together with the pacing
/// choices of the driver loop that owns it.
pub struct Emu {
    /// The virtual machine.
    pub cpu: Chip8,
    /// Whether the driver steps the core by hand rather than at the
    /// clock rate.
    pub run_steps: bool,
    /// Core cycles per second the driver aims for.
    pub clock_rate: u64,
}

/// One byte of the RGBA window frame: window pixel `b / 4` shows the
/// logical cell it falls in after the 16-fold magnification, white when
/// lit and near-black when dark, with an opaque alpha channel.
pub open spec fn frame_byte(gfx: Seq<bool>, b: int) -> u8 {
    let q = b / 4;
    let on = gfx[((q / 1024) / 16) * 64 + ((q % 1024) / 16)];
    if b % 4 == 3 {
        0xFF
    } else if on {
        0xFF
    } else {
        0x11
    }
}

impl Default for Emu {
    /// A fresh emulator: a machine in its initial state, manual
    /// stepping, and a 600 Hz clock.
    fn default() -> (e: Self)
        ensures
            e.cpu@ == initial_state(),
            e.run_steps == true,
            e.clock_rate == 600,
    {
        Emu { cpu: Chip8::new(), run_steps: true, clock_rate: 600 }
    }
}

impl Emu {
    /// Replaces the whole keyboard snapshot with the one the driver just
    /// sampled; the core itself never mutates it.
    pub fn update_keystates(&mut self, new_keystates: [bool; 16])
        ensures
            final(self).cpu@ == (State { keys: new_keystates@, ..old(self).cpu@ }),
            final(self).run_steps == old(self).run_steps,
            final(self).clock_rate == old(self).clock_rate,
    {
        self.cpu.key_states = new_keystates;
        proof {
            assert(self.cpu@ =~= (State { keys: new_keystates@, ..old(self).cpu@ }));
        }
    }

    /// Advances the core by one cycle. The beep flag is left for the
    /// driver to observe and clear after it has signalled.
    pub fn progress(&mut self)
        requires
            step_ok(old(self).cpu@),
        ensures
            exists|b: u8| final(self).cpu@ == tick_timers(step(old(self).cpu@, b)),
            !(decode_op(spec_fetch(old(self).cpu@)) is Random) ==> final(self).cpu@
                == tick_timers(step(old(self).cpu@, 0)),
            final(self).run_steps == old(self).run_steps,
            final(self).clock_rate == old(self).clock_rate,
    {
        self.cpu.tick();
    }

    /// Renders the logical screen into an RGBA frame of the window's
    /// size, one byte at a time as `frame_byte` states.
    #[verifier::loop_isolation(false)]
    pub fn draw(&self, frame: &mut [u8])
        requires
            old(frame)@.len() == ((4 * WINDOW_WIDTH * WINDOW_HEIGHT) as nat),
        ensures
            final(frame)@ == Seq::new(
                ((4 * WINDOW_WIDTH * WINDOW_HEIGHT) as nat),
                |b: int| frame_byte(self.cpu@.gfx, b),
            ),
    {
        proof {
            assert(SCREEN_HEIGHT == 32 && SCALE == 16);
            assert(WINDOW_HEIGHT == 512);
            assert(4 * WINDOW_WIDTH * WINDOW_HEIGHT == 2097152);
        }
        let mut q: usize = 0;
        while q < 524288
            invariant
                q <= 524288,
                frame@.len() == 2097152,
                forall|b: int| 0 <= b < 4 * q ==> frame@[b] == frame_byte(self.cpu@.gfx, b),
            decreases 524288 - q,
        {
            let x: usize = (q % 1024) / 16;
            let y: usize = (q / 1024) / 16;
            let on = self.cpu.gfx[y * 64 + x];
            let shade: u8 = if on {
                0xFF
            } else {
                0x11
            };
            frame[4 * q] = shade;
            frame[4 * q + 1] = shade;
            frame[4 * q + 2] = shade;
            frame[4 * q + 3] = 0xFF;
            proof {
                assert forall|b: int| 4 * q <= b < 4 * (q + 1) implies frame@[b] == frame_byte(
                    self.cpu@.gfx,
                    b,
                ) by {
                    assert(b / 4 == q);
                }
            }
            q = q + 1;
        }
        proof {
            assert(frame@ =~= Seq::new(
                ((4 * WINDOW_WIDTH * WINDOW_HEIGHT) as nat),
                |b: int| frame_byte(self.cpu@.gfx, b),
            ));
        }
    }

    /// Copies a program image into memory starting at the conventional
    /// offset 0x200. Rejecting an image longer than the memory left
    /// above that offset is the loader's duty — the core does no bounds
    /// validation of its own.
    #[verifier::loop_isolation(false)]
    pub fn load_rom(&mut self, rom: &[u8])
        requires
            rom@.len() <= 4096 - 0x200,
        ensures
            final(self).cpu@ == (State {
                mem: Seq::new(
                    4096,
                    |j: int|
                        if 0x200 <= j < 0x200 + rom@.len() {
                            rom@[j - 0x200]
                        } else {
                            old(self).cpu@.mem[j]
                        },
                ),
                ..old(self).cpu@
            }),
            final(self).run_steps == old(self).run_steps,
            final(self).clock_rate == old(self).clock_rate,
    {
        let len = rom.len();
        let mut j: usize = 0;
        while j < len
            invariant
                j <= len,
                self.cpu.V@ == old(self).cpu.V@,
                self.cpu.I == old(self).cpu.I,
                self.cpu.pc == old(self).cpu.pc,
                self.cpu.sp == old(self).cpu.sp,
                self.cpu.stack@ == old(self).cpu.stack@,
                self.cpu.delay_timer == old(self).cpu.delay_timer,
                self.cpu.sound_timer == old(self).cpu.sound_timer,
                self.cpu.key_states@ == old(self).cpu.key_states@,
                self.cpu.gfx@ == old(self).cpu.gfx@,
                self.cpu.make_beep == old(self).cpu.make_beep,
                self.run_steps == old(self).run_steps,
                self.clock_rate == old(self).clock_rate,
                forall|p: int|
                    0 <= p < 4096 && !(0x200 <= p < 0x200 + j) ==> self.cpu.memory@[p] == old(
                        self,
                    ).cpu.memory@[p],
                forall|p: int| 0x200 <= p < 0x200 + j ==> self.cpu.memory@[p] == rom@[p - 0x200],
            decreases len - j,
        {
            self.cpu.memory[0x200 + j] = rom[j];
            j = j + 1;
        }
        proof {
            assert(self.cpu@ =~= (State {
                mem: Seq::new(
                    4096,
                    |p: int|
                        if 0x200 <= p < 0x200 + rom@.len() {
                            rom@[p - 0x200]
                        } else {
                            old(self).cpu@.mem[p]
                        },
                ),
                ..old(self).cpu@
            }));
        }
    }
}

} // verus!
