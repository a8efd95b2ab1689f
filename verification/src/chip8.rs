//! The virtual-machine core: the machine state and its single-step
//! fetch-decode-execute cycle, specified by a mathematical transition
//! function over an abstract view of the state.

use vstd::prelude::*;

use crate::display::{
    collision_upto, draw_collision, draw_gfx, draw_gfx_upto, draw_pixel_upto, hit_at,
    lemma_collision_upto_full, lemma_collision_upto_succ, lemma_draw_upto_full, lemma_hit_coords,
    lemma_hit_unique, pixel_index, sprite_bit,
};
use crate::isa::{decode, decode_op, render, render_instr, Instr};
use vstd::arithmetic::div_mod::{
    lemma_fundamental_div_mod_converse_div, lemma_fundamental_div_mod_converse_mod,
};

verus! {

/// The abstract view of a machine: every register, timer and buffer as a
/// mathematical value. The transition function `step` and the timer-decay
/// function `tick_timers` are stated over this type.
#[verifier::ext_equal]
pub ghost struct State {
    /// The sixteen 8-bit registers; index 15 is the flag register `VF`.
    pub v: Seq<u8>,
    /// The 16-bit index register `I`.
    pub i: u16,
    /// The delay timer.
    pub delay_timer: u8,
    /// The sound timer.
    pub sound_timer: u8,
    /// The sixteen return-address slots of the call stack.
    pub stack: Seq<u16>,
    /// The stack pointer: the number of live return addresses.
    pub sp: u16,
    /// The program counter, a byte offset into memory.
    pub pc: u16,
    /// The 4096 bytes of memory.
    pub mem: Seq<u8>,
    /// The sixteen key flags, as last sampled by the driver.
    pub keys: Seq<bool>,
    /// The 64 x 32 screen, row-major.
    pub gfx: Seq<bool>,
    /// Set on the tick the sound timer runs out; cleared by the driver.
    pub beep: bool,
}

/// The machine state: registers, memory, call stack, timers, input latch
/// and framebuffer, exclusively owned by the driver loop that created it.
#[allow(non_snake_case)]
pub struct Chip8 {
    /// `Vx` registers, 0 through F; `VF` doubles as the flag register.
    pub V: [u8; 16],
    /// Index register.
    pub I: u16,
    /// Delay timer.
    pub delay_timer: u8,
    /// Sound timer; a beep is signalled when it runs out.
    pub sound_timer: u8,
    /// Return addresses of the subroutines being called.
    pub stack: [u16; 16],
    /// Stack pointer.
    pub sp: u16,
    /// Program counter.
    pub pc: u16,
    /// 4 KiB of RAM.
    pub memory: [u8; 4096],
    /// 16-key keyboard snapshot.
    pub key_states: [bool; 16],
    /// 64 x 32 monochrome display.
    pub gfx: [bool; 2048],
    /// Flag to signal that a beep is due.
    pub make_beep: bool,
}

impl View for Chip8 {
    type V = State;

    open spec fn view(&self) -> State {
        State {
            v: self.V@,
            i: self.I,
            delay_timer: self.delay_timer,
            sound_timer: self.sound_timer,
            stack: self.stack@,
            sp: self.sp,
            pc: self.pc,
            mem: self.memory@,
            keys: self.key_states@,
            gfx: self.gfx@,
            beep: self.make_beep,
        }
    }
}

/// Structural well-formedness of an abstract state: the buffer lengths of
/// the concrete machine, and a stack pointer within its sixteen slots.
pub open spec fn wf(s: State) -> bool {
    &&& s.v.len() == 16
    &&& s.stack.len() == 16
    &&& s.mem.len() == 4096
    &&& s.keys.len() == 16
    &&& s.gfx.len() == 2048
    &&& s.sp <= 16
}

/// The eighty bytes of the glyph table: five-byte bitmaps of the
/// hexadecimal digits 0 through F, resident at the bottom of memory.
pub open spec fn glyph_table() -> Seq<u8> {
    seq![
        0xF0u8, 0x90, 0x90, 0x90, 0xF0, // 0
        0x20, 0x60, 0x20, 0x20, 0x70, // 1
        0xF0, 0x10, 0xF0, 0x80, 0xF0, // 2
        0xF0, 0x10, 0xF0, 0x10, 0xF0, // 3
        0x90, 0x90, 0xF0, 0x10, 0x10, // 4
        0xF0, 0x80, 0xF0, 0x10, 0xF0, // 5
        0xF0, 0x80, 0xF0, 0x90, 0xF0, // 6
        0xF0, 0x10, 0x20, 0x40, 0x40, // 7
        0xF0, 0x90, 0xF0, 0x90, 0xF0, // 8
        0xF0, 0x90, 0xF0, 0x10, 0xF0, // 9
        0xF0, 0x90, 0xF0, 0x90, 0x90, // A
        0xE0, 0x90, 0xE0, 0x90, 0xE0, // B
        0xF0, 0x80, 0x80, 0x80, 0xF0, // C
        0xE0, 0x90, 0x90, 0x90, 0xE0, // D
        0xF0, 0x80, 0xF0, 0x08, 0xF0, // E
        0xF0, 0x80, 0xF0, 0x08, 0x80, // F
    ]
}

/// The state of a freshly constructed machine: everything zeroed except
/// the glyph table at the bottom of memory and the program counter, which
/// starts at the conventional program offset 0x200.
pub open spec fn initial_state() -> State {
    State {
        v: Seq::new(16, |j: int| 0u8),
        i: 0,
        delay_timer: 0,
        sound_timer: 0,
        stack: Seq::new(16, |j: int| 0u16),
        sp: 0,
        pc: 0x200,
        mem: Seq::new(4096, |j: int| if j < 80 { glyph_table()[j] } else { 0u8 }),
        keys: Seq::new(16, |j: int| false),
        gfx: Seq::new(2048, |j: int| false),
        beep: false,
    }
}

/// The opcode fetched at the program counter: two consecutive memory
/// bytes combined big-endian.
pub open spec fn spec_fetch(s: State) -> u16 {
    (s.mem[s.pc as int] * 0x100 + s.mem[s.pc as int + 1]) as u16
}

/// Addition of two register bytes, wrapping modulo 256.
pub open spec fn wrap_add(a: u8, b: u8) -> u8 {
    ((a + b) % 256) as u8
}

/// Subtraction of two register bytes, wrapping modulo 256.
pub open spec fn wrap_sub(a: u8, b: u8) -> u8 {
    ((a - b + 256) % 256) as u8
}

/// The highest pressed key with index below `n`, or -1 when none of the
/// first `n` keys is pressed.
pub open spec fn scan_key(keys: Seq<bool>, n: nat) -> int
    decreases n,
{
    if n == 0 {
        -1
    } else if keys[n - 1] {
        n - 1
    } else {
        scan_key(keys, (n - 1) as nat)
    }
}

/// The program counter moved past the current two-byte instruction.
pub open spec fn adv(pc: u16) -> u16 {
    (pc + 2) as u16
}

/// The program counter moved past the current instruction and the one
/// after it, for the skip instructions.
pub open spec fn adv_skip(pc: u16) -> u16 {
    (pc + 4) as u16
}

/// One timer-decay phase: each nonzero timer counts down by one, and the
/// beep flag is raised on the tick the sound timer goes from 1 to 0.
pub open spec fn tick_timers(s: State) -> State {
    State {
        delay_timer: if s.delay_timer > 0 {
            (s.delay_timer - 1) as u8
        } else {
            0
        },
        sound_timer: if s.sound_timer > 0 {
            (s.sound_timer - 1) as u8
        } else {
            0
        },
        beep: s.beep || s.sound_timer == 1,
        ..s
    }
}

/// The fetch-decode-execute phase of one cycle: the machine after the
/// instruction at the program counter has run. `rnd` is the byte the
/// random-number source hands the one instruction that consumes it; every
/// other instruction ignores it.
pub open spec fn step(s: State, rnd: u8) -> State {
    let op = spec_fetch(s);
    match decode_op(op) {
        Instr::Sys => State { pc: adv(s.pc), ..s },
        Instr::Cls => State { gfx: Seq::new(2048, |p: int| false), pc: adv(s.pc), ..s },
        Instr::Ret => State {
            sp: (s.sp - 1) as u16,
            pc: (s.stack[s.sp - 1] + 2) as u16,
            ..s
        },
        Instr::Jump { addr } => State { pc: addr, ..s },
        Instr::Call { addr } => State {
            stack: s.stack.update(s.sp as int, s.pc),
            sp: (s.sp + 1) as u16,
            pc: addr,
            ..s
        },
        Instr::SkipEqByte { x, kk } => State {
            pc: if s.v[x as int] == kk {
                adv_skip(s.pc)
            } else {
                adv(s.pc)
            },
            ..s
        },
        Instr::SkipNeByte { x, kk } => State {
            pc: if s.v[x as int] != kk {
                adv_skip(s.pc)
            } else {
                adv(s.pc)
            },
            ..s
        },
        Instr::SkipEqReg { x, y } => State {
            pc: if s.v[x as int] == s.v[y as int] {
                adv_skip(s.pc)
            } else {
                adv(s.pc)
            },
            ..s
        },
        Instr::LoadByte { x, kk } => State { v: s.v.update(x as int, kk), pc: adv(s.pc), ..s },
        Instr::AddByte { x, kk } => State {
            v: s.v.update(x as int, wrap_add(s.v[x as int], kk)),
            pc: adv(s.pc),
            ..s
        },
        Instr::LoadReg { x, y } => State {
            v: s.v.update(x as int, s.v[y as int]),
            pc: adv(s.pc),
            ..s
        },
        Instr::OrReg { x, y } => State {
            v: s.v.update(x as int, s.v[x as int] | s.v[y as int]),
            pc: adv(s.pc),
            ..s
        },
        Instr::AndReg { x, y } => State {
            v: s.v.update(x as int, s.v[x as int] & s.v[y as int]),
            pc: adv(s.pc),
            ..s
        },
        Instr::XorReg { x, y } => State {
            v: s.v.update(x as int, s.v[x as int] ^ s.v[y as int]),
            pc: adv(s.pc),
            ..s
        },
        Instr::AddReg { x, y } => State {
            v: s.v.update(x as int, wrap_add(s.v[x as int], s.v[y as int])).update(
                15,
                if s.v[x as int] + s.v[y as int] > 255 {
                    1u8
                } else {
                    0u8
                },
            ),
            pc: adv(s.pc),
            ..s
        },
        Instr::SubReg { x, y } => State {
            v: s.v.update(x as int, wrap_sub(s.v[x as int], s.v[y as int])).update(
                15,
                if s.v[x as int] >= s.v[y as int] {
                    1u8
                } else {
                    0u8
                },
            ),
            pc: adv(s.pc),
            ..s
        },
        Instr::ShiftRight { x, y } => State {
            v: s.v.update(x as int, s.v[x as int] / 2).update(15, s.v[x as int] % 2),
            pc: adv(s.pc),
            ..s
        },
        Instr::SubnReg { x, y } => State {
            v: s.v.update(x as int, wrap_sub(s.v[y as int], s.v[x as int])).update(
                15,
                if s.v[y as int] >= s.v[x as int] {
                    1u8
                } else {
                    0u8
                },
            ),
            pc: adv(s.pc),
            ..s
        },
        Instr::ShiftLeft { x, y } => State {
            v: s.v.update(x as int, ((s.v[x as int] * 2) % 256) as u8).update(
                15,
                s.v[x as int] / 128,
            ),
            pc: adv(s.pc),
            ..s
        },
        Instr::SkipNeReg { x, y } => State {
            pc: if s.v[x as int] != s.v[y as int] {
                adv_skip(s.pc)
            } else {
                adv(s.pc)
            },
            ..s
        },
        Instr::LoadIndex { addr } => State { i: addr, pc: adv(s.pc), ..s },
        Instr::JumpV0 { addr } => State { pc: (s.v[0] + addr) as u16, ..s },
        Instr::Random { x, kk } => State {
            v: s.v.update(x as int, rnd & kk),
            pc: adv(s.pc),
            ..s
        },
        Instr::Draw { x, y, n } => {
            let vx = s.v[x as int];
            let vy = s.v[y as int];
            State {
                gfx: draw_gfx(s.gfx, s.mem, s.i, vx, vy, n),
                v: s.v.update(
                    15,
                    if draw_collision(s.gfx, s.mem, s.i, vx, vy, n) {
                        1u8
                    } else {
                        0u8
                    },
                ),
                pc: adv(s.pc),
                ..s
            }
        },
        Instr::SkipKey { x } => State {
            pc: if s.keys[s.v[x as int] as int] {
                adv_skip(s.pc)
            } else {
                adv(s.pc)
            },
            ..s
        },
        Instr::SkipNoKey { x } => State {
            pc: if !s.keys[s.v[x as int] as int] {
                adv_skip(s.pc)
            } else {
                adv(s.pc)
            },
            ..s
        },
        Instr::LoadDelay { x } => State {
            v: s.v.update(x as int, s.delay_timer),
            pc: adv(s.pc),
            ..s
        },
        Instr::WaitKey { x } => {
            let k = scan_key(s.keys, 16);
            if k >= 0 {
                State { v: s.v.update(x as int, k as u8), pc: adv(s.pc), ..s }
            } else {
                s
            }
        },
        Instr::SetDelay { x } => State { delay_timer: s.v[x as int], pc: adv(s.pc), ..s },
        Instr::SetSound { x } => State { sound_timer: s.v[x as int], pc: adv(s.pc), ..s },
        Instr::AddIndex { x } => State { i: (s.i + s.v[x as int]) as u16, pc: adv(s.pc), ..s },
        Instr::LoadGlyph { x } => State { i: (5 * s.v[x as int]) as u16, pc: adv(s.pc), ..s },
        Instr::StoreBcd { x } => {
            let vx = s.v[x as int];
            State {
                mem: s.mem.update(s.i as int, (vx / 100) as u8).update(
                    s.i as int + 1,
                    ((vx / 10) % 10) as u8,
                ).update(s.i as int + 2, (vx % 10) as u8),
                pc: adv(s.pc),
                ..s
            }
        },
        Instr::StoreRegs { x } => State {
            mem: Seq::new(
                4096,
                |j: int|
                    if s.i <= j <= s.i + x {
                        s.v[j - s.i]
                    } else {
                        s.mem[j]
                    },
            ),
            pc: adv(s.pc),
            ..s
        },
        Instr::LoadRegs { x } => State {
            v: Seq::new(
                16,
                |j: int|
                    if j <= x {
                        s.mem[s.i + j]
                    } else {
                        s.v[j]
                    },
            ),
            pc: adv(s.pc),
            ..s
        },
        Instr::Unknown => s,
    }
}

/// The inputs on which one cycle is defined: a well-formed state, an
/// in-bounds fetch, and the per-instruction conditions that the legacy
/// machine treats as fatal (stack overflow and underflow, an unrecognized
/// bit pattern) or that the memory and register bounds force.
pub open spec fn step_ok(s: State) -> bool {
    &&& wf(s)
    &&& s.pc + 1 < 4096
    &&& match decode_op(spec_fetch(s)) {
        Instr::Unknown => false,
        Instr::Ret => s.sp >= 1 && s.stack[s.sp - 1] + 2 <= u16::MAX,
        Instr::Call { .. } => s.sp < 16,
        Instr::Draw { x, y, n } => s.i + n <= 4096,
        Instr::SkipKey { x } => s.v[x as int] < 16,
        Instr::SkipNoKey { x } => s.v[x as int] < 16,
        Instr::AddIndex { x } => s.i + s.v[x as int] <= u16::MAX,
        Instr::StoreBcd { .. } => s.i + 2 < 4096,
        Instr::StoreRegs { x } => s.i + x < 4096,
        Instr::LoadRegs { x } => s.i + x < 4096,
        _ => true,
    }
}

impl Chip8 {
    /// Builds a fresh machine in the initial state.
    pub fn new() -> (c: Self)
        ensures
            c@ == initial_state(),
    {
        let mut c = Chip8 {
            V: [0u8; 16],
            I: 0,
            delay_timer: 0,
            sound_timer: 0,
            stack: [0u16; 16],
            sp: 0,
            pc: 0x200,
            memory: [0u8; 4096],
            key_states: [false; 16],
            gfx: [false; 2048],
            make_beep: false,
        };
        let sprites: [u8; 80] = [
            0xF0, 0x90, 0x90, 0x90, 0xF0, // 0
            0x20, 0x60, 0x20, 0x20, 0x70, // 1
            0xF0, 0x10, 0xF0, 0x80, 0xF0, // 2
            0xF0, 0x10, 0xF0, 0x10, 0xF0, // 3
            0x90, 0x90, 0xF0, 0x10, 0x10, // 4
            0xF0, 0x80, 0xF0, 0x10, 0xF0, // 5
            0xF0, 0x80, 0xF0, 0x90, 0xF0, // 6
            0xF0, 0x10, 0x20, 0x40, 0x40, // 7
            0xF0, 0x90, 0xF0, 0x90, 0xF0, // 8
            0xF0, 0x90, 0xF0, 0x10, 0xF0, // 9
            0xF0, 0x90, 0xF0, 0x90, 0x90, // A
            0xE0, 0x90, 0xE0, 0x90, 0xE0, // B
            0xF0, 0x80, 0x80, 0x80, 0xF0, // C
            0xE0, 0x90, 0x90, 0x90, 0xE0, // D
            0xF0, 0x80, 0xF0, 0x08, 0xF0, // E
            0xF0, 0x80, 0xF0, 0x08, 0x80, // F
        ];
        assert(sprites@ =~= glyph_table());
        let mut k: usize = 0;
        while k < 80
            invariant
                k <= 80,
                sprites@ == glyph_table(),
                c.memory@.len() == 4096,
                forall|j: int| 0 <= j < k ==> c.memory@[j] == glyph_table()[j],
                forall|j: int| k <= j < 4096 ==> c.memory@[j] == 0u8,
                forall|j: int| 0 <= j < 16 ==> c.V@[j] == 0u8,
                forall|j: int| 0 <= j < 16 ==> c.stack@[j] == 0u16,
                forall|j: int| 0 <= j < 16 ==> c.key_states@[j] == false,
                forall|j: int| 0 <= j < 2048 ==> c.gfx@[j] == false,
                c.I == 0 && c.delay_timer == 0 && c.sound_timer == 0,
                c.sp == 0 && c.pc == 0x200 && !c.make_beep,
            decreases 80 - k,
        {
            c.memory[k] = sprites[k];
            k += 1;
        }
        proof {
            assert(c@ =~= initial_state());
        }
        c
    }

    /// Fetches the opcode at the current program counter.
    pub fn get_opcode(&self) -> (op: u16)
        requires
            self.pc + 1 < 4096,
        ensures
            op == spec_fetch(self@),
    {
        let hi: u16 = self.memory[self.pc as usize] as u16;
        let lo: u16 = self.memory[(self.pc + 1) as usize] as u16;
        hi * 0x100 + lo
    }

    /// Disassembles an opcode into its display text, exactly as `render`
    /// states it of the decoded instruction. It mirrors the execute
    /// dispatch — both are derived from the one classification — but
    /// touches no machine state.
    pub fn decode_instruction(opcode: &u16) -> (text: String)
        requires
            !(decode_op(*opcode) is Unknown),
        ensures
            text@ == render(decode_op(*opcode)),
    {
        render_instr(decode(*opcode))
    }

    /// Whether one cycle is defined at the current state: exactly the
    /// condition `tick` asks of its caller. A driver checks this before
    /// stepping and treats a refusal as the fatal error the legacy
    /// machine makes of it.
    pub fn can_tick(&self) -> (ok: bool)
        ensures
            ok == step_ok(self@),
    {
        if !(self.pc < 4095) {
            return false;
        }
        if !(self.sp <= 16) {
            return false;
        }
        let op = self.get_opcode();
        let instr = decode(op);
        match instr {
            Instr::Unknown => false,
            Instr::Ret => self.sp >= 1 && self.stack[(self.sp - 1) as usize] <= 0xFFFD,
            Instr::Call { .. } => self.sp < 16,
            Instr::Draw { n, .. } => (self.I as usize) + (n as usize) <= 4096,
            Instr::SkipKey { x } => self.V[x as usize] < 16,
            Instr::SkipNoKey { x } => self.V[x as usize] < 16,
            Instr::AddIndex { x } => (self.I as u32) + (self.V[x as usize] as u32) <= 0xFFFF,
            Instr::StoreBcd { .. } => self.I < 4094,
            Instr::StoreRegs { x } => (self.I as usize) + (x as usize) < 4096,
            Instr::LoadRegs { x } => (self.I as usize) + (x as usize) < 4096,
            _ => true,
        }
    }

    /// Runs one full cycle: the instruction at the program counter, then
    /// one timer-decay step. The cycle is `step` with some byte from the
    /// random-number source, followed by `tick_timers`; for every
    /// instruction but the random one the byte is irrelevant.
    pub fn tick(&mut self)
        requires
            step_ok(old(self)@),
        ensures
            exists|b: u8| final(self)@ == tick_timers(step(old(self)@, b)),
            !(decode_op(spec_fetch(old(self)@)) is Random) ==> final(self)@ == tick_timers(
                step(old(self)@, 0),
            ),
    {
        self.execute_opcode();
        let ghost mid = self@;
        self.update_timers();
        proof {
            if decode_op(spec_fetch(old(self)@)) is Random {
                let b = choose|b: u8| mid == step(old(self)@, b);
                assert(self@ == tick_timers(step(old(self)@, b)));
            } else {
                assert(self@ == tick_timers(step(old(self)@, 0)));
            }
        }
    }

    /// One timer-decay phase, as `tick_timers` says.
    fn update_timers(&mut self)
        ensures
            final(self)@ == tick_timers(old(self)@),
    {
        if self.delay_timer > 0 {
            self.delay_timer = self.delay_timer - 1;
        }
        if self.sound_timer > 0 {
            if self.sound_timer == 1 {
                self.make_beep = true;
            }
            self.sound_timer = self.sound_timer - 1;
        }
        proof {
            assert(self@ =~= tick_timers(old(self)@));
        }
    }

    /// The fetch-decode-execute phase: runs the instruction at the
    /// program counter, leaving the machine at `step` of the old state.
    fn execute_opcode(&mut self)
        requires
            step_ok(old(self)@),
        ensures
            exists|b: u8| final(self)@ == step(old(self)@, b),
            !(decode_op(spec_fetch(old(self)@)) is Random) ==> final(self)@ == step(
                old(self)@,
                0,
            ),
    {
        let op = self.get_opcode();
        let instr = decode(op);
        match instr {
            Instr::Sys => {
                self.pc = self.pc + 2;
                assert(self@ =~= step(old(self)@, 0));
            },
            Instr::Cls => {
                self.gfx = [false; 2048];
                self.pc = self.pc + 2;
                assert(self@ =~= step(old(self)@, 0));
            },
            Instr::Ret => {
                self.sp = self.sp - 1;
                self.pc = self.stack[self.sp as usize];
                self.pc = self.pc + 2;
                assert(self@ =~= step(old(self)@, 0));
            },
            Instr::Jump { addr } => {
                self.pc = addr;
                assert(self@ =~= step(old(self)@, 0));
            },
            Instr::Call { addr } => {
                self.stack[self.sp as usize] = self.pc;
                self.sp = self.sp + 1;
                self.pc = addr;
                assert(self@ =~= step(old(self)@, 0));
            },
            Instr::SkipEqByte { x, kk } => {
                if self.V[x as usize] == kk {
                    self.pc = self.pc + 2;
                }
                self.pc = self.pc + 2;
                assert(self@ =~= step(old(self)@, 0));
            },
            Instr::SkipNeByte { x, kk } => {
                if self.V[x as usize] != kk {
                    self.pc = self.pc + 2;
                }
                self.pc = self.pc + 2;
                assert(self@ =~= step(old(self)@, 0));
            },
            Instr::SkipEqReg { x, y } => {
                if self.V[x as usize] == self.V[y as usize] {
                    self.pc = self.pc + 2;
                }
                self.pc = self.pc + 2;
                assert(self@ =~= step(old(self)@, 0));
            },
            Instr::LoadByte { x, kk } => {
                self.V[x as usize] = kk;
                self.pc = self.pc + 2;
                assert(self@ =~= step(old(self)@, 0));
            },
            Instr::AddByte { x, kk } => {
                let sum: u16 = self.V[x as usize] as u16 + kk as u16;
                self.V[x as usize] = (sum % 256) as u8;
                self.pc = self.pc + 2;
                assert(self@ =~= step(old(self)@, 0));
            },
            Instr::LoadReg { x, y } => {
                self.V[x as usize] = self.V[y as usize];
                self.pc = self.pc + 2;
                assert(self@ =~= step(old(self)@, 0));
            },
            Instr::OrReg { x, y } => {
                self.V[x as usize] = self.V[x as usize] | self.V[y as usize];
                self.pc = self.pc + 2;
                assert(self@ =~= step(old(self)@, 0));
            },
            Instr::AndReg { x, y } => {
                self.V[x as usize] = self.V[x as usize] & self.V[y as usize];
                self.pc = self.pc + 2;
                assert(self@ =~= step(old(self)@, 0));
            },
            Instr::XorReg { x, y } => {
                self.V[x as usize] = self.V[x as usize] ^ self.V[y as usize];
                self.pc = self.pc + 2;
                assert(self@ =~= step(old(self)@, 0));
            },
            Instr::AddReg { x, y } => {
                let sum: u16 = self.V[x as usize] as u16 + self.V[y as usize] as u16;
                self.V[x as usize] = (sum % 256) as u8;
                self.V[15] = if sum > 255 {
                    1
                } else {
                    0
                };
                self.pc = self.pc + 2;
                assert(self@ =~= step(old(self)@, 0));
            },
            Instr::SubReg { x, y } => {
                let vx = self.V[x as usize];
                let vy = self.V[y as usize];
                let diff: u16 = (vx as u16 + 256) - vy as u16;
                self.V[x as usize] = (diff % 256) as u8;
                self.V[15] = if vx >= vy {
                    1
                } else {
                    0
                };
                self.pc = self.pc + 2;
                assert(self@ =~= step(old(self)@, 0));
            },
            Instr::ShiftRight { x, .. } => {
                let vx = self.V[x as usize];
                self.V[x as usize] = vx / 2;
                self.V[15] = vx % 2;
                self.pc = self.pc + 2;
                assert(self@ =~= step(old(self)@, 0));
            },
            Instr::SubnReg { x, y } => {
                let vx = self.V[x as usize];
                let vy = self.V[y as usize];
                let diff: u16 = (vy as u16 + 256) - vx as u16;
                self.V[x as usize] = (diff % 256) as u8;
                self.V[15] = if vy >= vx {
                    1
                } else {
                    0
                };
                self.pc = self.pc + 2;
                assert(self@ =~= step(old(self)@, 0));
            },
            Instr::ShiftLeft { x, .. } => {
                let vx = self.V[x as usize];
                let doubled: u16 = vx as u16 * 2;
                self.V[x as usize] = (doubled % 256) as u8;
                self.V[15] = vx / 128;
                self.pc = self.pc + 2;
                assert(self@ =~= step(old(self)@, 0));
            },
            Instr::SkipNeReg { x, y } => {
                if self.V[x as usize] != self.V[y as usize] {
                    self.pc = self.pc + 4;
                } else {
                    self.pc = self.pc + 2;
                }
                assert(self@ =~= step(old(self)@, 0));
            },
            Instr::LoadIndex { addr } => {
                self.I = addr;
                self.pc = self.pc + 2;
                assert(self@ =~= step(old(self)@, 0));
            },
            Instr::JumpV0 { addr } => {
                self.pc = self.V[0] as u16 + addr;
                assert(self@ =~= step(old(self)@, 0));
            },
            Instr::Random { x, kk } => {
                let rb = random_byte();
                self.V[x as usize] = rb & kk;
                self.pc = self.pc + 2;
                assert(self@ =~= step(old(self)@, rb));
            },
            Instr::Draw { x, y, n } => {
                self.op_draw(x, y, n);
                assert(self@ =~= step(old(self)@, 0));
            },
            Instr::SkipKey { x } => {
                let vx = self.V[x as usize];
                if self.key_states[vx as usize] {
                    self.pc = self.pc + 2;
                }
                self.pc = self.pc + 2;
                assert(self@ =~= step(old(self)@, 0));
            },
            Instr::SkipNoKey { x } => {
                let vx = self.V[x as usize];
                if !self.key_states[vx as usize] {
                    self.pc = self.pc + 2;
                }
                self.pc = self.pc + 2;
                assert(self@ =~= step(old(self)@, 0));
            },
            Instr::LoadDelay { x } => {
                self.V[x as usize] = self.delay_timer;
                self.pc = self.pc + 2;
                assert(self@ =~= step(old(self)@, 0));
            },
            Instr::WaitKey { x } => {
                self.op_wait_key(x);
                assert(self@ =~= step(old(self)@, 0));
            },
            Instr::SetDelay { x } => {
                self.delay_timer = self.V[x as usize];
                self.pc = self.pc + 2;
                assert(self@ =~= step(old(self)@, 0));
            },
            Instr::SetSound { x } => {
                self.sound_timer = self.V[x as usize];
                self.pc = self.pc + 2;
                assert(self@ =~= step(old(self)@, 0));
            },
            Instr::AddIndex { x } => {
                self.I = self.I + self.V[x as usize] as u16;
                self.pc = self.pc + 2;
                assert(self@ =~= step(old(self)@, 0));
            },
            Instr::LoadGlyph { x } => {
                self.I = 5 * (self.V[x as usize] as u16);
                self.pc = self.pc + 2;
                assert(self@ =~= step(old(self)@, 0));
            },
            Instr::StoreBcd { x } => {
                let vx = self.V[x as usize];
                let base = self.I as usize;
                self.memory[base] = vx / 100;
                self.memory[base + 1] = (vx / 10) % 10;
                self.memory[base + 2] = vx % 10;
                self.pc = self.pc + 2;
                assert(self@ =~= step(old(self)@, 0));
            },
            Instr::StoreRegs { x } => {
                self.op_store_regs(x);
                assert(self@ =~= step(old(self)@, 0));
            },
            Instr::LoadRegs { x } => {
                self.op_load_regs(x);
                assert(self@ =~= step(old(self)@, 0));
            },
            Instr::Unknown => {
                proof {
                    assert(false);
                }
            },
        }
    }

    /// XOR-blits the `n`-row sprite at memory offset `I` onto the screen
    /// at the wrapped coordinates `(Vx, Vy)` and sets the collision flag.
    #[verifier::loop_isolation(false)]
    fn op_draw(&mut self, x: u8, y: u8, n: u8)
        requires
            x < 16,
            y < 16,
            n < 16,
            old(self).I + n <= 4096,
            old(self).pc + 2 <= u16::MAX,
        ensures
            final(self)@ == (State {
                gfx: draw_gfx(
                    old(self)@.gfx,
                    old(self)@.mem,
                    old(self)@.i,
                    old(self)@.v[x as int],
                    old(self)@.v[y as int],
                    n,
                ),
                v: old(self)@.v.update(
                    15,
                    if draw_collision(
                        old(self)@.gfx,
                        old(self)@.mem,
                        old(self)@.i,
                        old(self)@.v[x as int],
                        old(self)@.v[y as int],
                        n,
                    ) {
                        1u8
                    } else {
                        0u8
                    },
                ),
                pc: adv(old(self)@.pc),
                ..old(self)@
            }),
    {
        let vxb = self.V[x as usize];
        let vyb = self.V[y as usize];
        let ghost g0 = self@.gfx;
        let ghost m0 = self@.mem;
        let ghost i0 = self@.i;
        let mut collision = false;
        let mut row: usize = 0;
        while row < n as usize
            invariant
                row <= n as usize,
                self.V@ == old(self).V@,
                self.I == old(self).I,
                self.pc == old(self).pc,
                self.sp == old(self).sp,
                self.stack@ == old(self).stack@,
                self.memory@ == old(self).memory@,
                self.delay_timer == old(self).delay_timer,
                self.sound_timer == old(self).sound_timer,
                self.key_states@ == old(self).key_states@,
                self.make_beep == old(self).make_beep,
                self.gfx@ == draw_gfx_upto(g0, m0, i0, vxb, vyb, 8 * row),
                collision == collision_upto(g0, m0, i0, vxb, vyb, 8 * row),
            decreases n as int - row,
        {
            let byte = self.memory[self.I as usize + row];
            let mut col: usize = 0;
            while col < 8
                invariant
                    col <= 8,
                    row < n as usize,
                    byte == m0[i0 + row],
                    self.V@ == old(self).V@,
                    self.I == old(self).I,
                    self.pc == old(self).pc,
                    self.sp == old(self).sp,
                    self.stack@ == old(self).stack@,
                    self.memory@ == old(self).memory@,
                    self.delay_timer == old(self).delay_timer,
                    self.sound_timer == old(self).sound_timer,
                    self.key_states@ == old(self).key_states@,
                    self.make_beep == old(self).make_beep,
                    self.gfx@ == draw_gfx_upto(g0, m0, i0, vxb, vyb, 8 * row + col),
                    collision == collision_upto(g0, m0, i0, vxb, vyb, 8 * row + col),
                decreases 8 - col,
            {
                let ghost k: int = 8 * row + col;
                let py: usize = (vyb as usize + row) % 32;
                let px: usize = (vxb as usize + col) % 64;
                let idx: usize = py * 64 + px;
                proof {
                    lemma_hit_coords(vxb, vyb, row as int, col as int);
                    assert(idx == pixel_index(vxb, vyb, row as int, col as int));
                }
                let shift: u8 = (7 - col) as u8;
                let bit = ((byte >> shift) & 1) == 1;
                let cur = self.gfx[idx];
                proof {
                    assert(bit == sprite_bit(m0[i0 + row], col as int));
                    assert(draw_pixel_upto(g0, m0, i0, vxb, vyb, k, idx as int) == g0[idx as int]);
                    assert(cur == g0[idx as int]);
                }
                if cur && bit {
                    collision = true;
                }
                self.gfx[idx] = cur != bit;
                proof {
                    lemma_collision_upto_succ(g0, m0, i0, vxb, vyb, k);
                    assert(hit_at(g0, m0, i0, vxb, vyb, k) == (g0[idx as int] && sprite_bit(
                        m0[i0 + row],
                        col as int,
                    ))) by {
                        lemma_fundamental_div_mod_converse_div(k, 8, row as int, col as int);
                        lemma_fundamental_div_mod_converse_mod(k, 8, row as int, col as int);
                    };
                    assert(collision == collision_upto(g0, m0, i0, vxb, vyb, k + 1));
                    assert forall|p: int|
                        0 <= p < 2048 && p != idx implies draw_pixel_upto(
                        g0,
                        m0,
                        i0,
                        vxb,
                        vyb,
                        k + 1,
                        p,
                    ) == draw_pixel_upto(g0, m0, i0, vxb, vyb, k, p) by {
                        lemma_hit_unique(vxb, vyb, p);
                    };
                    assert(draw_pixel_upto(g0, m0, i0, vxb, vyb, k + 1, idx as int) == (g0[idx as int]
                        != sprite_bit(m0[i0 + row], col as int)));
                    assert(self.gfx@ =~= draw_gfx_upto(g0, m0, i0, vxb, vyb, k + 1));
                }
                col = col + 1;
            }
            row = row + 1;
        }
        self.V[15] = if collision {
            1
        } else {
            0
        };
        self.pc = self.pc + 2;
        proof {
            lemma_collision_upto_full(g0, m0, i0, vxb, vyb, n);
            lemma_draw_upto_full(g0, m0, i0, vxb, vyb, n);
            assert(self@ =~= (State {
                gfx: draw_gfx(g0, m0, i0, vxb, vyb, n),
                v: old(self)@.v.update(
                    15,
                    if draw_collision(g0, m0, i0, vxb, vyb, n) {
                        1u8
                    } else {
                        0u8
                    },
                ),
                pc: adv(old(self)@.pc),
                ..old(self)@
            }));
        }
    }

    /// Scans the key latch: when some key is pressed, stores the highest
    /// pressed key in `Vx` and advances; when none is, leaves the state
    /// alone, so the instruction runs again on the next cycle.
    #[verifier::loop_isolation(false)]
    fn op_wait_key(&mut self, x: u8)
        requires
            x < 16,
            old(self).pc + 2 <= u16::MAX,
        ensures
            final(self)@ == (if scan_key(old(self)@.keys, 16) >= 0 {
                State {
                    v: old(self)@.v.update(x as int, scan_key(old(self)@.keys, 16) as u8),
                    pc: adv(old(self)@.pc),
                    ..old(self)@
                }
            } else {
                old(self)@
            }),
    {
        let mut pressed = false;
        let mut val: u8 = 0;
        let mut kidx: usize = 0;
        while kidx < 16
            invariant
                kidx <= 16,
                pressed == (scan_key(self.key_states@, kidx as nat) >= 0),
                pressed ==> val == scan_key(self.key_states@, kidx as nat),
            decreases 16 - kidx,
        {
            if self.key_states[kidx] {
                pressed = true;
                val = kidx as u8;
            }
            kidx = kidx + 1;
        }
        if pressed {
            self.V[x as usize] = val;
            self.pc = self.pc + 2;
        }
        proof {
            if scan_key(old(self)@.keys, 16) >= 0 {
                assert(self@ =~= (State {
                    v: old(self)@.v.update(x as int, scan_key(old(self)@.keys, 16) as u8),
                    pc: adv(old(self)@.pc),
                    ..old(self)@
                }));
            } else {
                assert(self@ =~= old(self)@);
            }
        }
    }

    /// Writes registers `V0` through `Vx`, in order, to memory starting
    /// at `I`.
    #[verifier::loop_isolation(false)]
    fn op_store_regs(&mut self, x: u8)
        requires
            x < 16,
            old(self).I + x < 4096,
            old(self).pc + 2 <= u16::MAX,
        ensures
            final(self)@ == (State {
                mem: Seq::new(
                    4096,
                    |j: int|
                        if old(self)@.i <= j <= old(self)@.i + x {
                            old(self)@.v[j - old(self)@.i]
                        } else {
                            old(self)@.mem[j]
                        },
                ),
                pc: adv(old(self)@.pc),
                ..old(self)@
            }),
    {
        let base = self.I as usize;
        let mut j: usize = 0;
        while j <= x as usize
            invariant
                j <= x as usize + 1,
                self.V@ == old(self).V@,
                self.I == old(self).I,
                self.pc == old(self).pc,
                self.sp == old(self).sp,
                self.stack@ == old(self).stack@,
                self.delay_timer == old(self).delay_timer,
                self.sound_timer == old(self).sound_timer,
                self.key_states@ == old(self).key_states@,
                self.gfx@ == old(self).gfx@,
                self.make_beep == old(self).make_beep,
                forall|p: int|
                    0 <= p < 4096 && !(base <= p < base + j) ==> self.memory@[p] == old(
                        self,
                    ).memory@[p],
                forall|p: int| base <= p < base + j ==> self.memory@[p] == old(self).V@[p - base],
            decreases x as int + 1 - j,
        {
            self.memory[base + j] = self.V[j];
            j = j + 1;
        }
        self.pc = self.pc + 2;
        proof {
            assert(self@ =~= (State {
                mem: Seq::new(
                    4096,
                    |p: int|
                        if old(self)@.i <= p <= old(self)@.i + x {
                            old(self)@.v[p - old(self)@.i]
                        } else {
                            old(self)@.mem[p]
                        },
                ),
                pc: adv(old(self)@.pc),
                ..old(self)@
            }));
        }
    }

    /// Reads memory starting at `I` into registers `V0` through `Vx`, in
    /// order.
    #[verifier::loop_isolation(false)]
    fn op_load_regs(&mut self, x: u8)
        requires
            x < 16,
            old(self).I + x < 4096,
            old(self).pc + 2 <= u16::MAX,
        ensures
            final(self)@ == (State {
                v: Seq::new(
                    16,
                    |j: int|
                        if j <= x {
                            old(self)@.mem[old(self)@.i + j]
                        } else {
                            old(self)@.v[j]
                        },
                ),
                pc: adv(old(self)@.pc),
                ..old(self)@
            }),
    {
        let base = self.I as usize;
        let mut j: usize = 0;
        while j <= x as usize
            invariant
                j <= x as usize + 1,
                self.I == old(self).I,
                self.pc == old(self).pc,
                self.sp == old(self).sp,
                self.stack@ == old(self).stack@,
                self.memory@ == old(self).memory@,
                self.delay_timer == old(self).delay_timer,
                self.sound_timer == old(self).sound_timer,
                self.key_states@ == old(self).key_states@,
                self.gfx@ == old(self).gfx@,
                self.make_beep == old(self).make_beep,
                forall|p: int| j <= p < 16 ==> self.V@[p] == old(self).V@[p],
                forall|p: int| 0 <= p < j ==> self.V@[p] == old(self).memory@[base + p],
            decreases x as int + 1 - j,
        {
            self.V[j] = self.memory[base + j];
            j = j + 1;
        }
        self.pc = self.pc + 2;
        proof {
            assert(self@ =~= (State {
                v: Seq::new(
                    16,
                    |p: int|
                        if p <= x {
                            old(self)@.mem[old(self)@.i + p]
                        } else {
                            old(self)@.v[p]
                        },
                ),
                pc: adv(old(self)@.pc),
                ..old(self)@
            }));
        }
    }
}

impl Default for Chip8 {
    /// A fresh machine, exactly as `new` builds it.
    fn default() -> (c: Self)
        ensures
            c@ == initial_state(),
    {
        Chip8::new()
    }
}

/// Relies on `rand::random`: one byte drawn from the thread-local
/// generator. Nothing is promised of the value; the contract of the
/// random instruction holds whatever comes back.
#[verifier::external_body]
fn random_byte() -> u8 {
    rand::random::<u8>()
}

} // verus!
