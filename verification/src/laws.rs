//! General properties of the machine: statements that hold of every
//! state and every operand, proved from the transition function itself.

use vstd::prelude::*;

use crate::chip8::{adv, spec_fetch, step, step_ok, tick_timers, wf, wrap_add, wrap_sub, State};
use crate::display::{draw_collision, draw_gfx, draw_pixel, hit_col, pixel_index, sprite_bit};
use crate::isa::{decode_op, Instr};

verus! {

/// Every defined cycle preserves the machine's structural invariant:
/// the buffer shapes stay fixed and the stack pointer stays within its
/// sixteen slots, whatever byte the random source returns.
pub proof fn lemma_step_preserves_wf(s: State, b: u8)
    requires
        step_ok(s),
    ensures
        wf(step(s, b)),
        wf(tick_timers(step(s, b))),
{
}

/// Wraparound closure of the byte-immediate add: `add Vx,kk` followed by
/// `add Vx,(256 - kk) mod 256` restores `Vx` to its original value, for
/// every register and every 8-bit constant.
pub proof fn lemma_add_byte_round_trip(
    s1: State,
    s2: State,
    b1: u8,
    b2: u8,
    x: u8,
    kk: u8,
    kk2: u8,
)
    requires
        step_ok(s1),
        decode_op(spec_fetch(s1)) == (Instr::AddByte { x, kk }),
        step_ok(s2),
        decode_op(spec_fetch(s2)) == (Instr::AddByte { x, kk: kk2 }),
        kk2 == ((256 - kk) % 256) as u8,
        s2.v == step(s1, b1).v,
    ensures
        step(s2, b2).v[x as int] == s1.v[x as int],
{
    let a = s1.v[x as int];
    assert(step(s1, b1).v[x as int] == wrap_add(a, kk));
    assert(step(s2, b2).v[x as int] == wrap_add(wrap_add(a, kk), kk2));
    lemma_wrap_add_complement(a, kk, kk2);
}

/// Adding `kk` and then its modulo-256 complement to a byte gives the
/// byte back.
proof fn lemma_wrap_add_complement(a: u8, kk: u8, kk2: u8)
    requires
        kk2 == ((256 - kk) % 256) as u8,
    ensures
        wrap_add(wrap_add(a, kk), kk2) == a,
{
    if kk == 0 {
        assert(kk2 == 0);
        assert(wrap_add(a, 0) == a);
    } else {
        assert(kk2 == 256 - kk);
        let m = wrap_add(a, kk);
        if a + kk < 256 {
            assert(m == a + kk);
            assert(m + kk2 == a + 256);
            assert(wrap_add(m, kk2) == a);
        } else {
            assert(m == a + kk - 256);
            assert(m + kk2 == a);
            assert(wrap_add(m, kk2) == a);
        }
    }
}

/// `add Vx,Vy` sets `VF` to 1 exactly when the unsigned sum of the two
/// registers before the instruction exceeds 255, and to 0 otherwise; the
/// destination register receives the wrapped sum.
pub proof fn lemma_add_reg_carry(s: State, b: u8, x: u8, y: u8)
    requires
        step_ok(s),
        decode_op(spec_fetch(s)) == (Instr::AddReg { x, y }),
    ensures
        step(s, b).v[15] == (if s.v[x as int] + s.v[y as int] > 255 {
            1u8
        } else {
            0u8
        }),
        x != 15 ==> step(s, b).v[x as int] == wrap_add(s.v[x as int], s.v[y as int]),
{
}

/// `sub Vx,Vy` sets `VF` to 1 exactly when `Vx >= Vy` before the
/// instruction (no borrow), and to 0 otherwise; the destination register
/// receives the wrapped difference.
pub proof fn lemma_sub_reg_borrow(s: State, b: u8, x: u8, y: u8)
    requires
        step_ok(s),
        decode_op(spec_fetch(s)) == (Instr::SubReg { x, y }),
    ensures
        step(s, b).v[15] == (if s.v[x as int] >= s.v[y as int] {
            1u8
        } else {
            0u8
        }),
        x != 15 ==> step(s, b).v[x as int] == wrap_sub(s.v[x as int], s.v[y as int]),
{
}

/// Draw idempotence: blitting the same sprite at the same anchor twice
/// in immediate succession restores every pixel to its value before the
/// first blit — the blit is a pure XOR — and the second blit's collision
/// flag is the hit test evaluated on the screen the first blit left.
pub proof fn lemma_draw_twice(gfx: Seq<bool>, mem: Seq<u8>, i: u16, vx: u8, vy: u8, n: u8)
    requires
        gfx.len() == 2048,
    ensures
        draw_gfx(draw_gfx(gfx, mem, i, vx, vy, n), mem, i, vx, vy, n) == gfx,
        draw_collision(draw_gfx(gfx, mem, i, vx, vy, n), mem, i, vx, vy, n) == (exists|
            r: int,
            c: int,
        |
            0 <= r < n && 0 <= c < 8 && draw_gfx(gfx, mem, i, vx, vy, n)[pixel_index(vx, vy, r, c)]
                && sprite_bit(mem[i + r], c)),
{
    let once = draw_gfx(gfx, mem, i, vx, vy, n);
    assert forall|p: int| 0 <= p < 2048 implies draw_pixel(once, mem, i, vx, vy, n, p) == gfx[p] by {
        assert(once[p] == draw_pixel(gfx, mem, i, vx, vy, n, p));
    }
    assert(draw_gfx(once, mem, i, vx, vy, n) =~= gfx);
}

/// Draw wraparound: a sprite anchored at column 60 lands on columns 60,
/// 61, 62, 63, 0, 1, 2 and 3 — the column wraps modulo 64 — and every
/// other column of the screen is left untouched; nothing is clipped.
pub proof fn lemma_draw_wraparound(gfx: Seq<bool>, mem: Seq<u8>, i: u16, vy: u8, n: u8, p: int)
    requires
        gfx.len() == 2048,
        0 <= p < 2048,
    ensures
        (hit_col(60, p % 64) < 8) == (p % 64 >= 60 || p % 64 < 4),
        !(p % 64 >= 60 || p % 64 < 4) ==> draw_gfx(gfx, mem, i, 60, vy, n)[p] == gfx[p],
{
    assert(hit_col(60, p % 64) == (p % 64 + 4) % 64);
}

/// Call/return round trip: `call addr` immediately followed by `return`
/// restores the program counter to the instruction after the call and
/// the stack pointer to its pre-call value, at every one of the sixteen
/// nesting depths.
pub proof fn lemma_call_return_round_trip(s: State, b1: u8, b2: u8, addr: u16)
    requires
        step_ok(s),
        decode_op(spec_fetch(s)) == (Instr::Call { addr }),
        decode_op(spec_fetch(step(s, b1))) == Instr::Ret,
    ensures
        step(step(s, b1), b2).pc == adv(s.pc),
        step(step(s, b1), b2).sp == s.sp,
{
}

/// Timer edge: a sound timer of 1 reads 0 after one decay step and
/// raises the beep flag; a decay step with the timer already at 0 keeps
/// it at 0 and raises no new signal — the flag keeps whatever value the
/// driver last left in it.
pub proof fn lemma_timer_edge(s: State)
    ensures
        s.sound_timer == 1 ==> tick_timers(s).sound_timer == 0 && tick_timers(s).beep,
        s.sound_timer == 0 ==> tick_timers(s).sound_timer == 0 && tick_timers(s).beep == s.beep,
{
}

} // verus!
