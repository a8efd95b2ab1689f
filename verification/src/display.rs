//! The sprite-drawing semantics: an XOR blit of an `n`-row, eight-column
//! sprite onto the 64 x 32 screen, with per-pixel wraparound and a
//! collision flag. Stated pixel by pixel, so that each screen cell's new
//! value is a function of its own coordinates alone.

use vstd::prelude::*;

use vstd::arithmetic::div_mod::{
    lemma_add_mod_noop, lemma_fundamental_div_mod, lemma_fundamental_div_mod_converse_div,
    lemma_fundamental_div_mod_converse_mod, lemma_mod_add_multiples_vanish, lemma_small_mod,
};

verus! {

/// Whether column `c` (0 is leftmost) of a sprite byte is set: bit 7 of
/// the byte is its leftmost pixel.
pub open spec fn sprite_bit(b: u8, c: int) -> bool {
    (b >> ((7 - c) as u8)) & 1 == 1
}

/// The framebuffer cell that row `r`, column `c` of a sprite anchored at
/// `(vx, vy)` lands on: both coordinates wrap, per pixel, around the
/// screen edges.
pub open spec fn pixel_index(vx: u8, vy: u8, r: int, c: int) -> int {
    ((vy + r) % 32) * 64 + (vx + c) % 64
}

/// The sprite row that lands on screen row `py`, counting from the anchor
/// row `vy`; meaningful only when the result lies below the sprite height.
pub open spec fn hit_row(vy: u8, py: int) -> int {
    (py - (vy as int % 32) + 32) % 32
}

/// The sprite column that lands on screen column `px`, counting from the
/// anchor column `vx`; meaningful only when the result is below eight.
pub open spec fn hit_col(vx: u8, px: int) -> int {
    (px - (vx as int % 64) + 64) % 64
}

/// The value of framebuffer cell `p` after the blit: flipped where some
/// set sprite bit lands on it, unchanged everywhere else.
pub open spec fn draw_pixel(
    gfx: Seq<bool>,
    mem: Seq<u8>,
    i: u16,
    vx: u8,
    vy: u8,
    n: u8,
    p: int,
) -> bool {
    let r = hit_row(vy, p / 64);
    let c = hit_col(vx, p % 64);
    if r < n && c < 8 {
        gfx[p] != sprite_bit(mem[i + r], c)
    } else {
        gfx[p]
    }
}

/// The whole framebuffer after blitting the `n`-row sprite stored at
/// memory offset `i` to the anchor `(vx, vy)`.
pub open spec fn draw_gfx(gfx: Seq<bool>, mem: Seq<u8>, i: u16, vx: u8, vy: u8, n: u8) -> Seq<
    bool,
> {
    Seq::new(2048, |p: int| draw_pixel(gfx, mem, i, vx, vy, n, p))
}

/// Whether the blit turns any pixel from on to off: a set sprite bit
/// lands on a cell that was already lit.
pub open spec fn draw_collision(gfx: Seq<bool>, mem: Seq<u8>, i: u16, vx: u8, vy: u8, n: u8) -> bool {
    exists|r: int, c: int|
        0 <= r < n && 0 <= c < 8 && gfx[pixel_index(vx, vy, r, c)] && sprite_bit(mem[i + r], c)
}

/// Whether the `j`-th sprite bit, counting row-major through the eight
/// columns of each row, is set and lands on a cell of `gfx` that is lit.
pub open spec fn hit_at(gfx: Seq<bool>, mem: Seq<u8>, i: u16, vx: u8, vy: u8, j: int) -> bool {
    gfx[pixel_index(vx, vy, j / 8, j % 8)] && sprite_bit(mem[i + j / 8], j % 8)
}

/// The collision flag once the first `k` sprite bits, row-major, have
/// been blitted: some already-blitted set bit landed on a lit cell.
pub open spec fn collision_upto(
    gfx: Seq<bool>,
    mem: Seq<u8>,
    i: u16,
    vx: u8,
    vy: u8,
    k: int,
) -> bool {
    exists|j: int| 0 <= j < k && hit_at(gfx, mem, i, vx, vy, j)
}

/// The value of cell `p` once the first `k` sprite bits, row-major, have
/// been blitted.
pub open spec fn draw_pixel_upto(
    gfx: Seq<bool>,
    mem: Seq<u8>,
    i: u16,
    vx: u8,
    vy: u8,
    k: int,
    p: int,
) -> bool {
    let r = hit_row(vy, p / 64);
    let c = hit_col(vx, p % 64);
    if c < 8 && r * 8 + c < k {
        gfx[p] != sprite_bit(mem[i + r], c)
    } else {
        gfx[p]
    }
}

/// The whole framebuffer once the first `k` sprite bits have been blitted.
pub open spec fn draw_gfx_upto(gfx: Seq<bool>, mem: Seq<u8>, i: u16, vx: u8, vy: u8, k: int) -> Seq<
    bool,
> {
    Seq::new(2048, |p: int| draw_pixel_upto(gfx, mem, i, vx, vy, k, p))
}

/// Recovering the offset inverts the wrap: for an anchor `a` and offset
/// `r` both below `m`, subtracting `a` from the landing cell `(a + r) % m`
/// modulo `m` gives back `r`.
proof fn lemma_wrap_inverse(a: int, r: int, m: int)
    requires
        0 <= a < m,
        0 <= r < m,
    ensures
        ((a + r) % m - a + m) % m == r,
{
    if a + r < m {
        lemma_small_mod((a + r) as nat, m as nat);
        lemma_mod_add_multiples_vanish(r, m);
        lemma_small_mod(r as nat, m as nat);
    } else {
        lemma_mod_add_multiples_vanish(a + r - m, m);
        lemma_small_mod((a + r - m) as nat, m as nat);
        lemma_small_mod(r as nat, m as nat);
    }
}

/// The wrap reaches every cell: adding back the recovered offset
/// `(py - a + m) % m` to the anchor `a` lands on `py` again.
proof fn lemma_wrap_complete(a: int, py: int, m: int)
    requires
        0 <= a < m,
        0 <= py < m,
    ensures
        (a + ((py - a + m) % m)) % m == py,
{
    if py >= a {
        lemma_mod_add_multiples_vanish(py - a, m);
        lemma_small_mod((py - a) as nat, m as nat);
        lemma_small_mod(py as nat, m as nat);
    } else {
        lemma_small_mod((py - a + m) as nat, m as nat);
        lemma_mod_add_multiples_vanish(py, m);
        lemma_small_mod(py as nat, m as nat);
    }
}

/// Where sprite row `r`, column `c` lands: the cell is in range, and its
/// coordinates give back exactly `r` and `c`.
pub proof fn lemma_hit_coords(vx: u8, vy: u8, r: int, c: int)
    requires
        0 <= r < 32,
        0 <= c < 64,
    ensures
        0 <= pixel_index(vx, vy, r, c) < 2048,
        pixel_index(vx, vy, r, c) / 64 == (vy + r) % 32,
        pixel_index(vx, vy, r, c) % 64 == (vx + c) % 64,
        hit_row(vy, pixel_index(vx, vy, r, c) / 64) == r,
        hit_col(vx, pixel_index(vx, vy, r, c) % 64) == c,
{
    let py = (vy + r) % 32;
    let px = (vx + c) % 64;
    let p = py * 64 + px;
    lemma_fundamental_div_mod_converse_div(p, 64, py, px);
    lemma_fundamental_div_mod_converse_mod(p, 64, py, px);
    let a32 = (vy as int) % 32;
    let a64 = (vx as int) % 64;
    lemma_add_mod_noop(vy as int, r, 32);
    lemma_small_mod(r as nat, 32);
    assert(py == (a32 + r) % 32);
    lemma_wrap_inverse(a32, r, 32);
    lemma_add_mod_noop(vx as int, c, 64);
    lemma_small_mod(c as nat, 64);
    assert(px == (a64 + c) % 64);
    lemma_wrap_inverse(a64, c, 64);
}

/// Every cell is landed on by exactly one sprite coordinate pair: the
/// pair `hit_row`, `hit_col` recovered from the cell leads back to it.
pub proof fn lemma_hit_unique(vx: u8, vy: u8, p: int)
    requires
        0 <= p < 2048,
    ensures
        0 <= hit_row(vy, p / 64) < 32,
        0 <= hit_col(vx, p % 64) < 64,
        pixel_index(vx, vy, hit_row(vy, p / 64), hit_col(vx, p % 64)) == p,
{
    let py = p / 64;
    let px = p % 64;
    lemma_fundamental_div_mod(p, 64);
    assert(0 <= py < 32);
    assert(0 <= px < 64);
    let a32 = (vy as int) % 32;
    let a64 = (vx as int) % 64;
    let r = hit_row(vy, py);
    let c = hit_col(vx, px);
    lemma_wrap_complete(a32, py, 32);
    lemma_add_mod_noop(vy as int, r, 32);
    lemma_small_mod(r as nat, 32);
    assert((vy + r) % 32 == py);
    lemma_wrap_complete(a64, px, 64);
    lemma_add_mod_noop(vx as int, c, 64);
    lemma_small_mod(c as nat, 64);
    assert((vx + c) % 64 == px);
}

/// Blitting one more sprite bit extends the collision flag by exactly
/// that bit's own hit test.
pub proof fn lemma_collision_upto_succ(gfx: Seq<bool>, mem: Seq<u8>, i: u16, vx: u8, vy: u8, k: int)
    requires
        0 <= k,
    ensures
        collision_upto(gfx, mem, i, vx, vy, k + 1) == (collision_upto(gfx, mem, i, vx, vy, k)
            || hit_at(gfx, mem, i, vx, vy, k)),
{
    if collision_upto(gfx, mem, i, vx, vy, k) {
        let j = choose|j: int| 0 <= j < k && hit_at(gfx, mem, i, vx, vy, j);
        assert(0 <= j < k + 1 && hit_at(gfx, mem, i, vx, vy, j));
    }
    if hit_at(gfx, mem, i, vx, vy, k) {
        assert(0 <= k < k + 1 && hit_at(gfx, mem, i, vx, vy, k));
    }
    if collision_upto(gfx, mem, i, vx, vy, k + 1) {
        let j = choose|j: int| 0 <= j < k + 1 && hit_at(gfx, mem, i, vx, vy, j);
        if j < k {
            assert(collision_upto(gfx, mem, i, vx, vy, k));
        } else {
            assert(hit_at(gfx, mem, i, vx, vy, k));
        }
    }
}

/// After all `8 * n` sprite bits are blitted, the row-major collision
/// flag is the collision flag of the whole draw.
pub proof fn lemma_collision_upto_full(gfx: Seq<bool>, mem: Seq<u8>, i: u16, vx: u8, vy: u8, n: u8)
    ensures
        collision_upto(gfx, mem, i, vx, vy, 8 * n) == draw_collision(gfx, mem, i, vx, vy, n),
{
    if collision_upto(gfx, mem, i, vx, vy, 8 * n) {
        let j = choose|j: int| 0 <= j < 8 * n && hit_at(gfx, mem, i, vx, vy, j);
        lemma_fundamental_div_mod(j, 8);
        let r = j / 8;
        let c = j % 8;
        assert(0 <= r < n && 0 <= c < 8);
        assert(gfx[pixel_index(vx, vy, r, c)] && sprite_bit(mem[i + r], c));
        assert(draw_collision(gfx, mem, i, vx, vy, n));
    }
    if draw_collision(gfx, mem, i, vx, vy, n) {
        let (r, c) = choose|r: int, c: int|
            0 <= r < n && 0 <= c < 8 && gfx[pixel_index(vx, vy, r, c)] && sprite_bit(
                mem[i + r],
                c,
            );
        let j = r * 8 + c;
        lemma_fundamental_div_mod_converse_div(j, 8, r, c);
        lemma_fundamental_div_mod_converse_mod(j, 8, r, c);
        assert(0 <= j < 8 * n && hit_at(gfx, mem, i, vx, vy, j));
    }
}

/// After all `8 * n` sprite bits are blitted, the row-major framebuffer
/// is the framebuffer of the whole draw.
pub proof fn lemma_draw_upto_full(gfx: Seq<bool>, mem: Seq<u8>, i: u16, vx: u8, vy: u8, n: u8)
    requires
        n < 32,
    ensures
        draw_gfx_upto(gfx, mem, i, vx, vy, 8 * n) == draw_gfx(gfx, mem, i, vx, vy, n),
{
    assert forall|p: int| 0 <= p < 2048 implies draw_pixel_upto(gfx, mem, i, vx, vy, 8 * n, p)
        == draw_pixel(gfx, mem, i, vx, vy, n, p) by {
        let r = hit_row(vy, p / 64);
        let c = hit_col(vx, p % 64);
        assert(0 <= r < 32);
        assert((0 <= c < 8 && r * 8 + c < 8 * n) == (r < n && 0 <= c < 8));
    }
    assert(draw_gfx_upto(gfx, mem, i, vx, vy, 8 * n) =~= draw_gfx(gfx, mem, i, vx, vy, n));
}

} // verus!
