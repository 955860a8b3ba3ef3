//! Per-scanline sprite pipeline with pixel-accurate collisions.

use vstd::prelude::*;
use crate::memory::{lemma_vic_window, Memory};
use super::palette::{pal, vic_color};
use super::{irq_updated, video_matrix_base, VicII};

verus! {

/// The enable/expand/priority bit of sprite `s`.
pub open spec fn sprite_bit(s: int) -> u8 {
    (1u8 << (s as u8)) as u8
}

/// Where the eight sprite data pointers live: the last 8 bytes of the video
/// matrix.
pub open spec fn sprite_pointers(v: VicII) -> u16 {
    (video_matrix_base(v) + 0x3F8) as u16
}

/// The row of sprite `s` on the current raster line (halved when expanded
/// vertically), or `None` when the sprite is off or not on this line.
pub open spec fn sprite_row(v: VicII, s: int) -> Option<u32> {
    let bit = sprite_bit(s);
    let yexp = v.sprite_yexp & bit != 0;
    let yrel = v.raster_y.wrapping_sub(v.sprite_y[s] as u32);
    if v.sprite_enable & bit == 0 || yrel >= (if yexp { 42u32 } else { 21u32 }) {
        None
    } else {
        Some(if yexp { yrel / 2 } else { yrel })
    }
}

/// The 24-bit pattern of row `row` of sprite `s`: three bytes from the data
/// block its pointer selects (64 bytes per block).
pub open spec fn sprite_pattern(v: VicII, m: Memory, s: int, row: u32) -> u32 {
    let ptr = m.vic_read_spec((sprite_pointers(v) + s as u16) as u16);
    let data = ((ptr as u16) * 64) as u16;
    let b0 = m.vic_read_spec((data + (row as u16) * 3) as u16);
    let b1 = m.vic_read_spec((data + (row as u16) * 3 + 1) as u16);
    let b2 = m.vic_read_spec((data + (row as u16) * 3 + 2) as u16);
    ((b0 as u32) << 16) | ((b1 as u32) << 8) | b2 as u32
}

/// The left edge of sprite `s` in window coordinates (9 bits with $D010).
pub open spec fn sprite_left(v: VicII, s: int) -> u32 {
    (v.sprite_x[s] as u32 + if v.sx_msb & sprite_bit(s) != 0 { 0x100u32 } else { 0u32 }) as u32
}

/// What sprite `s` lays at window column `sx` of the current line: 0 for
/// nothing; otherwise the colour source, 1 = multicolour 0, 2 = the sprite's
/// colour, 3 = multicolour 1 (a hires pixel uses the sprite's colour).
pub open spec fn sprite_hit(v: VicII, m: Memory, s: int, sx: int) -> u8 {
    match sprite_row(v, s) {
        None => 0,
        Some(row) => {
            let bit = sprite_bit(s);
            let xexp = v.sprite_xexp & bit != 0;
            let i = sx - sprite_left(v, s);
            if i < 0 || i >= (if xexp { 48int } else { 24int }) {
                0
            } else {
                let bit_i = (if xexp { i / 2 } else { i }) as u32;
                let pattern = sprite_pattern(v, m, s, row);
                if v.sprite_mc & bit != 0 {
                    ((pattern >> ((22 - (bit_i / 2) * 2) as u32)) & 0x03) as u8
                } else if (pattern >> ((23 - bit_i) as u32)) & 1 != 0 {
                    2
                } else {
                    0
                }
            }
        },
    }
}

/// The colour of a sprite pixel of source `mix`.
pub open spec fn sprite_pixel_color(v: VicII, s: int, mix: u8) -> u32 {
    if mix == 1 {
        pal(v.sprite_mm[0])
    } else if mix == 3 {
        pal(v.sprite_mm[1])
    } else {
        pal(v.sprite_color[s])
    }
}

/// The sprites among `0..n` with a pixel at `sx`, as a bit set.
pub open spec fn owners(v: VicII, m: Memory, sx: int, n: nat) -> u8
    decreases n,
{
    if n == 0 {
        0
    } else {
        let prev = owners(v, m, sx, (n - 1) as nat);
        if sprite_hit(v, m, n - 1, sx) != 0 { prev | sprite_bit(n - 1) } else { prev }
    }
}

/// The sprite among `0..n` drawn on top at `sx`: the highest-numbered one
/// with a pixel there that is not behind a foreground pixel of the
/// background (`fg`).
pub open spec fn top_sprite(v: VicII, m: Memory, sx: int, fg: bool, n: nat) -> Option<int>
    decreases n,
{
    if n == 0 {
        None
    } else if sprite_hit(v, m, n - 1, sx) != 0 && !(v.sprite_prio & sprite_bit(n - 1) != 0 && fg) {
        Some(n - 1)
    } else {
        top_sprite(v, m, sx, fg, (n - 1) as nat)
    }
}

/// A set of sprites if it has more than one member, else nothing.
pub open spec fn overlap(o: u8) -> u8 {
    if o != 0 && o & ((o - 1) as u8) != 0 { o } else { 0 }
}

/// The union of `f(x)` for `x` in `0..n`.
pub open spec fn union_upto(f: spec_fn(int) -> u8, n: nat) -> u8
    decreases n,
{
    if n == 0 {
        0
    } else {
        union_upto(f, (n - 1) as nat) | f(n - 1)
    }
}

/// Sprites overlapping each other somewhere on the line (window columns
/// `0..320`, sprites `0..k`).
pub open spec fn sprite_overlaps(v: VicII, m: Memory, k: nat) -> u8 {
    union_upto(overlap_terms(v, m, |x: int| k), 320)
}

/// Sprites with a pixel on a foreground pixel of the background somewhere on
/// the line.
pub open spec fn sprite_fg_hits(v: VicII, m: Memory, fg: Seq<bool>, k: nat) -> u8 {
    union_upto(fg_terms(v, m, fg, |x: int| k), 320)
}

/// The framebuffer after the sprites are drawn over the line at `row_off`,
/// the display window starting at column `x0`; pixels that would land past
/// the end of the framebuffer are dropped.
pub open spec fn sprites_drawn(v: VicII, m: Memory, fb: Seq<u32>, row_off: int, x0: int, fg: Seq<bool>) -> Seq<u32> {
    Seq::new(fb.len(), |i: int| {
        let sx = i - row_off - x0;
        if 0 <= sx < 320 {
            match top_sprite(v, m, sx, fg[sx], 8) {
                Some(t) => sprite_pixel_color(v, t, sprite_hit(v, m, t, sx)),
                None => fb[i],
            }
        } else {
            fb[i]
        }
    })
}

/// The chip after the sprite pass: collision latches gain the sprites that
/// collided, a non-empty latch raises its interrupt source (bit 2
/// sprite-sprite, bit 1 sprite-background), and the IRQ is re-evaluated.
pub open spec fn after_sprites(v: VicII, m: Memory, fg: Seq<bool>) -> VicII {
    let ss = v.ss_collide | sprite_overlaps(v, m, 8);
    let sb = v.sb_collide | sprite_fg_hits(v, m, fg, 8);
    let l1 = if ss != 0 { v.irq_latch | 0x04 } else { v.irq_latch };
    let l2 = if sb != 0 { l1 | 0x02 } else { l1 };
    irq_updated(VicII { ss_collide: ss, sb_collide: sb, irq_latch: l2, ..v })
}


/// The framebuffer with, at each window column `sx`, the top sprite among
/// the first `c(sx)` drawn (the state of the sprite pass partway through).
pub open spec fn drawn_with(v: VicII, m: Memory, fb: Seq<u32>, row_off: int, x0: int, fg: Seq<bool>, c: spec_fn(int) -> nat) -> Seq<u32> {
    Seq::new(fb.len(), |i: int| {
        let sx = i - row_off - x0;
        if 0 <= sx < 320 {
            match top_sprite(v, m, sx, fg[sx], c(sx)) {
                Some(t) => sprite_pixel_color(v, t, sprite_hit(v, m, t, sx)),
                None => fb[i],
            }
        } else {
            fb[i]
        }
    })
}

/// Changing `f` at one point `p`, to a superset of its old value, adds the
/// new value to the union.
proof fn lemma_union_point_update(f: spec_fn(int) -> u8, g: spec_fn(int) -> u8, p: int, n: nat)
    requires
        forall|x: int| x != p ==> #[trigger] f(x) == g(x),
        f(p) & g(p) == f(p),
    ensures
        union_upto(g, n) == union_upto(f, n) | (if 0 <= p < n { g(p) } else { 0u8 }),
    decreases n,
{
    let fp = f(p);
    let gp = g(p);
    if n > 0 {
        lemma_union_point_update(f, g, p, (n - 1) as nat);
        let a = union_upto(f, (n - 1) as nat);
        if p == n - 1 {
            lemma_byte_laws(a, fp, gp, 0);
        } else if 0 <= p < n - 1 {
            let y = f(n - 1);
            lemma_byte_laws(a, gp, y, 0);
        } else {
            let y = f(n - 1);
            lemma_byte_laws(a, 0, y, 0);
        }
    } else {
        lemma_byte_laws(0, 0, 0, 0);
    }
}

/// Each member of a union is part of it.
proof fn lemma_union_contains(f: spec_fn(int) -> u8, p: int, n: nat)
    requires
        0 <= p < n,
    ensures
        union_upto(f, n) & f(p) == f(p),
    decreases n,
{
    let a = union_upto(f, (n - 1) as nat);
    let y = f(n - 1);
    let fp = f(p);
    if p == n - 1 {
        lemma_byte_laws(a, y, 0, 0);
    } else {
        lemma_union_contains(f, p, (n - 1) as nat);
        lemma_byte_laws(a, y, fp, 0);
    }
}

/// Distinct sprites have distinct bits.
proof fn lemma_bits_disjoint(i: u8, j: u8)
    requires
        i < 8,
        j < 8,
        i != j,
    ensures
        ((1u8 << i) as u8) & ((1u8 << j) as u8) == 0,
{
    assert(i < 8 && j < 8 && i != j ==> ((1u8 << i) as u8) & ((1u8 << j) as u8) == 0) by (bit_vector);
}

/// The owner set of the first `n` sprites holds no sprite from `n` on.
proof fn lemma_owners_below(v: VicII, m: Memory, sx: int, n: nat, t: u8)
    requires
        n <= t < 8,
    ensures
        owners(v, m, sx, n) & sprite_bit(t as int) == 0,
    decreases n,
{
    if n > 0 {
        lemma_owners_below(v, m, sx, (n - 1) as nat, t);
        let prev = owners(v, m, sx, (n - 1) as nat);
        let k = (n - 1) as u8;
        lemma_bits_disjoint(k, t);
        let bk = sprite_bit(k as int);
        let bt = sprite_bit(t as int);
        lemma_byte_laws(prev, bk, bt, 0);
    } else {
        let bt = sprite_bit(t as int);
        lemma_byte_laws(bt, 0, 0, 0);
    }
}

/// The bit facts of one arrival of sprite `s` at a column whose earlier
/// owners are `e`.
proof fn lemma_arrival(e: u8, s: u8)
    by (bit_vector)
    requires
        s < 8,
        e & ((1u8 << s) as u8) == 0,
    ensures
        e != 0 ==> overlap(e | ((1u8 << s) as u8)) == e | ((1u8 << s) as u8),
        e == 0 ==> overlap(e | ((1u8 << s) as u8)) == 0,
        overlap(e) & overlap(e | ((1u8 << s) as u8)) == overlap(e),
        e & (e | ((1u8 << s) as u8)) == e,
        0u8 & 0u8 == 0u8,
{
}

/// With every sprite disabled no sprite is on top anywhere.
pub proof fn lemma_no_sprites_on_top(v: VicII, m: Memory, sx: int, fg: bool, n: nat)
    requires
        v.sprite_enable == 0,
    ensures
        top_sprite(v, m, sx, fg, n) is None,
    decreases n,
{
    if n > 0 {
        lemma_no_sprites_on_top(v, m, sx, fg, (n - 1) as nat);
        lemma_byte_laws(sprite_bit(n - 1), 0, 0, 0);
        assert(sprite_row(v, n - 1) is None);
    }
}

/// Identities of `|` and `&` on bytes that the sprite pass relies on.
proof fn lemma_byte_laws(a: u8, b: u8, c: u8, d: u8)
    by (bit_vector)
    ensures
        a | 0u8 == a,
        0u8 & a == 0u8,
        (a | b) | c == (a | c) | b,
        (a | b) | c == a | (b | c),
        (a | b) & b == b,
        a & c == c ==> (a | b) & c == c,
        b & c == b ==> (a | b) | c == a | c,
        a & c == 0 && b & c == 0 ==> (a | b) & c == 0,
        b & d == d ==> (a | b) | c == a | (b | (d | c)),
{
}

/// Unions of functions that agree below `n` agree.
proof fn lemma_union_agree(f: spec_fn(int) -> u8, g: spec_fn(int) -> u8, n: nat)
    requires
        forall|x: int| 0 <= x < n ==> #[trigger] f(x) == g(x),
    ensures
        union_upto(f, n) == union_upto(g, n),
    decreases n,
{
    if n > 0 {
        lemma_union_agree(f, g, (n - 1) as nat);
    }
}

/// The union of nothing is empty.
proof fn lemma_union_zero(n: nat)
    ensures
        union_upto(|x: int| 0u8, n) == 0,
    decreases n,
{
    if n > 0 {
        lemma_union_zero((n - 1) as nat);
        lemma_byte_laws(0, 0, 0, 0);
    }
}

/// How many sprites a column has seen partway through the pass: `s + 1` in
/// `lo..hi`, `s` elsewhere.
pub open spec fn seen(lo: int, hi: int, s: nat) -> spec_fn(int) -> nat {
    |x: int| if lo <= x < hi { (s + 1) as nat } else { s }
}

/// The sprite-sprite overlap of each column, given how many sprites each has
/// seen.
pub open spec fn overlap_terms(v: VicII, m: Memory, c: spec_fn(int) -> nat) -> spec_fn(int) -> u8 {
    |x: int| overlap(owners(v, m, x, c(x)))
}

/// The sprites on a foreground pixel at each column, given how many sprites
/// each has seen.
pub open spec fn fg_terms(v: VicII, m: Memory, fg: Seq<bool>, c: spec_fn(int) -> nat) -> spec_fn(int) -> u8 {
    |x: int| if fg[x] { owners(v, m, x, c(x)) } else { 0 }
}

/// Two ways of counting seen sprites that give every window column the same
/// owners and top sprite give the same state of the pass.
proof fn lemma_same_counts(v: VicII, m: Memory, fb: Seq<u32>, row_off: int, x0: int, fg: Seq<bool>,
    c1: spec_fn(int) -> nat, c2: spec_fn(int) -> nat)
    requires
        forall|x: int| 0 <= x < 320 ==> #[trigger] owners(v, m, x, c1(x)) == owners(v, m, x, c2(x)),
        forall|x: int| 0 <= x < 320 ==> #[trigger] top_sprite(v, m, x, fg[x], c1(x))
            == top_sprite(v, m, x, fg[x], c2(x)),
    ensures
        union_upto(overlap_terms(v, m, c1), 320) == union_upto(overlap_terms(v, m, c2), 320),
        union_upto(fg_terms(v, m, fg, c1), 320) == union_upto(fg_terms(v, m, fg, c2), 320),
        drawn_with(v, m, fb, row_off, x0, fg, c1) == drawn_with(v, m, fb, row_off, x0, fg, c2),
{
    assert forall|x: int| 0 <= x < 320 implies #[trigger] overlap_terms(v, m, c1)(x) == overlap_terms(v, m, c2)(x) by {
        assert(owners(v, m, x, c1(x)) == owners(v, m, x, c2(x)));
    }
    assert forall|x: int| 0 <= x < 320 implies #[trigger] fg_terms(v, m, fg, c1)(x) == fg_terms(v, m, fg, c2)(x) by {
        assert(owners(v, m, x, c1(x)) == owners(v, m, x, c2(x)));
    }
    lemma_union_agree(overlap_terms(v, m, c1), overlap_terms(v, m, c2), 320);
    lemma_union_agree(fg_terms(v, m, fg, c1), fg_terms(v, m, fg, c2), 320);
    assert forall|i: int| 0 <= i < fb.len() implies #[trigger] drawn_with(v, m, fb, row_off, x0, fg, c1)[i]
        == drawn_with(v, m, fb, row_off, x0, fg, c2)[i] by {
        let sx = i - row_off - x0;
        if 0 <= sx < 320 {
            assert(top_sprite(v, m, sx, fg[sx], c1(sx)) == top_sprite(v, m, sx, fg[sx], c2(sx)));
        }
    }
    assert(drawn_with(v, m, fb, row_off, x0, fg, c1) =~= drawn_with(v, m, fb, row_off, x0, fg, c2));
}

/// Render all enabled sprites on the current raster line on top of an
/// already-drawn background row. `fg_mask[x]` is true where the background
/// laid a foreground pixel (used for sprite-background collision and priority).
#[verifier::rlimit(60)]
#[verifier::spinoff_prover]
pub fn render_sprites(vic: &mut VicII, mem: &Memory, row_off: usize, x0: u32, fg_mask: &[bool; 320])
    requires
        old(vic).wf(),
        mem.wf(),
        mem.vic_bank_base <= 0xC000,
        row_off <= old(vic).fb@.len(),
    ensures
        final(vic).fb@ == sprites_drawn(*old(vic), *mem, old(vic).fb@, row_off as int, x0 as int, fg_mask@),
        *final(vic) == (VicII { fb: final(vic).fb, ..after_sprites(*old(vic), *mem, fg_mask@) }),
{
    let ghost v0 = *vic;
    let ghost m = *mem;
    let ghost fg = fg_mask@;
    let ghost fb0 = vic.fb@;
    let mp = vic.memptr;
    assert(((mp & 0xF0) as u16) << 6 <= 0x3C00) by (bit_vector);
    let screen_base = ((vic.memptr & 0xF0) as u16) << 6;
    let sprite_ptr_base = screen_base + 0x3F8;

    // Per-pixel owner bitmask for this row (which sprite index laid a pixel).
    let mut sprite_owner = [0u8; 320];

    let mut s: u8 = 0;
    proof {
        assert(vic.fb@ =~= drawn_with(v0, m, fb0, row_off as int, x0 as int, fg, seen(0, 0, 0)));
        lemma_union_agree(overlap_terms(v0, m, seen(0, 0, 0)), |x: int| 0u8, 320);
        lemma_union_agree(fg_terms(v0, m, fg, seen(0, 0, 0)), |x: int| 0u8, 320);
        lemma_union_zero(320);
        let a = v0.ss_collide;
        let b = v0.sb_collide;
        lemma_byte_laws(a, 0, 0, 0);
        lemma_byte_laws(b, 0, 0, 0);
    }
    while s < 8
        invariant
            s <= 8,
            *vic == (VicII { fb: vic.fb, ss_collide: vic.ss_collide, sb_collide: vic.sb_collide, ..v0 }),
            m == *mem,
            mem.wf(),
            mem.vic_bank_base <= 0xC000,
            v0.wf(),
            fg == fg_mask@,
            fb0 == v0.fb@,
            vic.fb@.len() == fb0.len(),
            row_off <= fb0.len(),
            sprite_ptr_base == sprite_pointers(v0),
            sprite_ptr_base <= 0x3FF8,
            forall|x: int| 0 <= x < 320 ==> #[trigger] sprite_owner@[x] == owners(v0, m, x, s as nat),
            vic.fb@ == drawn_with(v0, m, fb0, row_off as int, x0 as int, fg, seen(0, 0, s as nat)),
            vic.ss_collide == v0.ss_collide | union_upto(overlap_terms(v0, m, seen(0, 0, s as nat)), 320),
            vic.sb_collide == v0.sb_collide | union_upto(fg_terms(v0, m, fg, seen(0, 0, s as nat)), 320),
        decreases 8 - s,
    {
        let bit = 1u8 << s;
        let ypos = vic.sprite_y[s as usize] as u32;
        let yexp = vic.sprite_yexp & bit != 0;
        let sprite_height: u32 = if yexp { 42 } else { 21 };
        let yrel = vic.raster_y.wrapping_sub(ypos);
        if vic.sprite_enable & bit == 0 || yrel >= sprite_height {
            proof {
                assert(sprite_row(v0, s as int) is None);
                assert forall|x: int| 0 <= x < 320 implies #[trigger] owners(v0, m, x, seen(0, 0, s as nat)(x))
                    == owners(v0, m, x, seen(0, 0, (s + 1) as nat)(x)) by {
                    assert(sprite_hit(v0, m, s as int, x) == 0);
                }
                assert forall|x: int| 0 <= x < 320 implies #[trigger] top_sprite(v0, m, x, fg[x], seen(0, 0, s as nat)(x))
                    == top_sprite(v0, m, x, fg[x], seen(0, 0, (s + 1) as nat)(x)) by {
                    assert(sprite_hit(v0, m, s as int, x) == 0);
                }
                lemma_same_counts(v0, m, fb0, row_off as int, x0 as int, fg, seen(0, 0, s as nat), seen(0, 0, (s + 1) as nat));
            }
            s += 1;
            continue;
        }
        let row = if yexp { yrel / 2 } else { yrel };
        proof {
            lemma_vic_window(m, (sprite_ptr_base + s as u16) as u16);
        }
        let ptr = mem.vic_read(sprite_ptr_base + s as u16);
        let data_base = (ptr as u16) * 64;
        proof {
            lemma_vic_window(m, (data_base + row as u16 * 3) as u16);
            lemma_vic_window(m, (data_base + row as u16 * 3 + 1) as u16);
            lemma_vic_window(m, (data_base + row as u16 * 3 + 2) as u16);
        }
        let b0 = mem.vic_read(data_base + row as u16 * 3);
        let b1 = mem.vic_read(data_base + row as u16 * 3 + 1);
        let b2 = mem.vic_read(data_base + row as u16 * 3 + 2);

        let xbase = vic.sprite_x[s as usize] as u32 + if vic.sx_msb & bit != 0 { 0x100 } else { 0 };
        let xexp = vic.sprite_xexp & bit != 0;
        let mc = vic.sprite_mc & bit != 0;
        let priority_behind = vic.sprite_prio & bit != 0;
        let color = vic_color(vic.sprite_color[s as usize]);
        let mm0 = vic_color(vic.sprite_mm[0]);
        let mm1 = vic_color(vic.sprite_mm[1]);

        let pattern: u32 = ((b0 as u32) << 16) | ((b1 as u32) << 8) | b2 as u32;
        let width: u32 = if xexp { 48 } else { 24 };
        proof {
            assert(sprite_row(v0, s as int) == Some(row));
            assert(drawn_with(v0, m, fb0, row_off as int, x0 as int, fg, seen(0, 0, s as nat))
                =~= drawn_with(v0, m, fb0, row_off as int, x0 as int, fg, seen(xbase as int, xbase as int, s as nat)));
            lemma_same_counts(v0, m, fb0, row_off as int, x0 as int, fg, seen(0, 0, s as nat),
                seen(xbase as int, xbase as int, s as nat));
        }

        let mut i: u32 = 0;
        while i < width
            invariant
                s < 8,
                i <= width,
                width == (if xexp { 48u32 } else { 24u32 }),
                bit == sprite_bit(s as int),
                xexp == (v0.sprite_xexp & bit != 0),
                mc == (v0.sprite_mc & bit != 0),
                priority_behind == (v0.sprite_prio & bit != 0),
                color == pal(v0.sprite_color[s as int]),
                mm0 == pal(v0.sprite_mm[0]),
                mm1 == pal(v0.sprite_mm[1]),
                xbase == sprite_left(v0, s as int),
                sprite_row(v0, s as int) == Some(row),
                pattern == sprite_pattern(v0, m, s as int, row),
                *vic == (VicII { fb: vic.fb, ss_collide: vic.ss_collide, sb_collide: vic.sb_collide, ..v0 }),
                m == *mem,
                mem.wf(),
                mem.vic_bank_base <= 0xC000,
                v0.wf(),
                fg == fg_mask@,
                fb0 == v0.fb@,
                vic.fb@.len() == fb0.len(),
                row_off <= fb0.len(),
                sprite_ptr_base == sprite_pointers(v0),
                forall|x: int| 0 <= x < 320 ==> #[trigger] sprite_owner@[x]
                    == owners(v0, m, x, seen(xbase as int, xbase + i, s as nat)(x)),
                vic.fb@ == drawn_with(v0, m, fb0, row_off as int, x0 as int, fg, seen(xbase as int, xbase + i, s as nat)),
                vic.ss_collide == v0.ss_collide | union_upto(overlap_terms(v0, m, seen(xbase as int, xbase + i, s as nat)), 320),
                vic.sb_collide == v0.sb_collide | union_upto(fg_terms(v0, m, fg, seen(xbase as int, xbase + i, s as nat)), 320),
            decreases width - i,
        {
            let bit_i = if xexp { i / 2 } else { i };
            let (pixel_on, mix) = if mc {
                let pair = (pattern >> (22 - (bit_i / 2) * 2)) & 0x03;
                let ghost sh = pattern >> (22 - (bit_i / 2) * 2);
                assert(pair == sh & 0x03 ==> pair <= 3) by (bit_vector);
                if pair == 0 {
                    (false, 0u8)
                } else if pair == 1 {
                    (true, 1u8) // MM0
                } else if pair == 2 {
                    (true, 2u8) // sprite color
                } else {
                    (true, 3u8) // MM1
                }
            } else {
                let on = (pattern >> (23 - bit_i)) & 1 != 0;
                (on, 2u8)
            };
            let screen_x = xbase + i;
            let ghost x = screen_x as int;
            let ghost ci = seen(xbase as int, xbase + i, s as nat);
            let ghost cn = seen(xbase as int, xbase + i + 1, s as nat);
            proof {
                assert(sprite_hit(v0, m, s as int, x) == (if pixel_on { mix } else { 0u8 }));
            }
            if !pixel_on || screen_x >= 320 {
                proof {
                    assert forall|y: int| 0 <= y < 320 implies #[trigger] owners(v0, m, y, ci(y)) == owners(v0, m, y, cn(y)) by {
                        if y == x {
                            assert(sprite_hit(v0, m, s as int, x) == 0);
                        }
                    }
                    assert forall|y: int| 0 <= y < 320 implies #[trigger] top_sprite(v0, m, y, fg[y], ci(y))
                        == top_sprite(v0, m, y, fg[y], cn(y)) by {
                        if y == x {
                            assert(sprite_hit(v0, m, s as int, x) == 0);
                        }
                    }
                    lemma_same_counts(v0, m, fb0, row_off as int, x0 as int, fg, ci, cn);
                }
                i += 1;
                continue;
            }

            // Collision with other sprites already drawn this line
            let existing = sprite_owner[screen_x as usize];
            let ghost ss_before = vic.ss_collide;
            let ghost sb_before = vic.sb_collide;
            let ghost fb_before = vic.fb@;
            proof {
                assert(ci(x) == s as nat);
                assert(existing == owners(v0, m, x, s as nat));
                lemma_owners_below(v0, m, x, s as nat, s);
                lemma_arrival(existing, s);
                assert(owners(v0, m, x, (s + 1) as nat) == existing | bit);
            }
            if existing != 0 {
                vic.ss_collide = vic.ss_collide | (existing | bit);
            }
            sprite_owner[screen_x as usize] = sprite_owner[screen_x as usize] | bit;

            // Collision with background foreground
            let hidden = fg_mask[screen_x as usize] && priority_behind;
            if fg_mask[screen_x as usize] {
                vic.sb_collide = vic.sb_collide | bit;
            }
            if !hidden {
                let pixel_color = if mix == 1 { mm0 } else if mix == 3 { mm1 } else { color };
                // Pixels past the end of the framebuffer are clipped.
                let fx: u64 = x0 as u64 + screen_x as u64;
                if fx < (vic.fb.len() - row_off) as u64 {
                    vic.fb.set(row_off + fx as usize, pixel_color);
                }
            }
            proof {
                assert forall|y: int| y != x implies #[trigger] overlap_terms(v0, m, ci)(y) == overlap_terms(v0, m, cn)(y) by {}
                assert forall|y: int| y != x implies #[trigger] fg_terms(v0, m, fg, ci)(y) == fg_terms(v0, m, fg, cn)(y) by {}
                lemma_union_point_update(overlap_terms(v0, m, ci), overlap_terms(v0, m, cn), x, 320);
                lemma_union_point_update(fg_terms(v0, m, fg, ci), fg_terms(v0, m, fg, cn), x, 320);
                lemma_union_contains(fg_terms(v0, m, fg, ci), x, 320);
                let e = existing;
                let b = bit;
                let uo = union_upto(overlap_terms(v0, m, ci), 320);
                let uf = union_upto(fg_terms(v0, m, fg, ci), 320);
                let a0 = v0.ss_collide;
                let c0 = v0.sb_collide;
                if existing != 0 {
                    lemma_byte_laws(a0, uo, e | b, 0);
                } else {
                    lemma_byte_laws(uo, 0, 0, 0);
                }
                if fg[x] {
                    lemma_byte_laws(c0, uf, b, e);
                } else {
                    lemma_byte_laws(uf, 0, 0, 0);
                }
                assert forall|y: int| 0 <= y < 320 implies #[trigger] sprite_owner@[y] == owners(v0, m, y, cn(y)) by {}
                assert(vic.fb@ =~= drawn_with(v0, m, fb0, row_off as int, x0 as int, fg, cn));
            }
            i += 1;
        }
        proof {
            let ce = seen(xbase as int, xbase + width, s as nat);
            let cs = seen(0, 0, (s + 1) as nat);
            assert forall|y: int| 0 <= y < 320 implies #[trigger] owners(v0, m, y, ce(y)) == owners(v0, m, y, cs(y)) by {
                if !(xbase <= y < xbase + width) {
                    assert(sprite_hit(v0, m, s as int, y) == 0);
                }
            }
            assert forall|y: int| 0 <= y < 320 implies #[trigger] top_sprite(v0, m, y, fg[y], ce(y))
                == top_sprite(v0, m, y, fg[y], cs(y)) by {
                if !(xbase <= y < xbase + width) {
                    assert(sprite_hit(v0, m, s as int, y) == 0);
                }
            }
            lemma_same_counts(v0, m, fb0, row_off as int, x0 as int, fg, ce, cs);
        }
        s += 1;
    }
    proof {
        assert(vic.fb@ =~= sprites_drawn(v0, m, fb0, row_off as int, x0 as int, fg));
        assert(overlap_terms(v0, m, seen(0, 0, 8)) =~= overlap_terms(v0, m, |x: int| 8nat));
        assert(fg_terms(v0, m, fg, seen(0, 0, 8)) =~= fg_terms(v0, m, fg, |x: int| 8nat));
    }
    // Raise collision IRQs
    if vic.ss_collide != 0 {
        vic.irq_latch = vic.irq_latch | 0x04;
    }
    if vic.sb_collide != 0 {
        vic.irq_latch = vic.irq_latch | 0x02;
    }
    vic.update_irq();
}


/// The sprite pass does not look at the framebuffer field of the chip: two
/// chips that differ only there give the same sprite layer and the same
/// register effects.
pub proof fn lemma_sprites_ignore_fb(v1: VicII, v2: VicII, m: Memory, fb: Seq<u32>, row_off: int, x0: int, fg: Seq<bool>)
    requires
        v1 == (VicII { fb: v1.fb, ..v2 }),
    ensures
        sprites_drawn(v1, m, fb, row_off, x0, fg) == sprites_drawn(v2, m, fb, row_off, x0, fg),
        after_sprites(v1, m, fg) == (VicII { fb: v1.fb, ..after_sprites(v2, m, fg) }),
{
    assert forall|x: int, n: nat| #[trigger] owners(v1, m, x, n) == owners(v2, m, x, n) by {
        lemma_owners_ignore_fb(v1, v2, m, x, n);
    }
    assert forall|x: int, f: bool, n: nat| #[trigger] top_sprite(v1, m, x, f, n) == top_sprite(v2, m, x, f, n) by {
        lemma_top_ignore_fb(v1, v2, m, x, f, n);
    }
    let k8 = |x: int| 8nat;
    lemma_union_agree(overlap_terms(v1, m, k8), overlap_terms(v2, m, k8), 320);
    lemma_union_agree(fg_terms(v1, m, fg, k8), fg_terms(v2, m, fg, k8), 320);
    assert(overlap_terms(v1, m, |x: int| 8nat) =~= overlap_terms(v1, m, k8));
    assert(overlap_terms(v2, m, |x: int| 8nat) =~= overlap_terms(v2, m, k8));
    assert(fg_terms(v1, m, fg, |x: int| 8nat) =~= fg_terms(v1, m, fg, k8));
    assert(fg_terms(v2, m, fg, |x: int| 8nat) =~= fg_terms(v2, m, fg, k8));
    assert(sprites_drawn(v1, m, fb, row_off, x0, fg) =~= sprites_drawn(v2, m, fb, row_off, x0, fg));
}

proof fn lemma_owners_ignore_fb(v1: VicII, v2: VicII, m: Memory, x: int, n: nat)
    requires
        v1 == (VicII { fb: v1.fb, ..v2 }),
    ensures
        owners(v1, m, x, n) == owners(v2, m, x, n),
    decreases n,
{
    if n > 0 {
        lemma_owners_ignore_fb(v1, v2, m, x, (n - 1) as nat);
    }
}

proof fn lemma_top_ignore_fb(v1: VicII, v2: VicII, m: Memory, x: int, f: bool, n: nat)
    requires
        v1 == (VicII { fb: v1.fb, ..v2 }),
    ensures
        top_sprite(v1, m, x, f, n) == top_sprite(v2, m, x, f, n),
    decreases n,
{
    if n > 0 {
        lemma_top_ignore_fb(v1, v2, m, x, f, (n - 1) as nat);
    }
}

} // verus!
