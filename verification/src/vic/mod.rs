//! VIC-II video chip emulation.

pub mod export;
pub mod palette;
pub mod sprites;

use vstd::prelude::*;
use vstd::array::spec_array_update;
use crate::config::Model;
use crate::memory::Memory;
use self::palette::{pal, vic_color};
use self::sprites::{after_sprites, lemma_no_sprites_on_top, lemma_sprites_ignore_fb, render_sprites, sprites_drawn};
use crate::memory::lemma_vic_window;


verus! {

/// VIC-II state and framebuffer.
pub struct VicII {
    /// Hardware model (frame geometry).
    pub model: Model,

    /// Cycle/raster position within current line.
    pub raster_x: u32,
    /// Raster line (0..lines_per_frame).
    pub raster_y: u32,
    /// Raster line that fires IRQ (9-bit).
    pub raster_compare: u32,

    /// $D011 control register 1.
    pub cr1: u8,
    /// $D016 control register 2.
    pub cr2: u8,
    /// $D018 memory pointer register.
    pub memptr: u8,
    /// $D019 interrupt latch ("any" bit plus four sources).
    pub irq_latch: u8,
    /// $D01A interrupt mask.
    pub irq_mask: u8,
    /// $D020 border color.
    pub border: u8,
    /// $D021-$D024 background colors.
    pub bg: [u8; 4],

    /// Sprite X (low 8 bits each) and X MSB packed in `sx_msb`.
    pub sprite_x: [u8; 8],
    /// Sprite Y position.
    pub sprite_y: [u8; 8],
    /// Sprite X MSB ($D010).
    pub sx_msb: u8,
    /// Sprite enable ($D015).
    pub sprite_enable: u8,
    /// Sprite multicolor enable ($D01C).
    pub sprite_mc: u8,
    /// Sprite X expand ($D01D).
    pub sprite_xexp: u8,
    /// Sprite Y expand ($D017).
    pub sprite_yexp: u8,
    /// Sprite priority behind background ($D01B).
    pub sprite_prio: u8,
    /// Sprite colors ($D027-$D02E).
    pub sprite_color: [u8; 8],
    /// Sprite multicolors MM0/MM1 ($D025/$D026).
    pub sprite_mm: [u8; 2],
    /// Sprite-sprite collision latch ($D01E).
    pub ss_collide: u8,
    /// Sprite-background collision latch ($D01F).
    pub sb_collide: u8,

    /// Computed framebuffer (ARGB8888).
    pub fb: Vec<u32>,
    /// Framebuffer dimensions.
    pub width: u32,
    /// Framebuffer dimensions.
    pub height: u32,
    /// Latched "frame complete" signal.
    pub frame_done: bool,

    /// Current IRQ line (latched from mask ∧ sources).
    pub irq_line: bool,
}

/// The IRQ latch and line after the sources are re-examined: the "any" bit 7
/// and the line follow whether an enabled source is latched.
pub open spec fn irq_updated(v: VicII) -> VicII {
    if (v.irq_latch & v.irq_mask) & 0x0F != 0 {
        VicII { irq_latch: v.irq_latch | 0x80, irq_line: true, ..v }
    } else {
        VicII { irq_latch: v.irq_latch & !0x80u8, irq_line: false, ..v }
    }
}

/// Left edge of the display window in the framebuffer.
pub open spec fn window_x(m: Model) -> u32 {
    match m {
        Model::Pal => 42,
        Model::Ntsc => 46,
    }
}

/// Top edge of the display window in the framebuffer.
pub open spec fn window_y(m: Model) -> u32 {
    match m {
        Model::Pal => 42,
        Model::Ntsc => 20,
    }
}

/// A register read at `addr` ($D000-$D3FF, 64 registers mirrored): the chip
/// afterwards (reading a collision latch clears it) and the byte read.
pub open spec fn vic_reg_read(v: VicII, addr: u16) -> (VicII, u8) {
    let reg = (addr & 0x3F) as u8;
    if reg <= 0x0F {
        (v, if reg & 1 == 0 { v.sprite_x[(reg / 2) as int] } else { v.sprite_y[(reg / 2) as int] })
    } else if reg == 0x10 {
        (v, v.sx_msb)
    } else if reg == 0x11 {
        (v, (v.cr1 & 0x7F) | (if v.raster_y & 0x100 != 0 { 0x80u8 } else { 0u8 }))
    } else if reg == 0x12 {
        (v, v.raster_y as u8)
    } else if reg == 0x13 || reg == 0x14 {
        (v, 0)
    } else if reg == 0x15 {
        (v, v.sprite_enable)
    } else if reg == 0x16 {
        (v, v.cr2)
    } else if reg == 0x17 {
        (v, v.sprite_yexp)
    } else if reg == 0x18 {
        (v, v.memptr | 0x01)
    } else if reg == 0x19 {
        (v, v.irq_latch | 0x70)
    } else if reg == 0x1A {
        (v, v.irq_mask | 0xF0)
    } else if reg == 0x1B {
        (v, v.sprite_prio)
    } else if reg == 0x1C {
        (v, v.sprite_mc)
    } else if reg == 0x1D {
        (v, v.sprite_xexp)
    } else if reg == 0x1E {
        (VicII { ss_collide: 0, ..v }, v.ss_collide)
    } else if reg == 0x1F {
        (VicII { sb_collide: 0, ..v }, v.sb_collide)
    } else if reg == 0x20 {
        (v, v.border | 0xF0)
    } else if 0x21 <= reg <= 0x24 {
        (v, v.bg[reg - 0x21] | 0xF0)
    } else if reg == 0x25 {
        (v, v.sprite_mm[0] | 0xF0)
    } else if reg == 0x26 {
        (v, v.sprite_mm[1] | 0xF0)
    } else if 0x27 <= reg <= 0x2E {
        (v, v.sprite_color[reg - 0x27] | 0xF0)
    } else {
        (v, 0xFF)
    }
}

/// A register write at `addr`.
pub open spec fn vic_reg_write(v: VicII, addr: u16, val: u8) -> VicII {
    let reg = (addr & 0x3F) as u8;
    if reg <= 0x0F {
        if reg & 1 == 0 {
            VicII { sprite_x: spec_array_update(v.sprite_x, (reg / 2) as int, val), ..v }
        } else {
            VicII { sprite_y: spec_array_update(v.sprite_y, (reg / 2) as int, val), ..v }
        }
    } else if reg == 0x10 {
        VicII { sx_msb: val, ..v }
    } else if reg == 0x11 {
        VicII { cr1: val, raster_compare: (v.raster_compare & 0xFF) | (((val >> 7) as u32) << 8), ..v }
    } else if reg == 0x12 {
        VicII { raster_compare: (v.raster_compare & 0x100) | val as u32, ..v }
    } else if reg == 0x15 {
        VicII { sprite_enable: val, ..v }
    } else if reg == 0x16 {
        VicII { cr2: val, ..v }
    } else if reg == 0x17 {
        VicII { sprite_yexp: val, ..v }
    } else if reg == 0x18 {
        VicII { memptr: val, ..v }
    } else if reg == 0x19 {
        irq_updated(VicII { irq_latch: v.irq_latch & !(val & 0x0F), ..v })
    } else if reg == 0x1A {
        irq_updated(VicII { irq_mask: val & 0x0F, ..v })
    } else if reg == 0x1B {
        VicII { sprite_prio: val, ..v }
    } else if reg == 0x1C {
        VicII { sprite_mc: val, ..v }
    } else if reg == 0x1D {
        VicII { sprite_xexp: val, ..v }
    } else if reg == 0x20 {
        VicII { border: val & 0x0F, ..v }
    } else if 0x21 <= reg <= 0x24 {
        VicII { bg: spec_array_update(v.bg, reg - 0x21, val & 0x0F), ..v }
    } else if reg == 0x25 {
        VicII { sprite_mm: spec_array_update(v.sprite_mm, 0, val & 0x0F), ..v }
    } else if reg == 0x26 {
        VicII { sprite_mm: spec_array_update(v.sprite_mm, 1, val & 0x0F), ..v }
    } else if 0x27 <= reg <= 0x2E {
        VicII { sprite_color: spec_array_update(v.sprite_color, reg - 0x27, val & 0x0F), ..v }
    } else {
        v
    }
}

impl VicII {
    /// The framebuffer matches the model's geometry and the raster is on a
    /// line of the frame.
    pub open spec fn wf(&self) -> bool {
        &&& self.width == self.model.width()
        &&& self.height == self.model.height()
        &&& self.fb@.len() == self.width * self.height
        &&& self.raster_y < self.model.lines()
    }

    /// Whether the display is enabled (DEN).
    pub open spec fn den_spec(&self) -> bool {
        self.cr1 & 0x10 != 0
    }

    /// Whether extended colour mode is on (ECM).
    pub open spec fn ecm_spec(&self) -> bool {
        self.cr1 & 0x40 != 0
    }

    /// Whether bitmap mode is on (BMM).
    pub open spec fn bmm_spec(&self) -> bool {
        self.cr1 & 0x20 != 0
    }

    /// Whether multicolour mode is on (MCM).
    pub open spec fn mcm_spec(&self) -> bool {
        self.cr2 & 0x10 != 0
    }

    /// Re-evaluate the IRQ line from the latch and the mask.
    pub fn update_irq(&mut self)
        ensures
            *final(self) == irq_updated(*old(self)),
    {
        let any = (self.irq_latch & self.irq_mask) & 0x0F;
        if any != 0 {
            self.irq_latch = self.irq_latch | 0x80;
            self.irq_line = true;
        } else {
            self.irq_latch = self.irq_latch & !0x80u8;
            self.irq_line = false;
        }
    }
}


/// Whether pixel `bit` (0 = leftmost) of a hires pattern byte is set.
pub open spec fn hires_px(row_byte: u8, bit: u32) -> bool {
    (row_byte >> ((7 - bit) as u32)) & 1 != 0
}

/// The 2-bit colour index of double-wide pixel pair `i` of a multicolour
/// pattern byte.
pub open spec fn mc_pair(row_byte: u8, i: u32) -> u8 {
    (row_byte >> ((6 - i * 2) as u32)) & 0x03
}

/// Entry `p` of a four-colour table (the last for any `p` above 2).
pub open spec fn pick4(cols: Seq<u32>, p: u8) -> u32 {
    if p == 0 { cols[0] } else if p == 1 { cols[1] } else if p == 2 { cols[2] } else { cols[3] }
}

/// `fb` with the `row.len()` entries from `off` replaced by `row`.
pub open spec fn with_run(fb: Seq<u32>, off: int, row: Seq<u32>) -> Seq<u32> {
    Seq::new(fb.len(), |i: int| if off <= i < off + row.len() { row[i - off] } else { fb[i] })
}

/// `mask` with the 8 entries from `col * 8` replaced by `f`.
pub open spec fn with_mask_run(mask: Seq<bool>, col: int, f: spec_fn(int) -> bool) -> Seq<bool> {
    Seq::new(mask.len(), |j: int| if col * 8 <= j < col * 8 + 8 { f(j - col * 8) } else { mask[j] })
}

/// The raster line relative to the top of the display window (wrapping).
pub open spec fn window_row(v: VicII) -> u32 {
    v.raster_y.wrapping_sub(window_y(v.model))
}

/// Whether the current line shows the display window: the display is enabled
/// and the line is one of its 200.
pub open spec fn line_displayed(v: VicII) -> bool {
    v.den_spec() && window_row(v) < 200
}

/// Video matrix base (bits 4-7 of $D018, in 1 KB steps).
pub open spec fn video_matrix_base(v: VicII) -> u16 {
    ((v.memptr & 0xF0) as u16) << 6
}

/// Character generator base (bits 1-3 of $D018, in 2 KB steps).
pub open spec fn charset_base(v: VicII) -> u16 {
    ((v.memptr & 0x0E) as u16) << 10
}

/// Bitmap base (bit 3 of $D018, 8 KB).
pub open spec fn bitmap_start(v: VicII) -> u16 {
    ((v.memptr & 0x08) as u16) << 10
}

/// Index of the character cell in column `col` of the current line.
pub open spec fn cell_of(v: VicII, col: u32) -> u32 {
    ((window_row(v) / 8) * 40 + col) as u32
}

/// The screen code of cell `col`.
pub open spec fn cell_code(v: VicII, m: Memory, col: u32) -> u8 {
    m.vic_read_spec((video_matrix_base(v) + cell_of(v, col)) as u16)
}

/// The colour-RAM nibble of cell `col`.
pub open spec fn cell_color(v: VicII, m: Memory, col: u32) -> u8 {
    m.color_ram@[(((cell_of(v, col) as u16 + 0x0400) as u16) & 0x03FF) as int] & 0x0F
}

/// The pattern byte of cell `col` on the current line: from the bitmap, or
/// from the glyph of its screen code.
pub open spec fn cell_pattern(v: VicII, m: Memory, col: u32) -> u8 {
    let fine = (window_row(v) & 7) as u8;
    if v.bmm_spec() {
        m.vic_read_spec((bitmap_start(v) + (cell_of(v, col) * 8) as u16 + fine as u16) as u16)
    } else {
        m.vic_read_spec((charset_base(v) + (cell_code(v, m, col) as u16) * 8 + fine as u16) as u16)
    }
}

/// Pixel `bit` of cell `col`: its colour, and whether it is foreground (for
/// sprite priority and collisions). Bitmap or text, hires or multicolour,
/// extended colour: the modes of $D011/$D016.
pub open spec fn cell_pixel(v: VicII, m: Memory, col: u32, bit: u32) -> (u32, bool) {
    let sc = cell_code(v, m, col);
    let color = cell_color(v, m, col);
    let rb = cell_pattern(v, m, col);
    if v.bmm_spec() {
        if v.mcm_spec() {
            let p = mc_pair(rb, bit / 2);
            (if p == 0 { pal(v.bg[0]) } else if p == 1 { pal((sc >> 4) & 0x0F) } else if p == 2 {
                pal(sc & 0x0F)
            } else {
                pal(color & 0x0F)
            }, p & 0x02 != 0)
        } else {
            let on = hires_px(rb, bit);
            (if on { pal((sc >> 4) & 0x0F) } else { pal(sc & 0x0F) }, on)
        }
    } else if v.mcm_spec() && (color & 0x08) != 0 {
        let p = mc_pair(rb, bit / 2);
        (if p == 0 { pal(v.bg[0]) } else if p == 1 { pal(v.bg[1]) } else if p == 2 { pal(v.bg[2]) } else {
            pal(color & 0x07)
        }, p & 0x02 != 0)
    } else if v.ecm_spec() {
        let on = hires_px(rb, bit);
        (if on { pal(color & 0x0F) } else { pal(v.bg[((sc >> 6) & 0x03) as int]) }, on)
    } else {
        let on = hires_px(rb, bit);
        (if on { pal(color & 0x0F) } else { pal(v.bg[0]) }, on)
    }
}

/// The background layer of framebuffer column `x` on the current line: the
/// display window's cell pixels, border colour elsewhere.
pub open spec fn background_pixel(v: VicII, m: Memory, x: int) -> u32 {
    let x0 = window_x(v.model);
    if line_displayed(v) && x0 <= x < x0 + 320 {
        cell_pixel(v, m, ((x - x0) / 8) as u32, ((x - x0) % 8) as u32).0
    } else {
        pal(v.border)
    }
}

/// Whether the background has a foreground pixel at window column `sx`.
pub open spec fn foreground_at(v: VicII, m: Memory, sx: int) -> bool {
    cell_pixel(v, m, (sx / 8) as u32, (sx % 8) as u32).1
}


/// The foreground flags of the 320 window columns of the current line.
pub open spec fn foreground_row(v: VicII, m: Memory) -> Seq<bool> {
    Seq::new(320, |sx: int| foreground_at(v, m, sx))
}

/// The framebuffer `fb` after the current line is drawn on it: the
/// background layer across the whole row, and, on a displayed line, the
/// sprites over it.
pub open spec fn line_drawn(v: VicII, m: Memory, fb: Seq<u32>) -> Seq<u32> {
    let row_off = v.raster_y * v.width;
    let bg = with_run(fb, row_off, Seq::new(v.width as nat, |x: int| background_pixel(v, m, x)));
    if line_displayed(v) {
        sprites_drawn(v, m, bg, row_off, window_x(v.model) as int, foreground_row(v, m))
    } else {
        bg
    }
}

/// The chip's registers after the current line is drawn (the framebuffer
/// aside): the sprite pass updates the collision latches and interrupts on
/// a displayed line.
pub open spec fn line_effects(v: VicII, m: Memory) -> VicII {
    if line_displayed(v) { after_sprites(v, m, foreground_row(v, m)) } else { v }
}

/// A hires text cell pixel: foreground colour or background colour 0.
pub open spec fn std_text_px(v: VicII, rb: u8, fg_color: u8, bit: int) -> (u32, bool) {
    let on = hires_px(rb, bit as u32);
    (if on { pal(fg_color) } else { pal(v.bg[0]) }, on)
}

/// A multicolour text cell pixel: background colours 0-2 or the cell colour.
pub open spec fn mcm_text_px(v: VicII, rb: u8, fg_color: u8, bit: int) -> (u32, bool) {
    let p = mc_pair(rb, (bit / 2) as u32);
    (if p == 0 { pal(v.bg[0]) } else if p == 1 { pal(v.bg[1]) } else if p == 2 { pal(v.bg[2]) } else {
        pal(fg_color)
    }, p & 0x02 != 0)
}

/// An extended-colour text cell pixel: the background colour is chosen by
/// the top two bits of the screen code.
pub open spec fn ecm_text_px(v: VicII, rb: u8, sc: u8, fg_color: u8, bit: int) -> (u32, bool) {
    let on = hires_px(rb, bit as u32);
    (if on { pal(fg_color) } else { pal(v.bg[((sc >> 6) & 0x03) as int]) }, on)
}

/// A hires bitmap pixel: colours from the screen code's nibbles.
pub open spec fn std_bitmap_px(rb: u8, sc: u8, bit: int) -> (u32, bool) {
    let on = hires_px(rb, bit as u32);
    (if on { pal((sc >> 4) & 0x0F) } else { pal(sc & 0x0F) }, on)
}

/// A multicolour bitmap pixel: background 0, the screen code's nibbles, or
/// the colour-RAM nibble.
pub open spec fn mcm_bitmap_px(v: VicII, rb: u8, sc: u8, cr: u8, bit: int) -> (u32, bool) {
    let p = mc_pair(rb, (bit / 2) as u32);
    (if p == 0 { pal(v.bg[0]) } else if p == 1 { pal((sc >> 4) & 0x0F) } else if p == 2 { pal(sc & 0x0F) } else {
        pal(cr & 0x0F)
    }, p & 0x02 != 0)
}

/// A VIC-II of `model` as it powers on (the framebuffer aside): raster and
/// raster compare at 0, display on in 25-row/40-column text mode, screen at
/// $0400 and characters at $1000, light blue border on blue background, no
/// sprites, no collisions, no interrupt.
pub open spec fn powered_on_vic(v: VicII, model: Model) -> bool {
    &&& v.model == model
    &&& v.width == model.width() && v.height == model.height()
    &&& v.raster_x == 0 && v.raster_y == 0 && v.raster_compare == 0
    &&& v.cr1 == 0x1B && v.cr2 == 0xC8 && v.memptr == 0x14
    &&& v.irq_latch == 0 && v.irq_mask == 0 && v.border == 14
    &&& v.bg@ == seq![6u8, 0, 0, 0]
    &&& v.sprite_x@ == Seq::new(8, |i: int| 0u8)
    &&& v.sprite_y@ == Seq::new(8, |i: int| 0u8)
    &&& v.sx_msb == 0 && v.sprite_enable == 0 && v.sprite_mc == 0
    &&& v.sprite_xexp == 0 && v.sprite_yexp == 0 && v.sprite_prio == 0
    &&& v.sprite_color@ == Seq::new(8, |i: int| 0u8)
    &&& v.sprite_mm@ == seq![0u8, 0]
    &&& v.ss_collide == 0 && v.sb_collide == 0
    &&& !v.frame_done && !v.irq_line
}

impl VicII {
    /// Create a fresh VIC-II.
    pub fn new(model: Model) -> (r: Self)
        ensures
            r.wf(),
            powered_on_vic(r, model),
            r.fb@ == Seq::new((model.width() * model.height()) as nat, |i: int| pal(14)),
    {
        let w = model.screen_width();
        let h = model.screen_height();
        let mut v = VicII {
            model,
            raster_x: 0,
            raster_y: 0,
            raster_compare: 0,
            cr1: 0x1B,
            cr2: 0xC8,
            memptr: 0x14,
            irq_latch: 0,
            irq_mask: 0,
            border: 14,
            bg: [6, 0, 0, 0],
            sprite_x: [0; 8],
            sprite_y: [0; 8],
            sx_msb: 0,
            sprite_enable: 0,
            sprite_mc: 0,
            sprite_xexp: 0,
            sprite_yexp: 0,
            sprite_prio: 0,
            sprite_color: [0; 8],
            sprite_mm: [0; 2],
            ss_collide: 0,
            sb_collide: 0,
            fb: vec![0u32; (w * h) as usize],
            width: w,
            height: h,
            frame_done: false,
            irq_line: false,
        };
        v.clear_framebuffer();
        assert(v.bg@ =~= seq![6u8, 0, 0, 0]);
        assert(v.sprite_x@ =~= Seq::new(8, |i: int| 0u8));
        assert(v.sprite_y@ =~= Seq::new(8, |i: int| 0u8));
        assert(v.sprite_color@ =~= Seq::new(8, |i: int| 0u8));
        assert(v.sprite_mm@ =~= seq![0u8, 0]);
        v
    }

    /// Fill framebuffer with border colour.
    pub fn clear_framebuffer(&mut self)
        ensures
            final(self).fb@ == Seq::new(old(self).fb@.len(), |i: int| pal(old(self).border)),
            *final(self) == (VicII { fb: final(self).fb, ..*old(self) }),
    {
        let c = vic_color(self.border);
        let n = self.fb.len();
        let mut i: usize = 0;
        while i < n
            invariant
                i <= n,
                n == old(self).fb@.len(),
                self.fb@.len() == n,
                c == pal(old(self).border),
                *self == (VicII { fb: self.fb, ..*old(self) }),
                forall|j: int| 0 <= j < i ==> #[trigger] self.fb@[j] == c,
            decreases n - i,
        {
            self.fb.set(i, c);
            i += 1;
        }
        assert(self.fb@ =~= Seq::new(old(self).fb@.len(), |i: int| pal(old(self).border)));
    }

    /// Read a VIC-II register. `addr` is any address in $D000-$D3FF.
    pub fn read(&mut self, addr: u16) -> (r: u8)
        ensures
            (*final(self), r) == vic_reg_read(*old(self), addr),
    {
        let reg = (addr & 0x3F) as u8;
        if reg <= 0x0F {
            if reg & 1 == 0 { self.sprite_x[(reg / 2) as usize] } else { self.sprite_y[(reg / 2) as usize] }
        } else if reg == 0x10 {
            self.sx_msb
        } else if reg == 0x11 {
            // Bit 7 is raster bit 8.
            (self.cr1 & 0x7F) | (if self.raster_y & 0x100 != 0 { 0x80u8 } else { 0u8 })
        } else if reg == 0x12 {
            self.raster_y as u8
        } else if reg == 0x13 || reg == 0x14 {
            0 // light pen
        } else if reg == 0x15 {
            self.sprite_enable
        } else if reg == 0x16 {
            self.cr2
        } else if reg == 0x17 {
            self.sprite_yexp
        } else if reg == 0x18 {
            self.memptr | 0x01
        } else if reg == 0x19 {
            self.irq_latch | 0x70
        } else if reg == 0x1A {
            self.irq_mask | 0xF0
        } else if reg == 0x1B {
            self.sprite_prio
        } else if reg == 0x1C {
            self.sprite_mc
        } else if reg == 0x1D {
            self.sprite_xexp
        } else if reg == 0x1E {
            let v = self.ss_collide;
            self.ss_collide = 0;
            v
        } else if reg == 0x1F {
            let v = self.sb_collide;
            self.sb_collide = 0;
            v
        } else if reg == 0x20 {
            self.border | 0xF0
        } else if 0x21 <= reg && reg <= 0x24 {
            self.bg[(reg - 0x21) as usize] | 0xF0
        } else if reg == 0x25 {
            self.sprite_mm[0] | 0xF0
        } else if reg == 0x26 {
            self.sprite_mm[1] | 0xF0
        } else if 0x27 <= reg && reg <= 0x2E {
            self.sprite_color[(reg - 0x27) as usize] | 0xF0
        } else {
            0xFF
        }
    }

    /// Write a VIC-II register.
    pub fn write(&mut self, addr: u16, val: u8)
        ensures
            *final(self) == vic_reg_write(*old(self), addr, val),
    {
        let reg = (addr & 0x3F) as u8;
        if reg <= 0x0F {
            if reg & 1 == 0 {
                self.sprite_x[(reg / 2) as usize] = val;
            } else {
                self.sprite_y[(reg / 2) as usize] = val;
            }
        } else if reg == 0x10 {
            self.sx_msb = val;
        } else if reg == 0x11 {
            self.cr1 = val;
            // raster_compare bit 8 from cr1 bit 7
            self.raster_compare = (self.raster_compare & 0xFF) | (((val >> 7) as u32) << 8);
        } else if reg == 0x12 {
            self.raster_compare = (self.raster_compare & 0x100) | val as u32;
        } else if reg == 0x15 {
            self.sprite_enable = val;
        } else if reg == 0x16 {
            self.cr2 = val;
        } else if reg == 0x17 {
            self.sprite_yexp = val;
        } else if reg == 0x18 {
            self.memptr = val;
        } else if reg == 0x19 {
            self.irq_latch = self.irq_latch & !(val & 0x0F);
            self.update_irq();
        } else if reg == 0x1A {
            self.irq_mask = val & 0x0F;
            self.update_irq();
        } else if reg == 0x1B {
            self.sprite_prio = val;
        } else if reg == 0x1C {
            self.sprite_mc = val;
        } else if reg == 0x1D {
            self.sprite_xexp = val;
        } else if reg == 0x20 {
            self.border = val & 0x0F;
        } else if 0x21 <= reg && reg <= 0x24 {
            self.bg[(reg - 0x21) as usize] = val & 0x0F;
        } else if reg == 0x25 {
            self.sprite_mm[0] = val & 0x0F;
        } else if reg == 0x26 {
            self.sprite_mm[1] = val & 0x0F;
        } else if 0x27 <= reg && reg <= 0x2E {
            self.sprite_color[(reg - 0x27) as usize] = val & 0x0F;
        }
    }

    /// True if display is enabled (DEN bit of $D011).
    pub fn den(&self) -> (r: bool)
        ensures
            r == self.den_spec(),
    {
        self.cr1 & 0x10 != 0
    }

    /// ECM graphics bit.
    pub fn ecm(&self) -> (r: bool)
        ensures
            r == self.ecm_spec(),
    {
        self.cr1 & 0x40 != 0
    }

    /// BMM bitmap-mode bit.
    pub fn bmm(&self) -> (r: bool)
        ensures
            r == self.bmm_spec(),
    {
        self.cr1 & 0x20 != 0
    }

    /// MCM multicolor bit.
    pub fn mcm(&self) -> (r: bool)
        ensures
            r == self.mcm_spec(),
    {
        self.cr2 & 0x10 != 0
    }
}


impl VicII {
    /// Draw one row of a hires text cell.
    fn render_std_text_cell(
        &mut self,
        row_off: usize,
        x_start: u32,
        row_byte: u8,
        fg_color: u8,
        fg_mask: &mut [bool; 320],
        col: u32,
    )
        requires
            col < 40,
            x_start < 0x10000,
            row_off + x_start + 8 <= old(self).fb@.len(),
        ensures
            final(self).fb@ == with_run(old(self).fb@, row_off + x_start, Seq::new(8, |b: int| std_text_px(*old(self), row_byte, fg_color, b).0)),
            final(fg_mask)@ == with_mask_run(old(fg_mask)@, col as int, |b: int| std_text_px(*old(self), row_byte, fg_color, b).1),
            *final(self) == (VicII { fb: final(self).fb, ..*old(self) }),
    {
        let bg = vic_color(self.bg[0]);
        let fg = vic_color(fg_color);
        let mut bit: u32 = 0;
        while bit < 8
            invariant
                bit <= 8,
                col < 40,
                x_start < 0x10000,
                row_off + x_start + 8 <= old(self).fb@.len(),
                self.fb@.len() == old(self).fb@.len(),
                *self == (VicII { fb: self.fb, ..*old(self) }),
                forall|b: int| 0 <= b < 8 ==> hires_px(row_byte, b as u32) ==> #[trigger] std_text_px(*old(self), row_byte, fg_color, b).0 == fg,
                forall|b: int| 0 <= b < 8 ==> !hires_px(row_byte, b as u32) ==> #[trigger] std_text_px(*old(self), row_byte, fg_color, b).0 == bg,
                forall|b: int| 0 <= b < 8 ==> #[trigger] std_text_px(*old(self), row_byte, fg_color, b).1 == hires_px(row_byte, b as u32),
                forall|i: int| 0 <= i < self.fb@.len() ==> #[trigger] self.fb@[i] == (
                    if row_off + x_start <= i < row_off + x_start + bit {
                        Seq::new(8, |b: int| std_text_px(*old(self), row_byte, fg_color, b).0)[i - row_off - x_start]
                    } else {
                        old(self).fb@[i]
                    }),
                forall|j: int| 0 <= j < 320 ==> #[trigger] fg_mask@[j] == (
                    if col * 8 <= j < col * 8 + bit {
                        hires_px(row_byte, (j - col * 8) as u32)
                    } else {
                        old(fg_mask)@[j]
                    }),
            decreases 8 - bit,
        {
            let px = (row_byte >> (7 - bit)) & 1 != 0;
            let x = x_start + bit;
            if (x as usize) < self.fb.len() - row_off {
                self.fb.set(row_off + x as usize, if px { fg } else { bg });
            }
            let fgx = (col * 8 + bit) as usize;
            if fgx < 320 {
                fg_mask[fgx] = px;
            }
            bit += 1;
        }
        assert(self.fb@ =~= with_run(old(self).fb@, row_off + x_start, Seq::new(8, |b: int| std_text_px(*old(self), row_byte, fg_color, b).0)));
        assert(fg_mask@ =~= with_mask_run(old(fg_mask)@, col as int, |b: int| std_text_px(*old(self), row_byte, fg_color, b).1));
    }

    /// Draw one row of a multicolour text cell.
    fn render_mcm_text_cell(
        &mut self,
        row_off: usize,
        x_start: u32,
        row_byte: u8,
        fg_color: u8,
        fg_mask: &mut [bool; 320],
        col: u32,
    )
        requires
            col < 40,
            x_start < 0x10000,
            row_off + x_start + 8 <= old(self).fb@.len(),
        ensures
            final(self).fb@ == with_run(old(self).fb@, row_off + x_start, Seq::new(8, |b: int| mcm_text_px(*old(self), row_byte, fg_color, b).0)),
            final(fg_mask)@ == with_mask_run(old(fg_mask)@, col as int, |b: int| mcm_text_px(*old(self), row_byte, fg_color, b).1),
            *final(self) == (VicII { fb: final(self).fb, ..*old(self) }),
    {
        let cols = [vic_color(self.bg[0]), vic_color(self.bg[1]), vic_color(self.bg[2]), vic_color(fg_color)];
        let mut i: u32 = 0;
        while i < 4
            invariant
                i <= 4,
                col < 40,
                x_start < 0x10000,
                row_off + x_start + 8 <= old(self).fb@.len(),
                self.fb@.len() == old(self).fb@.len(),
                *self == (VicII { fb: self.fb, ..*old(self) }),
                forall|b: int| 0 <= b < 8 ==> #[trigger] mcm_text_px(*old(self), row_byte, fg_color, b).0 == pick4(cols@, mc_pair(row_byte, (b / 2) as u32)),
                forall|b: int| 0 <= b < 8 ==> #[trigger] mcm_text_px(*old(self), row_byte, fg_color, b).1 == (mc_pair(row_byte, (b / 2) as u32) & 0x02 != 0),
                forall|k: int| 0 <= k < self.fb@.len() ==> #[trigger] self.fb@[k] == (
                    if row_off + x_start <= k < row_off + x_start + 2 * i {
                        Seq::new(8, |b: int| mcm_text_px(*old(self), row_byte, fg_color, b).0)[k - row_off - x_start]
                    } else {
                        old(self).fb@[k]
                    }),
                forall|j: int| 0 <= j < 320 ==> #[trigger] fg_mask@[j] == (
                    if col * 8 <= j < col * 8 + 2 * i {
                        mc_pair(row_byte, ((j - col * 8) / 2) as u32) & 0x02 != 0
                    } else {
                        old(fg_mask)@[j]
                    }),
            decreases 4 - i,
        {
            let bits = ((row_byte >> (6 - i * 2)) & 0x03) as usize;
            proof {
                let sh = row_byte >> ((6 - i * 2) as u32);
                assert(sh & 0x03 <= 3) by (bit_vector);
            }
            let c = cols[bits];
            let x = x_start + i * 2;
            if (x as usize + 1) < self.fb.len() - row_off {
                self.fb.set(row_off + x as usize, c);
                self.fb.set(row_off + x as usize + 1, c);
            }
            let fgx = (col * 8 + i * 2) as usize;
            if fgx + 1 < 320 {
                let on = bits & 0x02 != 0;
                fg_mask[fgx] = on;
                fg_mask[fgx + 1] = on;
            }
            i += 1;
        }
        assert(self.fb@ =~= with_run(old(self).fb@, row_off + x_start, Seq::new(8, |b: int| mcm_text_px(*old(self), row_byte, fg_color, b).0)));
        assert(fg_mask@ =~= with_mask_run(old(fg_mask)@, col as int, |b: int| mcm_text_px(*old(self), row_byte, fg_color, b).1));
    }

    /// Draw one row of an extended-colour text cell.
    fn render_ecm_text_cell(
        &mut self,
        row_off: usize,
        x_start: u32,
        row_byte: u8,
        screen_code: u8,
        fg_color: u8,
        fg_mask: &mut [bool; 320],
        col: u32,
    )
        requires
            col < 40,
            x_start < 0x10000,
            row_off + x_start + 8 <= old(self).fb@.len(),
        ensures
            final(self).fb@ == with_run(old(self).fb@, row_off + x_start, Seq::new(8, |b: int| ecm_text_px(*old(self), row_byte, screen_code, fg_color, b).0)),
            final(fg_mask)@ == with_mask_run(old(fg_mask)@, col as int, |b: int| ecm_text_px(*old(self), row_byte, screen_code, fg_color, b).1),
            *final(self) == (VicII { fb: final(self).fb, ..*old(self) }),
    {
        let bg_idx = ((screen_code >> 6) & 0x03) as usize;
        proof {
            assert((screen_code >> 6) & 0x03 <= 3) by (bit_vector);
        }
        let bg = vic_color(self.bg[bg_idx]);
        let fg = vic_color(fg_color);
        let mut bit: u32 = 0;
        while bit < 8
            invariant
                bit <= 8,
                col < 40,
                x_start < 0x10000,
                row_off + x_start + 8 <= old(self).fb@.len(),
                self.fb@.len() == old(self).fb@.len(),
                *self == (VicII { fb: self.fb, ..*old(self) }),
                forall|b: int| 0 <= b < 8 ==> hires_px(row_byte, b as u32) ==> #[trigger] ecm_text_px(*old(self), row_byte, screen_code, fg_color, b).0 == fg,
                forall|b: int| 0 <= b < 8 ==> !hires_px(row_byte, b as u32) ==> #[trigger] ecm_text_px(*old(self), row_byte, screen_code, fg_color, b).0 == bg,
                forall|b: int| 0 <= b < 8 ==> #[trigger] ecm_text_px(*old(self), row_byte, screen_code, fg_color, b).1 == hires_px(row_byte, b as u32),
                forall|i: int| 0 <= i < self.fb@.len() ==> #[trigger] self.fb@[i] == (
                    if row_off + x_start <= i < row_off + x_start + bit {
                        Seq::new(8, |b: int| ecm_text_px(*old(self), row_byte, screen_code, fg_color, b).0)[i - row_off - x_start]
                    } else {
                        old(self).fb@[i]
                    }),
                forall|j: int| 0 <= j < 320 ==> #[trigger] fg_mask@[j] == (
                    if col * 8 <= j < col * 8 + bit {
                        hires_px(row_byte, (j - col * 8) as u32)
                    } else {
                        old(fg_mask)@[j]
                    }),
            decreases 8 - bit,
        {
            let px = (row_byte >> (7 - bit)) & 1 != 0;
            let x = x_start + bit;
            if (x as usize) < self.fb.len() - row_off {
                self.fb.set(row_off + x as usize, if px { fg } else { bg });
            }
            let fgx = (col * 8 + bit) as usize;
            if fgx < 320 {
                fg_mask[fgx] = px;
            }
            bit += 1;
        }
        assert(self.fb@ =~= with_run(old(self).fb@, row_off + x_start, Seq::new(8, |b: int| ecm_text_px(*old(self), row_byte, screen_code, fg_color, b).0)));
        assert(fg_mask@ =~= with_mask_run(old(fg_mask)@, col as int, |b: int| ecm_text_px(*old(self), row_byte, screen_code, fg_color, b).1));
    }

    /// Draw one row of a hires bitmap cell.
    fn render_std_bitmap_cell(
        &mut self,
        row_off: usize,
        x_start: u32,
        row_byte: u8,
        screen_code: u8,
        fg_mask: &mut [bool; 320],
        col: u32,
    )
        requires
            col < 40,
            x_start < 0x10000,
            row_off + x_start + 8 <= old(self).fb@.len(),
        ensures
            final(self).fb@ == with_run(old(self).fb@, row_off + x_start, Seq::new(8, |b: int| std_bitmap_px(row_byte, screen_code, b).0)),
            final(fg_mask)@ == with_mask_run(old(fg_mask)@, col as int, |b: int| std_bitmap_px(row_byte, screen_code, b).1),
            *final(self) == (VicII { fb: final(self).fb, ..*old(self) }),
    {
        let bg = vic_color(screen_code & 0x0F);
        let fg = vic_color((screen_code >> 4) & 0x0F);
        let mut bit: u32 = 0;
        while bit < 8
            invariant
                bit <= 8,
                col < 40,
                x_start < 0x10000,
                row_off + x_start + 8 <= old(self).fb@.len(),
                self.fb@.len() == old(self).fb@.len(),
                *self == (VicII { fb: self.fb, ..*old(self) }),
                forall|b: int| 0 <= b < 8 ==> hires_px(row_byte, b as u32) ==> #[trigger] std_bitmap_px(row_byte, screen_code, b).0 == fg,
                forall|b: int| 0 <= b < 8 ==> !hires_px(row_byte, b as u32) ==> #[trigger] std_bitmap_px(row_byte, screen_code, b).0 == bg,
                forall|b: int| 0 <= b < 8 ==> #[trigger] std_bitmap_px(row_byte, screen_code, b).1 == hires_px(row_byte, b as u32),
                forall|i: int| 0 <= i < self.fb@.len() ==> #[trigger] self.fb@[i] == (
                    if row_off + x_start <= i < row_off + x_start + bit {
                        Seq::new(8, |b: int| std_bitmap_px(row_byte, screen_code, b).0)[i - row_off - x_start]
                    } else {
                        old(self).fb@[i]
                    }),
                forall|j: int| 0 <= j < 320 ==> #[trigger] fg_mask@[j] == (
                    if col * 8 <= j < col * 8 + bit {
                        hires_px(row_byte, (j - col * 8) as u32)
                    } else {
                        old(fg_mask)@[j]
                    }),
            decreases 8 - bit,
        {
            let px = (row_byte >> (7 - bit)) & 1 != 0;
            let x = x_start + bit;
            if (x as usize) < self.fb.len() - row_off {
                self.fb.set(row_off + x as usize, if px { fg } else { bg });
            }
            let fgx = (col * 8 + bit) as usize;
            if fgx < 320 {
                fg_mask[fgx] = px;
            }
            bit += 1;
        }
        assert(self.fb@ =~= with_run(old(self).fb@, row_off + x_start, Seq::new(8, |b: int| std_bitmap_px(row_byte, screen_code, b).0)));
        assert(fg_mask@ =~= with_mask_run(old(fg_mask)@, col as int, |b: int| std_bitmap_px(row_byte, screen_code, b).1));
    }

    /// Draw one row of a multicolour bitmap cell.
    fn render_mcm_bitmap_cell(
        &mut self,
        row_off: usize,
        x_start: u32,
        row_byte: u8,
        screen_code: u8,
        color_ram: u8,
        fg_mask: &mut [bool; 320],
        col: u32,
    )
        requires
            col < 40,
            x_start < 0x10000,
            row_off + x_start + 8 <= old(self).fb@.len(),
        ensures
            final(self).fb@ == with_run(old(self).fb@, row_off + x_start, Seq::new(8, |b: int| mcm_bitmap_px(*old(self), row_byte, screen_code, color_ram, b).0)),
            final(fg_mask)@ == with_mask_run(old(fg_mask)@, col as int, |b: int| mcm_bitmap_px(*old(self), row_byte, screen_code, color_ram, b).1),
            *final(self) == (VicII { fb: final(self).fb, ..*old(self) }),
    {
        let cols = [
            vic_color(self.bg[0]),
            vic_color((screen_code >> 4) & 0x0F),
            vic_color(screen_code & 0x0F),
            vic_color(color_ram & 0x0F),
        ];
        let mut i: u32 = 0;
        while i < 4
            invariant
                i <= 4,
                col < 40,
                x_start < 0x10000,
                row_off + x_start + 8 <= old(self).fb@.len(),
                self.fb@.len() == old(self).fb@.len(),
                *self == (VicII { fb: self.fb, ..*old(self) }),
                forall|b: int| 0 <= b < 8 ==> #[trigger] mcm_bitmap_px(*old(self), row_byte, screen_code, color_ram, b).0 == pick4(cols@, mc_pair(row_byte, (b / 2) as u32)),
                forall|b: int| 0 <= b < 8 ==> #[trigger] mcm_bitmap_px(*old(self), row_byte, screen_code, color_ram, b).1 == (mc_pair(row_byte, (b / 2) as u32) & 0x02 != 0),
                forall|k: int| 0 <= k < self.fb@.len() ==> #[trigger] self.fb@[k] == (
                    if row_off + x_start <= k < row_off + x_start + 2 * i {
                        Seq::new(8, |b: int| mcm_bitmap_px(*old(self), row_byte, screen_code, color_ram, b).0)[k - row_off - x_start]
                    } else {
                        old(self).fb@[k]
                    }),
                forall|j: int| 0 <= j < 320 ==> #[trigger] fg_mask@[j] == (
                    if col * 8 <= j < col * 8 + 2 * i {
                        mc_pair(row_byte, ((j - col * 8) / 2) as u32) & 0x02 != 0
                    } else {
                        old(fg_mask)@[j]
                    }),
            decreases 4 - i,
        {
            let bits = ((row_byte >> (6 - i * 2)) & 0x03) as usize;
            proof {
                let sh = row_byte >> ((6 - i * 2) as u32);
                assert(sh & 0x03 <= 3) by (bit_vector);
            }
            let c = cols[bits];
            let x = x_start + i * 2;
            if (x as usize + 1) < self.fb.len() - row_off {
                self.fb.set(row_off + x as usize, c);
                self.fb.set(row_off + x as usize + 1, c);
            }
            let fgx = (col * 8 + i * 2) as usize;
            if fgx + 1 < 320 {
                let on = bits & 0x02 != 0;
                fg_mask[fgx] = on;
                fg_mask[fgx + 1] = on;
            }
            i += 1;
        }
        assert(self.fb@ =~= with_run(old(self).fb@, row_off + x_start, Seq::new(8, |b: int| mcm_bitmap_px(*old(self), row_byte, screen_code, color_ram, b).0)));
        assert(fg_mask@ =~= with_mask_run(old(fg_mask)@, col as int, |b: int| mcm_bitmap_px(*old(self), row_byte, screen_code, color_ram, b).1));
    }
}


/// The chip after one scanline (the framebuffer aside): a raster match at
/// the start of the line latches source 0; the line is drawn when it is
/// inside the framebuffer; the raster advances and wraps at the end of the
/// frame, raising the frame-done signal.
pub open spec fn after_line(v: VicII, m: Memory) -> VicII {
    let v1 = if v.raster_y == v.raster_compare { irq_updated(VicII { irq_latch: v.irq_latch | 0x01, ..v }) } else { v };
    let v2 = if v1.raster_y < v1.height { line_effects(v1, m) } else { v1 };
    let ny = v1.raster_y + 1;
    if ny >= v.model.lines() {
        VicII { raster_y: 0, frame_done: true, ..v2 }
    } else {
        VicII { raster_y: ny as u32, ..v2 }
    }
}

/// The framebuffer `fb` after one scanline.
pub open spec fn fb_after_line(v: VicII, m: Memory, fb: Seq<u32>) -> Seq<u32> {
    let v1 = if v.raster_y == v.raster_compare { irq_updated(VicII { irq_latch: v.irq_latch | 0x01, ..v }) } else { v };
    if v1.raster_y < v1.height { line_drawn(v1, m, fb) } else { fb }
}

/// The colours of the display window on a drawn line with no sprites. For
/// window column `sx`, with the screen code `sc`, colour-RAM nibble `cr`
/// and pattern byte `rb` of its cell, `bit` its hires bit (bit 7 leftmost)
/// and `pair` its multicolour bit pair (the two bits holding the pixel):
/// - hires bitmap (BMM, not MCM): set bits in the colour of `sc`'s high
///   nibble, clear bits in that of its low nibble;
/// - multicolour bitmap (BMM and MCM): pair 0 background 0, 1 the high
///   nibble, 2 the low nibble, 3 the colour-RAM nibble;
/// - standard text (no mode bit, or MCM with `cr` bit 3 clear): set bits in
///   the colour-RAM colour, clear bits in background 0;
/// - multicolour text (MCM, `cr` bit 3 set): pairs 0-2 backgrounds 0-2, pair
///   3 the colour of `cr`'s low three bits;
/// - extended colour text (ECM only): set bits in the colour-RAM colour,
///   clear bits in the background chosen by `sc`'s top two bits.
pub proof fn law_window_colours(v: VicII, m: Memory, fb: Seq<u32>, sx: int)
    requires
        v.wf(),
        fb.len() == v.width * v.height,
        v.raster_y < v.height,
        line_displayed(v),
        v.sprite_enable == 0,
        0 <= sx < 320,
    ensures
        ({
            let col = (sx / 8) as u32;
            let sc = cell_code(v, m, col);
            let cr = cell_color(v, m, col);
            let rb = cell_pattern(v, m, col);
            let bit = (rb >> ((7 - sx % 8) as u32)) & 1 != 0;
            let pair = (rb >> ((6 - (sx % 8) / 2 * 2) as u32)) & 0x03;
            let px = fb_after_line(v, m, fb)[v.raster_y * v.width + window_x(v.model) + sx];
            &&& v.bmm_spec() && !v.mcm_spec() ==> px == (if bit { pal((sc >> 4) & 0x0F) } else { pal(sc & 0x0F) })
            &&& v.bmm_spec() && v.mcm_spec() ==> px == (if pair == 0 {
                pal(v.bg[0])
            } else if pair == 1 {
                pal((sc >> 4) & 0x0F)
            } else if pair == 2 {
                pal(sc & 0x0F)
            } else {
                pal(cr)
            })
            &&& !v.bmm_spec() && !v.ecm_spec() && !(v.mcm_spec() && cr & 0x08 != 0)
                ==> px == (if bit { pal(cr) } else { pal(v.bg[0]) })
            &&& !v.bmm_spec() && v.mcm_spec() && cr & 0x08 != 0 ==> px == (if pair == 0 {
                pal(v.bg[0])
            } else if pair == 1 {
                pal(v.bg[1])
            } else if pair == 2 {
                pal(v.bg[2])
            } else {
                pal(cr & 0x07)
            })
            &&& !v.bmm_spec() && !v.mcm_spec() && v.ecm_spec()
                ==> px == (if bit { pal(cr) } else { pal(v.bg[((sc >> 6) & 0x03) as int]) })
        }),
{
    let v1 = if v.raster_y == v.raster_compare { irq_updated(VicII { irq_latch: v.irq_latch | 0x01, ..v }) } else { v };
    let col = (sx / 8) as u32;
    assert(cell_code(v1, m, col) == cell_code(v, m, col));
    assert(cell_color(v1, m, col) == cell_color(v, m, col));
    assert(cell_pattern(v1, m, col) == cell_pattern(v, m, col));
    assert(line_displayed(v1));
    let x0 = window_x(v.model);
    let row_off = v.raster_y * v.width;
    assert(x0 + 320 <= v.width) by {
        assert(v.width == v.model.width());
    }
    assert(row_off + v.width <= v.width * v.height) by (nonlinear_arith)
        requires
            row_off == v.raster_y * v.width,
            v.raster_y < v.height,
    ;
    lemma_no_sprites_on_top(v1, m, sx, foreground_row(v1, m)[sx], 8);
    assert(((x0 + sx) - x0) / 8 == sx / 8 && ((x0 + sx) - x0) % 8 == sx % 8);
    assert((sx % 8) / 2 == ((sx % 8) / 2) as u32);
    let raw: u8 = m.color_ram@[(((cell_of(v, col) as u16 + 0x0400) as u16) & 0x03FF) as int];
    let cr: u8 = raw & 0x0F;
    assert(cr & 0x0F == cr && (cr & 0x07) & 0x0F == cr & 0x07) by (bit_vector)
        requires
            cr == raw & 0x0F;
    assert(cr == cell_color(v, m, col));
}

/// Outside the display window, and on lines the window does not cover or
/// with the display off, a drawn line shows the border colour.
pub proof fn law_border_colour(v: VicII, m: Memory, fb: Seq<u32>, x: int)
    requires
        v.wf(),
        fb.len() == v.width * v.height,
        v.raster_y < v.height,
        0 <= x < v.width,
        !line_displayed(v) || x < window_x(v.model) || x >= window_x(v.model) + 320,
    ensures
        fb_after_line(v, m, fb)[v.raster_y * v.width + x] == pal(v.border),
{
    let row_off = v.raster_y * v.width;
    assert(row_off + v.width <= v.width * v.height) by (nonlinear_arith)
        requires
            row_off == v.raster_y * v.width,
            v.raster_y < v.height,
    ;
}

/// The scanline step does not look at the framebuffer field of the chip:
/// two chips that differ only there step alike.
pub proof fn lemma_line_ignores_fb(v1: VicII, v2: VicII, m: Memory, fb: Seq<u32>)
    requires
        v1 == (VicII { fb: v1.fb, ..v2 }),
    ensures
        fb_after_line(v1, m, fb) == fb_after_line(v2, m, fb),
        after_line(v1, m) == (VicII { fb: v1.fb, ..after_line(v2, m) }),
{
    let w1 = if v1.raster_y == v1.raster_compare { irq_updated(VicII { irq_latch: v1.irq_latch | 0x01, ..v1 }) } else { v1 };
    let w2 = if v2.raster_y == v2.raster_compare { irq_updated(VicII { irq_latch: v2.irq_latch | 0x01, ..v2 }) } else { v2 };
    assert(w1 == (VicII { fb: w1.fb, ..w2 }));
    let row_off = w1.raster_y * w1.width;
    let bg = with_run(fb, row_off, Seq::new(w1.width as nat, |x: int| background_pixel(w1, m, x)));
    assert(bg =~= with_run(fb, row_off, Seq::new(w2.width as nat, |x: int| background_pixel(w2, m, x))));
    assert(foreground_row(w1, m) =~= foreground_row(w2, m));
    lemma_sprites_ignore_fb(w1, w2, m, bg, row_off, window_x(w1.model) as int, foreground_row(w1, m));
}

/// A scanline step leaves the framebuffer field of the chip as it was.
pub proof fn lemma_after_line_keeps_fb(v: VicII, m: Memory)
    ensures
        after_line(v, m).fb == v.fb,
{
}

impl VicII {
    /// Advance the raster by one scanline, rendering if needed.
    pub fn step_line(&mut self, mem: &Memory)
        requires
            old(self).wf(),
            mem.wf(),
            mem.vic_bank_base <= 0xC000,
        ensures
            final(self).wf(),
            final(self).fb@ == fb_after_line(*old(self), *mem, old(self).fb@),
            *final(self) == (VicII { fb: final(self).fb, ..after_line(*old(self), *mem) }),
    {
        // Raster IRQ match at the START of the line.
        if self.raster_y == self.raster_compare {
            self.irq_latch = self.irq_latch | 0x01;
            self.update_irq();
        }

        if self.raster_y < self.height {
            self.render_line(mem);
        }

        self.raster_y = self.raster_y + 1;
        if self.raster_y >= self.model.lines_per_frame() {
            self.raster_y = 0;
            self.frame_done = true;
        }
    }

    /// Draw the current scanline: border colour across the row, the display
    /// window's cells on a displayed line, then the sprites.
    fn render_line(&mut self, mem: &Memory)
        requires
            old(self).wf(),
            old(self).raster_y < old(self).height,
            mem.wf(),
            mem.vic_bank_base <= 0xC000,
        ensures
            final(self).fb@ == line_drawn(*old(self), *mem, old(self).fb@),
            *final(self) == (VicII { fb: final(self).fb, ..line_effects(*old(self), *mem) }),
    {
        let ghost v = *self;
        let ghost m = *mem;
        let y = self.raster_y;
        let w = self.width as usize;
        proof {
            assert((y + 1) * w <= self.height * self.width) by (nonlinear_arith)
                requires y < self.height, w == self.width;
        }
        let row_off = (y as usize) * w;

        // Border colour for left/right borders and off-display lines.
        let border = vic_color(self.border);
        let mut x: usize = 0;
        while x < w
            invariant
                x <= w,
                w == v.width,
                row_off == v.raster_y * v.width,
                row_off + w <= v.fb@.len(),
                row_off + w <= self.fb.len(),
                border == pal(v.border),
                self.fb@.len() == v.fb@.len(),
                *self == (VicII { fb: self.fb, ..v }),
                forall|i: int| 0 <= i < self.fb@.len() ==> #[trigger] self.fb@[i]
                    == if row_off <= i < row_off + x { border } else { v.fb@[i] },
            decreases w - x,
        {
            self.fb.set(row_off + x, border);
            x += 1;
        }
        let ghost fb_border = self.fb@;
        assert(fb_border =~= with_run(v.fb@, row_off as int, Seq::new(w as nat, |x: int| pal(v.border))));

        if !self.den() {
            assert(self.fb@ =~= line_drawn(v, m, v.fb@));
            return;
        }

        // Display area is roughly 40x25 chars centered in the frame. For
        // simplicity we use a fixed inner window starting at (x0,y0).
        let x0: u32 = match self.model {
            Model::Pal => 42,
            Model::Ntsc => 46,
        };
        let y0: u32 = match self.model {
            Model::Pal => 42,
            Model::Ntsc => 20,
        };
        let yrel = y.wrapping_sub(y0);
        if yrel >= 200 {
            assert(self.fb@ =~= line_drawn(v, m, v.fb@));
            return;
        }
        let char_row = yrel / 8;
        let fine = (yrel & 7) as u8;

        let mp = self.memptr;
        proof {
            assert(((mp & 0xF0) as u16) << 6 <= 0x3C00 && ((mp & 0x0E) as u16) << 10 <= 0x3800
                && ((mp & 0x08) as u16) << 10 <= 0x2000 && yrel & 7 <= 7) by (bit_vector);
        }
        let screen_base = ((self.memptr & 0xF0) as u16) << 6;
        let char_base = ((self.memptr & 0x0E) as u16) << 10;
        let bitmap_base = ((self.memptr & 0x08) as u16) << 10;

        let mut fg_mask = [false; 320];

        let mut col: u32 = 0;
        assert(self.fb@ =~= with_run(fb_border, row_off + x0, Seq::new(0, |k: int| cell_pixel(v, m, (k / 8) as u32, (k % 8) as u32).0)));
        while col < 40
            invariant
                col <= 40,
                v.wf(),
                m == *mem,
                mem.wf(),
                mem.vic_bank_base <= 0xC000,
                line_displayed(v),
                x0 == window_x(v.model),
                yrel == window_row(v),
                yrel < 200,
                char_row == yrel / 8,
                fine == (yrel & 7) as u8,
                fine <= 7,
                screen_base == video_matrix_base(v),
                screen_base <= 0x3C00,
                char_base == charset_base(v),
                char_base <= 0x3800,
                bitmap_base == bitmap_start(v),
                bitmap_base <= 0x2000,
                w == v.width,
                row_off == v.raster_y * v.width,
                row_off + w <= v.fb@.len(),
                self.fb@.len() == v.fb@.len(),
                *self == (VicII { fb: self.fb, ..v }),
                self.fb@ == with_run(fb_border, row_off + x0, Seq::new((col * 8) as nat, |k: int| cell_pixel(v, m, (k / 8) as u32, (k % 8) as u32).0)),
                forall|j: int| 0 <= j < 320 ==> #[trigger] fg_mask@[j] == if j < col * 8 {
                    cell_pixel(v, m, (j / 8) as u32, (j % 8) as u32).1
                } else {
                    false
                },
            decreases 40 - col,
        {
            let cell = char_row * 40 + col;
            proof {
                lemma_vic_window(m, (screen_base + cell as u16) as u16);
            }
            let screen_code = mem.vic_read(screen_base + cell as u16);
            let color = mem.color_read(cell as u16 + 0x0400);
            let ghost before = self.fb@;
            let ghost mask_before = fg_mask@;
            assert(screen_code == cell_code(v, m, col));
            assert(color == cell_color(v, m, col));

            if self.bmm() {
                // Bitmap mode
                proof {
                    lemma_vic_window(m, (bitmap_base + (cell * 8) as u16 + fine as u16) as u16);
                }
                let row_byte = mem.vic_read(bitmap_base + (cell * 8) as u16 + fine as u16);
                assert(row_byte == cell_pattern(v, m, col));
                if self.mcm() {
                    self.render_mcm_bitmap_cell(row_off, x0 + col * 8, row_byte, screen_code, color, &mut fg_mask, col);
                    assert forall|b: int| 0 <= b < 8 implies #[trigger] mcm_bitmap_px(v, row_byte, screen_code, color, b)
                        == cell_pixel(v, m, col, b as u32) by {}
                } else {
                    self.render_std_bitmap_cell(row_off, x0 + col * 8, row_byte, screen_code, &mut fg_mask, col);
                    assert forall|b: int| 0 <= b < 8 implies #[trigger] std_bitmap_px(row_byte, screen_code, b)
                        == cell_pixel(v, m, col, b as u32) by {}
                }
            } else {
                proof {
                    lemma_vic_window(m, (char_base + (screen_code as u16) * 8 + fine as u16) as u16);
                }
                let glyph_addr = char_base + (screen_code as u16) * 8 + fine as u16;
                let row_byte = mem.vic_read(glyph_addr);
                assert(row_byte == cell_pattern(v, m, col));
                if self.mcm() && (color & 0x08) != 0 {
                    self.render_mcm_text_cell(row_off, x0 + col * 8, row_byte, color & 0x07, &mut fg_mask, col);
                    assert forall|b: int| 0 <= b < 8 implies #[trigger] mcm_text_px(v, row_byte, color & 0x07, b)
                        == cell_pixel(v, m, col, b as u32) by {}
                } else if self.ecm() {
                    self.render_ecm_text_cell(row_off, x0 + col * 8, row_byte, screen_code, color & 0x0F, &mut fg_mask, col);
                    assert forall|b: int| 0 <= b < 8 implies #[trigger] ecm_text_px(v, row_byte, screen_code, color & 0x0F, b)
                        == cell_pixel(v, m, col, b as u32) by {}
                } else {
                    self.render_std_text_cell(row_off, x0 + col * 8, row_byte, color & 0x0F, &mut fg_mask, col);
                    assert forall|b: int| 0 <= b < 8 implies #[trigger] std_text_px(v, row_byte, color & 0x0F, b)
                        == cell_pixel(v, m, col, b as u32) by {}
                }
            }
            assert(self.fb@ =~= with_run(fb_border, row_off + x0, Seq::new(((col + 1) * 8) as nat, |k: int| cell_pixel(v, m, (k / 8) as u32, (k % 8) as u32).0)));
            col += 1;
        }

        let ghost fg_row = foreground_row(v, m);
        assert(fg_mask@ =~= fg_row);
        let ghost bg = with_run(v.fb@, row_off as int, Seq::new(v.width as nat, |x: int| background_pixel(v, m, x)));
        assert(self.fb@ =~= bg);

        // Sprite pass on top of background
        let ghost before_sprites = *self;
        render_sprites(self, mem, row_off, x0, &fg_mask);
        proof {
            lemma_sprites_ignore_fb(before_sprites, v, m, bg, row_off as int, x0 as int, fg_row);
        }
    }
}

} // verus!
