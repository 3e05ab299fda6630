//! Composition of one pixel: the layers in the order of their priorities,
//! window masking, colour math and brightness.
//!
//! A tile is a block of 8 by 8 or 16 by 16 palette indices; backgrounds and
//! sprites are made of tiles. Each background mode fixes how many
//! backgrounds there are, how many colours each has, and in which order
//! backgrounds and sprites of the several priorities cover each other.

use vstd::prelude::*;
use crate::bg::is_bg;
use crate::bits::{bit, lemma_bits_of_byte, test_bit};
use crate::color::{Rgb, SnesRgb};
use crate::ppu::{OverflowReset, Ppu, PpuView};
use crate::sprites::{SpriteEntry, SPRITE_COUNT};
use crate::window::{in_window, Mask};

verus! {

/// A layer that a pixel can come from.
#[derive(Clone, Copy, Debug, PartialEq, Eq, Structural)]
pub enum Layer {
    Bg1,
    Bg2,
    Bg3,
    Bg4,
    Obj {
        /// Sprites of palettes 0 to 3 take no part in colour math.
        opaque: bool,
    },
    Backdrop,
}

/// One step of a mode's priority list: the tiles of one priority of a
/// background, or the sprites of one priority.
#[derive(Clone, Copy, Debug, PartialEq, Eq, Structural)]
pub enum LayerSlot {
    Bg { bg: u8, prio: u8 },
    Sprites { prio: u8 },
}

/// The slot of the tiles of priority `prio` of background `bg`.
pub open spec fn bg_slot(bg: u8, prio: u8) -> LayerSlot {
    LayerSlot::Bg { bg, prio }
}

/// The slot of the sprites of priority `prio`.
pub open spec fn obj_slot(prio: u8) -> LayerSlot {
    LayerSlot::Sprites { prio }
}

/// The layer that background `bg` is.
pub open spec fn layer_of_bg(bg: u8) -> Layer {
    if bg == 1 {
        Layer::Bg1
    } else if bg == 2 {
        Layer::Bg2
    } else if bg == 3 {
        Layer::Bg3
    } else {
        Layer::Bg4
    }
}

/// The order in which the layers of a mode are consulted, front first.
/// `bg3_high` is the flag of mode 1 that moves the high priority tiles of
/// background 3 to the front, `extbg` the one that gives mode 7 its second
/// background.
pub open spec fn layer_order(mode: u8, bg3_high: bool, extbg: bool) -> Seq<LayerSlot> {
    if mode == 0 {
        seq![
            obj_slot(3),
            bg_slot(1, 1),
            bg_slot(2, 1),
            obj_slot(2),
            bg_slot(1, 0),
            bg_slot(2, 0),
            obj_slot(1),
            bg_slot(3, 1),
            bg_slot(4, 1),
            obj_slot(0),
            bg_slot(3, 0),
            bg_slot(4, 0),
        ]
    } else if mode == 1 {
        if bg3_high {
            seq![
                bg_slot(3, 1),
                obj_slot(3),
                bg_slot(1, 1),
                bg_slot(2, 1),
                obj_slot(2),
                bg_slot(1, 0),
                bg_slot(2, 0),
                obj_slot(1),
                obj_slot(0),
                bg_slot(3, 0),
            ]
        } else {
            seq![
                obj_slot(3),
                bg_slot(1, 1),
                bg_slot(2, 1),
                obj_slot(2),
                bg_slot(1, 0),
                bg_slot(2, 0),
                obj_slot(1),
                bg_slot(3, 1),
                obj_slot(0),
                bg_slot(3, 0),
            ]
        }
    } else if mode == 6 {
        seq![obj_slot(3), bg_slot(1, 1), obj_slot(2), obj_slot(1), bg_slot(1, 0), obj_slot(0)]
    } else if mode == 7 {
        if extbg {
            seq![
                obj_slot(3),
                obj_slot(2),
                bg_slot(2, 1),
                obj_slot(1),
                bg_slot(1, 0),
                obj_slot(0),
                bg_slot(2, 0),
            ]
        } else {
            seq![obj_slot(3), obj_slot(2), obj_slot(1), bg_slot(1, 0), obj_slot(0)]
        }
    } else {
        seq![
            obj_slot(3),
            bg_slot(1, 1),
            obj_slot(2),
            bg_slot(2, 1),
            obj_slot(1),
            bg_slot(1, 0),
            obj_slot(0),
            bg_slot(2, 0),
        ]
    }
}

impl LayerSlot {
    /// The slot names a background from 1 to 4, or sprites.
    pub open spec fn wf(self) -> bool {
        match self {
            LayerSlot::Bg { bg, prio } => is_bg(bg),
            LayerSlot::Sprites { prio } => true,
        }
    }
}

/// Every slot of every order names a background that exists.
pub proof fn lemma_layer_order_wf(mode: u8, bg3_high: bool, extbg: bool, i: int)
    requires
        0 <= i < layer_order(mode, bg3_high, extbg).len(),
    ensures
        layer_order(mode, bg3_high, extbg)[i].wf(),
        layer_order(mode, bg3_high, extbg).len() <= 12,
{
}

/// The number of slots in the order of a mode.
pub fn layer_count(mode: u8, bg3_high: bool, extbg: bool) -> (n: usize)
    ensures
        n == layer_order(mode, bg3_high, extbg).len(),
        n <= 12,
{
    if mode == 0 {
        12
    } else if mode == 1 {
        10
    } else if mode == 6 {
        6
    } else if mode == 7 {
        if extbg { 7 } else { 5 }
    } else {
        8
    }
}

/// Slot `i` of the order of a mode.
pub fn layer_slot(mode: u8, bg3_high: bool, extbg: bool, i: usize) -> (slot: LayerSlot)
    requires
        i < layer_order(mode, bg3_high, extbg).len(),
    ensures
        slot == layer_order(mode, bg3_high, extbg)[i as int],
        slot.wf(),
{
    if mode == 0 {
        match i {
            0 => LayerSlot::Sprites { prio: 3 },
            1 => LayerSlot::Bg { bg: 1, prio: 1 },
            2 => LayerSlot::Bg { bg: 2, prio: 1 },
            3 => LayerSlot::Sprites { prio: 2 },
            4 => LayerSlot::Bg { bg: 1, prio: 0 },
            5 => LayerSlot::Bg { bg: 2, prio: 0 },
            6 => LayerSlot::Sprites { prio: 1 },
            7 => LayerSlot::Bg { bg: 3, prio: 1 },
            8 => LayerSlot::Bg { bg: 4, prio: 1 },
            9 => LayerSlot::Sprites { prio: 0 },
            10 => LayerSlot::Bg { bg: 3, prio: 0 },
            _ => LayerSlot::Bg { bg: 4, prio: 0 },
        }
    } else if mode == 1 {
        if bg3_high {
            match i {
                0 => LayerSlot::Bg { bg: 3, prio: 1 },
                1 => LayerSlot::Sprites { prio: 3 },
                2 => LayerSlot::Bg { bg: 1, prio: 1 },
                3 => LayerSlot::Bg { bg: 2, prio: 1 },
                4 => LayerSlot::Sprites { prio: 2 },
                5 => LayerSlot::Bg { bg: 1, prio: 0 },
                6 => LayerSlot::Bg { bg: 2, prio: 0 },
                7 => LayerSlot::Sprites { prio: 1 },
                8 => LayerSlot::Sprites { prio: 0 },
                _ => LayerSlot::Bg { bg: 3, prio: 0 },
            }
        } else {
            match i {
                0 => LayerSlot::Sprites { prio: 3 },
                1 => LayerSlot::Bg { bg: 1, prio: 1 },
                2 => LayerSlot::Bg { bg: 2, prio: 1 },
                3 => LayerSlot::Sprites { prio: 2 },
                4 => LayerSlot::Bg { bg: 1, prio: 0 },
                5 => LayerSlot::Bg { bg: 2, prio: 0 },
                6 => LayerSlot::Sprites { prio: 1 },
                7 => LayerSlot::Bg { bg: 3, prio: 1 },
                8 => LayerSlot::Sprites { prio: 0 },
                _ => LayerSlot::Bg { bg: 3, prio: 0 },
            }
        }
    } else if mode == 6 {
        match i {
            0 => LayerSlot::Sprites { prio: 3 },
            1 => LayerSlot::Bg { bg: 1, prio: 1 },
            2 => LayerSlot::Sprites { prio: 2 },
            3 => LayerSlot::Sprites { prio: 1 },
            4 => LayerSlot::Bg { bg: 1, prio: 0 },
            _ => LayerSlot::Sprites { prio: 0 },
        }
    } else if mode == 7 {
        if extbg {
            match i {
                0 => LayerSlot::Sprites { prio: 3 },
                1 => LayerSlot::Sprites { prio: 2 },
                2 => LayerSlot::Bg { bg: 2, prio: 1 },
                3 => LayerSlot::Sprites { prio: 1 },
                4 => LayerSlot::Bg { bg: 1, prio: 0 },
                5 => LayerSlot::Sprites { prio: 0 },
                _ => LayerSlot::Bg { bg: 2, prio: 0 },
            }
        } else {
            match i {
                0 => LayerSlot::Sprites { prio: 3 },
                1 => LayerSlot::Sprites { prio: 2 },
                2 => LayerSlot::Sprites { prio: 1 },
                3 => LayerSlot::Bg { bg: 1, prio: 0 },
                _ => LayerSlot::Sprites { prio: 0 },
            }
        }
    } else {
        match i {
            0 => LayerSlot::Sprites { prio: 3 },
            1 => LayerSlot::Bg { bg: 1, prio: 1 },
            2 => LayerSlot::Sprites { prio: 2 },
            3 => LayerSlot::Bg { bg: 2, prio: 1 },
            4 => LayerSlot::Sprites { prio: 1 },
            5 => LayerSlot::Bg { bg: 1, prio: 0 },
            6 => LayerSlot::Sprites { prio: 0 },
            _ => LayerSlot::Bg { bg: 2, prio: 0 },
        }
    }
}

/// The black pixel.
pub open spec fn black() -> Rgb {
    Rgb { r: 0, g: 0, b: 0 }
}

impl PpuView {
    /// The current column lies in window 1.
    pub open spec fn in_w1(&self) -> bool {
        in_window(self.x, self.wh0, self.wh1)
    }

    /// The current column lies in window 2.
    pub open spec fn in_w2(&self) -> bool {
        in_window(self.x, self.wh2, self.wh3)
    }

    /// The window mask of background `bg`.
    pub open spec fn bg_mask(&self, bg: u8) -> Mask {
        if bg == 1 {
            Mask::spec_new(self.w12sel, 0, self.wbglog, 0)
        } else if bg == 2 {
            Mask::spec_new(self.w12sel, 4, self.wbglog, 2)
        } else if bg == 3 {
            Mask::spec_new(self.w34sel, 0, self.wbglog, 4)
        } else {
            Mask::spec_new(self.w34sel, 4, self.wbglog, 6)
        }
    }

    /// The window mask of the sprites.
    pub open spec fn sprite_mask(&self) -> Mask {
        Mask::spec_new(self.wobjsel, 0, self.wobjlog, 0)
    }

    /// The mask of the colour window.
    pub open spec fn color_mask(&self) -> Mask {
        Mask::spec_new(self.wobjsel, 4, self.wobjlog, 2)
    }

    /// The windows hide background `bg` at the current pixel: masking is
    /// on for it on the screen in question and its mask covers the pixel.
    pub open spec fn bg_masked(&self, bg: u8, subscreen: bool) -> bool {
        bit(if subscreen { self.tsw } else { self.tmw }, (bg - 1) as u8) && self.bg_mask(
            bg,
        ).spec_check(self.in_w1(), self.in_w2())
    }

    /// The windows hide the sprites at the current pixel.
    pub open spec fn sprites_masked(&self, subscreen: bool) -> bool {
        bit(if subscreen { self.tsw } else { self.tmw }, 4) && self.sprite_mask().spec_check(
            self.in_w1(),
            self.in_w2(),
        )
    }

    /// The current pixel lies in the colour window.
    pub open spec fn in_color_window(&self) -> bool {
        self.color_mask().spec_check(self.in_w1(), self.in_w2())
    }

    /// The colour of a main screen pixel is replaced by palette entry 0
    /// before colour math: by the top two bits of `cgwsel` never (0),
    /// outside the colour window (1), inside it (2) or always (3). The
    /// subscreen is never clipped.
    pub open spec fn spec_clip_color(&self, subscreen: bool) -> bool {
        let rule = self.cgwsel / 64;
        !subscreen && (rule == 3 || (rule == 1 && !self.in_color_window()) || (rule == 2
            && self.in_color_window()))
    }

    /// A colour after clipping.
    pub open spec fn clipped(&self, color: SnesRgb, subscreen: bool) -> SnesRgb {
        if self.spec_clip_color(subscreen) {
            self.spec_backdrop_color()
        } else {
            color
        }
    }

    /// What one slot of the priority list shows at the current pixel, or
    /// `None` where it is transparent or masked.
    pub open spec fn spec_slot_pixel(
        &self,
        cache: Seq<SpriteEntry>,
        slot: LayerSlot,
        subscreen: bool,
    ) -> Option<(SnesRgb, Layer)> {
        match slot {
            LayerSlot::Bg { bg, prio } => match self.spec_lookup_bg_color(bg, prio, subscreen) {
                Some(rgb) => if self.bg_masked(bg, subscreen) {
                    None
                } else {
                    Some((self.clipped(rgb, subscreen), layer_of_bg(bg)))
                },
                None => None,
            },
            LayerSlot::Sprites { prio } => match self.spec_maybe_draw_sprite_pixel(
                cache,
                prio,
                subscreen,
            ) {
                Some(hit) => if self.sprites_masked(subscreen) {
                    None
                } else {
                    Some((self.clipped(hit.0, subscreen), Layer::Obj { opaque: hit.1 }))
                },
                None => None,
            },
        }
    }

    /// The pixel that the slots of `order` from `i` on show: that of the
    /// first slot that shows one, else the backdrop.
    pub open spec fn raw_pixel_from(
        &self,
        cache: Seq<SpriteEntry>,
        order: Seq<LayerSlot>,
        i: nat,
        subscreen: bool,
    ) -> (SnesRgb, Layer)
        decreases order.len() - i,
    {
        if i >= order.len() {
            (self.spec_backdrop_color(), Layer::Backdrop)
        } else {
            match self.spec_slot_pixel(cache, order[i as int], subscreen) {
                Some(hit) => hit,
                None => self.raw_pixel_from(cache, order, i + 1, subscreen),
            }
        }
    }

    /// The priority list of the current mode.
    pub open spec fn spec_layer_order(&self) -> Seq<LayerSlot> {
        layer_order(self.spec_bg_mode(), bit(self.bgmode, 3), self.spec_extbg())
    }

    /// The pixel of the main screen or of the subscreen before colour
    /// math, and the layer that it comes from.
    pub open spec fn spec_get_raw_pixel(&self, cache: Seq<SpriteEntry>, subscreen: bool) -> (
        SnesRgb,
        Layer,
    ) {
        self.raw_pixel_from(cache, self.spec_layer_order(), 0, subscreen)
    }

    /// Every background of the screen can be looked up.
    pub open spec fn screen_supported(&self, subscreen: bool) -> bool {
        &&& self.bg_supported(1, subscreen)
        &&& self.bg_supported(2, subscreen)
        &&& self.bg_supported(3, subscreen)
        &&& self.bg_supported(4, subscreen)
    }

    /// The bit of `cgadsub` that turns colour math on for a layer.
    pub open spec fn math_bit(layer: Layer) -> u8 {
        match layer {
            Layer::Bg1 => 0,
            Layer::Bg2 => 1,
            Layer::Bg3 => 2,
            Layer::Bg4 => 3,
            Layer::Obj { opaque } => 4,
            Layer::Backdrop => 5,
        }
    }

    /// Colour math applies to a main screen pixel of `layer`: the layer is
    /// no opaque sprite, its bit in `cgadsub` is set, and bits 4 and 5 of
    /// `cgwsel` allow it here: everywhere (0), only outside the colour
    /// window (1), only inside it (2) or nowhere (3).
    pub open spec fn spec_color_math_enabled(&self, layer: Layer) -> bool {
        let rule = self.cgwsel / 16 % 4;
        &&& layer != (Layer::Obj { opaque: true })
        &&& bit(self.cgadsub, Self::math_bit(layer))
        &&& (rule == 0 || (rule == 1 && !self.in_color_window()) || (rule == 2
            && self.in_color_window()))
    }

    /// The second operand of colour math: the fixed colour, or, if bit 1
    /// of `cgwsel` is set, the subscreen pixel, for whose backdrop the fixed
    /// colour stands in.
    pub open spec fn spec_math_operand(&self, cache: Seq<SpriteEntry>) -> SnesRgb {
        if !bit(self.cgwsel, 1) {
            self.spec_fixed_color()
        } else {
            let sub = self.spec_get_raw_pixel(cache, true);
            if sub.1 == Layer::Backdrop {
                self.spec_fixed_color()
            } else {
                sub.0
            }
        }
    }

    /// The main screen pixel after colour math: where math applies, the
    /// operand is added, or subtracted if bit 7 of `cgadsub` is set, each
    /// channel saturating, and the result is halved if bit 6 is set and
    /// the pixel is not clipped.
    pub open spec fn spec_post_math(&self, cache: Seq<SpriteEntry>) -> SnesRgb {
        let main = self.spec_get_raw_pixel(cache, false);
        if self.spec_color_math_enabled(main.1) {
            let operand = self.spec_math_operand(cache);
            let combined = if bit(self.cgadsub, 7) {
                main.0.spec_saturating_sub(operand)
            } else {
                main.0.spec_saturating_add(operand)
            };
            if bit(self.cgadsub, 6) && !self.spec_clip_color(false) {
                combined.spec_halved()
            } else {
                combined
            }
        } else {
            main.0
        }
    }

    /// The sprite cache that the current pixel is drawn from: at the
    /// start of a line the line is scanned, later the cache is kept.
    pub open spec fn active_cache(&self, cache: Seq<SpriteEntry>) -> Seq<SpriteEntry> {
        if self.x == 0 {
            self.line_cache(SPRITE_COUNT as nat)
        } else {
            cache
        }
    }

    /// The sprite cache after the current pixel: a blanked pixel leaves it
    /// alone.
    pub open spec fn cache_after(&self, cache: Seq<SpriteEntry>) -> Seq<SpriteEntry> {
        if self.forced_blank {
            cache
        } else {
            self.active_cache(cache)
        }
    }

    /// The renderer clears the overflow flags at the current pixel: it is
    /// the first of a frame and that is when they are to be cleared.
    pub open spec fn clears_overflow(&self, reset: OverflowReset) -> bool {
        self.x == 0 && self.scanline == 0 && reset == OverflowReset::FrameStart
    }

    /// The range flag after the current pixel: cleared if the pixel
    /// clears the flags, then set if the line scanned at this pixel
    /// overflows. A blanked pixel leaves it alone.
    pub open spec fn range_over_after(&self, before: bool, reset: OverflowReset) -> bool {
        if self.forced_blank {
            before
        } else {
            (before && !self.clears_overflow(reset)) || (self.x == 0 && self.line_range_over())
        }
    }

    /// The time flag after the current pixel.
    pub open spec fn time_over_after(&self, before: bool, reset: OverflowReset) -> bool {
        if self.forced_blank {
            before
        } else {
            (before && !self.clears_overflow(reset)) || (self.x == 0 && self.line_time_over())
        }
    }

    /// The colour of the current pixel on the display. `cache` is the
    /// sprite cache as the pixel before left it.
    pub open spec fn spec_render_pixel(&self, cache: Seq<SpriteEntry>) -> Rgb {
        if self.forced_blank {
            black()
        } else {
            self.spec_post_math(self.active_cache(cache)).spec_with_brightness(
                self.spec_brightness(),
            ).spec_to_adjusted_rgb()
        }
    }

    /// The current pixel can be rendered: the picture is blanked, or every
    /// background of the main screen can be looked up and, where the
    /// subscreen feeds colour math, every background of the subscreen.
    pub open spec fn renderable(&self) -> bool {
        self.forced_blank || (self.screen_supported(false) && (bit(self.cgwsel, 1)
            ==> self.screen_supported(true)))
    }
}

/// Number of pixels of a frame.
pub const FRAME_PIXELS: usize = 57344;

/// Number of bytes of a frame: three for each pixel.
pub const FRAME_BYTES: usize = 172032;

/// What the unit remembers from pixel to pixel besides its registers and
/// memories.
pub struct BeamState {
    /// The sprite cache.
    pub cache: Seq<SpriteEntry>,
    /// The range flag.
    pub range_over: bool,
    /// The time flag.
    pub time_over: bool,
}

impl PpuView {
    /// The same registers and memories with the beam at another pixel.
    pub open spec fn at(self, x: u16, scanline: u16) -> PpuView {
        PpuView { x, scanline, ..self }
    }

    /// The same registers and memories with the beam at pixel `k` of the
    /// frame, counted from the top left in reading order.
    pub open spec fn at_pixel(self, k: nat) -> PpuView {
        self.at((k % 256) as u16, (k / 256) as u16)
    }

    /// What the unit remembers after the first `k` pixels of a frame were
    /// rendered in their order, starting from `start`.
    pub open spec fn beam_state_after(self, start: BeamState, reset: OverflowReset, k: nat)
        -> BeamState
        decreases k,
    {
        if k == 0 {
            start
        } else {
            let before = self.beam_state_after(start, reset, (k - 1) as nat);
            let v = self.at_pixel((k - 1) as nat);
            BeamState {
                cache: v.cache_after(before.cache),
                range_over: v.range_over_after(before.range_over, reset),
                time_over: v.time_over_after(before.time_over, reset),
            }
        }
    }

    /// The colour of pixel `k` of a frame that is rendered from its first
    /// pixel on, starting from `start`.
    pub open spec fn frame_pixel(self, start: BeamState, reset: OverflowReset, k: nat) -> Rgb {
        self.at_pixel(k).spec_render_pixel(self.beam_state_after(start, reset, k).cache)
    }
}

impl Ppu {
    /// What the unit remembers from pixel to pixel.
    pub open spec fn beam_state(&self) -> BeamState {
        BeamState { cache: self.sprites@, range_over: self.range_over, time_over: self.time_over }
    }

    /// Renders a frame: every pixel in turn, left to right and top to
    /// bottom. The bytes returned hold the pixels in that order, red, green
    /// and blue of each. The beam is left at the last pixel.
    #[verifier::rlimit(30)]
    pub fn render_frame(&mut self) -> (framebuf: Vec<u8>)
        requires
            old(self).wf(),
            old(self)@.renderable(),
        ensures
            framebuf@.len() == FRAME_BYTES,
            forall|k: nat|
                k < FRAME_PIXELS ==> {
                    let pixel = #[trigger] old(self)@.frame_pixel(
                        old(self).beam_state(),
                        old(self).overflow_reset,
                        k,
                    );
                    &&& framebuf@[3 * k as int] == pixel.r
                    &&& framebuf@[3 * k as int + 1] == pixel.g
                    &&& framebuf@[3 * k as int + 2] == pixel.b
                },
            final(self).wf(),
            final(self)@ == old(self)@.at(255, 223),
            final(self).overflow_reset == old(self).overflow_reset,
            final(self).beam_state() == old(self)@.beam_state_after(
                old(self).beam_state(),
                old(self).overflow_reset,
                FRAME_PIXELS as nat,
            ),
    {
        let ghost first = self@;
        let ghost start = self.beam_state();
        let ghost reset = self.overflow_reset;
        let mut framebuf: Vec<u8> = Vec::new();
        let mut k: usize = 0;
        while k < FRAME_PIXELS
            invariant
                self.wf(),
                first.renderable(),
                k <= FRAME_PIXELS,
                self.overflow_reset == reset,
                k == 0 ==> self@ == first,
                k > 0 ==> self@ == first.at_pixel((k - 1) as nat),
                self.beam_state() == first.beam_state_after(start, reset, k as nat),
                framebuf@.len() == 3 * k,
                forall|j: nat|
                    j < k ==> {
                        let pixel = #[trigger] first.frame_pixel(start, reset, j);
                        &&& framebuf@[3 * j as int] == pixel.r
                        &&& framebuf@[3 * j as int + 1] == pixel.g
                        &&& framebuf@[3 * j as int + 2] == pixel.b
                    },
            decreases FRAME_PIXELS - k,
        {
            self.x = (k % 256) as u16;
            self.scanline = (k / 256) as u16;
            proof {
                assert(self@ == first.at_pixel(k as nat));
                lemma_renderable_anywhere(first, self.x, self.scanline);
            }
            let rgb: Rgb = self.render_pixel();
            framebuf.push(rgb.r);
            framebuf.push(rgb.g);
            framebuf.push(rgb.b);
            k += 1;
        }
        proof {
            assert(first.at_pixel((FRAME_PIXELS - 1) as nat) == first.at(255, 223));
        }
        framebuf
    }

    /// Whether the colour of a pixel of the given screen is clipped.
    pub fn clip_color(&self, subscreen: bool) -> (clip: bool)
        ensures
            clip == self@.spec_clip_color(subscreen),
    {
        if subscreen {
            return false;
        }
        let rule: u8 = self.cgwsel / 64;
        let inside: bool = self.in_color_window();
        rule == 3 || (rule == 1 && !inside) || (rule == 2 && inside)
    }

    /// Whether the current column lies in window 1 and in window 2.
    pub fn window_membership(&self) -> (m: (bool, bool))
        ensures
            m.0 == self@.in_w1(),
            m.1 == self@.in_w2(),
    {
        (
            self.x >= self.wh0 as u16 && self.x < self.wh1 as u16,
            self.x >= self.wh2 as u16 && self.x < self.wh3 as u16,
        )
    }

    /// Whether the current pixel lies in the colour window.
    pub fn in_color_window(&self) -> (inside: bool)
        ensures
            inside == self@.in_color_window(),
    {
        let (in_w1, in_w2) = self.window_membership();
        Mask::new(self.wobjsel, 4, self.wobjlog, 2).check(in_w1, in_w2)
    }

    /// Whether the windows hide the given background at the current pixel.
    pub fn is_bg_masked(&self, bg: u8, subscreen: bool) -> (masked: bool)
        requires
            is_bg(bg),
        ensures
            masked == self@.bg_masked(bg, subscreen),
    {
        if !test_bit(if subscreen { self.tsw } else { self.tmw }, bg - 1) {
            return false;
        }
        let (in_w1, in_w2) = self.window_membership();
        let mask: Mask = if bg == 1 {
            Mask::new(self.w12sel, 0, self.wbglog, 0)
        } else if bg == 2 {
            Mask::new(self.w12sel, 4, self.wbglog, 2)
        } else if bg == 3 {
            Mask::new(self.w34sel, 0, self.wbglog, 4)
        } else {
            Mask::new(self.w34sel, 4, self.wbglog, 6)
        };
        mask.check(in_w1, in_w2)
    }

    /// Whether the windows hide the sprites at the current pixel.
    pub fn are_sprites_masked(&self, subscreen: bool) -> (masked: bool)
        ensures
            masked == self@.sprites_masked(subscreen),
    {
        if !test_bit(if subscreen { self.tsw } else { self.tmw }, 4) {
            return false;
        }
        let (in_w1, in_w2) = self.window_membership();
        Mask::new(self.wobjsel, 0, self.wobjlog, 0).check(in_w1, in_w2)
    }

    /// Looks up what one slot of the priority list shows.
    #[verifier::rlimit(30)]
    pub fn slot_pixel(&self, slot: LayerSlot, subscreen: bool) -> (hit: Option<(SnesRgb, Layer)>)
        requires
            self.wf(),
            self.on_screen(),
            slot.wf(),
            self@.screen_supported(subscreen),
        ensures
            hit == self@.spec_slot_pixel(self.sprites@, slot, subscreen),
            hit matches Some(h) ==> h.0.wf() && h.1 != Layer::Backdrop,
    {
        match slot {
            LayerSlot::Bg { bg, prio } => {
                match self.lookup_bg_color(bg, prio, subscreen) {
                    Some(rgb) => {
                        if self.is_bg_masked(bg, subscreen) {
                            None
                        } else {
                            let shown: SnesRgb = if self.clip_color(subscreen) {
                                self.backdrop_color()
                            } else {
                                rgb
                            };
                            let layer: Layer = if bg == 1 {
                                Layer::Bg1
                            } else if bg == 2 {
                                Layer::Bg2
                            } else if bg == 3 {
                                Layer::Bg3
                            } else {
                                Layer::Bg4
                            };
                            Some((shown, layer))
                        }
                    },
                    None => None,
                }
            },
            LayerSlot::Sprites { prio } => {
                match self.maybe_draw_sprite_pixel(prio, subscreen) {
                    Some((rgb, opaque)) => {
                        if self.are_sprites_masked(subscreen) {
                            None
                        } else {
                            let shown: SnesRgb = if self.clip_color(subscreen) {
                                self.backdrop_color()
                            } else {
                                rgb
                            };
                            Some((shown, Layer::Obj { opaque }))
                        }
                    },
                    None => None,
                }
            },
        }
    }

    /// Renders a raw pixel, before colour math, and returns its colour and
    /// the layer it came from: of the main screen, or of the subscreen if
    /// `subscreen` is set.
    pub fn get_raw_pixel(&self, subscreen: bool) -> (pixel: (SnesRgb, Layer))
        requires
            self.wf(),
            self.on_screen(),
            self@.screen_supported(subscreen),
        ensures
            pixel == self@.spec_get_raw_pixel(self.sprites@, subscreen),
            pixel.0.wf(),
    {
        let mode: u8 = self.bg_mode();
        let bg3_high: bool = test_bit(self.bgmode, 3);
        let extbg: bool = self.extbg();
        let n: usize = layer_count(mode, bg3_high, extbg);
        let mut i: usize = 0;
        while i < n
            invariant
                self.wf(),
                self.on_screen(),
                self@.screen_supported(subscreen),
                mode == self@.spec_bg_mode(),
                bg3_high == bit(self.bgmode, 3),
                extbg == self@.spec_extbg(),
                n == self@.spec_layer_order().len(),
                i <= n,
                self@.spec_get_raw_pixel(self.sprites@, subscreen) == self@.raw_pixel_from(
                    self.sprites@,
                    self@.spec_layer_order(),
                    i as nat,
                    subscreen,
                ),
            decreases n - i,
        {
            let slot: LayerSlot = layer_slot(mode, bg3_high, extbg, i);
            match self.slot_pixel(slot, subscreen) {
                Some(hit) => {
                    return hit;
                },
                None => {},
            }
            i += 1;
        }
        (self.backdrop_color(), Layer::Backdrop)
    }

    /// Whether colour math applies to a main screen pixel of the given
    /// layer.
    pub fn color_math_enabled(&self, layer: Layer) -> (enabled: bool)
        ensures
            enabled == self@.spec_color_math_enabled(layer),
    {
        let index: u8 = match layer {
            Layer::Bg1 => 0,
            Layer::Bg2 => 1,
            Layer::Bg3 => 2,
            Layer::Bg4 => 3,
            Layer::Obj { opaque } => {
                if opaque {
                    return false;
                }
                4
            },
            Layer::Backdrop => 5,
        };
        if !test_bit(self.cgadsub, index) {
            return false;
        }
        let rule: u8 = self.cgwsel / 16 % 4;
        let inside: bool = self.in_color_window();
        rule == 0 || (rule == 1 && !inside) || (rule == 2 && inside)
    }

    /// Whether the given background can be looked up on the given screen.
    pub fn is_bg_supported(&self, bg: u8, subscreen: bool) -> (ok: bool)
        requires
            is_bg(bg),
        ensures
            ok == self@.bg_supported(bg, subscreen),
    {
        if !self.bg_enabled(bg, subscreen) {
            return true;
        }
        let colors: u16 = self.color_count_for_bg(bg);
        colors != 128 && !(colors == 256 && test_bit(self.cgwsel, 0))
    }

    /// Whether every background of the given screen can be looked up.
    pub fn is_screen_supported(&self, subscreen: bool) -> (ok: bool)
        ensures
            ok == self@.screen_supported(subscreen),
    {
        self.is_bg_supported(1, subscreen) && self.is_bg_supported(2, subscreen)
            && self.is_bg_supported(3, subscreen) && self.is_bg_supported(4, subscreen)
    }

    /// Whether the current pixel can be rendered.
    pub fn can_render(&self) -> (ok: bool)
        ensures
            ok == self@.renderable(),
    {
        self.forced_blank || (self.is_screen_supported(false) && (!test_bit(self.cgwsel, 1)
            || self.is_screen_supported(true)))
    }

    /// Main rendering entry point. Renders the current pixel and returns
    /// its colour. The current pixel must be on the screen.
    ///
    /// At the first pixel of a frame the sprite overflow flags are
    /// cleared, unless the unit is set to leave that to the end of the
    /// vertical blanking period; at the first pixel of each line the
    /// sprites of the line are collected. Registers and memories stay as
    /// they are.
    #[verifier::rlimit(30)]
    pub fn render_pixel(&mut self) -> (rgb: Rgb)
        requires
            old(self).wf(),
            old(self).on_screen(),
            old(self)@.renderable(),
        ensures
            rgb == old(self)@.spec_render_pixel(old(self).sprites@),
            old(self).forced_blank ==> rgb == black(),
            final(self).wf(),
            final(self)@ == old(self)@,
            final(self).sprites@ == old(self)@.cache_after(old(self).sprites@),
            final(self).overflow_reset == old(self).overflow_reset,
            final(self).range_over == old(self)@.range_over_after(
                old(self).range_over,
                old(self).overflow_reset,
            ),
            final(self).time_over == old(self)@.time_over_after(
                old(self).time_over,
                old(self).overflow_reset,
            ),
    {
        if self.forced_blank() {
            return Rgb { r: 0, g: 0, b: 0 };
        }
        let at_frame_start: bool = match self.overflow_reset {
            OverflowReset::FrameStart => true,
            OverflowReset::VblankEnd => false,
        };
        if self.x == 0 && self.scanline == 0 && at_frame_start {
            self.range_over = false;
            self.time_over = false;
        }
        if self.x == 0 {
            self.collect_sprite_data_for_scanline();
        }
        let (main_pix_color, main_pix_layer) = self.get_raw_pixel(false);
        let post_math_color: SnesRgb = if self.color_math_enabled(main_pix_layer) {
            let math_color: SnesRgb = if !test_bit(self.cgwsel, 1) {
                self.fixed_color()
            } else {
                let (sub_color, sub_layer) = self.get_raw_pixel(true);
                match sub_layer {
                    Layer::Backdrop => self.fixed_color(),
                    _ => sub_color,
                }
            };
            let combined: SnesRgb = if !test_bit(self.cgadsub, 7) {
                main_pix_color.saturating_add(&math_color)
            } else {
                main_pix_color.saturating_sub(&math_color)
            };
            if test_bit(self.cgadsub, 6) && !self.clip_color(false) {
                combined.halved()
            } else {
                combined
            }
        } else {
            main_pix_color
        };
        let level: u8 = self.brightness();
        post_math_color.with_brightness(level).to_adjusted_rgb()
    }
}

/// The colour of a pixel is a function of the registers, the three
/// memories, the position of the beam and the sprite cache of the line, and
/// at the start of a line not even of the cache: what the overflow flags
/// hold, and what else the unit remembers, does not matter.
pub proof fn lemma_render_deterministic(
    a: PpuView,
    cache_a: Seq<SpriteEntry>,
    b: PpuView,
    cache_b: Seq<SpriteEntry>,
)
    requires
        a == b,
        a.x != 0 ==> cache_a == cache_b,
    ensures
        a.spec_render_pixel(cache_a) == b.spec_render_pixel(cache_b),
{
}

/// While the picture is blanked every pixel is black.
pub proof fn lemma_forced_blank_dominates(v: PpuView, cache: Seq<SpriteEntry>)
    requires
        v.forced_blank,
    ensures
        v.spec_render_pixel(cache) == black(),
        black().r == 0 && black().g == 0 && black().b == 0,
{
}

/// A slot that shows nothing leaves the pixel to the slots behind it.
pub proof fn lemma_empty_slot_falls_through(
    v: PpuView,
    cache: Seq<SpriteEntry>,
    order: Seq<LayerSlot>,
    i: nat,
    subscreen: bool,
)
    requires
        i < order.len(),
        v.spec_slot_pixel(cache, order[i as int], subscreen).is_none(),
    ensures
        v.raw_pixel_from(cache, order, i, subscreen) == v.raw_pixel_from(
            cache,
            order,
            i + 1,
            subscreen,
        ),
{
}

/// A background pixel of palette index 0 contributes nothing: the slot is
/// empty and the pixel comes from the slots behind it, in the end from the
/// backdrop.
pub proof fn lemma_transparent_bg_falls_through(
    v: PpuView,
    cache: Seq<SpriteEntry>,
    order: Seq<LayerSlot>,
    i: nat,
    subscreen: bool,
)
    requires
        i < order.len(),
        order[i as int] matches LayerSlot::Bg { bg, prio } && v.spec_bg_index(bg) == 0,
    ensures
        v.spec_slot_pixel(cache, order[i as int], subscreen).is_none(),
        v.raw_pixel_from(cache, order, i, subscreen) == v.raw_pixel_from(
            cache,
            order,
            i + 1,
            subscreen,
        ),
        i + 1 == order.len() ==> v.raw_pixel_from(cache, order, i, subscreen) == (
            v.spec_backdrop_color(),
            Layer::Backdrop,
        ),
{
    reveal_with_fuel(PpuView::raw_pixel_from, 2);
}

/// Sprites all of whose pixels here have palette index 0 contribute
/// nothing either.
pub proof fn lemma_transparent_sprites_fall_through(
    v: PpuView,
    cache: Seq<SpriteEntry>,
    order: Seq<LayerSlot>,
    i: nat,
    subscreen: bool,
)
    requires
        i < order.len(),
        order[i as int] is Sprites,
        forall|j: int|
            0 <= j < cache.len() ==> #[trigger] v.spec_sprite_index(cache[j]) == Some(0int),
    ensures
        v.spec_slot_pixel(cache, order[i as int], subscreen).is_none(),
        v.raw_pixel_from(cache, order, i, subscreen) == v.raw_pixel_from(
            cache,
            order,
            i + 1,
            subscreen,
        ),
{
    let prio = order[i as int]->Sprites_prio;
    lemma_no_sprite_pixel(v, cache, cache.len(), prio);
}

proof fn lemma_no_sprite_pixel(v: PpuView, cache: Seq<SpriteEntry>, k: nat, prio: u8)
    requires
        k <= cache.len(),
        forall|j: int|
            0 <= j < cache.len() ==> #[trigger] v.spec_sprite_index(cache[j]) == Some(0int),
    ensures
        v.sprite_pixel_among(cache, k, prio).is_none(),
    decreases k,
{
    if k > 0 {
        assert(v.spec_sprite_index(cache[k - 1]) == Some(0int));
        lemma_no_sprite_pixel(v, cache, (k - 1) as nat, prio);
    }
}

proof fn lemma_all_layers_off(
    v: PpuView,
    cache: Seq<SpriteEntry>,
    order: Seq<LayerSlot>,
    i: nat,
)
    requires
        v.tm & 0x1f == 0,
        forall|j: int| 0 <= j < order.len() ==> (#[trigger] order[j]).wf(),
    ensures
        v.raw_pixel_from(cache, order, i, false) == (v.spec_backdrop_color(), Layer::Backdrop),
    decreases order.len() - i,
{
    if i < order.len() {
        assert(order[i as int].wf());
        match order[i as int] {
            LayerSlot::Bg { bg, prio } => {
                lemma_bits_of_byte(v.tm, (bg - 1) as u8);
            },
            LayerSlot::Sprites { prio } => {
                lemma_bits_of_byte(v.tm, 4);
            },
        }
        lemma_all_layers_off(v, cache, order, i + 1);
    }
}

/// With every layer of the main screen switched off, the main screen
/// shows the backdrop, which is palette entry 0. Where colour math leaves
/// the backdrop alone and the picture is not blanked, the pixel on the
/// display is that colour at the current brightness.
pub proof fn lemma_backdrop_fallback(v: PpuView, cache: Seq<SpriteEntry>)
    requires
        v.tm & 0x1f == 0,
    ensures
        v.spec_get_raw_pixel(cache, false) == (v.spec_backdrop_color(), Layer::Backdrop),
        !v.forced_blank && !v.spec_color_math_enabled(Layer::Backdrop) ==> v.spec_render_pixel(
            cache,
        ) == v.spec_backdrop_color().spec_with_brightness(
            v.spec_brightness(),
        ).spec_to_adjusted_rgb(),
{
    let order = v.spec_layer_order();
    assert forall|j: int| 0 <= j < order.len() implies (#[trigger] order[j]).wf() by {
        lemma_layer_order_wf(v.spec_bg_mode(), bit(v.bgmode, 3), v.spec_extbg(), j);
    }
    lemma_all_layers_off(v, cache, order, 0);
    lemma_all_layers_off(v, v.active_cache(cache), order, 0);
}

proof fn lemma_sprite_pixel_wf(v: PpuView, cache: Seq<SpriteEntry>, k: nat, prio: u8)
    ensures
        v.sprite_pixel_among(cache, k, prio) matches Some(hit) ==> hit.0.wf(),
    decreases k,
{
    if k > 0 {
        lemma_sprite_pixel_wf(v, cache, (k - 1) as nat, prio);
    }
}

/// Whatever the memories hold, the channels of a raw pixel fit in five bits.
pub proof fn lemma_raw_pixel_wf(
    v: PpuView,
    cache: Seq<SpriteEntry>,
    order: Seq<LayerSlot>,
    i: nat,
    subscreen: bool,
)
    ensures
        v.raw_pixel_from(cache, order, i, subscreen).0.wf(),
    decreases order.len() - i,
{
    if i < order.len() {
        match order[i as int] {
            LayerSlot::Bg { bg, prio } => {},
            LayerSlot::Sprites { prio } => {
                lemma_sprite_pixel_wf(v, cache, cache.len(), prio);
            },
        }
        lemma_raw_pixel_wf(v, cache, order, i + 1, subscreen);
    }
}

/// After colour math every channel still fits in five bits, for every
/// main pixel and every operand.
pub proof fn lemma_post_math_in_range(v: PpuView, cache: Seq<SpriteEntry>)
    ensures
        v.spec_get_raw_pixel(cache, false).0.wf(),
        v.spec_math_operand(cache).wf(),
        v.spec_post_math(cache).wf(),
{
    lemma_raw_pixel_wf(v, cache, v.spec_layer_order(), 0, false);
    lemma_raw_pixel_wf(v, cache, v.spec_layer_order(), 0, true);
    crate::color::lemma_new_wf(v.coldata_r, v.coldata_g, v.coldata_b);
}

/// `b` is `a` with another brightness.
pub open spec fn differ_in_brightness_only(a: PpuView, b: PpuView) -> bool {
    b == (PpuView { brightness: b.brightness, ..a })
}

proof fn lemma_frame_line_cache(a: PpuView, b: PpuView, n: nat)
    requires
        differ_in_brightness_only(a, b),
    ensures
        a.line_cache(n) == b.line_cache(n),
    decreases n,
{
    if n > 0 {
        lemma_frame_line_cache(a, b, (n - 1) as nat);
    }
}

proof fn lemma_frame_sprite_pixel(
    a: PpuView,
    b: PpuView,
    cache: Seq<SpriteEntry>,
    k: nat,
    prio: u8,
)
    requires
        differ_in_brightness_only(a, b),
    ensures
        a.sprite_pixel_among(cache, k, prio) == b.sprite_pixel_among(cache, k, prio),
    decreases k,
{
    if k > 0 {
        lemma_frame_sprite_pixel(a, b, cache, (k - 1) as nat, prio);
    }
}

#[verifier::rlimit(30)]
proof fn lemma_frame_bg(a: PpuView, b: PpuView, bg: u8, prio: u8, subscreen: bool)
    requires
        differ_in_brightness_only(a, b),
    ensures
        a.spec_lookup_bg_color(bg, prio, subscreen) == b.spec_lookup_bg_color(bg, prio, subscreen),
{
    assert(a.spec_bg_settings(bg) == b.spec_bg_settings(bg));
    assert(a.spec_bg_position(bg) == b.spec_bg_position(bg));
    assert(a.spec_bg_entry(bg) == b.spec_bg_entry(bg));
    assert(a.spec_color_count_for_bg(bg) == b.spec_color_count_for_bg(bg));
    assert(a.spec_bg_index(bg) == b.spec_bg_index(bg));
    assert(a.spec_palette_base_for_bg_tile(bg, a.spec_bg_entry(bg).palette)
        == b.spec_palette_base_for_bg_tile(bg, a.spec_bg_entry(bg).palette));
}

#[verifier::rlimit(30)]
proof fn lemma_frame_windows(a: PpuView, b: PpuView, subscreen: bool)
    requires
        differ_in_brightness_only(a, b),
    ensures
        a.spec_clip_color(subscreen) == b.spec_clip_color(subscreen),
        a.in_color_window() == b.in_color_window(),
        a.sprites_masked(subscreen) == b.sprites_masked(subscreen),
        forall|bg: u8| #[trigger] a.bg_masked(bg, subscreen) == b.bg_masked(bg, subscreen),
        a.spec_backdrop_color() == b.spec_backdrop_color(),
        a.spec_fixed_color() == b.spec_fixed_color(),
        forall|layer: Layer| #[trigger]
            a.spec_color_math_enabled(layer) == b.spec_color_math_enabled(layer),
{
}

#[verifier::rlimit(30)]
proof fn lemma_frame_slot(
    a: PpuView,
    b: PpuView,
    cache: Seq<SpriteEntry>,
    slot: LayerSlot,
    subscreen: bool,
)
    requires
        differ_in_brightness_only(a, b),
    ensures
        a.spec_slot_pixel(cache, slot, subscreen) == b.spec_slot_pixel(cache, slot, subscreen),
{
    lemma_frame_windows(a, b, subscreen);
    match slot {
        LayerSlot::Bg { bg, prio } => {
            lemma_frame_bg(a, b, bg, prio, subscreen);
            assert(a.bg_masked(bg, subscreen) == b.bg_masked(bg, subscreen));
        },
        LayerSlot::Sprites { prio } => {
            lemma_frame_sprite_pixel(a, b, cache, cache.len(), prio);
        },
    }
}

proof fn lemma_frame_raw_pixel(
    a: PpuView,
    b: PpuView,
    cache: Seq<SpriteEntry>,
    order: Seq<LayerSlot>,
    i: nat,
    subscreen: bool,
)
    requires
        differ_in_brightness_only(a, b),
    ensures
        a.raw_pixel_from(cache, order, i, subscreen) == b.raw_pixel_from(
            cache,
            order,
            i,
            subscreen,
        ),
    decreases order.len() - i,
{
    if i < order.len() {
        lemma_frame_slot(a, b, cache, order[i as int], subscreen);
        lemma_frame_raw_pixel(a, b, cache, order, i + 1, subscreen);
    } else {
        lemma_frame_windows(a, b, subscreen);
    }
}

/// With everything else fixed, no channel of the pixel on the display gets
/// darker when the brightness level is raised.
pub proof fn lemma_pixel_brightness_monotone(a: PpuView, b: PpuView, cache: Seq<SpriteEntry>)
    requires
        differ_in_brightness_only(a, b),
        a.spec_brightness() <= b.spec_brightness(),
    ensures
        a.spec_render_pixel(cache).r <= b.spec_render_pixel(cache).r,
        a.spec_render_pixel(cache).g <= b.spec_render_pixel(cache).g,
        a.spec_render_pixel(cache).b <= b.spec_render_pixel(cache).b,
{
    if !a.forced_blank {
        lemma_frame_line_cache(a, b, SPRITE_COUNT as nat);
        let active = a.active_cache(cache);
        assert(active == b.active_cache(cache));
        assert(a.spec_layer_order() == b.spec_layer_order());
        lemma_frame_raw_pixel(a, b, active, a.spec_layer_order(), 0, false);
        lemma_frame_raw_pixel(a, b, active, a.spec_layer_order(), 0, true);
        lemma_frame_windows(a, b, false);
        assert(a.spec_math_operand(active) == b.spec_math_operand(active));
        assert(a.spec_post_math(active) == b.spec_post_math(active));
        lemma_post_math_in_range(a, active);
        lemma_bits_of_byte(a.brightness, 0);
        lemma_bits_of_byte(b.brightness, 0);
        crate::color::lemma_brightness_monotone(
            a.spec_post_math(active),
            a.spec_brightness(),
            b.spec_brightness(),
        );
    }
}

/// Whether a pixel can be rendered does not depend on where the beam is.
pub proof fn lemma_renderable_anywhere(v: PpuView, x: u16, scanline: u16)
    requires
        v.renderable(),
    ensures
        v.at(x, scanline).renderable(),
{
    let w = v.at(x, scanline);
    assert forall|bg: u8, subscreen: bool| #[trigger]
        v.bg_supported(bg, subscreen) == w.bg_supported(bg, subscreen) by {
        assert(v.spec_color_count_for_bg(bg) == w.spec_color_count_for_bg(bg));
    }
}

/// While a frame is rendered and the picture is not blanked, the sprite
/// cache after any pixel is the one that was collected at the start of the
/// pixel's line.
pub proof fn lemma_cache_of_line(v: PpuView, start: BeamState, reset: OverflowReset, k: nat)
    requires
        !v.forced_blank,
    ensures
        v.beam_state_after(start, reset, k + 1).cache == v.at(0, (k / 256) as u16).line_cache(
            SPRITE_COUNT as nat,
        ),
    decreases k,
{
    if k % 256 != 0 {
        lemma_cache_of_line(v, start, reset, (k - 1) as nat);
        assert((k - 1) / 256 == k / 256);
    } else {
        assert(v.at_pixel(k) == v.at(0, (k / 256) as u16));
    }
}

} // verus!
