//! The state that a pixel is computed from: registers, video memories, the
//! beam position and the sprite cache of the current line.

use vstd::prelude::*;
use crate::bits::{le_word, make_word, lemma_bits_of_byte};
use crate::color::SnesRgb;
use crate::sprites::SpriteEntry;

verus! {

/// Width of the picture in pixels.
pub const SCREEN_WIDTH: u16 = 256;

/// Height of the picture in lines.
pub const SCREEN_HEIGHT: u16 = 224;

/// Size of the video memory in bytes.
pub const VRAM_SIZE: usize = 65536;

/// Size of the palette memory in bytes: 256 words.
pub const CGRAM_SIZE: usize = 512;

/// Size of the sprite attribute memory in bytes: 128 records of four bytes
/// and a table of two more bits for each.
pub const OAM_SIZE: usize = 544;

/// When the sprite overflow flags are cleared.
#[derive(Clone, Copy, Debug, PartialEq, Eq, Structural)]
pub enum OverflowReset {
    /// At the first pixel of each frame, by the renderer.
    FrameStart,
    /// At the end of the vertical blanking period, by whoever drives the
    /// unit; the renderer then never clears them.
    VblankEnd,
}

/// What a pixel is computed from, as mathematical values: the registers,
/// the three video memories and the position of the beam. The sprite cache
/// and the overflow flags are not part of it.
pub struct PpuView {
    /// Tile maps and character data.
    pub vram: Seq<u8>,
    /// The palette, one little-endian word per colour.
    pub cgram: Seq<u8>,
    /// Sprite attributes.
    pub oam: Seq<u8>,
    /// Column of the current pixel.
    pub x: u16,
    /// Line of the current pixel.
    pub scanline: u16,
    /// Background mode in the low three bits, background 3 priority in bit
    /// 3, one tile size bit for each background in the high four.
    pub bgmode: u8,
    /// Layers shown on the main screen: backgrounds 1 to 4, then sprites.
    pub tm: u8,
    /// Layers shown on the subscreen.
    pub ts: u8,
    /// Layers that the windows mask on the main screen.
    pub tmw: u8,
    /// Layers that the windows mask on the subscreen.
    pub tsw: u8,
    /// Window settings of backgrounds 1 and 2.
    pub w12sel: u8,
    /// Window settings of backgrounds 3 and 4.
    pub w34sel: u8,
    /// Window settings of the sprites and of the colour window.
    pub wobjsel: u8,
    /// Window combinators of the four backgrounds.
    pub wbglog: u8,
    /// Window combinators of the sprites and of the colour window.
    pub wobjlog: u8,
    /// Left edge of window 1.
    pub wh0: u8,
    /// Right edge of window 1, not part of it.
    pub wh1: u8,
    /// Left edge of window 2.
    pub wh2: u8,
    /// Right edge of window 2, not part of it.
    pub wh3: u8,
    /// Colour clipping, colour math region, operand source, direct colour.
    pub cgwsel: u8,
    /// Subtract, halve, and the layers that take part in colour math.
    pub cgadsub: u8,
    pub coldata_r: u8,
    pub coldata_g: u8,
    pub coldata_b: u8,
    /// Bit 6 turns on the second layer of mode 7.
    pub setini: u8,
    /// Sprite size pair in the high three bits, name table base below.
    pub obsel: u8,
    pub bg1sc: u8,
    pub bg2sc: u8,
    pub bg3sc: u8,
    pub bg4sc: u8,
    /// Character data base of backgrounds 1 (low nibble) and 2 (high).
    pub bg12nba: u8,
    /// Character data base of backgrounds 3 (low nibble) and 4 (high).
    pub bg34nba: u8,
    pub bg1hofs: u16,
    pub bg1vofs: u16,
    pub bg2hofs: u16,
    pub bg2vofs: u16,
    pub bg3hofs: u16,
    pub bg3vofs: u16,
    pub bg4hofs: u16,
    pub bg4vofs: u16,
    pub mosaic: u8,
    /// Brightness level in the low four bits.
    pub brightness: u8,
    pub forced_blank: bool,
}

/// The picture processing unit.
pub struct Ppu {
    /// Tile maps and character data.
    pub vram: Vec<u8>,
    /// The palette, one little-endian word per colour.
    pub cgram: Vec<u8>,
    /// Sprite attributes.
    pub oam: Vec<u8>,
    /// Column of the current pixel.
    pub x: u16,
    /// Line of the current pixel.
    pub scanline: u16,
    /// Background mode in the low three bits, background 3 priority in bit
    /// 3, one tile size bit for each background in the high four.
    pub bgmode: u8,
    /// Layers shown on the main screen: backgrounds 1 to 4, then sprites.
    pub tm: u8,
    /// Layers shown on the subscreen.
    pub ts: u8,
    /// Layers that the windows mask on the main screen.
    pub tmw: u8,
    /// Layers that the windows mask on the subscreen.
    pub tsw: u8,
    /// Window settings of backgrounds 1 and 2.
    pub w12sel: u8,
    /// Window settings of backgrounds 3 and 4.
    pub w34sel: u8,
    /// Window settings of the sprites and of the colour window.
    pub wobjsel: u8,
    /// Window combinators of the four backgrounds.
    pub wbglog: u8,
    /// Window combinators of the sprites and of the colour window.
    pub wobjlog: u8,
    /// Left edge of window 1.
    pub wh0: u8,
    /// Right edge of window 1, not part of it.
    pub wh1: u8,
    /// Left edge of window 2.
    pub wh2: u8,
    /// Right edge of window 2, not part of it.
    pub wh3: u8,
    /// Colour clipping, colour math region, operand source, direct colour.
    pub cgwsel: u8,
    /// Subtract, halve, and the layers that take part in colour math.
    pub cgadsub: u8,
    pub coldata_r: u8,
    pub coldata_g: u8,
    pub coldata_b: u8,
    /// Bit 6 turns on the second layer of mode 7.
    pub setini: u8,
    /// Sprite size pair in the high three bits, name table base below.
    pub obsel: u8,
    pub bg1sc: u8,
    pub bg2sc: u8,
    pub bg3sc: u8,
    pub bg4sc: u8,
    /// Character data base of backgrounds 1 (low nibble) and 2 (high).
    pub bg12nba: u8,
    /// Character data base of backgrounds 3 (low nibble) and 4 (high).
    pub bg34nba: u8,
    pub bg1hofs: u16,
    pub bg1vofs: u16,
    pub bg2hofs: u16,
    pub bg2vofs: u16,
    pub bg3hofs: u16,
    pub bg3vofs: u16,
    pub bg4hofs: u16,
    pub bg4vofs: u16,
    pub mosaic: u8,
    /// Brightness level in the low four bits.
    pub brightness: u8,
    pub forced_blank: bool,
    /// The sprites on the current line, in the order of the attribute memory.
    pub sprites: Vec<SpriteEntry>,
    /// When the two flags below are cleared.
    pub overflow_reset: OverflowReset,
    /// Set when a line held more sprites than the cache takes.
    pub range_over: bool,
    /// Set when a line's sprites needed more tiles than can be fetched.
    pub time_over: bool,
}

/// The configured sprite size in pixels, width first, for a size pair
/// selector of 0 to 7.
pub open spec fn obj_size_of(selector: u8, size_toggle: bool) -> (u8, u8) {
    if selector == 0 {
        if !size_toggle { (8u8, 8u8) } else { (16u8, 16u8) }
    } else if selector == 1 {
        if !size_toggle { (8u8, 8u8) } else { (32u8, 32u8) }
    } else if selector == 2 {
        if !size_toggle { (8u8, 8u8) } else { (64u8, 64u8) }
    } else if selector == 3 {
        if !size_toggle { (16u8, 16u8) } else { (32u8, 32u8) }
    } else if selector == 4 {
        if !size_toggle { (16u8, 16u8) } else { (64u8, 64u8) }
    } else if selector == 5 {
        if !size_toggle { (32u8, 32u8) } else { (64u8, 64u8) }
    } else if selector == 6 {
        if !size_toggle { (16u8, 32u8) } else { (32u8, 64u8) }
    } else {
        if !size_toggle { (16u8, 32u8) } else { (32u8, 32u8) }
    }
}

/// A sprite dimension that the hardware knows.
pub open spec fn is_obj_dimension(d: u8) -> bool {
    d == 8 || d == 16 || d == 32 || d == 64
}

impl View for Ppu {
    type V = PpuView;

    open spec fn view(&self) -> PpuView {
        PpuView {
            vram: self.vram@,
            cgram: self.cgram@,
            oam: self.oam@,
            x: self.x,
            scanline: self.scanline,
            bgmode: self.bgmode,
            tm: self.tm,
            ts: self.ts,
            tmw: self.tmw,
            tsw: self.tsw,
            w12sel: self.w12sel,
            w34sel: self.w34sel,
            wobjsel: self.wobjsel,
            wbglog: self.wbglog,
            wobjlog: self.wobjlog,
            wh0: self.wh0,
            wh1: self.wh1,
            wh2: self.wh2,
            wh3: self.wh3,
            cgwsel: self.cgwsel,
            cgadsub: self.cgadsub,
            coldata_r: self.coldata_r,
            coldata_g: self.coldata_g,
            coldata_b: self.coldata_b,
            setini: self.setini,
            obsel: self.obsel,
            bg1sc: self.bg1sc,
            bg2sc: self.bg2sc,
            bg3sc: self.bg3sc,
            bg4sc: self.bg4sc,
            bg12nba: self.bg12nba,
            bg34nba: self.bg34nba,
            bg1hofs: self.bg1hofs,
            bg1vofs: self.bg1vofs,
            bg2hofs: self.bg2hofs,
            bg2vofs: self.bg2vofs,
            bg3hofs: self.bg3hofs,
            bg3vofs: self.bg3vofs,
            bg4hofs: self.bg4hofs,
            bg4vofs: self.bg4vofs,
            mosaic: self.mosaic,
            brightness: self.brightness,
            forced_blank: self.forced_blank,
        }
    }
}

impl PpuView {
    /// The state after power on: registers and memories zero, the beam at
    /// the first pixel.
    pub open spec fn power_on() -> PpuView {
        PpuView {
            vram: Seq::new(VRAM_SIZE as nat, |i: int| 0u8),
            cgram: Seq::new(CGRAM_SIZE as nat, |i: int| 0u8),
            oam: Seq::new(OAM_SIZE as nat, |i: int| 0u8),
            x: 0,
            scanline: 0,
            bgmode: 0,
            tm: 0,
            ts: 0,
            tmw: 0,
            tsw: 0,
            w12sel: 0,
            w34sel: 0,
            wobjsel: 0,
            wbglog: 0,
            wobjlog: 0,
            wh0: 0,
            wh1: 0,
            wh2: 0,
            wh3: 0,
            cgwsel: 0,
            cgadsub: 0,
            coldata_r: 0,
            coldata_g: 0,
            coldata_b: 0,
            setini: 0,
            obsel: 0,
            bg1sc: 0,
            bg2sc: 0,
            bg3sc: 0,
            bg4sc: 0,
            bg12nba: 0,
            bg34nba: 0,
            bg1hofs: 0,
            bg1vofs: 0,
            bg2hofs: 0,
            bg2vofs: 0,
            bg3hofs: 0,
            bg3vofs: 0,
            bg4hofs: 0,
            bg4vofs: 0,
            mosaic: 0,
            brightness: 0,
            forced_blank: false,
        }
    }

    /// The three memories have their sizes.
    pub open spec fn wf(&self) -> bool {
        &&& self.vram.len() == VRAM_SIZE
        &&& self.cgram.len() == CGRAM_SIZE
        &&& self.oam.len() == OAM_SIZE
    }

    /// The current pixel lies on the screen.
    pub open spec fn on_screen(&self) -> bool {
        self.x < SCREEN_WIDTH && self.scanline < SCREEN_HEIGHT
    }

    /// The active background mode, 0 to 7.
    pub open spec fn spec_bg_mode(&self) -> u8 {
        self.bgmode & 0x07
    }

    /// The configured size of the small or of the large sprites, width
    /// first; the high three bits of `obsel` select the pair of sizes.
    pub open spec fn spec_obj_size(&self, size_toggle: bool) -> (u8, u8) {
        obj_size_of((self.obsel >> 5) & 0x07, size_toggle)
    }

    /// The brightness level, 0 to 15.
    pub open spec fn spec_brightness(&self) -> u8 {
        self.brightness & 0x0f
    }

    /// The second layer of mode 7 is on.
    pub open spec fn spec_extbg(&self) -> bool {
        crate::bits::bit(self.setini, 6)
    }

    /// Palette entry `index`.
    pub open spec fn spec_lookup_color(&self, index: u8) -> SnesRgb {
        SnesRgb::spec_from_word(
            le_word(self.cgram[2 * index as int], self.cgram[2 * index as int + 1]),
        )
    }

    /// The colour shown where no layer is: palette entry 0.
    pub open spec fn spec_backdrop_color(&self) -> SnesRgb {
        self.spec_lookup_color(0)
    }

    /// The fixed colour of the colour math registers.
    pub open spec fn spec_fixed_color(&self) -> SnesRgb {
        SnesRgb::spec_new(self.coldata_r, self.coldata_g, self.coldata_b)
    }

}

impl Ppu {
    /// The three memories have their sizes and the sprite cache holds no
    /// more than a line can show.
    pub open spec fn wf(&self) -> bool {
        &&& self@.wf()
        &&& self.sprites@.len() <= crate::sprites::MAX_SPRITES_PER_LINE
    }

    /// The current pixel lies on the screen.
    pub open spec fn on_screen(&self) -> bool {
        self@.on_screen()
    }

    /// A unit with all registers and memories zero, at the first pixel,
    /// with an empty sprite cache and no overflow recorded.
    pub fn new() -> (ppu: Ppu)
        ensures
            ppu@ == PpuView::power_on(),
            ppu.wf(),
            ppu.on_screen(),
            ppu.sprites@.len() == 0,
            !ppu.range_over && !ppu.time_over,
            ppu.overflow_reset == OverflowReset::FrameStart,
    {
        let ppu = Ppu {
            vram: vec![0u8; VRAM_SIZE],
            cgram: vec![0u8; CGRAM_SIZE],
            oam: vec![0u8; OAM_SIZE],
            x: 0,
            scanline: 0,
            bgmode: 0,
            tm: 0,
            ts: 0,
            tmw: 0,
            tsw: 0,
            w12sel: 0,
            w34sel: 0,
            wobjsel: 0,
            wbglog: 0,
            wobjlog: 0,
            wh0: 0,
            wh1: 0,
            wh2: 0,
            wh3: 0,
            cgwsel: 0,
            cgadsub: 0,
            coldata_r: 0,
            coldata_g: 0,
            coldata_b: 0,
            setini: 0,
            obsel: 0,
            bg1sc: 0,
            bg2sc: 0,
            bg3sc: 0,
            bg4sc: 0,
            bg12nba: 0,
            bg34nba: 0,
            bg1hofs: 0,
            bg1vofs: 0,
            bg2hofs: 0,
            bg2vofs: 0,
            bg3hofs: 0,
            bg3vofs: 0,
            bg4hofs: 0,
            bg4vofs: 0,
            mosaic: 0,
            brightness: 0,
            forced_blank: false,
            sprites: Vec::with_capacity(crate::sprites::MAX_SPRITES_PER_LINE),
            overflow_reset: OverflowReset::FrameStart,
            range_over: false,
            time_over: false,
        };
        assert(ppu@.vram =~= PpuView::power_on().vram);
        assert(ppu@.cgram =~= PpuView::power_on().cgram);
        assert(ppu@.oam =~= PpuView::power_on().oam);
        ppu
    }

    /// Tells the unit that the vertical blanking period is over. Clears
    /// the sprite overflow flags if that is when they are to be cleared.
    pub fn end_of_vblank(&mut self)
        ensures
            final(self)@ == old(self)@,
            final(self).sprites@ == old(self).sprites@,
            final(self).overflow_reset == old(self).overflow_reset,
            final(self).range_over == (old(self).range_over && old(self).overflow_reset
                != OverflowReset::VblankEnd),
            final(self).time_over == (old(self).time_over && old(self).overflow_reset
                != OverflowReset::VblankEnd),
    {
        match self.overflow_reset {
            OverflowReset::VblankEnd => {
                self.range_over = false;
                self.time_over = false;
            },
            OverflowReset::FrameStart => {},
        }
    }

    /// Returns the active background mode, 0 to 7.
    pub fn bg_mode(&self) -> (mode: u8)
        ensures
            mode == self@.spec_bg_mode(),
            mode <= 7,
    {
        proof {
            lemma_bits_of_byte(self.bgmode, 0);
        }
        self.bgmode & 0x07
    }

    /// Gets the configured sprite size in pixels, width first: that of the
    /// small sprites if `size_toggle` is `false`, else that of the large.
    pub fn obj_size(&self, size_toggle: bool) -> (size: (u8, u8))
        ensures
            size == self@.spec_obj_size(size_toggle),
            is_obj_dimension(size.0) && is_obj_dimension(size.1),
    {
        let selector: u8 = (self.obsel >> 5) & 0x07;
        if selector == 0 {
            if !size_toggle { (8, 8) } else { (16, 16) }
        } else if selector == 1 {
            if !size_toggle { (8, 8) } else { (32, 32) }
        } else if selector == 2 {
            if !size_toggle { (8, 8) } else { (64, 64) }
        } else if selector == 3 {
            if !size_toggle { (16, 16) } else { (32, 32) }
        } else if selector == 4 {
            if !size_toggle { (16, 16) } else { (64, 64) }
        } else if selector == 5 {
            if !size_toggle { (32, 32) } else { (64, 64) }
        } else if selector == 6 {
            if !size_toggle { (16, 32) } else { (32, 64) }
        } else {
            if !size_toggle { (16, 32) } else { (32, 32) }
        }
    }

    /// The brightness level, 0 to 15.
    pub fn brightness(&self) -> (level: u8)
        ensures
            level == self@.spec_brightness(),
            level <= 15,
    {
        proof {
            lemma_bits_of_byte(self.brightness, 0);
        }
        self.brightness & 0x0f
    }

    /// Whether the picture is blanked.
    pub fn forced_blank(&self) -> (blank: bool)
        ensures
            blank == self.forced_blank,
    {
        self.forced_blank
    }

    /// Reads the byte of video memory at `addr`.
    pub fn vram_byte(&self, addr: u16) -> (v: u8)
        requires
            self.wf(),
        ensures
            v == self.vram@[addr as int],
    {
        self.vram[addr as usize]
    }

    /// Reads palette entry `index`.
    pub fn lookup_color(&self, index: u8) -> (c: SnesRgb)
        requires
            self.wf(),
        ensures
            c == self@.spec_lookup_color(index),
            c.wf(),
    {
        let at: usize = 2 * (index as usize);
        let lo: u8 = self.cgram[at];
        let hi: u8 = self.cgram[at + 1];
        SnesRgb::from_word(make_word(lo, hi))
    }

    /// Returns the colour shown where no layer is.
    pub fn backdrop_color(&self) -> (c: SnesRgb)
        requires
            self.wf(),
        ensures
            c == self@.spec_backdrop_color(),
            c.wf(),
    {
        self.lookup_color(0)
    }

    /// Returns the fixed colour of the colour math registers.
    pub fn fixed_color(&self) -> (c: SnesRgb)
        ensures
            c == self@.spec_fixed_color(),
            c.wf(),
    {
        SnesRgb::new(self.coldata_r, self.coldata_g, self.coldata_b)
    }
}

} // verus!
