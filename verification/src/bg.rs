//! Background layers: scrolling, tile map lookup and palette selection.

use vstd::prelude::*;
use crate::bits::{bit, le_word, make_word, test_bit};
use crate::chr::spec_chr_entry;
use crate::color::SnesRgb;
use crate::ppu::{Ppu, PpuView};

verus! {

/// Collected settings of one background layer.
#[derive(Clone, Copy, Debug, PartialEq, Eq, Structural)]
pub struct BgSettings {
    /// Mosaic block size, 1 to 16; 1 means plain pixels.
    pub mosaic: u8,
    /// Number of the block of 1024 words in which the first tile map starts.
    pub tilemap_page: u8,
    /// The tile map repeats sideways after 32 tiles.
    pub tilemap_mirror_h: bool,
    /// The tile map repeats downwards after 32 tiles.
    pub tilemap_mirror_v: bool,
    /// Either 8 or 16.
    pub tile_size: u8,
    /// Address of the character data.
    pub chr_addr: u16,
    pub hscroll: u16,
    pub vscroll: u16,
}

/// One unpacked entry of a tile map.
#[derive(Clone, Copy, Debug, PartialEq, Eq, Structural)]
pub struct TilemapEntry {
    pub vflip: bool,
    pub hflip: bool,
    /// Priority bit, 0 or 1.
    pub priority: u8,
    /// Palette, 0 to 7.
    pub palette: u8,
    /// Number of the tile in the character data, 0 to 1023.
    pub tile_number: u16,
}

/// A background number.
pub open spec fn is_bg(bg: u8) -> bool {
    1 <= bg <= 4
}

/// The entry that a tile map word stands for. From the top bit down: flip
/// vertically, flip horizontally, priority, three bits of palette, ten bits
/// of tile number.
pub open spec fn entry_of_word(word: u16) -> TilemapEntry {
    TilemapEntry {
        vflip: word / 32768 == 1,
        hflip: word / 16384 % 2 == 1,
        priority: (word / 8192 % 2) as u8,
        palette: (word / 1024 % 8) as u8,
        tile_number: (word % 1024) as u16,
    }
}

/// Which of the up to four tile maps of a background holds tile
/// `(tile_x, tile_y)`: maps follow each other sideways first. An axis
/// along which the map repeats always gives the first map.
pub open spec fn screen_index(s: BgSettings, tile_x: u16, tile_y: u16) -> u8 {
    let right: bool = !s.tilemap_mirror_h && tile_x / 32 % 2 == 1;
    let below: bool = !s.tilemap_mirror_v && tile_y / 32 % 2 == 1;
    if below {
        if !s.tilemap_mirror_h {
            if right { 3u8 } else { 2u8 }
        } else {
            1u8
        }
    } else {
        if right { 1u8 } else { 0u8 }
    }
}

/// Word address of the tile map entry of tile `(tile_x, tile_y)`: the
/// number of the first map's block of 1024 words, combined by bitwise OR
/// with the index of the map, then the row and the column inside the map.
pub open spec fn tilemap_entry_address(s: BgSettings, tile_x: u16, tile_y: u16) -> u16 {
    ((s.tilemap_page | screen_index(s, tile_x, tile_y)) as int * 1024 + (tile_y % 32) * 32 + tile_x
        % 32) as u16
}

/// Address of the character data of tile `tile_number`: tiles follow
/// each other from `chr_addr` on, eight bytes for each bitplane.
pub open spec fn tile_address(chr_addr: u16, tile_number: u16, bitplane_count: u8) -> u16 {
    ((chr_addr + tile_number * 8 * bitplane_count) % 65536) as u16
}

/// The number of bitplanes that hold `colors` colours.
pub open spec fn bitplanes_for(colors: u16) -> u8 {
    if colors == 4 {
        2
    } else if colors == 16 {
        4
    } else if colors == 128 {
        7
    } else {
        8
    }
}

/// The number of colours of background `bg` in mode `mode`:
///
/// | mode | 1   | 2   | 3 | 4 |
/// |------|-----|-----|---|---|
/// | 0    | 4   | 4   | 4 | 4 |
/// | 1    | 16  | 16  | 4 |   |
/// | 2    | 16  | 16  |   |   |
/// | 3    | 256 | 16  |   |   |
/// | 4    | 256 | 4   |   |   |
/// | 5    | 16  | 4   |   |   |
/// | 6    | 16  |     |   |   |
/// | 7    | 256 | 128 |   |   |
///
/// Mode 7 has its second background only if `extbg` is set. A background
/// that the mode does not have counts as one of four colours.
pub open spec fn color_count_of(mode: u8, extbg: bool, bg: u8) -> u16 {
    if mode == 1 {
        if bg == 1 || bg == 2 { 16 } else { 4 }
    } else if mode == 2 {
        if bg == 1 || bg == 2 { 16 } else { 4 }
    } else if mode == 3 {
        if bg == 1 { 256 } else if bg == 2 { 16 } else { 4 }
    } else if mode == 4 {
        if bg == 1 { 256 } else { 4 }
    } else if mode == 5 || mode == 6 {
        if bg == 1 { 16 } else { 4 }
    } else if mode == 7 {
        if bg == 1 { 256 } else if bg == 2 && extbg { 128 } else { 4 }
    } else {
        4
    }
}

/// The first palette entry of a tile of background `bg` that names
/// palette `palette_num`. In mode 0 each background has 32 entries of its
/// own, four for each palette. In modes 2 and 6 a palette has sixteen
/// entries. A background of 128 or 256 colours uses the palette memory
/// from its start. Everywhere else a palette has as many entries as the
/// background has colours.
pub open spec fn palette_base_of(mode: u8, extbg: bool, bg: u8, palette_num: u8) -> int {
    let colors = color_count_of(mode, extbg, bg);
    if mode == 0 {
        palette_num * 4 + (bg - 1) * 32
    } else if mode == 2 || mode == 6 {
        palette_num * 16
    } else if colors >= 128 {
        0
    } else {
        palette_num * colors
    }
}

proof fn lemma_page_bits(page: u8, index: u8)
    by (bit_vector)
    requires
        page <= 63,
        index <= 3,
    ensures
        page | index <= 63,
{
}

impl PpuView {
    /// Background `bg` is shown on the main screen, or on the subscreen if
    /// `subscreen` is set.
    pub open spec fn spec_bg_enabled(&self, bg: u8, subscreen: bool) -> bool {
        bit(if subscreen { self.ts } else { self.tm }, (bg - 1) as u8)
    }

    /// The tile map entry stored at a word address of video memory, low byte
    /// first; the byte address wraps at the end of the memory.
    pub open spec fn spec_tilemap_entry(&self, word_address: u16) -> TilemapEntry {
        entry_of_word(
            le_word(
                self.vram[(2 * word_address) % 65536],
                self.vram[(2 * word_address) % 65536 + 1],
            ),
        )
    }

    /// The tile map register of `bg`.
    pub open spec fn spec_bg_sc(&self, bg: u8) -> u8 {
        if bg == 1 {
            self.bg1sc
        } else if bg == 2 {
            self.bg2sc
        } else if bg == 3 {
            self.bg3sc
        } else {
            self.bg4sc
        }
    }

    /// The character data base of `bg`, in units of 4096 bytes.
    pub open spec fn spec_bg_chr(&self, bg: u8) -> u8 {
        if bg == 1 {
            (self.bg12nba % 16) as u8
        } else if bg == 2 {
            (self.bg12nba / 16) as u8
        } else if bg == 3 {
            (self.bg34nba % 16) as u8
        } else {
            (self.bg34nba / 16) as u8
        }
    }

    /// The scroll offsets of `bg`, horizontal first.
    pub open spec fn spec_bg_scroll(&self, bg: u8) -> (u16, u16) {
        if bg == 1 {
            (self.bg1hofs, self.bg1vofs)
        } else if bg == 2 {
            (self.bg2hofs, self.bg2vofs)
        } else if bg == 3 {
            (self.bg3hofs, self.bg3vofs)
        } else {
            (self.bg4hofs, self.bg4vofs)
        }
    }

    /// Modes 5 and 6 always have tiles 16 wide, mode 7 always 8; in the
    /// other modes a bit of the mode register chooses for each background.
    pub open spec fn spec_bg_tile_size(&self, bg: u8) -> u8 {
        let mode = self.spec_bg_mode();
        if mode == 5 || mode == 6 {
            16
        } else if mode == 7 {
            8
        } else if bit(self.bgmode, (bg + 3) as u8) {
            16
        } else {
            8
        }
    }

    /// The settings of `bg` as the registers give them. The tile map register
    /// holds the block of the first tile map in its high six bits; bit 0 and
    /// bit 1, when clear, make the map repeat sideways and downwards.
    pub open spec fn spec_bg_settings(&self, bg: u8) -> BgSettings {
        let bgsc = self.spec_bg_sc(bg);
        let scroll = self.spec_bg_scroll(bg);
        BgSettings {
            mosaic: if bit(self.mosaic, (bg - 1) as u8) {
                (self.mosaic / 16 + 1) as u8
            } else {
                1
            },
            tilemap_page: (bgsc / 4) as u8,
            tilemap_mirror_h: bgsc % 2 == 0,
            tilemap_mirror_v: bgsc / 2 % 2 == 0,
            tile_size: self.spec_bg_tile_size(bg),
            chr_addr: (self.spec_bg_chr(bg) * 4096) as u16,
            hscroll: scroll.0,
            vscroll: scroll.1,
        }
    }

    /// The number of colours of `bg` in the current mode.
    pub open spec fn spec_color_count_for_bg(&self, bg: u8) -> u16 {
        color_count_of(self.spec_bg_mode(), self.spec_extbg(), bg)
    }

    /// The first palette entry of a tile of `bg` in the current mode.
    pub open spec fn spec_palette_base_for_bg_tile(&self, bg: u8, palette_num: u8) -> int {
        palette_base_of(self.spec_bg_mode(), self.spec_extbg(), bg, palette_num)
    }

    /// The pixel of background `bg` can be looked up: the layer is off, or
    /// its colours take an even number of bitplanes and, where they are
    /// 256, the direct colour mode is not asked for.
    pub open spec fn bg_supported(&self, bg: u8, subscreen: bool) -> bool {
        self.spec_bg_enabled(bg, subscreen) ==> {
            &&& self.spec_color_count_for_bg(bg) != 128
            &&& self.spec_color_count_for_bg(bg) == 256 ==> !bit(self.cgwsel, 0)
        }
    }

    /// Column and line of the current pixel inside background `bg`, after
    /// scrolling; both wrap at sixteen bits.
    pub open spec fn spec_bg_position(&self, bg: u8) -> (u16, u16) {
        let s = self.spec_bg_settings(bg);
        (((self.x + s.hscroll) % 65536) as u16, ((self.scanline + s.vscroll) % 65536) as u16)
    }

    /// The tile map entry that covers the current pixel in background `bg`.
    pub open spec fn spec_bg_entry(&self, bg: u8) -> TilemapEntry {
        let s = self.spec_bg_settings(bg);
        let p = self.spec_bg_position(bg);
        self.spec_tilemap_entry(
            tilemap_entry_address(s, (p.0 / s.tile_size as u16) as u16, (p.1 / s.tile_size as u16) as u16),
        )
    }

    /// The palette index that the character data holds for the current
    /// pixel of background `bg`; 0 is transparent.
    pub open spec fn spec_bg_index(&self, bg: u8) -> int {
        let s = self.spec_bg_settings(bg);
        let p = self.spec_bg_position(bg);
        let entry = self.spec_bg_entry(bg);
        let planes = bitplanes_for(self.spec_color_count_for_bg(bg));
        spec_chr_entry(
            self.vram,
            planes,
            tile_address(s.chr_addr, entry.tile_number, planes),
            s.tile_size,
            ((p.0 % s.tile_size as u16) as u8, (p.1 % s.tile_size as u16) as u8),
            (entry.vflip, entry.hflip),
        )
    }

    /// The priority of the entry counts: everywhere but on background 1
    /// of mode 7, which has no priorities.
    pub open spec fn spec_bg_has_priority(&self, bg: u8) -> bool {
        !(self.spec_bg_mode() == 7 && bg == 1)
    }

    /// The colour of background `bg` at the current pixel, taking only
    /// tiles of priority `prio`. `None` where the layer is off, the tile has
    /// another priority, or the pixel is transparent.
    pub open spec fn spec_lookup_bg_color(&self, bg: u8, prio: u8, subscreen: bool) -> Option<
        SnesRgb,
    > {
        let entry = self.spec_bg_entry(bg);
        let index = self.spec_bg_index(bg);
        if !self.spec_bg_enabled(bg, subscreen) {
            None
        } else if self.spec_bg_has_priority(bg) && entry.priority != prio {
            None
        } else if index == 0 {
            None
        } else {
            Some(
                self.spec_lookup_color(
                    (self.spec_palette_base_for_bg_tile(bg, entry.palette) + index) as u8,
                ),
            )
        }
    }

}

impl Ppu {
    /// Determines whether the given background (1 to 4) is shown on the
    /// main screen, or on the subscreen if `subscreen` is set.
    pub fn bg_enabled(&self, bg: u8, subscreen: bool) -> (on: bool)
        requires
            is_bg(bg),
        ensures
            on == self@.spec_bg_enabled(bg, subscreen),
    {
        test_bit(if subscreen { self.ts } else { self.tm }, bg - 1)
    }

    /// Reads the tile map entry at the given word address of video memory.
    pub fn tilemap_entry(&self, word_address: u16) -> (entry: TilemapEntry)
        requires
            self.wf(),
        ensures
            entry == self@.spec_tilemap_entry(word_address),
            entry.priority <= 1,
            entry.palette <= 7,
            entry.tile_number <= 1023,
    {
        let byte_address: u16 = ((word_address as u32 * 2) % 65536) as u16;
        let lo: u8 = self.vram_byte(byte_address);
        let hi: u8 = self.vram_byte(byte_address + 1);
        let word: u16 = make_word(lo, hi);
        TilemapEntry {
            vflip: word / 32768 == 1,
            hflip: word / 16384 % 2 == 1,
            priority: (word / 8192 % 2) as u8,
            palette: (word / 1024 % 8) as u8,
            tile_number: word % 1024,
        }
    }

    /// Collects the settings of a background layer.
    pub fn bg_settings(&self, bg: u8) -> (s: BgSettings)
        requires
            is_bg(bg),
        ensures
            s == self@.spec_bg_settings(bg),
            s.tile_size == 8 || s.tile_size == 16,
            s.tilemap_page <= 63,
            1 <= s.mosaic <= 16,
    {
        let bgsc: u8 = if bg == 1 {
            self.bg1sc
        } else if bg == 2 {
            self.bg2sc
        } else if bg == 3 {
            self.bg3sc
        } else {
            self.bg4sc
        };
        let chr: u8 = if bg == 1 {
            self.bg12nba % 16
        } else if bg == 2 {
            self.bg12nba / 16
        } else if bg == 3 {
            self.bg34nba % 16
        } else {
            self.bg34nba / 16
        };
        let (hofs, vofs) = if bg == 1 {
            (self.bg1hofs, self.bg1vofs)
        } else if bg == 2 {
            (self.bg2hofs, self.bg2vofs)
        } else if bg == 3 {
            (self.bg3hofs, self.bg3vofs)
        } else {
            (self.bg4hofs, self.bg4vofs)
        };
        let mode: u8 = self.bg_mode();
        BgSettings {
            mosaic: if test_bit(self.mosaic, bg - 1) {
                self.mosaic / 16 + 1
            } else {
                1
            },
            tilemap_page: bgsc / 4,
            tilemap_mirror_h: bgsc % 2 == 0,
            tilemap_mirror_v: bgsc / 2 % 2 == 0,
            tile_size: if mode == 5 || mode == 6 {
                16
            } else if mode == 7 {
                8
            } else if test_bit(self.bgmode, bg + 3) {
                16
            } else {
                8
            },
            chr_addr: (chr as u16) * 4096,
            hscroll: hofs,
            vscroll: vofs,
        }
    }

    /// Whether the second layer of mode 7 is on.
    pub fn extbg(&self) -> (on: bool)
        ensures
            on == self@.spec_extbg(),
    {
        test_bit(self.setini, 6)
    }

    /// Returns the number of colours of the given background in the current
    /// mode: 4, 16, 128 or 256.
    pub fn color_count_for_bg(&self, bg: u8) -> (colors: u16)
        requires
            is_bg(bg),
        ensures
            colors == self@.spec_color_count_for_bg(bg),
            colors == 4 || colors == 16 || colors == 128 || colors == 256,
    {
        let mode: u8 = self.bg_mode();
        if mode == 1 || mode == 2 {
            if bg == 1 || bg == 2 { 16 } else { 4 }
        } else if mode == 3 {
            if bg == 1 { 256 } else if bg == 2 { 16 } else { 4 }
        } else if mode == 4 {
            if bg == 1 { 256 } else { 4 }
        } else if mode == 5 || mode == 6 {
            if bg == 1 { 16 } else { 4 }
        } else if mode == 7 {
            if bg == 1 { 256 } else if bg == 2 && self.extbg() { 128 } else { 4 }
        } else {
            4
        }
    }

    /// Calculates the first palette entry for a tile of the given
    /// background; `palette_num` is the palette that the tile map entry
    /// names, 0 to 7.
    pub fn palette_base_for_bg_tile(&self, bg: u8, palette_num: u8) -> (base: u8)
        requires
            is_bg(bg),
            palette_num <= 7,
        ensures
            base == self@.spec_palette_base_for_bg_tile(bg, palette_num),
            base + self@.spec_color_count_for_bg(bg) <= 256,
    {
        let mode: u8 = self.bg_mode();
        let colors: u16 = self.color_count_for_bg(bg);
        if mode == 0 {
            palette_num * 4 + (bg - 1) * 32
        } else if mode == 2 || mode == 6 {
            palette_num * 16
        } else if colors >= 128 {
            0
        } else {
            assert(palette_num * colors <= 7 * 16) by (nonlinear_arith)
                requires
                    palette_num <= 7,
                    colors <= 16,
            ;
            assert(palette_num * colors + colors <= 8 * 16) by (nonlinear_arith)
                requires
                    palette_num <= 7,
                    colors <= 16,
            ;
            palette_num * (colors as u8)
        }
    }

    /// Finds the column and the line of the current pixel inside the given
    /// background, after scrolling.
    pub fn bg_position(&self, s: &BgSettings) -> (p: (u16, u16))
        ensures
            p.0 == (self.x + s.hscroll) % 65536,
            p.1 == (self.scanline + s.vscroll) % 65536,
    {
        (
            ((self.x as u32 + s.hscroll as u32) % 65536) as u16,
            ((self.scanline as u32 + s.vscroll as u32) % 65536) as u16,
        )
    }

    /// Reads the tile map entry that covers the current pixel in the
    /// given background.
    pub fn bg_entry(&self, bg_num: u8) -> (entry: TilemapEntry)
        requires
            self.wf(),
            is_bg(bg_num),
        ensures
            entry == self@.spec_bg_entry(bg_num),
            entry.priority <= 1,
            entry.palette <= 7,
            entry.tile_number <= 1023,
    {
        let bg: BgSettings = self.bg_settings(bg_num);
        let p: (u16, u16) = self.bg_position(&bg);
        let tile_size: u16 = bg.tile_size as u16;
        self.tilemap_entry(entry_address(&bg, p.0 / tile_size, p.1 / tile_size))
    }

    /// Reads the palette index that the character data holds for the
    /// current pixel of the given background, whose tile map entry for the
    /// pixel is `entry`.
    #[verifier::rlimit(30)]
    pub fn bg_index(&self, bg_num: u8, entry: &TilemapEntry) -> (index: u8)
        requires
            self.wf(),
            is_bg(bg_num),
            *entry == self@.spec_bg_entry(bg_num),
            entry.tile_number <= 1023,
            self@.spec_color_count_for_bg(bg_num) != 128,
        ensures
            index == self@.spec_bg_index(bg_num),
            index < self@.spec_color_count_for_bg(bg_num),
    {
        let bg: BgSettings = self.bg_settings(bg_num);
        let p: (u16, u16) = self.bg_position(&bg);
        let tile_size: u16 = bg.tile_size as u16;
        let color_count: u16 = self.color_count_for_bg(bg_num);
        let bitplane_count: u8 = if color_count == 4 {
            2
        } else if color_count == 16 {
            4
        } else {
            8
        };
        let start: u16 = tile_start(bg.chr_addr, entry.tile_number, bitplane_count);
        self.read_chr_entry(
            bitplane_count,
            start,
            bg.tile_size,
            ((p.0 % tile_size) as u8, (p.1 % tile_size) as u8),
            (entry.vflip, entry.hflip),
        )
    }

    /// Looks up the colour of the given background (1 to 4) at the current
    /// pixel, using tiles of the given priority only, on the main screen or
    /// on the subscreen. Scrolls the background accordingly.
    ///
    /// Returns `None` if the pixel is transparent.
    #[verifier::rlimit(30)]
    pub fn lookup_bg_color(&self, bg_num: u8, prio: u8, subscreen: bool) -> (color: Option<
        SnesRgb,
    >)
        requires
            self.wf(),
            is_bg(bg_num),
            self@.bg_supported(bg_num, subscreen),
        ensures
            color == self@.spec_lookup_bg_color(bg_num, prio, subscreen),
            color matches Some(c) ==> c.wf(),
            self@.spec_bg_index(bg_num) == 0 ==> color.is_none(),
            !self@.spec_bg_enabled(bg_num, subscreen) ==> color.is_none(),
    {
        if !self.bg_enabled(bg_num, subscreen) {
            return None;
        }
        let tilemap_entry: TilemapEntry = self.bg_entry(bg_num);
        if !(self.bg_mode() == 7 && bg_num == 1) && tilemap_entry.priority != prio {
            return None;
        }
        let palette_base: u8 = self.palette_base_for_bg_tile(bg_num, tilemap_entry.palette);
        let palette_index: u8 = self.bg_index(bg_num, &tilemap_entry);
        if palette_index == 0 {
            None
        } else {
            Some(self.lookup_color(palette_base + palette_index))
        }
    }
}

/// Computes the address of the character data of a tile.
pub fn tile_start(chr_addr: u16, tile_number: u16, bitplane_count: u8) -> (addr: u16)
    requires
        tile_number <= 1023,
        bitplane_count <= 8,
    ensures
        addr == tile_address(chr_addr, tile_number, bitplane_count),
{
    assert(tile_number * 8 * bitplane_count <= 1023 * 8 * 8) by (nonlinear_arith)
        requires
            tile_number <= 1023,
            bitplane_count <= 8,
    ;
    ((chr_addr as u32 + (tile_number as u32) * 8 * (bitplane_count as u32)) % 65536) as u16
}

/// Computes the word address of the tile map entry of a tile.
pub fn entry_address(s: &BgSettings, tile_x: u16, tile_y: u16) -> (addr: u16)
    requires
        s.tilemap_page <= 63,
    ensures
        addr == tilemap_entry_address(*s, tile_x, tile_y),
{
    let right: bool = !s.tilemap_mirror_h && tile_x / 32 % 2 == 1;
    let below: bool = !s.tilemap_mirror_v && tile_y / 32 % 2 == 1;
    let index: u8 = if below {
        if !s.tilemap_mirror_h {
            if right { 3 } else { 2 }
        } else {
            1
        }
    } else {
        if right { 1 } else { 0 }
    };
    proof {
        lemma_page_bits(s.tilemap_page, index);
    }
    ((s.tilemap_page | index) as u16) * 1024 + (tile_y % 32) * 32 + tile_x % 32
}

/// A background whose tile map repeats sideways shows, 32 tiles further
/// right, the same tile map entry again.
pub proof fn lemma_mirror_wraparound(s: BgSettings, tile_x: u16, tile_y: u16)
    requires
        s.tilemap_mirror_h,
        tile_x + 32 <= u16::MAX,
    ensures
        tilemap_entry_address(s, (tile_x + 32) as u16, tile_y) == tilemap_entry_address(
            s,
            tile_x,
            tile_y,
        ),
        tilemap_entry_address(s, 32, tile_y) == tilemap_entry_address(s, 0, tile_y),
{
}

/// A background whose tile map register has bit 0 clear has a tile map
/// that repeats sideways: tile columns 32 and 0 name the same entry.
pub proof fn lemma_mirror_wraparound_of_register(ppu: PpuView, bg: u8, tile_y: u16)
    requires
        ppu.spec_bg_sc(bg) % 2 == 0,
    ensures
        ppu.spec_bg_settings(bg).tilemap_mirror_h,
        tilemap_entry_address(ppu.spec_bg_settings(bg), 32, tile_y) == tilemap_entry_address(
            ppu.spec_bg_settings(bg),
            0,
            tile_y,
        ),
{
}

/// A pixel whose character data holds index 0 shows nothing of its
/// background, whatever the palette and the priority asked for.
pub proof fn lemma_bg_index_zero_is_transparent(ppu: PpuView, bg: u8, prio: u8, subscreen: bool)
    requires
        ppu.spec_bg_index(bg) == 0,
    ensures
        ppu.spec_lookup_bg_color(bg, prio, subscreen).is_none(),
{
}

} // verus!
