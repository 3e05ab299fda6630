//! The sprite layer: the scan of the attribute memory at the start of each
//! line and the per-pixel lookup in the line's cache.

use vstd::prelude::*;
use crate::bits::{bit, test_bit};
use crate::chr::spec_chr_entry;
use crate::color::SnesRgb;
use crate::ppu::{Ppu, PpuView};

verus! {

/// Most sprites that one line can show.
pub const MAX_SPRITES_PER_LINE: usize = 32;

/// Most tiles, each eight pixels wide, that one line's sprites can take.
pub const MAX_TILES_PER_LINE: u32 = 34;

/// One sprite as the attribute memory describes it.
#[derive(Clone, Copy, Debug, PartialEq, Eq, Structural)]
pub struct SpriteEntry {
    /// Column of the left edge, nine bits; 256 and above lie left of the screen.
    pub x: u16,
    /// Line of the top edge.
    pub y: u8,
    /// Number of the first tile.
    pub tile_number: u8,
    /// Palette, 0 to 7.
    pub palette: u8,
    /// Priority, 0 to 3.
    pub priority: u8,
    /// Whether the sprite has the larger of the two configured sizes.
    pub size_toggle: bool,
    pub hflip: bool,
    pub vflip: bool,
    /// Whether the tiles come from the second name table.
    pub name_table_select: bool,
}

/// Number of sprites in the attribute memory.
pub const SPRITE_COUNT: usize = 128;

/// Sprite `i` of the attribute memory `oam`. Its record is the four bytes
/// at `4 * i`: the low eight bits of the column, the line, the tile number,
/// and a byte that holds, from the top bit down, flip vertically, flip
/// horizontally, two bits of priority, three bits of palette and the name
/// table. The table behind the records holds two more bits for each
/// sprite: bit 8 of the column, then the size toggle.
pub open spec fn sprite_of(oam: Seq<u8>, i: int) -> SpriteEntry {
    let flags = oam[4 * i + 3];
    let high = oam[512 + i / 4];
    SpriteEntry {
        x: (oam[4 * i] + (if bit(high, (2 * (i % 4)) as u8) { 256int } else { 0int })) as u16,
        y: oam[4 * i + 1],
        tile_number: oam[4 * i + 2],
        palette: (flags / 2 % 8) as u8,
        priority: (flags / 16 % 4) as u8,
        size_toggle: bit(high, (2 * (i % 4) + 1) as u8),
        hflip: flags / 64 % 2 == 1,
        vflip: flags / 128 == 1,
        name_table_select: flags % 2 == 1,
    }
}

/// How far `line` lies below the top edge `y` of a sprite; lines wrap
/// after 256.
pub open spec fn row_in_sprite(y: u8, line: u16) -> int {
    (line + 256 - y) % 256
}

/// How far column `x` lies right of the left edge `left` of a sprite;
/// columns wrap after 512.
pub open spec fn column_in_sprite(left: u16, x: u16) -> int {
    (x + 512 - left) % 512
}

/// Address of the character data of the tile in column `col` and row
/// `row` of a sprite, both counted in tiles. The tiles of a sprite lie in
/// a grid sixteen tiles wide that wraps in both directions; each takes 32
/// bytes. The first name table starts 16384 bytes times the low three bits
/// of `obsel` into video memory; the second starts 8192 bytes times one
/// more than bits 3 and 4 of `obsel` after the start of the first.
pub open spec fn sprite_tile_address(obsel: u8, e: SpriteEntry, col: int, row: int) -> u16 {
    let tile = (e.tile_number / 16 + row) % 16 * 16 + (e.tile_number % 16 + col) % 16;
    let table = if e.name_table_select {
        (obsel / 8 % 4 + 1) * 8192
    } else {
        0
    };
    ((obsel % 8 * 16384 + table + tile * 32) % 65536) as u16
}

impl PpuView {
    /// Sprite `i` of the attribute memory.
    pub open spec fn spec_sprite_entry(&self, i: int) -> SpriteEntry {
        sprite_of(self.oam, i)
    }

    /// Sprites are shown on the main screen, or on the subscreen if
    /// `subscreen` is set.
    pub open spec fn spec_sprites_enabled(&self, subscreen: bool) -> bool {
        bit(if subscreen { self.ts } else { self.tm }, 4)
    }

    /// The sprite covers the current line.
    pub open spec fn sprite_on_line(&self, e: SpriteEntry) -> bool {
        row_in_sprite(e.y, self.scanline) < self.spec_obj_size(e.size_toggle).1
    }

    /// How many of the first `n` sprites cover the current line.
    pub open spec fn line_count(&self, n: nat) -> nat
        decreases n,
    {
        if n == 0 {
            0
        } else {
            self.line_count((n - 1) as nat) + if self.sprite_on_line(
                self.spec_sprite_entry(n - 1),
            ) {
                1nat
            } else {
                0nat
            }
        }
    }

    /// The cache after the first `n` sprites were scanned: those that
    /// cover the current line, in their order, up to 32 of them.
    pub open spec fn line_cache(&self, n: nat) -> Seq<SpriteEntry>
        decreases n,
    {
        if n == 0 {
            Seq::empty()
        } else {
            let before = self.line_cache((n - 1) as nat);
            let e = self.spec_sprite_entry(n - 1);
            if self.sprite_on_line(e) && before.len() < MAX_SPRITES_PER_LINE {
                before.push(e)
            } else {
                before
            }
        }
    }

    /// The number of tiles, each eight pixels wide, that the sprites
    /// cached from the first `n` take on the current line.
    pub open spec fn line_tiles(&self, n: nat) -> nat
        decreases n,
    {
        if n == 0 {
            0
        } else {
            let before = self.line_cache((n - 1) as nat);
            let e = self.spec_sprite_entry(n - 1);
            self.line_tiles((n - 1) as nat) + if self.sprite_on_line(e) && before.len()
                < MAX_SPRITES_PER_LINE {
                (self.spec_obj_size(e.size_toggle).0 / 8) as nat
            } else {
                0nat
            }
        }
    }

    /// More sprites cover the current line than the cache takes.
    pub open spec fn line_range_over(&self) -> bool {
        self.line_count(SPRITE_COUNT as nat) > MAX_SPRITES_PER_LINE
    }

    /// The cached sprites of the current line need more tiles than can be
    /// fetched.
    pub open spec fn line_time_over(&self) -> bool {
        self.line_tiles(SPRITE_COUNT as nat) > MAX_TILES_PER_LINE
    }

    /// The palette index that sprite `e` holds for the current pixel, or
    /// `None` where the sprite does not cover it.
    pub open spec fn spec_sprite_index(&self, e: SpriteEntry) -> Option<int> {
        let size = self.spec_obj_size(e.size_toggle);
        let dx = column_in_sprite((e.x % 512) as u16, self.x);
        let dy = row_in_sprite(e.y, self.scanline);
        if dx >= size.0 || dy >= size.1 {
            None
        } else {
            let ox = if e.hflip { size.0 - 1 - dx } else { dx };
            let oy = if e.vflip { size.1 - 1 - dy } else { dy };
            Some(
                spec_chr_entry(
                    self.vram,
                    4,
                    sprite_tile_address(self.obsel, e, ox / 8, oy / 8),
                    8,
                    ((ox % 8) as u8, (oy % 8) as u8),
                    (false, false),
                ),
            )
        }
    }

    /// What sprite `e` shows at the current pixel if it has priority
    /// `prio`: its colour, which is entry `128 + 16 * palette + index` of
    /// the palette memory, and whether it is opaque to colour math, which
    /// the sprites of palettes 0 to 3 are. Only the low nine bits of the
    /// column and the low three of the palette count. `None` where it has another
    /// priority, does not cover the pixel, or is transparent there.
    pub open spec fn spec_sprite_hit(&self, e: SpriteEntry, prio: u8) -> Option<(SnesRgb, bool)> {
        if e.priority != prio {
            None
        } else {
            match self.spec_sprite_index(e) {
                None => None,
                Some(index) => if index == 0 {
                    None
                } else {
                    Some(
                        (
                            self.spec_lookup_color((128 + e.palette % 8 * 16 + index) as u8),
                            e.palette % 8 < 4,
                        ),
                    )
                },
            }
        }
    }

    /// What the first `k` sprites of `cache` show at the current pixel: of
    /// those that show anything, the last.
    pub open spec fn sprite_pixel_among(&self, cache: Seq<SpriteEntry>, k: nat, prio: u8) -> Option<
        (SnesRgb, bool),
    >
        decreases k,
    {
        if k == 0 {
            None
        } else {
            match self.spec_sprite_hit(cache[k - 1], prio) {
                Some(hit) => Some(hit),
                None => self.sprite_pixel_among(cache, (k - 1) as nat, prio),
            }
        }
    }

    /// The sprite pixel of priority `prio` at the current position, from
    /// the sprites in `cache`.
    pub open spec fn spec_maybe_draw_sprite_pixel(
        &self,
        cache: Seq<SpriteEntry>,
        prio: u8,
        subscreen: bool,
    ) -> Option<(SnesRgb, bool)> {
        if !self.spec_sprites_enabled(subscreen) {
            None
        } else {
            self.sprite_pixel_among(cache, cache.len(), prio)
        }
    }
}

impl Ppu {
    /// Reads sprite `i` from the attribute memory.
    pub fn sprite_entry(&self, i: usize) -> (e: SpriteEntry)
        requires
            self.wf(),
            i < SPRITE_COUNT,
        ensures
            e == self@.spec_sprite_entry(i as int),
            e.x < 512,
            e.palette <= 7,
            e.priority <= 3,
    {
        let flags: u8 = self.oam[4 * i + 3];
        let high: u8 = self.oam[512 + i / 4];
        let slot: u8 = (2 * (i % 4)) as u8;
        let x_low: u16 = self.oam[4 * i] as u16;
        SpriteEntry {
            x: if test_bit(high, slot) { x_low + 256 } else { x_low },
            y: self.oam[4 * i + 1],
            tile_number: self.oam[4 * i + 2],
            palette: flags / 2 % 8,
            priority: flags / 16 % 4,
            size_toggle: test_bit(high, slot + 1),
            hflip: flags / 64 % 2 == 1,
            vflip: flags / 128 == 1,
            name_table_select: flags % 2 == 1,
        }
    }

    /// Whether the sprite covers the current line.
    pub fn is_sprite_on_line(&self, e: &SpriteEntry) -> (on: bool)
        requires
            self.scanline < 256,
        ensures
            on == self@.sprite_on_line(*e),
    {
        let row: u16 = (self.scanline + 256 - e.y as u16) % 256;
        row < self.obj_size(e.size_toggle).1 as u16
    }

    /// Rebuilds the sprite cache for the current line and sets the
    /// overflow flags that the line raises. Registers and memories stay
    /// as they are. The cache is refilled in place.
    pub fn collect_sprite_data_for_scanline(&mut self)
        requires
            old(self).wf(),
            old(self).scanline < 256,
        ensures
            final(self).wf(),
            final(self)@ == old(self)@,
            final(self).sprites@ == old(self)@.line_cache(SPRITE_COUNT as nat),
            final(self).overflow_reset == old(self).overflow_reset,
            final(self).range_over == (old(self).range_over || old(self)@.line_range_over()),
            final(self).time_over == (old(self).time_over || old(self)@.line_time_over()),
    {
        let ghost v = self@;
        let ghost reset = self.overflow_reset;
        let ghost range_before = self.range_over;
        let ghost time_before = self.time_over;
        self.sprites.clear();
        let mut count: usize = 0;
        let mut tiles: u32 = 0;
        let mut i: usize = 0;
        while i < SPRITE_COUNT
            invariant
                self.wf(),
                self@ == v,
                self.overflow_reset == reset,
                self.range_over == range_before,
                self.time_over == time_before,
                self.scanline < 256,
                i <= SPRITE_COUNT,
                self.sprites@ == v.line_cache(i as nat),
                count == v.line_count(i as nat),
                count <= i,
                tiles == v.line_tiles(i as nat),
                tiles <= 8 * i,
            decreases SPRITE_COUNT - i,
        {
            let e: SpriteEntry = self.sprite_entry(i);
            if self.is_sprite_on_line(&e) {
                count += 1;
                if self.sprites.len() < MAX_SPRITES_PER_LINE {
                    tiles += (self.obj_size(e.size_toggle).0 / 8) as u32;
                    self.sprites.push(e);
                }
            }
            i += 1;
        }
        if count > MAX_SPRITES_PER_LINE {
            self.range_over = true;
        }
        if tiles > MAX_TILES_PER_LINE {
            self.time_over = true;
        }
    }

    /// Computes what one sprite shows at the current pixel.
    #[verifier::rlimit(30)]
    pub fn sprite_hit(&self, e: &SpriteEntry, prio: u8) -> (hit: Option<(SnesRgb, bool)>)
        requires
            self.wf(),
            self.on_screen(),
        ensures
            hit == self@.spec_sprite_hit(*e, prio),
            hit matches Some(h) ==> h.0.wf(),
            self@.spec_sprite_index(*e) == Some(0int) ==> hit.is_none(),
    {
        if e.priority != prio {
            return None;
        }
        let (w, h) = self.obj_size(e.size_toggle);
        let dx: u16 = (self.x + 512 - e.x % 512) % 512;
        let dy: u16 = (self.scanline + 256 - e.y as u16) % 256;
        if dx >= w as u16 || dy >= h as u16 {
            return None;
        }
        let ox: u16 = if e.hflip { w as u16 - 1 - dx } else { dx };
        let oy: u16 = if e.vflip { h as u16 - 1 - dy } else { dy };
        let tile: u32 = ((e.tile_number / 16) as u32 + (oy / 8) as u32) % 16 * 16 + ((
            e.tile_number % 16) as u32 + (ox / 8) as u32) % 16;
        let table: u32 = if e.name_table_select {
            ((self.obsel / 8 % 4) as u32 + 1) * 8192
        } else {
            0
        };
        let addr: u16 = (((self.obsel % 8) as u32 * 16384 + table + tile * 32) % 65536) as u16;
        let index: u8 = self.read_chr_entry(
            4,
            addr,
            8,
            ((ox % 8) as u8, (oy % 8) as u8),
            (false, false),
        );
        if index == 0 {
            None
        } else {
            Some((self.lookup_color(128 + e.palette % 8 * 16 + index), e.palette % 8 < 4))
        }
    }

    /// Looks up the sprite pixel of the given priority at the current
    /// position, on the main screen or on the subscreen. Where several
    /// cached sprites show a pixel there, the one that comes last in the
    /// attribute memory wins.
    ///
    /// Returns the colour and whether the sprite is opaque to colour math.
    pub fn maybe_draw_sprite_pixel(&self, prio: u8, subscreen: bool) -> (hit: Option<
        (SnesRgb, bool),
    >)
        requires
            self.wf(),
            self.on_screen(),
        ensures
            hit == self@.spec_maybe_draw_sprite_pixel(self.sprites@, prio, subscreen),
            hit matches Some(h) ==> h.0.wf(),
            !self@.spec_sprites_enabled(subscreen) ==> hit.is_none(),
    {
        if !test_bit(if subscreen { self.ts } else { self.tm }, 4) {
            return None;
        }
        let mut k: usize = self.sprites.len();
        while k > 0
            invariant
                self.wf(),
                self.on_screen(),
                self@.spec_sprites_enabled(subscreen),
                k <= self.sprites@.len(),
                self@.sprite_pixel_among(self.sprites@, self.sprites@.len(), prio)
                    == self@.sprite_pixel_among(self.sprites@, k as nat, prio),
            decreases k,
        {
            let hit = self.sprite_hit(&self.sprites[k - 1], prio);
            if hit.is_some() {
                return hit;
            }
            k -= 1;
        }
        None
    }
}

/// The scan caches no more sprites than a line can show.
pub proof fn lemma_line_cache_bound(ppu: PpuView, n: nat)
    ensures
        ppu.line_cache(n).len() <= MAX_SPRITES_PER_LINE,
        ppu.line_cache(n).len() <= n,
    decreases n,
{
    if n > 0 {
        lemma_line_cache_bound(ppu, (n - 1) as nat);
    }
}

/// A sprite pixel whose character data holds index 0 shows nothing.
pub proof fn lemma_sprite_index_zero_is_transparent(ppu: PpuView, e: SpriteEntry, prio: u8)
    requires
        ppu.spec_sprite_index(e) == Some(0int),
    ensures
        ppu.spec_sprite_hit(e, prio).is_none(),
{
}

} // verus!
