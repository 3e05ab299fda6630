//! Character data: tiles stored as interleaved bitplanes.
//!
//! A tile of eight by eight pixels takes sixteen bytes for each pair of
//! bitplanes: two bytes per row, the even plane in the first and the odd
//! plane in the second, the leftmost pixel in bit 7. Addresses wrap at the
//! end of the video memory.

use vstd::prelude::*;
use crate::bits::{bit, test_bit};
use crate::ppu::Ppu;

verus! {

/// Four to the power of `i`, for the pair indices that occur.
pub open spec fn pow4(i: nat) -> int {
    if i == 0 {
        1
    } else if i == 1 {
        4
    } else if i == 2 {
        16
    } else if i == 3 {
        64
    } else {
        256
    }
}

/// The byte of video memory at `addr`, wrapped into the memory.
pub open spec fn vram_at(vram: Seq<u8>, addr: int) -> u8 {
    vram[addr % 65536]
}

/// The bit that `byte` holds for column `x` of a tile row: 0 or 1.
pub open spec fn column_bit(byte: u8, x: u8) -> int {
    if bit(byte, (7 - x) as u8) {
        1
    } else {
        0
    }
}

/// The two bits that the pair of bitplanes at `pair_start` holds for the
/// pixel at `(x, y)` of its tile, as a number from 0 to 3.
pub open spec fn pair_value(vram: Seq<u8>, pair_start: u16, x: u8, y: u8) -> int {
    column_bit(vram_at(vram, pair_start + 2 * y), x) + 2 * column_bit(
        vram_at(vram, pair_start + 2 * y + 1),
        x,
    )
}

/// Address of pair `pair` of the tile at `start`.
pub open spec fn pair_address(start: u16, pair: nat) -> u16 {
    ((start + 16 * pair) % 65536) as u16
}

/// The palette index that the first `pairs` pairs of bitplanes of the tile
/// at `start` hold for the pixel at `(x, y)`: pair `i` gives the two bits
/// of weight `4^i`.
pub open spec fn chr_index(vram: Seq<u8>, pairs: nat, start: u16, x: u8, y: u8) -> int
    decreases pairs,
{
    if pairs == 0 {
        0
    } else {
        chr_index(vram, (pairs - 1) as nat, start, x, y) + pow4((pairs - 1) as nat) * pair_value(
            vram,
            pair_address(start, (pairs - 1) as nat),
            x,
            y,
        )
    }
}

/// A coordinate inside a tile, mirrored if `flip` is set.
pub open spec fn flipped(tile_size: u8, v: u8, flip: bool) -> int {
    if flip {
        tile_size - 1 - v
    } else {
        v as int
    }
}

/// Address of the tile of eight by eight pixels that holds the pixel at
/// `(x, y)` of the tile at `start_addr`. A tile of sixteen by sixteen is
/// made of four such tiles, at 0, 1, 16 and 17 tiles from its first.
pub open spec fn subtile_address(bitplane_count: u8, start_addr: u16, x: int, y: int) -> u16 {
    ((start_addr + (x / 8 + 16 * (y / 8)) * 8 * bitplane_count) % 65536) as u16
}

/// The palette index of one pixel of a tile. `pos` is the pixel inside the
/// tile, column first; `flip` mirrors the tile vertically (first component)
/// or horizontally (second).
pub open spec fn spec_chr_entry(
    vram: Seq<u8>,
    bitplane_count: u8,
    start_addr: u16,
    tile_size: u8,
    pos: (u8, u8),
    flip: (bool, bool),
) -> int {
    let x = flipped(tile_size, pos.0, flip.1);
    let y = flipped(tile_size, pos.1, flip.0);
    chr_index(
        vram,
        (bitplane_count / 2) as nat,
        subtile_address(bitplane_count, start_addr, x, y),
        (x % 8) as u8,
        (y % 8) as u8,
    )
}

/// A number of bitplanes that the hardware uses.
pub open spec fn is_bitplane_count(n: u8) -> bool {
    n == 2 || n == 4 || n == 8
}

/// The number of palette indices that `bitplane_count` planes can hold.
pub open spec fn index_limit(bitplane_count: u8) -> int {
    pow4((bitplane_count / 2) as nat)
}

proof fn lemma_pair_bits(lo: u8, hi: u8, s: u8)
    by (bit_vector)
    requires
        s < 8,
    ensures
        (lo >> s) & 1 == 0 || (lo >> s) & 1 == 1,
        (hi >> s) & 1 == 0 || (hi >> s) & 1 == 1,
        (((hi >> s) & 1) << 1) | ((lo >> s) & 1) == ((lo >> s) & 1) + 2 * ((hi >> s) & 1),
{
}

proof fn lemma_accumulate(acc: u8, bits: u8)
    by (bit_vector)
    requires
        bits <= 3,
    ensures
        acc == 0 ==> acc | (bits << 0) == bits,
        acc < 4 ==> acc | (bits << 2) == acc + 4 * bits,
        acc < 16 ==> acc | (bits << 4) == acc + 16 * bits,
        acc < 64 ==> acc | (bits << 6) == acc + 64 * bits,
{
}

/// The bits already gathered stay below the weight of the next pair.
pub proof fn lemma_chr_index_bound(vram: Seq<u8>, pairs: nat, start: u16, x: u8, y: u8)
    requires
        pairs <= 4,
    ensures
        0 <= chr_index(vram, pairs, start, x, y) < pow4(pairs),
    decreases pairs,
{
    if pairs > 0 {
        lemma_chr_index_bound(vram, (pairs - 1) as nat, start, x, y);
        let v = pair_value(vram, pair_address(start, (pairs - 1) as nat), x, y);
        assert(0 <= v <= 3);
        if pairs == 1 {
            assert(pow4(0) * v == v);
        } else if pairs == 2 {
            assert(pow4(1) * v == 4 * v);
        } else if pairs == 3 {
            assert(pow4(2) * v == 16 * v);
        } else {
            assert(pow4(3) * v == 64 * v);
        }
    }
}

impl Ppu {
    /// Reads the two bits of one pixel from a pair of interleaved bitplanes.
    ///
    /// `bitplanes_start` is the address of the pair; `pos` is the pixel
    /// inside the tile, column first, both from 0 to 7.
    pub fn read_2_bitplanes(&self, bitplanes_start: u16, pos: (u8, u8)) -> (bits: u8)
        requires
            self.wf(),
            pos.0 < 8,
            pos.1 < 8,
        ensures
            bits == pair_value(self.vram@, bitplanes_start, pos.0, pos.1),
            bits <= 3,
    {
        let row: u32 = bitplanes_start as u32 + 2 * (pos.1 as u32);
        let lo: u8 = self.vram_byte((row % 65536) as u16);
        let hi: u8 = self.vram_byte(((row + 1) % 65536) as u16);
        let bit0: u8 = (lo >> (7 - pos.0)) & 1;
        let bit1: u8 = (hi >> (7 - pos.0)) & 1;
        proof {
            lemma_pair_bits(lo, hi, (7 - pos.0) as u8);
        }
        (bit1 << 1) | bit0
    }

    /// Reads character data for a pixel and returns the palette index stored
    /// in the bitplanes.
    ///
    /// * `bitplane_count`: number of bitplanes: 2, 4 or 8
    /// * `start_addr`: address of the tile's first pair of bitplanes
    /// * `tile_size`: 8 or 16
    /// * `pos`: offset inside the tile, column first, each below `tile_size`
    /// * `flip`: mirror the tile vertically (first) or horizontally (second)
    pub fn read_chr_entry(
        &self,
        bitplane_count: u8,
        start_addr: u16,
        tile_size: u8,
        pos: (u8, u8),
        flip: (bool, bool),
    ) -> (index: u8)
        requires
            self.wf(),
            is_bitplane_count(bitplane_count),
            tile_size == 8 || tile_size == 16,
            pos.0 < tile_size,
            pos.1 < tile_size,
        ensures
            index == spec_chr_entry(self.vram@, bitplane_count, start_addr, tile_size, pos, flip),
            index < index_limit(bitplane_count),
    {
        let bitplane_pairs: u8 = bitplane_count / 2;
        let x: u8 = if flip.1 { tile_size - pos.0 - 1 } else { pos.0 };
        let y: u8 = if flip.0 { tile_size - pos.1 - 1 } else { pos.1 };
        let subtile: u32 = (x / 8) as u32 + 16 * ((y / 8) as u32);
        assert(subtile * 8 * bitplane_count <= 17 * 8 * 8) by (nonlinear_arith)
            requires
                subtile <= 17,
                bitplane_count <= 8,
        ;
        let start: u16 = ((start_addr as u32 + subtile * 8 * (bitplane_count as u32))
            % 65536) as u16;
        let sx: u8 = x % 8;
        let sy: u8 = y % 8;

        let mut palette_index: u8 = 0;
        let mut i: u8 = 0;
        while i < bitplane_pairs
            invariant
                self.wf(),
                i <= bitplane_pairs <= 4,
                sx < 8,
                sy < 8,
                palette_index == chr_index(self.vram@, i as nat, start, sx, sy),
            decreases bitplane_pairs - i,
        {
            let pair_start: u16 = ((start as u32 + 16 * (i as u32)) % 65536) as u16;
            let bitplane_bits: u8 = self.read_2_bitplanes(pair_start, (sx, sy));
            proof {
                lemma_chr_index_bound(self.vram@, i as nat, start, sx, sy);
                lemma_accumulate(palette_index, bitplane_bits);
            }
            let shift: u8 = 2 * i;
            let gathered: u8 = palette_index | (bitplane_bits << shift);
            assert(gathered == palette_index + pow4(i as nat) * bitplane_bits) by {
                if i == 0 {
                    assert(shift == 0);
                } else if i == 1 {
                    assert(shift == 2);
                } else if i == 2 {
                    assert(shift == 4);
                } else {
                    assert(shift == 6);
                }
            }
            assert(pair_start == pair_address(start, i as nat));
            assert(chr_index(self.vram@, (i + 1) as nat, start, sx, sy) == chr_index(
                self.vram@,
                i as nat,
                start,
                sx,
                sy,
            ) + pow4(i as nat) * pair_value(self.vram@, pair_address(start, i as nat), sx, sy));
            palette_index = gathered;
            i += 1;
        }
        proof {
            lemma_chr_index_bound(self.vram@, bitplane_pairs as nat, start, sx, sy);
        }
        palette_index
    }
}

/// The bit of weight `2^p` of a palette index: 0 or 1.
pub open spec fn plane_bit(q: u8, p: nat) -> int {
    if bit(q, p as u8) {
        1
    } else {
        0
    }
}

/// The byte that plane `p` of a tile holds for row `y`: one bit of each of
/// the row's eight pixels, the leftmost in bit 7. `pixels` holds the
/// palette indices of the tile row by row.
pub open spec fn row_byte(pixels: Seq<u8>, y: int, p: nat) -> u8 {
    (128 * plane_bit(pixels[8 * y], p) + 64 * plane_bit(pixels[8 * y + 1], p) + 32 * plane_bit(
        pixels[8 * y + 2],
        p,
    ) + 16 * plane_bit(pixels[8 * y + 3], p) + 8 * plane_bit(pixels[8 * y + 4], p) + 4
        * plane_bit(pixels[8 * y + 5], p) + 2 * plane_bit(pixels[8 * y + 6], p) + plane_bit(
        pixels[8 * y + 7],
        p,
    )) as u8
}

/// The byte at offset `o` of the character data of a tile: pairs of planes
/// take sixteen bytes each, a row takes two of them, the even plane first.
pub open spec fn tile_byte(pixels: Seq<u8>, o: int) -> u8 {
    row_byte(pixels, o % 16 / 2, (2 * (o / 16) + o % 2) as nat)
}

/// The character data of a tile of eight by eight pixels.
pub open spec fn spec_encode_tile(pixels: Seq<u8>, bitplane_count: u8) -> Seq<u8> {
    Seq::new((8 * bitplane_count) as nat, |o: int| tile_byte(pixels, o))
}

/// Gathers the byte that plane `p` holds for row `y` of a tile.
pub fn encode_row(pixels: &Vec<u8>, y: usize, p: u8) -> (byte: u8)
    requires
        pixels@.len() == 64,
        y < 8,
        p < 8,
    ensures
        byte == row_byte(pixels@, y as int, p as nat),
{
    let b0: u8 = if test_bit(pixels[8 * y], p) { 128 } else { 0 };
    let b1: u8 = if test_bit(pixels[8 * y + 1], p) { 64 } else { 0 };
    let b2: u8 = if test_bit(pixels[8 * y + 2], p) { 32 } else { 0 };
    let b3: u8 = if test_bit(pixels[8 * y + 3], p) { 16 } else { 0 };
    let b4: u8 = if test_bit(pixels[8 * y + 4], p) { 8 } else { 0 };
    let b5: u8 = if test_bit(pixels[8 * y + 5], p) { 4 } else { 0 };
    let b6: u8 = if test_bit(pixels[8 * y + 6], p) { 2 } else { 0 };
    let b7: u8 = if test_bit(pixels[8 * y + 7], p) { 1 } else { 0 };
    b0 + b1 + b2 + b3 + b4 + b5 + b6 + b7
}

/// Encodes a tile of eight by eight pixels as character data of
/// `bitplane_count` bitplanes. `pixels` holds the 64 palette indices row by
/// row; bits of an index that the planes cannot hold are dropped.
pub fn encode_tile(pixels: &Vec<u8>, bitplane_count: u8) -> (data: Vec<u8>)
    requires
        pixels@.len() == 64,
        is_bitplane_count(bitplane_count),
    ensures
        data@ == spec_encode_tile(pixels@, bitplane_count),
        data@.len() == 8 * bitplane_count,
{
    let n: usize = 8 * (bitplane_count as usize);
    let mut data: Vec<u8> = Vec::new();
    let mut o: usize = 0;
    while o < n
        invariant
            pixels@.len() == 64,
            n == 8 * bitplane_count,
            n <= 64,
            o <= n,
            data@.len() == o,
            forall|k: int| 0 <= k < o ==> data@[k] == tile_byte(pixels@, k),
        decreases n - o,
    {
        let byte: u8 = encode_row(pixels, o % 16 / 2, (2 * (o / 16) + o % 2) as u8);
        data.push(byte);
        o += 1;
    }
    assert(data@ =~= spec_encode_tile(pixels@, bitplane_count));
    data
}

proof fn lemma_row_bits(b0: u8, b1: u8, b2: u8, b3: u8, b4: u8, b5: u8, b6: u8, b7: u8, byte: u8)
    by (bit_vector)
    requires
        b0 <= 1,
        b1 <= 1,
        b2 <= 1,
        b3 <= 1,
        b4 <= 1,
        b5 <= 1,
        b6 <= 1,
        b7 <= 1,
        byte == 128 * b0 + 64 * b1 + 32 * b2 + 16 * b3 + 8 * b4 + 4 * b5 + 2 * b6 + b7,
    ensures
        (byte >> 7) & 1 == b0,
        (byte >> 6) & 1 == b1,
        (byte >> 5) & 1 == b2,
        (byte >> 4) & 1 == b3,
        (byte >> 3) & 1 == b4,
        (byte >> 2) & 1 == b5,
        (byte >> 1) & 1 == b6,
        (byte >> 0) & 1 == b7,
{
}

proof fn lemma_index_bits(q: u8)
    by (bit_vector)
    ensures
        q == ((q >> 0) & 1) + 2 * ((q >> 1) & 1) + 4 * ((q >> 2) & 1) + 8 * ((q >> 3) & 1) + 16 * (
        (q >> 4) & 1) + 32 * ((q >> 5) & 1) + 64 * ((q >> 6) & 1) + 128 * ((q >> 7) & 1),
        q < 16 ==> (q >> 4) & 1 == 0 && (q >> 5) & 1 == 0 && (q >> 6) & 1 == 0 && (q >> 7) & 1
            == 0,
        q < 4 ==> (q >> 2) & 1 == 0 && (q >> 3) & 1 == 0,
        (q >> 0) & 1 <= 1 && (q >> 1) & 1 <= 1 && (q >> 2) & 1 <= 1 && (q >> 3) & 1 <= 1,
        (q >> 4) & 1 <= 1 && (q >> 5) & 1 <= 1 && (q >> 6) & 1 <= 1 && (q >> 7) & 1 <= 1,
{
}

/// The byte of a row gives back, for each column, the bit that the
/// column's pixel has in the plane.
pub proof fn lemma_row_byte_column(pixels: Seq<u8>, y: int, p: nat, x: u8)
    requires
        x < 8,
        p < 8,
    ensures
        column_bit(row_byte(pixels, y, p), x) == plane_bit(pixels[8 * y + x], p),
{
    let b = |k: int| plane_bit(pixels[8 * y + k], p) as u8;
    lemma_row_bits(b(0), b(1), b(2), b(3), b(4), b(5), b(6), b(7), row_byte(pixels, y, p));
}

/// A palette index is the sum of its bits, and an index that few planes
/// can hold has no higher bits.
pub proof fn lemma_plane_bits(q: u8)
    ensures
        q == plane_bit(q, 0) + 2 * plane_bit(q, 1) + 4 * plane_bit(q, 2) + 8 * plane_bit(q, 3) + 16
            * plane_bit(q, 4) + 32 * plane_bit(q, 5) + 64 * plane_bit(q, 6) + 128 * plane_bit(
            q,
            7,
        ),
        q < 16 ==> plane_bit(q, 4) == 0 && plane_bit(q, 5) == 0 && plane_bit(q, 6) == 0
            && plane_bit(q, 7) == 0,
        q < 4 ==> plane_bit(q, 2) == 0 && plane_bit(q, 3) == 0,
{
    lemma_index_bits(q);
}

#[verifier::rlimit(30)]
proof fn lemma_encoded_pair(
    vram: Seq<u8>,
    pixels: Seq<u8>,
    bitplane_count: u8,
    start: u16,
    i: nat,
    x: u8,
    y: u8,
)
    requires
        is_bitplane_count(bitplane_count),
        x < 8,
        y < 8,
        2 * i < bitplane_count,
        forall|o: int|
            0 <= o < 8 * bitplane_count ==> #[trigger] vram_at(vram, start + o) == spec_encode_tile(
                pixels,
                bitplane_count,
            )[o],
    ensures
        pair_value(vram, pair_address(start, i), x, y) == plane_bit(pixels[8 * y + x], 2 * i) + 2
            * plane_bit(pixels[8 * y + x], 2 * i + 1),
{
    let lo: int = 16 * i + 2 * y;
    let data = spec_encode_tile(pixels, bitplane_count);
    assert(vram_at(vram, start + lo) == data[lo]);
    assert(vram_at(vram, start + (lo + 1)) == data[lo + 1]);
    assert(data[lo] == tile_byte(pixels, lo));
    assert(data[lo + 1] == tile_byte(pixels, lo + 1));
    assert(lo % 16 / 2 == y && lo / 16 == i && lo % 2 == 0);
    assert((lo + 1) % 16 / 2 == y && (lo + 1) / 16 == i && (lo + 1) % 2 == 1);
    assert(tile_byte(pixels, lo) == row_byte(pixels, y as int, 2 * i));
    assert(tile_byte(pixels, lo + 1) == row_byte(pixels, y as int, 2 * i + 1));
    let base = pair_address(start, i);
    assert((base + 2 * y) % 65536 == (start + lo) % 65536);
    assert((base + 2 * y + 1) % 65536 == (start + (lo + 1)) % 65536);
    lemma_row_byte_column(pixels, y as int, 2 * i, x);
    lemma_row_byte_column(pixels, y as int, 2 * i + 1, x);
}

/// Decoding the character data of an encoded tile gives back the pixel it
/// was made from, provided the planes can hold the pixel's index: wherever
/// in video memory the data lies, for 2, 4 and 8 bitplanes.
#[verifier::rlimit(30)]
pub proof fn lemma_bitplane_round_trip(
    vram: Seq<u8>,
    pixels: Seq<u8>,
    bitplane_count: u8,
    start: u16,
    x: u8,
    y: u8,
)
    requires
        is_bitplane_count(bitplane_count),
        pixels.len() == 64,
        x < 8,
        y < 8,
        pixels[8 * y + x] < index_limit(bitplane_count),
        forall|o: int|
            0 <= o < 8 * bitplane_count ==> #[trigger] vram_at(vram, start + o) == spec_encode_tile(
                pixels,
                bitplane_count,
            )[o],
    ensures
        spec_chr_entry(vram, bitplane_count, start, 8, (x, y), (false, false)) == pixels[8 * y
            + x],
{
    let q = pixels[8 * y + x];
    lemma_plane_bits(q);
    assert(subtile_address(bitplane_count, start, x as int, y as int) == start);
    let v0 = pair_value(vram, pair_address(start, 0), x, y);
    let v1 = pair_value(vram, pair_address(start, 1), x, y);
    let v2 = pair_value(vram, pair_address(start, 2), x, y);
    let v3 = pair_value(vram, pair_address(start, 3), x, y);
    assert(chr_index(vram, 0, start, x, y) == 0);
    assert(chr_index(vram, 1, start, x, y) == v0);
    lemma_encoded_pair(vram, pixels, bitplane_count, start, 0, x, y);
    if bitplane_count >= 4 {
        assert(chr_index(vram, 2, start, x, y) == v0 + 4 * v1);
        lemma_encoded_pair(vram, pixels, bitplane_count, start, 1, x, y);
    }
    if bitplane_count == 8 {
        assert(chr_index(vram, 3, start, x, y) == v0 + 4 * v1 + 16 * v2);
        assert(chr_index(vram, 4, start, x, y) == v0 + 4 * v1 + 16 * v2 + 64 * v3);
        lemma_encoded_pair(vram, pixels, bitplane_count, start, 2, x, y);
        lemma_encoded_pair(vram, pixels, bitplane_count, start, 3, x, y);
    }
}

} // verus!
