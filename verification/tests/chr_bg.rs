use snes_ppu::bg::{entry_address, BgSettings, TilemapEntry};
use snes_ppu::chr::encode_tile;
use snes_ppu::color::SnesRgb;
use snes_ppu::ppu::Ppu;

fn put(ppu: &mut Ppu, addr: usize, data: &[u8]) {
    for (i, b) in data.iter().enumerate() {
        ppu.vram[(addr + i) % 65536] = *b;
    }
}

fn set_color(ppu: &mut Ppu, index: usize, word: u16) {
    ppu.cgram[2 * index] = word as u8;
    ppu.cgram[2 * index + 1] = (word >> 8) as u8;
}

fn set_entry(ppu: &mut Ppu, word_address: usize, word: u16) {
    ppu.vram[2 * word_address] = word as u8;
    ppu.vram[2 * word_address + 1] = (word >> 8) as u8;
}

fn pattern(bpp: u8) -> Vec<u8> {
    let limit: u32 = 1 << bpp;
    (0..64u32).map(|i| ((i * 37 + 11) % limit) as u8).collect()
}

#[test]
fn new_unit_is_zero() {
    let ppu = Ppu::new();
    assert_eq!(ppu.vram.len(), 65536);
    assert_eq!(ppu.cgram.len(), 512);
    assert_eq!(ppu.oam.len(), 544);
    assert!(ppu.vram.iter().all(|b| *b == 0));
    assert!(ppu.sprites.is_empty());
    assert_eq!((ppu.x, ppu.scanline, ppu.tm, ppu.brightness), (0, 0, 0, 0));
    assert!(ppu.can_render());
}

#[test]
fn encoded_tile_has_the_leftmost_pixel_in_bit_7() {
    let mut pixels = vec![0u8; 64];
    pixels[0] = 1;
    pixels[7] = 2;
    pixels[8] = 3;
    let data = encode_tile(&pixels, 2);
    assert_eq!(data.len(), 16);
    assert_eq!(&data[0..4], &[0x80, 0x01, 0x80, 0x80]);
    assert!(data[4..].iter().all(|b| *b == 0));
    let data = encode_tile(&vec![0x0c; 64], 4);
    assert_eq!(data.len(), 32);
    assert!(data[..16].iter().all(|b| *b == 0));
    assert!(data[16..].iter().all(|b| *b == 0xff));
    assert_eq!(encode_tile(&vec![0xff; 64], 8), vec![0xff; 64]);
}

#[test]
fn bitplanes_round_trip() {
    for &bpp in &[2u8, 4, 8] {
        for &start in &[0usize, 0x1230, 0xfff0] {
            let mut ppu = Ppu::new();
            let pixels = pattern(bpp);
            put(&mut ppu, start, &encode_tile(&pixels, bpp));
            for y in 0..8u8 {
                for x in 0..8u8 {
                    let got = ppu.read_chr_entry(bpp, start as u16, 8, (x, y), (false, false));
                    assert_eq!(got, pixels[(8 * y + x) as usize]);
                }
            }
        }
    }
}

#[test]
fn two_bitplanes_give_two_bits() {
    let mut ppu = Ppu::new();
    put(&mut ppu, 0x100, &[0b1010_0000, 0b0110_0000]);
    assert_eq!(ppu.read_2_bitplanes(0x100, (0, 0)), 1);
    assert_eq!(ppu.read_2_bitplanes(0x100, (1, 0)), 2);
    assert_eq!(ppu.read_2_bitplanes(0x100, (2, 0)), 3);
    assert_eq!(ppu.read_2_bitplanes(0x100, (3, 0)), 0);
    assert_eq!(ppu.read_2_bitplanes(0x100, (0, 1)), 0);
}

#[test]
fn flipped_tile_is_mirrored() {
    let mut ppu = Ppu::new();
    let pixels = pattern(4);
    put(&mut ppu, 0x200, &encode_tile(&pixels, 4));
    for y in 0..8u8 {
        for x in 0..8u8 {
            let at = |x: u8, y: u8| pixels[(8 * y + x) as usize];
            assert_eq!(ppu.read_chr_entry(4, 0x200, 8, (x, y), (false, true)), at(7 - x, y));
            assert_eq!(ppu.read_chr_entry(4, 0x200, 8, (x, y), (true, false)), at(x, 7 - y));
            assert_eq!(ppu.read_chr_entry(4, 0x200, 8, (x, y), (true, true)), at(7 - x, 7 - y));
        }
    }
}

#[test]
fn large_tile_is_made_of_four_small_ones() {
    let mut ppu = Ppu::new();
    let start = 0x400usize;
    for (tile, index) in [(0usize, 1u8), (1, 2), (16, 3), (17, 1)] {
        put(&mut ppu, start + tile * 16, &encode_tile(&vec![index; 64], 2));
    }
    let read = |x: u8, y: u8, flip: (bool, bool)| ppu.read_chr_entry(2, start as u16, 16, (x, y), flip);
    assert_eq!(read(0, 0, (false, false)), 1);
    assert_eq!(read(8, 7, (false, false)), 2);
    assert_eq!(read(7, 8, (false, false)), 3);
    assert_eq!(read(15, 15, (false, false)), 1);
    assert_eq!(read(0, 0, (false, true)), 2);
    assert_eq!(read(0, 0, (true, false)), 3);
}

#[test]
fn tilemap_entry_is_unpacked() {
    let mut ppu = Ppu::new();
    set_entry(&mut ppu, 0x10, 0xffff);
    set_entry(&mut ppu, 0x11, 0x2c05);
    set_entry(&mut ppu, 0x12, 0x4000);
    assert_eq!(
        ppu.tilemap_entry(0x10),
        TilemapEntry { vflip: true, hflip: true, priority: 1, palette: 7, tile_number: 1023 }
    );
    assert_eq!(
        ppu.tilemap_entry(0x11),
        TilemapEntry { vflip: false, hflip: false, priority: 1, palette: 3, tile_number: 5 }
    );
    assert_eq!(
        ppu.tilemap_entry(0x12),
        TilemapEntry { vflip: false, hflip: true, priority: 0, palette: 0, tile_number: 0 }
    );
    set_entry(&mut ppu, 0x7fff, 0x8001);
    assert!(ppu.tilemap_entry(0xffff).vflip);
    assert_eq!(ppu.tilemap_entry(0xffff).tile_number, 1);
}

#[test]
fn bg_settings_are_collected() {
    let mut ppu = Ppu::new();
    ppu.bgmode = 0x21;
    ppu.bg2sc = 0x7d;
    ppu.bg12nba = 0x53;
    ppu.bg2hofs = 0x123;
    ppu.bg2vofs = 0x3ff;
    ppu.mosaic = 0x32;
    assert_eq!(
        ppu.bg_settings(2),
        BgSettings {
            mosaic: 4,
            tilemap_page: 31,
            tilemap_mirror_h: false,
            tilemap_mirror_v: true,
            tile_size: 16,
            chr_addr: 0x5000,
            hscroll: 0x123,
            vscroll: 0x3ff,
        }
    );
    let first = ppu.bg_settings(1);
    assert_eq!((first.mosaic, first.tile_size, first.chr_addr), (1, 8, 0x3000));
    assert!(first.tilemap_mirror_h && first.tilemap_mirror_v);
    ppu.bgmode = 0x05;
    assert_eq!(ppu.bg_settings(1).tile_size, 16);
    ppu.bgmode = 0xf7;
    assert_eq!(ppu.bg_settings(1).tile_size, 8);
}

#[test]
fn bg_mode_is_the_low_three_bits() {
    let mut ppu = Ppu::new();
    ppu.bgmode = 0xfd;
    assert_eq!(ppu.bg_mode(), 5);
    ppu.bgmode = 0x08;
    assert_eq!(ppu.bg_mode(), 0);
}

#[test]
fn color_counts_follow_the_mode() {
    let expected: [[u16; 4]; 8] = [
        [4, 4, 4, 4],
        [16, 16, 4, 4],
        [16, 16, 4, 4],
        [256, 16, 4, 4],
        [256, 4, 4, 4],
        [16, 4, 4, 4],
        [16, 4, 4, 4],
        [256, 4, 4, 4],
    ];
    let mut ppu = Ppu::new();
    for mode in 0..8u8 {
        ppu.bgmode = mode;
        for bg in 1..=4u8 {
            assert_eq!(ppu.color_count_for_bg(bg), expected[mode as usize][bg as usize - 1]);
        }
    }
    ppu.bgmode = 7;
    ppu.setini = 0x40;
    assert_eq!(ppu.color_count_for_bg(2), 128);
    assert_eq!(ppu.color_count_for_bg(1), 256);
}

#[test]
fn palette_base_follows_the_mode() {
    let mut ppu = Ppu::new();
    ppu.bgmode = 0;
    assert_eq!(ppu.palette_base_for_bg_tile(1, 0), 0);
    assert_eq!(ppu.palette_base_for_bg_tile(3, 2), 72);
    assert_eq!(ppu.palette_base_for_bg_tile(4, 7), 124);
    ppu.bgmode = 1;
    assert_eq!(ppu.palette_base_for_bg_tile(1, 3), 48);
    assert_eq!(ppu.palette_base_for_bg_tile(3, 3), 12);
    ppu.bgmode = 2;
    assert_eq!(ppu.palette_base_for_bg_tile(2, 7), 112);
    ppu.bgmode = 3;
    assert_eq!(ppu.palette_base_for_bg_tile(1, 5), 0);
    assert_eq!(ppu.palette_base_for_bg_tile(2, 5), 80);
    ppu.bgmode = 4;
    assert_eq!(ppu.palette_base_for_bg_tile(1, 5), 0);
    assert_eq!(ppu.palette_base_for_bg_tile(2, 5), 20);
    ppu.bgmode = 5;
    assert_eq!(ppu.palette_base_for_bg_tile(1, 2), 32);
    assert_eq!(ppu.palette_base_for_bg_tile(2, 2), 8);
    ppu.bgmode = 6;
    assert_eq!(ppu.palette_base_for_bg_tile(1, 1), 16);
    ppu.bgmode = 7;
    assert_eq!(ppu.palette_base_for_bg_tile(1, 6), 0);
}

fn settings(page: u8, mirror_h: bool, mirror_v: bool) -> BgSettings {
    BgSettings {
        mosaic: 1,
        tilemap_page: page,
        tilemap_mirror_h: mirror_h,
        tilemap_mirror_v: mirror_v,
        tile_size: 8,
        chr_addr: 0,
        hscroll: 0,
        vscroll: 0,
    }
}

#[test]
fn tilemap_address_selects_the_screen() {
    let four = settings(8, false, false);
    assert_eq!(entry_address(&four, 0, 0), 0x2000);
    assert_eq!(entry_address(&four, 3, 2), 0x2000 + 2 * 32 + 3);
    assert_eq!(entry_address(&four, 32, 0), 0x2400);
    assert_eq!(entry_address(&four, 0, 32), 0x2800);
    assert_eq!(entry_address(&four, 33, 34), 0x2c00 + 2 * 32 + 1);
    assert_eq!(entry_address(&four, 64, 64), 0x2000);
    let tall = settings(8, true, false);
    assert_eq!(entry_address(&tall, 0, 32), 0x2400);
    let or_not_add = settings(1, false, true);
    assert_eq!(entry_address(&or_not_add, 32, 0), 0x0400);
    assert_eq!(entry_address(&settings(63, false, false), 63, 63), 0xffff);
}

#[test]
fn mirrored_tilemap_wraps_after_32_tiles() {
    let mirrored = settings(2, true, true);
    for tile_y in [0u16, 5, 31, 40] {
        assert_eq!(entry_address(&mirrored, 32, tile_y), entry_address(&mirrored, 0, tile_y));
        for tile_x in 0..64u16 {
            assert_eq!(
                entry_address(&mirrored, tile_x + 32, tile_y),
                entry_address(&mirrored, tile_x, tile_y)
            );
        }
    }
    let wide = settings(2, false, true);
    assert_eq!(entry_address(&wide, 32, 0), entry_address(&wide, 0, 0) + 1024);
    let mut ppu = Ppu::new();
    ppu.bg1sc = 0x08;
    let s = ppu.bg_settings(1);
    assert!(s.tilemap_mirror_h);
    assert_eq!(entry_address(&s, 32, 7), entry_address(&s, 0, 7));
}

fn one_tile_background() -> Ppu {
    let mut ppu = Ppu::new();
    ppu.tm = 0x01;
    ppu.bg1sc = 0x04;
    put(&mut ppu, 16, &encode_tile(&vec![1; 64], 2));
    set_entry(&mut ppu, 0x400, 0x0001);
    set_color(&mut ppu, 1, 0x001f);
    ppu
}

#[test]
fn background_pixel_is_looked_up() {
    let mut ppu = one_tile_background();
    assert_eq!(ppu.lookup_bg_color(1, 0, false), Some(SnesRgb { r: 31, g: 0, b: 0 }));
    ppu.x = 7;
    ppu.scanline = 7;
    assert_eq!(ppu.lookup_bg_color(1, 0, false), Some(SnesRgb { r: 31, g: 0, b: 0 }));
}

#[test]
fn background_pixel_of_another_priority_is_skipped() {
    let ppu = one_tile_background();
    assert_eq!(ppu.lookup_bg_color(1, 1, false), None);
}

#[test]
fn disabled_background_shows_nothing() {
    let mut ppu = one_tile_background();
    assert_eq!(ppu.lookup_bg_color(1, 0, true), None);
    assert_eq!(ppu.lookup_bg_color(2, 0, false), None);
    ppu.tm = 0;
    assert_eq!(ppu.lookup_bg_color(1, 0, false), None);
    assert!(!ppu.bg_enabled(1, false));
    ppu.ts = 0x08;
    assert!(ppu.bg_enabled(4, true));
}

#[test]
fn palette_index_zero_is_transparent() {
    let mut ppu = one_tile_background();
    set_color(&mut ppu, 0, 0x7fff);
    ppu.x = 8;
    assert_eq!(ppu.lookup_bg_color(1, 0, false), None);
    ppu.x = 0;
    put(&mut ppu, 16, &encode_tile(&vec![0; 64], 2));
    assert_eq!(ppu.lookup_bg_color(1, 0, false), None);
}

#[test]
fn background_uses_palette_and_flips_of_its_entry() {
    let mut ppu = Ppu::new();
    ppu.bgmode = 1;
    ppu.tm = 0x02;
    ppu.bg2sc = 0x10;
    ppu.bg12nba = 0x20;
    let mut pixels = vec![0u8; 64];
    pixels[7] = 9;
    put(&mut ppu, 0x2000 + 3 * 32, &encode_tile(&pixels, 4));
    set_entry(&mut ppu, 0x1000, 0x4000 | 0x2000 | (5 << 10) | 3);
    set_color(&mut ppu, 5 * 16 + 9, 0x03e0);
    assert_eq!(ppu.lookup_bg_color(2, 1, false), Some(SnesRgb { r: 0, g: 31, b: 0 }));
    ppu.x = 7;
    assert_eq!(ppu.lookup_bg_color(2, 1, false), None);
}

#[test]
fn background_of_mode_7_has_no_priority() {
    let mut ppu = Ppu::new();
    ppu.bgmode = 7;
    ppu.tm = 0x01;
    ppu.bg1sc = 0x04;
    put(&mut ppu, 64, &encode_tile(&vec![200; 64], 8));
    set_entry(&mut ppu, 0x400, 0x2001);
    set_color(&mut ppu, 200, 0x7c00);
    assert_eq!(ppu.lookup_bg_color(1, 0, false), Some(SnesRgb { r: 0, g: 0, b: 31 }));
    assert_eq!(ppu.lookup_bg_color(1, 1, false), Some(SnesRgb { r: 0, g: 0, b: 31 }));
}

#[test]
fn unsupported_backgrounds_are_recognised() {
    let mut ppu = Ppu::new();
    ppu.bgmode = 3;
    ppu.tm = 0x01;
    assert!(ppu.is_bg_supported(1, false));
    ppu.cgwsel = 0x01;
    assert!(!ppu.is_bg_supported(1, false));
    assert!(ppu.is_bg_supported(1, true));
    assert!(!ppu.can_render());
    ppu.forced_blank = true;
    assert!(ppu.can_render());
    ppu.forced_blank = false;
    ppu.cgwsel = 0;
    ppu.bgmode = 7;
    ppu.setini = 0x40;
    ppu.tm = 0x02;
    assert!(!ppu.is_bg_supported(2, false));
    ppu.tm = 0x01;
    ppu.ts = 0x02;
    assert!(ppu.can_render());
    ppu.cgwsel = 0x02;
    assert!(!ppu.can_render());
}
