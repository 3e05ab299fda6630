use snes_ppu::rom::{size_of_code, MemLoc, Rom, RomHeader, RomType};

fn header(title: &[u8], map_mode: u8, rom_code: u8, ram_code: u8, checksum: u16) -> Vec<u8> {
    let mut h = vec![0x20u8; 64];
    h[..title.len()].copy_from_slice(title);
    h[21] = map_mode;
    h[22] = 0;
    h[23] = rom_code;
    h[24] = ram_code;
    let complement = !checksum;
    h[28] = complement as u8;
    h[29] = (complement >> 8) as u8;
    h[30] = checksum as u8;
    h[31] = (checksum >> 8) as u8;
    h
}

fn image(len: usize, at: usize, h: &[u8]) -> Vec<u8> {
    let mut bytes: Vec<u8> = (0..len).map(|i| (i % 251) as u8).collect();
    bytes[at..at + 64].copy_from_slice(h);
    bytes
}

fn lorom() -> Rom {
    let bytes = image(0x20000, 0x7fc0, &header(b"SUPER GAME", 0x20, 7, 6, 0x1234));
    Rom::from_bytes(&bytes).unwrap()
}

fn hirom() -> Rom {
    let bytes = image(0x20000, 0xffc0, &header(b"OTHER GAME", 0x21, 7, 4, 0x1234));
    Rom::from_bytes(&bytes).unwrap()
}

#[test]
fn size_codes_double_from_one_kilobyte() {
    assert_eq!(size_of_code(0), 1024);
    assert_eq!(size_of_code(1), 2048);
    assert_eq!(size_of_code(9), 512 * 1024);
    assert_eq!(size_of_code(15), 32 * 1024 * 1024);
}

#[test]
fn clean_header_scores_zero() {
    let (h, score) = RomHeader::load(&header(b"A TITLE", 0x20, 9, 3, 0xbeef), RomType::LoRom);
    assert_eq!(score, 0);
    assert_eq!(h.title, b"A TITLE              ".to_vec());
    assert_eq!(h.rom_size, 512 * 1024);
    assert_eq!(h.ram_size, 8 * 1024);
    assert_eq!(h.checksum, 0xbeef);
    assert_eq!(h.rom_type, RomType::LoRom);
}

#[test]
fn header_score_counts_each_fault() {
    let good = header(b"A TITLE", 0x21, 0x19, 0xf3, 0);
    let (h, score) = RomHeader::load(&good, RomType::HiRom);
    assert_eq!(score, 0);
    assert_eq!((h.rom_size, h.ram_size), (512 * 1024, 8 * 1024));
    assert_eq!(RomHeader::load(&good, RomType::LoRom).1, -3);
    assert_eq!(RomHeader::load(&good, RomType::LoRom).0.rom_type, RomType::LoRom);

    let mut bad_sum = good.clone();
    bad_sum[28] ^= 1;
    assert_eq!(RomHeader::load(&bad_sum, RomType::HiRom).1, -4);

    let mut bad_title = good.clone();
    bad_title[3] = 0x7f;
    bad_title[20] = 0x1f;
    let (h, score) = RomHeader::load(&bad_title, RomType::HiRom);
    assert_eq!(score, -2);
    assert_eq!(h.title, b"A T TLE              ".to_vec());

    let mut unknown = good.clone();
    unknown[21] = 0x35;
    assert_eq!(RomHeader::load(&unknown, RomType::LoRom).1, -10);
    assert_eq!(RomHeader::load(&unknown, RomType::HiRom).1, -13);

    let mut worst = bad_title.clone();
    worst[21] = 0x02;
    worst[30] ^= 0x80;
    assert_eq!(RomHeader::load(&worst, RomType::HiRom).1, -19);
}

#[test]
fn file_of_odd_length_is_refused() {
    assert!(Rom::from_bytes(&vec![0u8; 0x20000 + 1]).is_err());
    assert!(Rom::from_bytes(&vec![0u8; 0x20000 + 511]).is_err());
    assert!(Rom::from_bytes(&vec![0u8; 1023]).is_err());
    assert!(Rom::from_bytes(&vec![0u8; 0x20000]).is_ok());
    assert!(Rom::from_bytes(&vec![0u8; 0x20000 + 512]).is_ok());
}

#[test]
fn image_kind_is_detected_from_the_better_header() {
    let rom = lorom();
    assert_eq!(rom.header.rom_type, RomType::LoRom);
    assert_eq!(rom.header.rom_size, 128 * 1024);
    assert_eq!(rom.header.ram_size, 64 * 1024);
    assert_eq!(rom.header.checksum, 0x1234);
    assert_eq!(rom.ram, vec![0u8; 64 * 1024]);
    assert_eq!(rom.rom.len(), 0x20000);
    assert_eq!(rom.rom[0x12345], (0x12345 % 251) as u8);

    let rom = hirom();
    assert_eq!(rom.header.rom_type, RomType::HiRom);
    assert_eq!(rom.header.ram_size, 16 * 1024);
    assert_eq!(rom.get_title(), Some("OTHER GAME".to_string()));
}

#[test]
fn equal_scores_give_the_second_kind() {
    let mut bytes = vec![0u8; 0x10000];
    assert_eq!(Rom::from_bytes(&bytes).unwrap().header.rom_type, RomType::LoRom);
    bytes[0xffc0 + 21] = 1;
    let lo = RomHeader::load(&bytes[0x7fc0..0x8000], RomType::LoRom).1;
    let hi = RomHeader::load(&bytes[0xffc0..0x10000], RomType::HiRom).1;
    assert_eq!((lo, hi), (-6, -6));
    let rom = Rom::from_bytes(&bytes).unwrap();
    assert_eq!(rom.header.rom_type, RomType::HiRom);
    assert_eq!(rom.header.title, vec![0x20u8; 21]);
    assert_eq!(rom.get_title(), Some(String::new()));
    assert_eq!(rom.ram.len(), 1024);
    assert_eq!(rom.rom.len(), 0x10000);
}

#[test]
fn leading_512_bytes_are_dropped() {
    let inner = image(0x20000, 0x7fc0, &header(b"SUPER GAME", 0x20, 7, 6, 0x1234));
    let mut bytes = vec![0xeeu8; 512];
    bytes.extend_from_slice(&inner);
    let rom = Rom::from_bytes(&bytes).unwrap();
    assert_eq!(rom.header.rom_type, RomType::LoRom);
    assert_eq!(rom.rom, inner);
}

#[test]
fn short_image_is_repeated_to_the_size_of_its_header() {
    let inner = image(0x10000, 0x7fc0, &header(b"SMALL", 0x20, 8, 0, 0));
    let rom = Rom::from_bytes(&inner).unwrap();
    assert_eq!(rom.header.rom_size, 0x40000);
    assert_eq!(rom.rom.len(), 0x40000);
    for i in [0usize, 1, 0xffff, 0x10000, 0x2abcd, 0x3ffff] {
        assert_eq!(rom.rom[i], inner[i % 0x10000]);
    }
    let long = image(0x30000, 0x7fc0, &header(b"LONG", 0x20, 7, 0, 0));
    let rom = Rom::from_bytes(&long).unwrap();
    assert_eq!(rom.header.rom_size, 0x20000);
    assert_eq!(rom.rom, long);
}

#[test]
fn title_is_trimmed() {
    assert_eq!(lorom().get_title(), Some("SUPER GAME".to_string()));
    let bytes = image(0x20000, 0x7fc0, &header(b"  A  B\x01 ", 0x20, 7, 6, 0x1234));
    assert_eq!(Rom::from_bytes(&bytes).unwrap().get_title(), Some("  A  B".to_string()));
    let full = image(0x20000, 0x7fc0, &header(b"ABCDEFGHIJKLMNOPQRSTU", 0x20, 7, 6, 0));
    assert_eq!(
        Rom::from_bytes(&full).unwrap().get_title(),
        Some("ABCDEFGHIJKLMNOPQRSTU".to_string())
    );
}

#[test]
fn checksum_is_the_wrapping_sum_of_the_image() {
    let mut rom = Rom::from_bytes(&vec![0u8; 0x10000]).unwrap();
    assert_eq!(rom.computed_checksum(), 0);
    assert!(rom.checksum_matches());
    rom.rom = vec![0xff; 0x10000];
    assert_eq!(rom.computed_checksum(), 0);
    rom.rom = vec![0xff; 0x100];
    assert_eq!(rom.computed_checksum(), 0xff00);
    rom.rom = vec![0xff; 0x102];
    assert_eq!(rom.computed_checksum(), 0x00fe);
    rom.rom = vec![1, 2, 3, 250];
    assert_eq!(rom.computed_checksum(), 256);
    assert!(!rom.checksum_matches());
    rom.header.checksum = 256;
    assert!(rom.checksum_matches());
}

#[test]
fn first_map_resolves_addresses() {
    let mut rom = lorom();
    assert_eq!(rom.resolve_addr(0x00, 0x8000), Some(MemLoc::Rom(0)));
    assert_eq!(rom.resolve_addr(0x01, 0x8001), Some(MemLoc::Rom(0x8001)));
    assert_eq!(rom.resolve_addr(0x83, 0xffff), Some(MemLoc::Rom(0x1ffff)));
    assert_eq!(rom.resolve_addr(0x04, 0x8000), None);
    assert_eq!(rom.resolve_addr(0x7e, 0x8000), None);
    assert_eq!(rom.resolve_addr(0x7f, 0xffff), None);
    assert_eq!(rom.resolve_addr(0xfe, 0x8000), None);
    assert_eq!(rom.resolve_addr(0x70, 0x0000), Some(MemLoc::Ram(0)));
    assert_eq!(rom.resolve_addr(0x71, 0x7fff), Some(MemLoc::Ram(0xffff)));
    assert_eq!(rom.resolve_addr(0x72, 0x0000), None);
    assert_eq!(rom.resolve_addr(0xfe, 0x0001), Some(MemLoc::Ram(1)));
    assert_eq!(rom.resolve_addr(0xff, 0x7fff), Some(MemLoc::Ram(0xffff)));
    assert_eq!(rom.resolve_addr(0x00, 0x7fff), None);
    assert_eq!(rom.resolve_addr(0x6f, 0x0000), None);
    assert_eq!(rom.resolve_lorom(0x01, 0x8001), rom.resolve_addr(0x01, 0x8001));

    rom.rom = vec![0; 0x400000];
    assert_eq!(rom.resolve_addr(0xfe, 0x8000), Some(MemLoc::Rom(0x3f0000)));
    assert_eq!(rom.resolve_addr(0xff, 0xffff), Some(MemLoc::Rom(0x3fffff)));
    assert_eq!(rom.resolve_addr(0x7d, 0x8000), Some(MemLoc::Rom(0x3e8000)));
    rom.ram = vec![0; 1024];
    assert_eq!(rom.resolve_addr(0xfe, 0x0000), None);
    assert_eq!(rom.resolve_addr(0x70, 0x03ff), Some(MemLoc::Ram(0x3ff)));
    assert_eq!(rom.resolve_addr(0x70, 0x0400), None);
}

#[test]
fn second_map_resolves_addresses() {
    let mut rom = hirom();
    rom.rom = vec![0; 0x400000];
    rom.ram = vec![0; 0x40000];
    assert_eq!(rom.resolve_addr(0x00, 0x8000), Some(MemLoc::Rom(0x8000)));
    assert_eq!(rom.resolve_addr(0xbf, 0xffff), Some(MemLoc::Rom(0x3fffff)));
    assert_eq!(rom.resolve_addr(0x00, 0x7fff), None);
    assert_eq!(rom.resolve_addr(0x1f, 0x6000), None);
    assert_eq!(rom.resolve_addr(0x20, 0x6000), Some(MemLoc::Ram(0)));
    assert_eq!(rom.resolve_addr(0xa1, 0x7fff), Some(MemLoc::Ram(0x3fff)));
    assert_eq!(rom.resolve_addr(0x3f, 0x5fff), None);
    assert_eq!(rom.resolve_addr(0x40, 0x0000), Some(MemLoc::Rom(0)));
    assert_eq!(rom.resolve_addr(0xc1, 0x1234), Some(MemLoc::Rom(0x11234)));
    assert_eq!(rom.resolve_addr(0x7d, 0xffff), Some(MemLoc::Rom(0x3dffff)));
    assert_eq!(rom.resolve_addr(0x7e, 0x0000), None);
    assert_eq!(rom.resolve_addr(0x7f, 0xffff), None);
    assert_eq!(rom.resolve_addr(0xfe, 0x0000), Some(MemLoc::Rom(0x3e0000)));
    assert_eq!(rom.resolve_addr(0xff, 0xffff), Some(MemLoc::Rom(0x3fffff)));
    assert_eq!(rom.resolve_hirom(0xc1, 0x1234), rom.resolve_addr(0xc1, 0x1234));
    rom.rom = vec![0; 0x20000];
    assert_eq!(rom.resolve_addr(0xc1, 0xffff), Some(MemLoc::Rom(0x1ffff)));
    assert_eq!(rom.resolve_addr(0xc2, 0x0000), None);
}

#[test]
fn loads_read_what_stores_wrote() {
    let mut rom = lorom();
    assert_eq!(rom.load(0x00, 0x8005), 5);
    assert_eq!(rom.load(0x81, 0x8000), (0x8000 % 251) as u8);
    assert_eq!(rom.load(0x70, 0x0010), 0);
    rom.store(0x70, 0x0010, 0xab);
    assert_eq!(rom.load(0x70, 0x0010), 0xab);
    assert_eq!(rom.ram[0x10], 0xab);
    assert_eq!(rom.load(0xfe, 0x0010), 0xab);
    rom.store(0x02, 0x9000, 0xcd);
    assert_eq!(rom.rom[0x11000], 0xcd);
    assert_eq!(rom.load(0x82, 0x9000), 0xcd);

    let mut rom = hirom();
    assert_eq!(rom.load(0xc0, 0x0007), 7);
    rom.store(0x20, 0x6001, 0x42);
    assert_eq!(rom.load(0xa0, 0x6001), 0x42);
    assert_eq!(rom.ram[1], 0x42);
}
