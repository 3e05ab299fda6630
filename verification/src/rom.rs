//! Cartridge images: the header, the image with its work memory, and the
//! two maps from bus addresses to bytes of the cartridge.

use vstd::prelude::*;
use vstd::slice::slice_subrange;
use crate::bits::{le_word, make_word};

verus! {

/// Length of the header in bytes.
pub const HEADER_SIZE: usize = 64;

/// Where the header of an image of the first kind starts.
pub const LOROM_HEADER_START: usize = 0x7fc0;

/// Where the header of an image of the second kind starts.
pub const HIROM_HEADER_START: usize = 0xffc0;

/// Length of the title in bytes.
pub const TITLE_SIZE: usize = 21;

/// The two address maps.
#[derive(Clone, Copy, Debug, PartialEq, Eq, Structural)]
pub enum RomType {
    LoRom,
    HiRom,
}

/// A byte of the cartridge: of its work memory or of its image.
#[derive(Clone, Copy, Debug, PartialEq, Eq, Structural)]
pub enum MemLoc {
    Ram(usize),
    Rom(usize),
}

/// The decoded header.
pub struct RomHeader {
    /// Title of 21 printable characters, filled up with spaces.
    pub title: Vec<u8>,
    pub rom_size: u32,
    pub ram_size: u32,
    /// Sum of all bytes of the image, cut to sixteen bits.
    pub checksum: u16,
    /// The map that the place of the header stands for.
    pub rom_type: RomType,
}

/// A cartridge image.
pub struct Rom {
    pub header: RomHeader,
    pub ram: Vec<u8>,
    pub rom: Vec<u8>,
}

/// A printable character of the title.
pub open spec fn is_printable(c: u8) -> bool {
    0x20 <= c <= 0x7e
}

/// The size in bytes that a size code of 0 to 15 stands for: 1024 doubled
/// `code` times.
pub open spec fn size_for(code: nat) -> int
    decreases code,
{
    if code == 0 {
        1024
    } else {
        2 * size_for((code - 1) as nat)
    }
}

/// The title of a header: its first 21 bytes, each byte that is not
/// printable replaced by a space.
pub open spec fn spec_title(bytes: Seq<u8>) -> Seq<u8> {
    Seq::new(
        TITLE_SIZE as nat,
        |i: int| if is_printable(bytes[i]) { bytes[i] } else { 0x20u8 },
    )
}

/// All of the first `n` bytes are printable.
pub open spec fn all_printable(bytes: Seq<u8>, n: int) -> bool {
    forall|i: int| 0 <= i < n ==> is_printable(#[trigger] bytes[i])
}

/// The checksum that a header stores.
pub open spec fn stored_checksum(bytes: Seq<u8>) -> u16 {
    le_word(bytes[30], bytes[31])
}

/// The complement of the checksum that a header stores.
pub open spec fn stored_complement(bytes: Seq<u8>) -> u16 {
    le_word(bytes[28], bytes[29])
}

/// The address map that the map mode of a header names, if it is one of
/// the two that are known; an unknown one counts as the first.
pub open spec fn header_rom_type(bytes: Seq<u8>) -> RomType {
    if bytes[21] % 16 == 1 {
        RomType::HiRom
    } else {
        RomType::LoRom
    }
}

/// How well 64 bytes read as a header for an image of kind `rom_type`: 0
/// at best, less by 4 for a checksum that does not match its complement,
/// by 2 for a title with an unprintable byte, by 10 for an unknown map
/// mode and by 3 for a map mode of the other kind.
pub open spec fn spec_score(bytes: Seq<u8>, rom_type: RomType) -> int {
    (if stored_complement(bytes) != 65535 - stored_checksum(bytes) { -4int } else { 0int }) + (
    if all_printable(bytes, TITLE_SIZE as int) { 0int } else { -2int }) + (if bytes[21] % 16
        >= 2 { -10int } else { 0int }) + (if header_rom_type(bytes) != rom_type { -3int } else {
        0int
    })
}

/// The image without the 512 bytes that some files put in front of it.
pub open spec fn spec_image(bytes: Seq<u8>) -> Seq<u8> {
    if bytes.len() % 1024 == 512 {
        bytes.subrange(512, bytes.len() as int)
    } else {
        bytes
    }
}

/// The 64 bytes where an image of kind `rom_type` has its header.
pub open spec fn header_bytes(image: Seq<u8>, rom_type: RomType) -> Seq<u8> {
    match rom_type {
        RomType::LoRom => image.subrange(
            LOROM_HEADER_START as int,
            LOROM_HEADER_START + HEADER_SIZE,
        ),
        RomType::HiRom => image.subrange(
            HIROM_HEADER_START as int,
            HIROM_HEADER_START + HEADER_SIZE,
        ),
    }
}

/// The kind of an image: the first if its header scores higher there,
/// else the second.
pub open spec fn detected_type(image: Seq<u8>) -> RomType {
    if spec_score(header_bytes(image, RomType::LoRom), RomType::LoRom) > spec_score(
        header_bytes(image, RomType::HiRom),
        RomType::HiRom,
    ) {
        RomType::LoRom
    } else {
        RomType::HiRom
    }
}

/// The sum of the first `n` bytes.
pub open spec fn byte_sum(bytes: Seq<u8>, n: nat) -> int
    decreases n,
{
    if n == 0 {
        0
    } else {
        byte_sum(bytes, (n - 1) as nat) + bytes[n - 1]
    }
}

/// A file of this length holds an image that both headers can be read
/// from.
pub open spec fn holds_both_headers(len: int) -> bool {
    (len % 1024 == 0 ==> len >= HIROM_HEADER_START + HEADER_SIZE) && (len % 1024 == 512 ==> len
        - 512 >= HIROM_HEADER_START + HEADER_SIZE)
}

/// Byte `a` of the work memory, if it has so many.
pub open spec fn in_ram(a: int, ram_len: int) -> Option<MemLoc> {
    if 0 <= a < ram_len {
        Some(MemLoc::Ram(a as usize))
    } else {
        None
    }
}

/// Byte `a` of the image, if it has so many.
pub open spec fn in_rom(a: int, rom_len: int) -> Option<MemLoc> {
    if 0 <= a < rom_len {
        Some(MemLoc::Rom(a as usize))
    } else {
        None
    }
}

/// The byte that the first map puts at `addr` of `bank`, or `None` where
/// it puts nothing or the cartridge is too small. Addresses below 0x8000
/// reach work memory: in banks 0x70 to 0x7d from its start on, 32768 bytes
/// for each bank, in banks 0xfe and 0xff its last 65536 bytes. Addresses
/// from 0x8000 on reach the image, 32768 bytes for each bank, banks 0x80 to
/// 0xfd repeating banks 0x00 to 0x7d, banks 0xfe and 0xff following 0x7d.
pub open spec fn spec_resolve_lorom(ram_len: int, rom_len: int, bank: u8, addr: u16) -> Option<
    MemLoc,
> {
    if addr < 0x8000 {
        if 0x70 <= bank <= 0x7d {
            in_ram((bank - 0x70) * 0x8000 + addr, ram_len)
        } else if bank >= 0xfe {
            if ram_len >= 0x10000 {
                in_ram(ram_len - 0x10000 + (bank - 0xfe) * 0x8000 + addr, ram_len)
            } else {
                None
            }
        } else {
            None
        }
    } else {
        if bank == 0xfe {
            in_rom(0x3f0000 + addr - 0x8000, rom_len)
        } else if bank == 0xff {
            in_rom(0x3f8000 + addr - 0x8000, rom_len)
        } else if bank == 0x7e || bank == 0x7f {
            None
        } else {
            in_rom(bank % 128 * 0x8000 + addr - 0x8000, rom_len)
        }
    }
}

/// The byte that the second map puts at `addr` of `bank`. Banks 0x00 to
/// 0x3f and 0x80 to 0xbf show, from 0x8000 on, the upper half of each 65536
/// bytes of the image; of these, banks 0x20 to 0x3f and 0xa0 to 0xbf show
/// work memory from 0x6000 to 0x7fff, 8192 bytes for each bank. Banks 0x40
/// to 0x7d and 0xc0 to 0xfd show the image in full, banks 0xfe and 0xff
/// what follows bank 0x7d.
pub open spec fn spec_resolve_hirom(ram_len: int, rom_len: int, bank: u8, addr: u16) -> Option<
    MemLoc,
> {
    if (bank <= 0x3f || 0x80 <= bank <= 0xbf) && addr >= 0x8000 {
        in_rom(bank % 64 * 0x10000 + addr, rom_len)
    } else if (0x20 <= bank <= 0x3f || 0xa0 <= bank <= 0xbf) && 0x6000 <= addr <= 0x7fff {
        in_ram((bank % 64 - 0x20) * 0x2000 + addr - 0x6000, ram_len)
    } else if 0x40 <= bank <= 0x7d || 0xc0 <= bank <= 0xfd {
        in_rom((bank % 128 - 0x40) * 0x10000 + addr, rom_len)
    } else if bank >= 0xfe {
        in_rom((bank - 0xfe + 0x3e) * 0x10000 + addr, rom_len)
    } else {
        None
    }
}

impl RomHeader {
    /// The title is sanitised and the sizes are what size codes give.
    pub open spec fn wf(&self) -> bool {
        &&& self.title@.len() == TITLE_SIZE
        &&& all_printable(self.title@, TITLE_SIZE as int)
        &&& 1024 <= self.rom_size <= 1024 * 32768
        &&& 1024 <= self.ram_size <= 1024 * 32768
    }

    /// The header is what the 64 bytes hold, read for an image of kind
    /// `rom_type`.
    pub open spec fn decodes(&self, bytes: Seq<u8>, rom_type: RomType) -> bool {
        &&& self.title@ == spec_title(bytes)
        &&& self.rom_size == size_for((bytes[23] % 16) as nat)
        &&& self.ram_size == size_for((bytes[24] % 16) as nat)
        &&& self.checksum == stored_checksum(bytes)
        &&& self.rom_type == rom_type
    }

    /// Loads the header from the given bytes, which must be 64.
    /// `rom_type` is the kind of image that the place of the header stands
    /// for.
    ///
    /// Returns the decoded header and a score: the higher, the likelier it
    /// is that this is the header.
    pub fn load(bytes: &[u8], rom_type: RomType) -> (r: (RomHeader, i16))
        requires
            bytes@.len() == HEADER_SIZE,
        ensures
            r.0.decodes(bytes@, rom_type),
            r.0.wf(),
            r.1 == spec_score(bytes@, rom_type),
            -19 <= r.1 <= 0,
    {
        let mut score: i16 = 0;
        let check_inv: u16 = make_word(bytes[28], bytes[29]);
        let rom_checksum: u16 = make_word(bytes[30], bytes[31]);
        if check_inv != 0xffff - rom_checksum {
            score -= 4;
        }
        let mut title: Vec<u8> = Vec::new();
        let mut clean: bool = true;
        let mut i: usize = 0;
        while i < TITLE_SIZE
            invariant
                bytes@.len() == HEADER_SIZE,
                i <= TITLE_SIZE,
                title@.len() == i,
                forall|k: int|
                    0 <= k < i ==> #[trigger] title@[k] == (if is_printable(bytes@[k]) {
                        bytes@[k]
                    } else {
                        0x20u8
                    }),
                clean == all_printable(bytes@, i as int),
            decreases TITLE_SIZE - i,
        {
            let c: u8 = bytes[i];
            if 0x20 <= c && c <= 0x7e {
                title.push(c);
            } else {
                clean = false;
                title.push(0x20);
            }
            i += 1;
        }
        assert(title@ =~= spec_title(bytes@));
        if !clean {
            score -= 2;
        }
        let mode: u8 = bytes[21] % 16;
        let header_rom_type: RomType = if mode == 0 {
            RomType::LoRom
        } else if mode == 1 {
            RomType::HiRom
        } else {
            score -= 10;
            RomType::LoRom
        };
        let same: bool = match (header_rom_type, rom_type) {
            (RomType::LoRom, RomType::LoRom) => true,
            (RomType::HiRom, RomType::HiRom) => true,
            _ => false,
        };
        if !same {
            score -= 3;
        }
        let rom_size: u32 = size_of_code(bytes[23] % 16);
        let ram_size: u32 = size_of_code(bytes[24] % 16);
        (RomHeader { title, rom_size, ram_size, checksum: rom_checksum, rom_type }, score)
    }
}

/// Computes the size in bytes that a size code stands for.
pub fn size_of_code(code: u8) -> (size: u32)
    requires
        code <= 15,
    ensures
        size == size_for(code as nat),
        1024 <= size <= 1024 * 32768,
{
    let mut size: u32 = 1024;
    let mut k: u8 = 0;
    while k < code
        invariant
            k <= code <= 15,
            size == size_for(k as nat),
        decreases code - k,
    {
        proof {
            lemma_size_for_bounds((k + 1) as nat);
        }
        size = size * 2;
        k += 1;
    }
    proof {
        lemma_size_for_bounds(code as nat);
    }
    size
}

/// A size code of 0 to 15 stands for 1 KiB to 32 MiB.
pub proof fn lemma_size_for_bounds(code: nat)
    requires
        code <= 15,
    ensures
        1024 <= size_for(code) <= 1024 * 32768,
{
    reveal_with_fuel(size_for, 16);
}

/// The characters that a sequence of ASCII bytes spells.
pub open spec fn ascii_chars(bytes: Seq<u8>) -> Seq<char> {
    Seq::new(bytes.len(), |i: int| bytes[i] as char)
}

/// Every byte is an ASCII character.
pub open spec fn is_ascii_bytes(bytes: Seq<u8>) -> bool {
    forall|i: int| 0 <= i < bytes.len() ==> #[trigger] bytes[i] < 128
}

/// The length of `bytes` without the spaces at its end.
pub open spec fn trimmed_len(bytes: Seq<u8>) -> nat
    decreases bytes.len(),
{
    if bytes.len() == 0 {
        0
    } else if bytes.last() != 0x20 {
        bytes.len()
    } else {
        trimmed_len(bytes.drop_last())
    }
}

/// `String::from_utf8` of the standard library, with the error dropped.
/// Bytes that are all ASCII are valid UTF-8, one character each, so for
/// them the call succeeds and the string spells the bytes. Of other bytes
/// nothing is claimed.
#[verifier::external_body]
fn string_from_utf8(bytes: Vec<u8>) -> (text: Option<String>)
    ensures
        text.is_some() || !is_ascii_bytes(bytes@),
        text.is_some() && is_ascii_bytes(bytes@) ==> text.unwrap()@ == ascii_chars(bytes@),
{
    String::from_utf8(bytes).ok()
}

impl Rom {
    /// The header is well formed.
    pub open spec fn wf(&self) -> bool {
        self.header.wf()
    }

    /// The byte of the cartridge at `addr` of `bank`, or `None` where the
    /// map shows nothing there.
    pub open spec fn spec_resolve_addr(&self, bank: u8, addr: u16) -> Option<MemLoc> {
        match self.header.rom_type {
            RomType::LoRom => spec_resolve_lorom(
                self.ram@.len() as int,
                self.rom@.len() as int,
                bank,
                addr,
            ),
            RomType::HiRom => spec_resolve_hirom(
                self.ram@.len() as int,
                self.rom@.len() as int,
                bank,
                addr,
            ),
        }
    }

    /// The value of a byte of the cartridge.
    pub open spec fn spec_read(&self, loc: MemLoc) -> u8 {
        match loc {
            MemLoc::Ram(a) => self.ram@[a as int],
            MemLoc::Rom(a) => self.rom@[a as int],
        }
    }

    /// The checksum of the image: the sum of its bytes, cut to 16 bits.
    pub open spec fn spec_checksum(&self) -> u16 {
        (byte_sum(self.rom@, self.rom@.len()) % 65536) as u16
    }

    /// Loads a cartridge from the bytes of a file.
    ///
    /// A file whose length is 512 more than a multiple of 1024 starts with
    /// 512 bytes that are no part of the image. A length that is neither
    /// that nor a multiple of 1024 is an error. The image must reach to
    /// the end of the later of the two places where a header can be.
    ///
    /// The header is read from both places and the one with the higher
    /// score is taken, the later one if they score alike. The work memory
    /// has the size that the header gives and is zero. The image is
    /// repeated until it has the size that the header gives.
    pub fn from_bytes(bytes: &[u8]) -> (result: Result<Rom, ()>)
        requires
            holds_both_headers(bytes@.len() as int),
        ensures
            result.is_ok() <==> (bytes@.len() % 1024 == 0 || bytes@.len() % 1024 == 512),
            result matches Ok(rom) ==> {
                let image = spec_image(bytes@);
                let kind = detected_type(image);
                &&& rom.wf()
                &&& rom.header.decodes(header_bytes(image, kind), kind)
                &&& rom.ram@.len() == rom.header.ram_size
                &&& forall|i: int| 0 <= i < rom.ram@.len() ==> rom.ram@[i] == 0
                &&& rom.rom@.len() == if rom.header.rom_size >= image.len() {
                    rom.header.rom_size as int
                } else {
                    image.len() as int
                }
                &&& forall|i: int|
                    0 <= i < rom.rom@.len() ==> rom.rom@[i] == image[i % (image.len() as int)]
            },
    {
        let image: &[u8] = if bytes.len() % 1024 == 512 {
            slice_subrange(bytes, 512, bytes.len())
        } else if bytes.len() % 1024 == 0 {
            bytes
        } else {
            return Err(());
        };
        assert(image@ == spec_image(bytes@));
        let (lo_header, lo_score) = RomHeader::load(
            slice_subrange(image, LOROM_HEADER_START, LOROM_HEADER_START + HEADER_SIZE),
            RomType::LoRom,
        );
        let (hi_header, hi_score) = RomHeader::load(
            slice_subrange(image, HIROM_HEADER_START, HIROM_HEADER_START + HEADER_SIZE),
            RomType::HiRom,
        );
        let header: RomHeader = if lo_score > hi_score {
            lo_header
        } else {
            hi_header
        };
        let ram: Vec<u8> = vec![0u8; header.ram_size as usize];
        let len: usize = image.len();
        let total: usize = if header.rom_size as usize >= len {
            header.rom_size as usize
        } else {
            len
        };
        let mut rom: Vec<u8> = Vec::new();
        let mut i: usize = 0;
        while i < total
            invariant
                len == image@.len(),
                len > 0,
                i <= total,
                rom@.len() == i,
                forall|k: int| 0 <= k < i ==> rom@[k] == image@[k % (len as int)],
            decreases total - i,
        {
            proof {
                vstd::arithmetic::div_mod::lemma_mod_bound(i as int, len as int);
            }
            rom.push(image[i % len]);
            i += 1;
        }
        Ok(Rom { header, ram, rom })
    }

    /// Returns the title of the cartridge without the spaces at its end.
    pub fn get_title(&self) -> (title: Option<String>)
        requires
            self.wf(),
        ensures
            title matches Some(t) && t@ == ascii_chars(
                self.header.title@.subrange(0, trimmed_len(self.header.title@) as int),
            ),
    {
        let mut end: usize = self.header.title.len();
        assert(self.header.title@.subrange(0, end as int) =~= self.header.title@);
        while end > 0 && self.header.title[end - 1] == 0x20
            invariant
                end <= self.header.title@.len(),
                trimmed_len(self.header.title@) == trimmed_len(
                    self.header.title@.subrange(0, end as int),
                ),
            decreases end,
        {
            proof {
                let cut = self.header.title@.subrange(0, end as int);
                assert(cut.drop_last() =~= self.header.title@.subrange(0, end - 1));
            }
            end -= 1;
        }
        proof {
            let cut = self.header.title@.subrange(0, end as int);
            if end > 0 {
                assert(cut.last() == self.header.title@[end - 1]);
            }
            assert(trimmed_len(cut) == end);
        }
        let mut kept: Vec<u8> = Vec::new();
        let mut i: usize = 0;
        while i < end
            invariant
                end <= self.header.title@.len(),
                self.wf(),
                i <= end,
                kept@ == self.header.title@.subrange(0, i as int),
            decreases end - i,
        {
            kept.push(self.header.title[i]);
            assert(kept@ =~= self.header.title@.subrange(0, i + 1));
            i += 1;
        }
        assert(is_ascii_bytes(kept@)) by {
            assert forall|k: int| 0 <= k < kept@.len() implies #[trigger] kept@[k] < 128 by {
                assert(is_printable(self.header.title@[k]));
            }
        }
        string_from_utf8(kept)
    }

    /// Finds the byte that the first address map shows at an address.
    pub fn resolve_lorom(&self, bank: u8, addr: u16) -> (loc: Option<MemLoc>)
        ensures
            loc == spec_resolve_lorom(self.ram@.len() as int, self.rom@.len() as int, bank, addr),
    {
        let a: usize = addr as usize;
        if addr < 0x8000 {
            if 0x70 <= bank && bank <= 0x7d {
                self.ram_at((bank as usize - 0x70) * 0x8000 + a)
            } else if bank >= 0xfe {
                if self.ram.len() >= 0x10000 {
                    self.ram_at(self.ram.len() - 0x10000 + (bank as usize - 0xfe) * 0x8000 + a)
                } else {
                    None
                }
            } else {
                None
            }
        } else {
            if bank == 0xfe {
                self.rom_at(0x3f0000 + a - 0x8000)
            } else if bank == 0xff {
                self.rom_at(0x3f8000 + a - 0x8000)
            } else if bank == 0x7e || bank == 0x7f {
                None
            } else {
                self.rom_at((bank as usize % 128) * 0x8000 + a - 0x8000)
            }
        }
    }

    /// Finds the byte that the second address map shows at an address.
    pub fn resolve_hirom(&self, bank: u8, addr: u16) -> (loc: Option<MemLoc>)
        ensures
            loc == spec_resolve_hirom(self.ram@.len() as int, self.rom@.len() as int, bank, addr),
    {
        let a: usize = addr as usize;
        if (bank <= 0x3f || (0x80 <= bank && bank <= 0xbf)) && addr >= 0x8000 {
            self.rom_at((bank as usize % 64) * 0x10000 + a)
        } else if ((0x20 <= bank && bank <= 0x3f) || (0xa0 <= bank && bank <= 0xbf)) && 0x6000
            <= addr && addr <= 0x7fff {
            self.ram_at((bank as usize % 64 - 0x20) * 0x2000 + a - 0x6000)
        } else if (0x40 <= bank && bank <= 0x7d) || (0xc0 <= bank && bank <= 0xfd) {
            self.rom_at((bank as usize % 128 - 0x40) * 0x10000 + a)
        } else if bank >= 0xfe {
            self.rom_at((bank as usize - 0xfe + 0x3e) * 0x10000 + a)
        } else {
            None
        }
    }

    /// Finds the byte of the cartridge at an address of the bus, by the
    /// address map of the cartridge's kind.
    pub fn resolve_addr(&self, bank: u8, addr: u16) -> (loc: Option<MemLoc>)
        ensures
            loc == self.spec_resolve_addr(bank, addr),
            loc matches Some(MemLoc::Ram(a)) ==> a < self.ram@.len(),
            loc matches Some(MemLoc::Rom(a)) ==> a < self.rom@.len(),
    {
        match self.header.rom_type {
            RomType::LoRom => self.resolve_lorom(bank, addr),
            RomType::HiRom => self.resolve_hirom(bank, addr),
        }
    }

    fn ram_at(&self, a: usize) -> (loc: Option<MemLoc>)
        ensures
            loc == in_ram(a as int, self.ram@.len() as int),
    {
        if a < self.ram.len() {
            Some(MemLoc::Ram(a))
        } else {
            None
        }
    }

    fn rom_at(&self, a: usize) -> (loc: Option<MemLoc>)
        ensures
            loc == in_rom(a as int, self.rom@.len() as int),
    {
        if a < self.rom.len() {
            Some(MemLoc::Rom(a))
        } else {
            None
        }
    }

    /// Reads the byte at an address that the cartridge's map shows.
    pub fn load(&mut self, bank: u8, addr: u16) -> (value: u8)
        requires
            old(self).spec_resolve_addr(bank, addr).is_some(),
        ensures
            value == old(self).spec_read(old(self).spec_resolve_addr(bank, addr).unwrap()),
            *final(self) == *old(self),
    {
        match self.resolve_addr(bank, addr) {
            Some(MemLoc::Ram(a)) => self.ram[a],
            Some(MemLoc::Rom(a)) => self.rom[a],
            None => 0,
        }
    }

    /// Writes a byte at an address that the cartridge's map shows, be it
    /// in work memory or in the image.
    pub fn store(&mut self, bank: u8, addr: u16, value: u8)
        requires
            old(self).spec_resolve_addr(bank, addr).is_some(),
        ensures
            final(self).header == old(self).header,
            match old(self).spec_resolve_addr(bank, addr).unwrap() {
                MemLoc::Ram(a) => final(self).ram@ == old(self).ram@.update(a as int, value)
                    && final(self).rom@ == old(self).rom@,
                MemLoc::Rom(a) => final(self).rom@ == old(self).rom@.update(a as int, value)
                    && final(self).ram@ == old(self).ram@,
            },
            final(self).spec_resolve_addr(bank, addr) == old(self).spec_resolve_addr(bank, addr),
            final(self).spec_read(final(self).spec_resolve_addr(bank, addr).unwrap()) == value,
    {
        match self.resolve_addr(bank, addr) {
            Some(MemLoc::Ram(a)) => {
                self.ram.set(a, value);
            },
            Some(MemLoc::Rom(a)) => {
                self.rom.set(a, value);
            },
            None => {},
        }
    }

    /// Adds up the bytes of the image, wrapping at sixteen bits.
    pub fn computed_checksum(&self) -> (sum: u16)
        ensures
            sum == self.spec_checksum(),
    {
        let mut sum: u16 = 0;
        let mut i: usize = 0;
        while i < self.rom.len()
            invariant
                i <= self.rom@.len(),
                sum == byte_sum(self.rom@, i as nat) % 65536,
            decreases self.rom@.len() - i,
        {
            sum = ((sum as u32 + self.rom[i] as u32) % 65536) as u16;
            i += 1;
        }
        sum
    }

    /// Whether the image adds up to the checksum that its header stores.
    pub fn checksum_matches(&self) -> (ok: bool)
        ensures
            ok == (self.header.checksum == self.spec_checksum()),
    {
        self.header.checksum == self.computed_checksum()
    }
}

} // verus!
