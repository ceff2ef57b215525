use vstd::prelude::*;
use vstd::slice::slice_subrange;
use vstd::slice::slice_to_vec;

verus! {

pub const HEAD_SIZE: usize = 16;
pub const TRAINER_SIZE: usize = 512;
/// Size of one program-ROM bank.
pub const PRG_ROM_UNITS: usize = 0x4000;
/// Size of one character-ROM bank.
pub const CHR_ROM_UNITS: usize = 0x2000;
/// Size of the save-RAM on the cartridge.
pub const SRAM_SIZE: usize = 0x2000;
/// Size of the extra video RAM on the cartridge.
pub const VRAM_SIZE: usize = 0x800;

/// The fields of the 16-byte image header that the core reads.
#[derive(Clone, Copy, Debug, PartialEq, Eq, Structural)]
pub struct Header {
    pub ines: bool,
    pub nes20: bool,
    pub prg_size: u8,
    pub chr_size: u8,
    pub trainer: bool,
    pub mapper_no: u8,
}

/// The header that the first sixteen bytes of `h` describe.
pub open spec fn header_of(h: Seq<u8>) -> Header
    recommends
        h.len() >= HEAD_SIZE,
{
    let ines = h[0] == 0x4e && h[1] == 0x45 && h[2] == 0x53 && h[3] == 0x1a;
    Header {
        ines,
        nes20: ines && (h[7] & 0x0c) == 0x08,
        prg_size: h[4],
        chr_size: h[5],
        trainer: (h[6] & 0x04) == 0x04,
        mapper_no: (h[7] & 0xf0) | ((h[6] >> 4u8) & 0x0f),
    }
}

/// Where program-ROM starts in the image.
pub open spec fn prg_start(h: Header) -> int {
    HEAD_SIZE + if h.trainer { TRAINER_SIZE as int } else { 0 }
}

pub open spec fn prg_len(h: Header) -> int {
    h.prg_size * PRG_ROM_UNITS
}

/// Where character-ROM starts in the image.
pub open spec fn chr_start(h: Header) -> int {
    prg_start(h) + prg_len(h)
}

pub open spec fn chr_len(h: Header) -> int {
    h.chr_size * CHR_ROM_UNITS
}

/// The number of bytes that an image with header `h` must hold.
pub open spec fn image_len(h: Header) -> int {
    chr_start(h) + chr_len(h)
}

impl Header {
    pub fn from(head_data: &[u8]) -> (r: Header)
        requires
            head_data@.len() >= HEAD_SIZE,
        ensures
            r == header_of(head_data@),
    {
        let ines = head_data[0] == 0x4e && head_data[1] == 0x45 && head_data[2] == 0x53
            && head_data[3] == 0x1a;
        Header {
            ines,
            nes20: ines && (head_data[7] & 0x0c) == 0x08,
            prg_size: head_data[4],
            chr_size: head_data[5],
            trainer: (head_data[6] & 0x04) == 0x04,
            mapper_no: (head_data[7] & 0xf0) | ((head_data[6] >> 4u8) & 0x0f),
        }
    }
}

/// The read-only part of a cartridge image: its header, program-ROM and
/// character-ROM.
pub struct Rom {
    pub header: Header,
    pub prg: Vec<u8>,
    pub chr: Vec<u8>,
}

impl Rom {
    /// Splits a raw image into header, program-ROM and character-ROM;
    /// `None` when the image is shorter than its header declares.
    pub fn from(rom_data: &[u8]) -> (r: Option<Rom>)
        ensures
            r.is_some() <==> rom_data@.len() >= HEAD_SIZE && rom_data@.len() >= image_len(
                header_of(rom_data@),
            ),
            r matches Some(rom) ==> {
                let h = header_of(rom_data@);
                &&& rom.header == h
                &&& rom.prg@ == rom_data@.subrange(prg_start(h), chr_start(h))
                &&& rom.chr@ == rom_data@.subrange(chr_start(h), image_len(h))
            },
    {
        if rom_data.len() < HEAD_SIZE {
            return None;
        }
        let header = Header::from(rom_data);
        let trainer_len: usize = if header.trainer {
            TRAINER_SIZE
        } else {
            0
        };
        let prg_len: usize = header.prg_size as usize * PRG_ROM_UNITS;
        let prg_off: usize = HEAD_SIZE + trainer_len;
        let chr_len: usize = header.chr_size as usize * CHR_ROM_UNITS;
        let chr_off: usize = prg_off + prg_len;
        if rom_data.len() < chr_off + chr_len {
            return None;
        }
        let prg = slice_to_vec(slice_subrange(rom_data, prg_off, chr_off));
        let chr = slice_to_vec(slice_subrange(rom_data, chr_off, chr_off + chr_len));
        Some(Rom { header, prg, chr })
    }

    pub fn get_mapperno(&self) -> (r: u8)
        ensures
            r == self.header.mapper_no,
    {
        self.header.mapper_no
    }

    /// A program image of exactly one 16 KiB bank is mirrored into both
    /// halves of the program window.
    pub fn is_mirrored(&self) -> (r: bool)
        ensures
            r == (self.prg@.len() == PRG_ROM_UNITS),
    {
        self.prg.len() == PRG_ROM_UNITS
    }

    pub fn get_prg(&self) -> (r: &[u8])
        ensures
            r@ == self.prg@,
    {
        self.prg.as_slice()
    }

    pub fn get_chr(&self) -> (r: &[u8])
        ensures
            r@ == self.chr@,
    {
        self.chr.as_slice()
    }

    pub fn get_prg_mut(&mut self) -> (r: &mut [u8])
        ensures
            r@ == old(self).prg@,
            final(r)@ == final(self).prg@,
            final(self).header == old(self).header,
            final(self).chr@ == old(self).chr@,
    {
        self.prg.as_mut_slice()
    }

    pub fn get_chr_mut(&mut self) -> (r: &mut [u8])
        ensures
            r@ == old(self).chr@,
            final(r)@ == final(self).chr@,
            final(self).header == old(self).header,
            final(self).prg@ == old(self).prg@,
    {
        self.chr.as_mut_slice()
    }
}

/// A loaded cartridge: its ROM, its save-RAM and its extra video RAM.
pub struct Cartridge {
    pub rom: Rom,
    pub sram: Vec<u8>,
    pub vram: Vec<u8>,
}

impl Cartridge {
    /// Builds a cartridge from a raw image, with zeroed save-RAM and video
    /// RAM; `None` when the image is shorter than its header declares.
    pub fn from_image(data: &[u8]) -> (r: Option<Cartridge>)
        ensures
            r.is_some() <==> data@.len() >= HEAD_SIZE && data@.len() >= image_len(
                header_of(data@),
            ),
            r matches Some(c) ==> {
                let h = header_of(data@);
                &&& c.rom.header == h
                &&& c.rom.prg@ == data@.subrange(prg_start(h), chr_start(h))
                &&& c.rom.chr@ == data@.subrange(chr_start(h), image_len(h))
                &&& c.sram@ == Seq::new(SRAM_SIZE as nat, |i: int| 0u8)
                &&& c.vram@ == Seq::new(VRAM_SIZE as nat, |i: int| 0u8)
            },
    {
        match Rom::from(data) {
            None => None,
            Some(rom) => {
                let sram = zeroed(SRAM_SIZE);
                let vram = zeroed(VRAM_SIZE);
                Some(Cartridge { rom, sram, vram })
            },
        }
    }
}

/// `n` zero bytes.
pub fn zeroed(n: usize) -> (r: Vec<u8>)
    ensures
        r@ == Seq::new(n as nat, |i: int| 0u8),
{
    let mut v: Vec<u8> = Vec::new();
    let mut i: usize = 0;
    while i < n
        invariant
            i <= n,
            v@ == Seq::new(i as nat, |k: int| 0u8),
        decreases n - i,
    {
        v.push(0);
        i = i + 1;
    }
    assert(v@ =~= Seq::new(n as nat, |k: int| 0u8));
    v
}

} // verus!
