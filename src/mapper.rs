use vstd::prelude::*;
use crate::cartridge::Cartridge;
use crate::cartridge::CHR_ROM_UNITS;
use crate::cartridge::PRG_ROM_UNITS;
use crate::cartridge::SRAM_SIZE;

verus! {

/// A cartridge circuit as the bus sees it: a byte at each address of the
/// cartridge region, changed by writes.
pub trait IMapper: Sized {
    spec fn wf(&self) -> bool;

    /// The byte that a read of `address` returns.
    spec fn peek(&self, address: u16) -> u8;

    /// Whether `after` is this mapper once `data` has been written to `address`.
    spec fn poke(&self, address: u16, data: u8, after: &Self) -> bool;

    fn read(&self, address: u16) -> (r: u8)
        requires
            self.wf(),
        ensures
            r == self.peek(address),
    ;

    fn write(&mut self, address: u16, data: u8)
        requires
            old(self).wf(),
        ensures
            final(self).wf(),
            old(self).poke(address, data, final(self)),
    ;
}

/// The contents behind the simplest mapper: program-ROM, character-ROM,
/// save-RAM, and whether a single program bank is mirrored.
pub struct MapperState {
    pub prg: Seq<u8>,
    pub chr: Seq<u8>,
    pub sram: Seq<u8>,
    pub mirrored: bool,
}

impl MapperState {
    pub open spec fn wf(self) -> bool {
        &&& self.chr.len() >= CHR_ROM_UNITS
        &&& self.sram.len() >= SRAM_SIZE
        &&& if self.mirrored {
            self.prg.len() == PRG_ROM_UNITS
        } else {
            self.prg.len() >= 2 * PRG_ROM_UNITS
        }
    }
}

/// Index into program-ROM of a program-window address.
pub open spec fn prg_index(mirrored: bool, address: u16) -> int {
    (if mirrored {
        address & 0xbfff
    } else {
        address
    }) - 0x8000
}

/// Which storage a cartridge address reaches, and where in it.
pub enum CartCell {
    Chr(int),
    Prg(int),
    Sram(int),
    Unmapped,
}

pub open spec fn cart_cell(mirrored: bool, address: u16) -> CartCell {
    if address < 0x2000 {
        CartCell::Chr(address as int)
    } else if address >= 0x8000 {
        CartCell::Prg(prg_index(mirrored, address))
    } else if address >= 0x6000 {
        CartCell::Sram(address - 0x6000)
    } else {
        CartCell::Unmapped
    }
}

pub open spec fn mapper_read(m: MapperState, address: u16) -> u8 {
    match cart_cell(m.mirrored, address) {
        CartCell::Chr(i) => m.chr[i],
        CartCell::Prg(i) => m.prg[i],
        CartCell::Sram(i) => m.sram[i],
        CartCell::Unmapped => 0,
    }
}

pub open spec fn mapper_write(m: MapperState, address: u16, data: u8) -> MapperState {
    match cart_cell(m.mirrored, address) {
        CartCell::Chr(i) => MapperState { chr: m.chr.update(i, data), ..m },
        CartCell::Prg(i) => MapperState { prg: m.prg.update(i, data), ..m },
        CartCell::Sram(i) => MapperState { sram: m.sram.update(i, data), ..m },
        CartCell::Unmapped => m,
    }
}

/// A program-window address, masked or not, lands inside program-ROM.
pub proof fn lemma_prg_index_in_bounds(mirrored: bool, address: u16)
    requires
        address >= 0x8000,
    ensures
        0 <= prg_index(mirrored, address) < if mirrored { 0x4000int } else { 0x8000int },
{
    assert(address >= 0x8000u16 ==> (address & 0xbfffu16) >= 0x8000u16 && (address & 0xbfffu16)
        < 0xc000u16) by (bit_vector);
}

/// The problem that keeps a cartridge from being driven by the simplest mapper.
#[derive(Clone, Copy, Debug, PartialEq, Eq, Structural)]
pub enum ConfigError {
    /// Program-ROM is neither one bank nor at least two.
    PrgSize,
    /// Character-ROM is smaller than one bank.
    ChrSize,
    /// Save-RAM is smaller than its window.
    SramSize,
    /// The header names a mapper that this core does not provide.
    UnsupportedMapper(u8),
}

/// The fixed-bank mapper: it owns the cartridge for the whole session.
pub struct Mapper0 {
    pub cart: Cartridge,
    pub mirrored: bool,
}

impl View for Mapper0 {
    type V = MapperState;

    open spec fn view(&self) -> MapperState {
        MapperState {
            prg: self.cart.rom.prg@,
            chr: self.cart.rom.chr@,
            sram: self.cart.sram@,
            mirrored: self.mirrored,
        }
    }
}

/// The error, if any, for a cartridge with these buffer lengths.
pub open spec fn config_check(prg: nat, chr: nat, sram: nat) -> Option<ConfigError> {
    if prg != PRG_ROM_UNITS && prg < 2 * PRG_ROM_UNITS {
        Some(ConfigError::PrgSize)
    } else if chr < CHR_ROM_UNITS {
        Some(ConfigError::ChrSize)
    } else if sram < SRAM_SIZE {
        Some(ConfigError::SramSize)
    } else {
        None
    }
}

impl Mapper0 {
    /// Takes ownership of the cartridge; mirroring is on exactly when its
    /// program-ROM is one 16 KiB bank.
    pub fn from(cart: Cartridge) -> (r: Result<Mapper0, ConfigError>)
        ensures
            match config_check(cart.rom.prg@.len(), cart.rom.chr@.len(), cart.sram@.len()) {
                Some(e) => r == Err::<Mapper0, ConfigError>(e),
                None => r matches Ok(m) && m.wf() && m@ == (MapperState {
                    prg: cart.rom.prg@,
                    chr: cart.rom.chr@,
                    sram: cart.sram@,
                    mirrored: cart.rom.prg@.len() == PRG_ROM_UNITS,
                }),
            },
    {
        let mirrored = cart.rom.is_mirrored();
        if !mirrored && cart.rom.prg.len() < 2 * PRG_ROM_UNITS {
            Err(ConfigError::PrgSize)
        } else if cart.rom.chr.len() < CHR_ROM_UNITS {
            Err(ConfigError::ChrSize)
        } else if cart.sram.len() < SRAM_SIZE {
            Err(ConfigError::SramSize)
        } else {
            Ok(Mapper0 { cart, mirrored })
        }
    }

    pub fn is_mirrored(&self) -> (r: bool)
        ensures
            r == self.mirrored,
    {
        self.mirrored
    }
}

/// Chooses the mapper that the cartridge's header names; only the
/// fixed-bank mapper, number 0, is provided.
pub fn select_mapper(cart: Cartridge) -> (r: Result<Mapper0, ConfigError>)
    ensures
        cart.rom.header.mapper_no != 0 ==> r == Err::<Mapper0, ConfigError>(
            ConfigError::UnsupportedMapper(cart.rom.header.mapper_no),
        ),
        cart.rom.header.mapper_no == 0 ==> match config_check(
            cart.rom.prg@.len(),
            cart.rom.chr@.len(),
            cart.sram@.len(),
        ) {
            Some(e) => r == Err::<Mapper0, ConfigError>(e),
            None => r matches Ok(m) && m.wf() && m@ == (MapperState {
                prg: cart.rom.prg@,
                chr: cart.rom.chr@,
                sram: cart.sram@,
                mirrored: cart.rom.prg@.len() == PRG_ROM_UNITS,
            }),
        },
{
    let n = cart.rom.get_mapperno();
    if n != 0 {
        Err(ConfigError::UnsupportedMapper(n))
    } else {
        Mapper0::from(cart)
    }
}

impl IMapper for Mapper0 {
    open spec fn wf(&self) -> bool {
        self@.wf()
    }

    open spec fn peek(&self, address: u16) -> u8 {
        mapper_read(self@, address)
    }

    open spec fn poke(&self, address: u16, data: u8, after: &Self) -> bool {
        after@ == mapper_write(self@, address, data)
    }

    fn read(&self, address: u16) -> (r: u8) {
        if address < 0x2000 {
            self.cart.rom.get_chr()[address as usize]
        } else if address >= 0x8000 {
            let a: u16 = if self.mirrored {
                address & 0xbfff
            } else {
                address
            };
            proof {
                lemma_prg_index_in_bounds(self.mirrored, address);
            }
            self.cart.rom.get_prg()[(a - 0x8000) as usize]
        } else if address >= 0x6000 {
            self.cart.sram[(address - 0x6000) as usize]
        } else {
            0
        }
    }

    fn write(&mut self, address: u16, data: u8) {
        if address < 0x2000 {
            let chr = self.cart.rom.get_chr_mut();
            chr[address as usize] = data;
        } else if address >= 0x8000 {
            let a: u16 = if self.mirrored {
                address & 0xbfff
            } else {
                address
            };
            proof {
                lemma_prg_index_in_bounds(self.mirrored, address);
            }
            let prg = self.cart.rom.get_prg_mut();
            prg[(a - 0x8000) as usize] = data;
        } else if address >= 0x6000 {
            self.cart.sram.set((address - 0x6000) as usize, data);
        }
    }
}

/// A single 16 KiB program bank answers identically in both halves of the
/// program window: the byte at 0x8000 + i is the byte at 0xC000 + i.
pub proof fn lemma_prg_mirroring(m: MapperState, i: u16)
    requires
        m.wf(),
        m.mirrored,
        i < 0x4000,
    ensures
        mapper_read(m, (0x8000 + i) as u16) == mapper_read(m, (0xc000 + i) as u16),
{
    let lo = (0x8000 + i) as u16;
    let hi = (0xc000 + i) as u16;
    assert(i < 0x4000u16 ==> (lo == (0x8000u16 | i) && hi == (0xc000u16 | i))) by (bit_vector)
        requires
            lo == (0x8000 + i) as u16,
            hi == (0xc000 + i) as u16,
    ;
    assert(i < 0x4000u16 ==> ((0x8000u16 | i) & 0xbfffu16) == (0x8000u16 | i) && ((0xc000u16 | i)
        & 0xbfffu16) == (0x8000u16 | i)) by (bit_vector);
}

/// A byte written through the mapper to save-RAM, program-ROM or
/// character-ROM is what the next read of that address returns, and the
/// mapper stays well formed.
pub proof fn lemma_write_then_read(m: MapperState, address: u16, data: u8)
    requires
        m.wf(),
        address < 0x2000 || address >= 0x6000,
    ensures
        mapper_write(m, address, data).wf(),
        mapper_read(mapper_write(m, address, data), address) == data,
{
    if address >= 0x8000 {
        lemma_prg_index_in_bounds(m.mirrored, address);
    }
}

} // verus!
