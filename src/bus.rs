use vstd::prelude::*;
use crate::cartridge::zeroed;
use crate::mapper::IMapper;
use crate::mapper::Mapper0;
use crate::mapper::MapperState;
use crate::mapper::mapper_read;
use crate::mapper::mapper_write;
use crate::mapper::lemma_write_then_read;

verus! {

/// Bytes of system RAM; the RAM window repeats them four times.
pub const RAM_SIZE: usize = 0x800;
pub const IO_REGISTERS_1_SIZE: usize = 8;
pub const IO_REGISTERS_2_SIZE: usize = 32;

/// The address after `a`, wrapping from 0xFFFF to 0x0000.
pub open spec fn next_addr(a: u16) -> u16 {
    if a == 0xffff {
        0
    } else {
        (a + 1) as u16
    }
}

/// The 16-bit word with low byte `lo` and high byte `hi`.
pub open spec fn make_word(lo: u8, hi: u8) -> u16 {
    ((hi as u16) << 8u16) | (lo as u16)
}

pub fn next_address(a: u16) -> (r: u16)
    ensures
        r == next_addr(a),
{
    if a == 0xffff {
        0
    } else {
        a + 1
    }
}

pub fn word_of(lo: u8, hi: u8) -> (r: u16)
    ensures
        r == make_word(lo, hi),
{
    ((hi as u16) << 8u16) | (lo as u16)
}

/// The 64 KiB address space as a device on the CPU's side.
pub trait IBus: Sized {
    spec fn wf(&self) -> bool;

    /// Whether `address` is backed, so that it can be read and written.
    spec fn maps(&self, address: u16) -> bool;

    /// The byte that a read of `address` returns.
    spec fn peek(&self, address: u16) -> u8;

    /// Whether `after` is this bus once `data` has been written to `address`.
    spec fn poke(&self, address: u16, data: u8, after: &Self) -> bool;

    fn writeb(&mut self, address: u16, data: u8)
        requires
            old(self).wf(),
            old(self).maps(address),
        ensures
            final(self).wf(),
            old(self).poke(address, data, final(self)),
            forall|b: u16| final(self).maps(b) == old(self).maps(b),
    ;

    /// Two byte writes: the low byte at `address`, then the high byte at the
    /// next address.
    fn writew(&mut self, address: u16, data: u16)
        requires
            old(self).wf(),
            old(self).maps(address),
            old(self).maps(next_addr(address)),
        ensures
            final(self).wf(),
            exists|mid: Self|
                #[trigger] old(self).poke(address, (data & 0xff) as u8, &mid) && mid.poke(
                    next_addr(address),
                    (data >> 8u16) as u8,
                    final(self),
                ),
            forall|b: u16| final(self).maps(b) == old(self).maps(b),
    ;

    fn readb(&self, address: u16) -> (r: u8)
        requires
            self.wf(),
            self.maps(address),
        ensures
            r == self.peek(address),
    ;

    /// Two byte reads: the low byte at `address`, the high byte at the next
    /// address.
    fn readw(&self, address: u16) -> (r: u16)
        requires
            self.wf(),
            self.maps(address),
            self.maps(next_addr(address)),
        ensures
            r == make_word(self.peek(address), self.peek(next_addr(address))),
    ;
}

/// What the CPU bus holds: system RAM and, once attached, the mapper's contents.
pub struct BusState {
    pub ram: Seq<u8>,
    pub mapper: Option<MapperState>,
}

impl BusState {
    pub open spec fn wf(self) -> bool {
        &&& self.ram.len() == RAM_SIZE
        &&& self.mapper matches Some(m) ==> m.wf()
    }
}

/// Cartridge-region addresses are backed only once a mapper is attached.
pub open spec fn bus_maps(s: BusState, address: u16) -> bool {
    address < 0x6000 || s.mapper is Some
}

pub open spec fn bus_read(s: BusState, address: u16) -> u8 {
    if address < 0x2000 {
        s.ram[(address & 0x07ff) as int]
    } else if address < 0x6000 {
        0
    } else {
        match s.mapper {
            Some(m) => mapper_read(m, address),
            None => 0,
        }
    }
}

pub open spec fn bus_write(s: BusState, address: u16, data: u8) -> BusState {
    if address < 0x2000 {
        BusState { ram: s.ram.update((address & 0x07ff) as int, data), ..s }
    } else if address < 0x6000 {
        s
    } else {
        match s.mapper {
            Some(m) => BusState { mapper: Some(mapper_write(m, address, data)), ..s },
            None => s,
        }
    }
}

pub proof fn lemma_ram_index(address: u16)
    ensures
        (address & 0x07ff) < 0x800,
{
    assert((address & 0x07ffu16) < 0x800u16) by (bit_vector);
}

/// The CPU's view of the address space: mirrored RAM, the stubbed I/O
/// windows, and the cartridge behind its mapper.
pub struct CPUBus {
    pub ram: Vec<u8>,
    pub io_regs_1: Vec<u8>,
    pub io_regs_2: Vec<u8>,
    pub mapper: Option<Mapper0>,
}

impl View for CPUBus {
    type V = BusState;

    open spec fn view(&self) -> BusState {
        BusState {
            ram: self.ram@,
            mapper: match self.mapper {
                Some(m) => Some(m@),
                None => None,
            },
        }
    }
}

impl CPUBus {
    /// A bus with zeroed RAM and no mapper.
    pub fn from() -> (r: CPUBus)
        ensures
            r.wf(),
            r@ == (BusState { ram: Seq::new(RAM_SIZE as nat, |i: int| 0u8), mapper: None }),
    {
        CPUBus {
            ram: zeroed(RAM_SIZE),
            io_regs_1: zeroed(IO_REGISTERS_1_SIZE),
            io_regs_2: zeroed(IO_REGISTERS_2_SIZE),
            mapper: None,
        }
    }

    /// Attaches the cartridge's mapper for the rest of the session.
    pub fn set_mapper(&mut self, mapper: Mapper0)
        requires
            old(self).wf(),
            mapper.wf(),
        ensures
            final(self).wf(),
            final(self)@ == (BusState { ram: old(self)@.ram, mapper: Some(mapper@) }),
    {
        self.mapper = Some(mapper);
    }
}

impl IBus for CPUBus {
    open spec fn wf(&self) -> bool {
        self@.wf()
    }

    open spec fn maps(&self, address: u16) -> bool {
        bus_maps(self@, address)
    }

    open spec fn peek(&self, address: u16) -> u8 {
        bus_read(self@, address)
    }

    open spec fn poke(&self, address: u16, data: u8, after: &Self) -> bool {
        after@ == bus_write(self@, address, data)
    }

    fn writeb(&mut self, address: u16, data: u8) {
        if address < 0x2000 {
            proof {
                lemma_ram_index(address);
            }
            self.ram.set((address & 0x07ff) as usize, data);
        } else if address < 0x6000 {
        } else {
            match &mut self.mapper {
                Some(m) => m.write(address, data),
                None => {},
            }
        }
    }

    fn writew(&mut self, address: u16, data: u16) {
        let next = next_address(address);
        self.writeb(address, (data & 0xff) as u8);
        let ghost mid = *self;
        self.writeb(next, (data >> 8u16) as u8);
        assert(old(self).poke(address, (data & 0xff) as u8, &mid));
    }

    fn readb(&self, address: u16) -> (r: u8) {
        if address < 0x2000 {
            proof {
                lemma_ram_index(address);
            }
            self.ram[(address & 0x07ff) as usize]
        } else if address < 0x6000 {
            0
        } else {
            match &self.mapper {
                Some(m) => m.read(address),
                None => 0,
            }
        }
    }

    fn readw(&self, address: u16) -> (r: u16) {
        let low = self.readb(address);
        let high = self.readb(next_address(address));
        word_of(low, high)
    }
}

/// RAM mirroring: each address of the RAM window reads the byte at its
/// image in the first 2 KiB, also after a write to that image, which both
/// then read back.
pub proof fn lemma_ram_mirroring(s: BusState, address: u16, data: u8)
    requires
        s.wf(),
        address < 0x2000,
    ensures
        bus_read(s, address) == bus_read(s, address & 0x07ff),
        bus_read(bus_write(s, address & 0x07ff, data), address) == bus_read(
            bus_write(s, address & 0x07ff, data),
            address & 0x07ff,
        ),
        bus_read(bus_write(s, address & 0x07ff, data), address) == data,
{
    assert(((address & 0x07ffu16) & 0x07ffu16) == (address & 0x07ffu16) && (address & 0x07ffu16)
        < 0x2000u16) by (bit_vector);
    lemma_ram_index(address);
}

/// A byte written through the bus to RAM or to a backed cartridge address
/// is what the next read of that address returns.
pub proof fn lemma_bus_write_then_read(s: BusState, address: u16, data: u8)
    requires
        s.wf(),
        address < 0x2000 || (address >= 0x6000 && s.mapper is Some),
    ensures
        bus_write(s, address, data).wf(),
        bus_read(bus_write(s, address, data), address) == data,
{
    if address < 0x2000 {
        lemma_ram_index(address);
    } else {
        lemma_write_then_read(s.mapper.unwrap(), address, data);
    }
}

} // verus!
