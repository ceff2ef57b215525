use vstd::prelude::*;
use crate::bus::BusState;
use crate::bus::CPUBus;
use crate::bus::RAM_SIZE;
use crate::cartridge::Cartridge;
use crate::cartridge::PRG_ROM_UNITS;
use crate::cpu::CPU;
use crate::cpu::CpuError;
use crate::cpu::CpuState;
use crate::cpu::InterruptVector;
use crate::cpu::interrupt_spec;
use crate::cpu::step_spec;
use crate::mapper::ConfigError;
use crate::mapper::MapperState;
use crate::mapper::config_check;
use crate::mapper::select_mapper;
use crate::registers::Registers;

verus! {

/// A session: one processor whose bus holds the cartridge's mapper.
pub struct Emulator {
    pub cpu: CPU,
}

impl Emulator {
    pub open spec fn wf(&self) -> bool {
        self.cpu.wf()
    }

    /// Attaches the mapper that the cartridge names to a fresh bus, with
    /// zeroed RAM and registers.
    pub fn new(cart: Cartridge) -> (r: Result<Emulator, ConfigError>)
        ensures
            cart.rom.header.mapper_no != 0 ==> r == Err::<Emulator, ConfigError>(
                ConfigError::UnsupportedMapper(cart.rom.header.mapper_no),
            ),
            cart.rom.header.mapper_no == 0 ==> match config_check(
                cart.rom.prg@.len(),
                cart.rom.chr@.len(),
                cart.sram@.len(),
            ) {
                Some(e) => r == Err::<Emulator, ConfigError>(e),
                None => r matches Ok(emu) && emu.wf() && emu.cpu@ == (CpuState {
                    regs: Registers { pc: 0, sp: 0, p: 0, a: 0, x: 0, y: 0 },
                    bus: BusState {
                        ram: Seq::new(RAM_SIZE as nat, |i: int| 0u8),
                        mapper: Some(
                            MapperState {
                                prg: cart.rom.prg@,
                                chr: cart.rom.chr@,
                                sram: cart.sram@,
                                mirrored: cart.rom.prg@.len() == PRG_ROM_UNITS,
                            },
                        ),
                    },
                }),
            },
    {
        match select_mapper(cart) {
            Err(e) => Err(e),
            Ok(mapper) => {
                let mut bus = CPUBus::from();
                bus.set_mapper(mapper);
                Ok(Emulator { cpu: CPU::new(bus) })
            },
        }
    }

    /// Runs one instruction; returns the cycles it took.
    pub fn clock(&mut self) -> (r: Result<u8, CpuError>)
        requires
            old(self).wf(),
        ensures
            final(self).wf(),
            (final(self).cpu@, r) == step_spec(old(self).cpu@),
    {
        self.cpu.execute()
    }

    /// Enters the reset handler; returns the cycles it took.
    pub fn reset(&mut self) -> (r: u8)
        requires
            old(self).wf(),
        ensures
            final(self).wf(),
            (final(self).cpu@, r) == interrupt_spec(old(self).cpu@, InterruptVector::RESET),
    {
        self.cpu.interrupt(InterruptVector::RESET)
    }
}

} // verus!
