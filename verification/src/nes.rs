//! The console driver: composes the memory bus and the CPU into a
//! power-cycle state machine.

use vstd::prelude::*;

verus! {

use crate::cpu;
use crate::cpu::Cpu;
use crate::mem;
use crate::mem::valid_rom_size;
use crate::mem::word_at;
use crate::mem::Memory;
use crate::mem::MemoryErrorReason;
use crate::rom::Rom;
use crate::PokunesError;

/// Whether the console has been powered on.
#[derive(Clone, Copy, Debug, PartialEq, Eq, Structural)]
pub enum PowerStatus {
    On,
    Off,
}

/// Reasons a console transition is refused: powering on without a cartridge,
/// or ticking while the power is off.
#[derive(Clone, Copy, Debug, PartialEq, Eq, Structural)]
pub enum NesErrorReason {
    NoRomInserted,
    NotPowerOn,
}

/// The console: power status, CPU, memory bus, and the inserted cartridge if
/// any. Operations consume the console by value and return the updated one.
pub struct Nes {
    power_status: PowerStatus,
    cpu: Cpu,
    mem: Memory,
    rom: Option<Rom>,
}

impl Nes {
    /// Once a cartridge is in, the bus holds a valid image; the console is
    /// only ever on with a cartridge in.
    #[verifier::type_invariant]
    spec fn wf(self) -> bool {
        &&& self.rom is Some ==> self.mem.is_loaded()
        &&& self.power_status == PowerStatus::On ==> self.rom is Some
    }

    /// The power status.
    pub closed spec fn spec_power(&self) -> PowerStatus {
        self.power_status
    }

    /// The CPU state.
    pub closed spec fn spec_cpu(&self) -> Cpu {
        self.cpu
    }

    /// The bytes on the memory bus.
    pub closed spec fn spec_mem(&self) -> Seq<u8> {
        self.mem@
    }

    /// The inserted cartridge, if any.
    pub closed spec fn spec_rom(&self) -> Option<Rom> {
        self.rom
    }

    /// A console fresh from the factory: off, empty bus, no cartridge.
    pub fn new() -> (nes: Self)
        ensures
            nes.spec_power() == PowerStatus::Off,
            nes.spec_rom() is None,
            nes.spec_cpu().pc() == 0,
            nes.spec_cpu().status() == 0,
            nes.spec_mem() == Seq::<u8>::empty(),
    {
        Nes {
            power_status: PowerStatus::Off,
            cpu: Cpu::new(),
            mem: Default::default(),
            rom: None,
        }
    }

    /// The CPU state.
    pub fn cpu(&self) -> (cpu: &Cpu)
        ensures
            *cpu == self.spec_cpu(),
    {
        &self.cpu
    }

    /// The power status.
    pub fn power_status(&self) -> (status: PowerStatus)
        ensures
            status == self.spec_power(),
    {
        self.power_status
    }
}

/// Loads the cartridge image into the memory bus and performs the CPU reset:
/// the program counter is seeded from the image's reset vector and every flag
/// is cleared. Valid in either power state; the power state is untouched. An
/// image of an unsupported size is refused and the console is consumed.
pub fn insert_rom(nes: Nes, rom: Rom) -> (r: Result<Nes, PokunesError>)
    ensures
        valid_rom_size(rom.prg_rom@) ==> (r matches Ok(n)
            && n.spec_power() == nes.spec_power()
            && n.spec_mem() == rom.prg_rom@
            && n.spec_rom() == Some(rom)
            && n.spec_cpu().pc() == word_at(rom.prg_rom@, cpu::RESET_VECTOR_ADDRESS)
            && n.spec_cpu().status() == 0),
        !valid_rom_size(rom.prg_rom@) ==> (r matches Err(e)
            && (e matches PokunesError::MemoryError(MemoryErrorReason::InvalidRomSize(msg, size))
                && msg@ == "Only 16ko or 32ko roms are supported"@
                && size == rom.prg_rom@.len())),
{
    let Nes { power_status, cpu: old_cpu, mem: old_mem, rom: _ } = nes;
    let prg_rom = rom.prg_rom.clone();
    proof {
        assert(prg_rom@ =~= rom.prg_rom@);
    }
    let mem = match mem::load_rom(old_mem, prg_rom) {
        Ok(m) => m,
        Err(e) => {
            return Err(e);
        },
    };
    let (new_cpu, mem) = match cpu::reset(old_cpu, mem) {
        Ok(t) => t,
        Err(e) => {
            return Err(e);
        },
    };
    Ok(Nes { power_status, cpu: new_cpu, mem, rom: Some(rom) })
}

/// Powers the console on. Requires a cartridge to be present and fails with
/// `NoRomInserted` otherwise; powering on an already-on console is accepted
/// and changes nothing else.
pub fn power_on(nes: Nes) -> (r: Result<Nes, PokunesError>)
    ensures
        nes.spec_rom() is Some ==> (r matches Ok(n)
            && n.spec_power() == PowerStatus::On
            && n.spec_cpu() == nes.spec_cpu()
            && n.spec_mem() == nes.spec_mem()
            && n.spec_rom() == nes.spec_rom()),
        nes.spec_rom() is None ==> (r matches Err(e)
            && e matches PokunesError::NesError(NesErrorReason::NoRomInserted)),
{
    proof {
        use_type_invariant(&nes);
    }
    let Nes { power_status: _, cpu: the_cpu, mem, rom } = nes;
    match rom {
        None => Err(PokunesError::NesError(NesErrorReason::NoRomInserted)),
        Some(rom) => Ok(
            Nes { power_status: PowerStatus::On, cpu: the_cpu, mem, rom: Some(rom) },
        ),
    }
}

/// Advances the console by exactly one fetch-decode-execute step. Valid only
/// while the power is on; fails with `NotPowerOn` otherwise. A fault aborts
/// the step and consumes the console, so no partially updated state escapes.
pub fn next_cycle(nes: Nes) -> (r: Result<Nes, PokunesError>)
    ensures
        nes.spec_power() == PowerStatus::Off ==> (r matches Err(e)
            && e matches PokunesError::NesError(NesErrorReason::NotPowerOn)),
        nes.spec_power() == PowerStatus::On && cpu::step_ok(nes.spec_mem(), nes.spec_cpu().pc())
            ==> (r matches Ok(n)
            && n.spec_power() == PowerStatus::On
            && n.spec_mem() == nes.spec_mem()
            && n.spec_rom() == nes.spec_rom()
            && n.spec_cpu().pc() == cpu::step_pc(nes.spec_mem(), nes.spec_cpu().pc())
            && n.spec_cpu().status() == cpu::step_status(
                nes.spec_mem(),
                nes.spec_cpu().pc(),
                nes.spec_cpu().status(),
            )),
        nes.spec_power() == PowerStatus::On && !cpu::step_ok(nes.spec_mem(), nes.spec_cpu().pc())
            ==> (r matches Err(e) && cpu::step_fault(nes.spec_mem(), nes.spec_cpu().pc(), e)),
{
    proof {
        use_type_invariant(&nes);
    }
    let Nes { power_status, cpu: the_cpu, mem, rom } = nes;
    match power_status {
        PowerStatus::Off => Err(PokunesError::NesError(NesErrorReason::NotPowerOn)),
        PowerStatus::On => {
            let (the_cpu, mem) = match cpu::tick(the_cpu, mem) {
                Ok(t) => t,
                Err(e) => {
                    return Err(e);
                },
            };
            Ok(Nes { power_status: PowerStatus::On, cpu: the_cpu, mem, rom })
        },
    }
}

} // verus!
