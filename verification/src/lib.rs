//! Instruction-execution core of a cartridge-based 8-bit CPU emulator.
//!
//! The crate models a memory bus that mirrors cartridge program storage over
//! the CPU's address window, an instruction table with per-opcode effect
//! functions, and a console driver that steps the machine one instruction at
//! a time. Every fault is surfaced as a structured [`PokunesError`] value.

use vstd::prelude::*;

pub mod cpu;
pub mod mem;
pub mod nes;
pub mod ops;
pub mod rom;

verus! {

use crate::cpu::CpuErrorReason;
use crate::mem::MemoryErrorReason;
use crate::nes::NesErrorReason;
use crate::nes::PowerStatus;
use crate::rom::Rom;

/// A fault raised by any component of the core. Faults abort the operation
/// in progress and are returned to the caller; nothing is retried.
#[derive(Debug)]
pub enum PokunesError {
    CpuError(CpuErrorReason),
    MemoryError(MemoryErrorReason),
    NesError(NesErrorReason),
}

/// Inserts the cartridge into a fresh console, powers it on, and drives the
/// CPU one instruction at a time, for at most `cycles` steps. The core
/// defines no halt condition of its own, so the budget is the only thing
/// besides a fault that stops the run; a caller that wants to drive the
/// console until the first fault passes the largest budget and calls again.
///
/// The run is deterministic: starting from the reset vector with all flags
/// clear, either every step within the budget succeeds and the console after
/// exactly `cycles` steps is returned, or the first failing step's fault is.
#[verifier::loop_isolation(false)]
pub fn emulate(rom: Rom, cycles: u64) -> (r: Result<nes::Nes, PokunesError>)
    requires
        mem::valid_rom_size(rom.prg_rom@),
    ensures
        ({
            let storage = rom.prg_rom@;
            let start_pc = mem::word_at(storage, cpu::RESET_VECTOR_ADDRESS);
            &&& cpu::run_ok(storage, start_pc, 0, cycles as nat) ==> (r matches Ok(n)
                && n.spec_power() == PowerStatus::On
                && n.spec_mem() == storage
                && n.spec_rom() == Some(rom)
                && n.spec_cpu().pc() == cpu::run_state(storage, start_pc, 0, cycles as nat).0
                && n.spec_cpu().status() == cpu::run_state(storage, start_pc, 0, cycles as nat).1)
            &&& !cpu::run_ok(storage, start_pc, 0, cycles as nat) ==> (r matches Err(fault)
                && exists|count: nat|
                    {
                        &&& count < cycles
                        &&& #[trigger] cpu::run_ok(storage, start_pc, 0, count)
                        &&& !cpu::step_ok(storage, cpu::run_state(storage, start_pc, 0, count).0)
                        &&& cpu::step_fault(
                            storage,
                            cpu::run_state(storage, start_pc, 0, count).0,
                            fault,
                        )
                    })
        }),
{
    let ghost storage = rom.prg_rom@;
    let ghost start_pc = mem::word_at(storage, cpu::RESET_VECTOR_ADDRESS);
    let nes = nes::Nes::new();
    let nes = match nes::insert_rom(nes, rom) {
        Ok(n) => n,
        Err(e) => {
            return Err(e);
        },
    };
    let nes = match nes::power_on(nes) {
        Ok(n) => n,
        Err(e) => {
            return Err(e);
        },
    };
    let mut nes = nes;
    let mut i: u64 = 0;
    while i < cycles
        invariant
            i <= cycles,
            nes.spec_power() == PowerStatus::On,
            nes.spec_mem() == storage,
            nes.spec_rom() == Some(rom),
            cpu::run_ok(storage, start_pc, 0, i as nat),
            cpu::run_state(storage, start_pc, 0, i as nat) == (
                nes.spec_cpu().pc(),
                nes.spec_cpu().status(),
            ),
        decreases cycles - i,
    {
        nes = match nes::next_cycle(nes) {
            Ok(n) => n,
            Err(fault) => {
                proof {
                    if cpu::run_ok(storage, start_pc, 0, cycles as nat) {
                        cpu::lemma_run_ok_prefix(storage, start_pc, 0, i as nat, cycles as nat);
                    }
                }
                return Err(fault);
            },
        };
        i = i + 1;
    }
    Ok(nes)
}

} // verus!
