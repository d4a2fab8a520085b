//! The instruction table's entry type, addressing-mode resolution, and the
//! per-instruction effect functions.

use vstd::prelude::*;

verus! {

use crate::cpu;
use crate::cpu::Cpu;
use crate::cpu::CpuErrorReason;
use crate::mem;
use crate::mem::advanced;
use crate::mem::in_window;
use crate::mem::word_at;
use crate::mem::Memory;
use crate::PokunesError;

/// How an instruction's operand bytes are interpreted.
#[derive(Clone, Copy, Debug, PartialEq, Eq, Structural)]
pub enum AddressingMode {
    Implied,
    Accumulator,
    Immediate,
    ZeroPage,
    Relative,
    Absolute,
    AbsoluteX,
}

/// Which effect function an instruction-table entry dispatches to.
#[derive(Clone, Copy, Debug, PartialEq, Eq, Structural)]
pub enum CpuOpFn {
    Sei,
    Jmp,
}

/// One instruction-table entry: the opcode byte, its mnemonic, the addressing
/// mode it was registered with, and the effect function it dispatches to.
pub struct CpuOp {
    pub code: u8,
    pub accronym: &'static str,
    pub addressing_mode: AddressingMode,
    pub apply: CpuOpFn,
}

/// Whether both operand bytes of an absolute-mode instruction whose opcode
/// sits at `pc` can be read: the two following addresses must stay inside the
/// cartridge window (they leave it only by wrapping past 0xFFFF).
pub open spec fn abs_operand_readable(storage: Seq<u8>, pc: u16) -> bool {
    in_window(advanced(pc, 1)) && in_window(advanced(pc, 2))
}

/// The 16-bit operand of an absolute-mode instruction whose opcode sits at
/// `pc`: the little-endian word formed from the two following bytes.
pub open spec fn abs_operand(storage: Seq<u8>, pc: u16) -> u16 {
    word_at(storage, advanced(pc, 1))
}

/// Resolves the operand of the instruction whose opcode sits at the program
/// counter, advancing the program counter past the opcode and the operand
/// bytes. Implied mode consumes no operand; absolute mode consumes the
/// little-endian word after the opcode. A mode this core has not wired up
/// fails with `UnsupportedAddressingMode`, naming the invoking instruction.
pub fn read_parameter(
    cpu: Cpu,
    mem: Memory,
    accronym: &'static str,
    addressing_mode: AddressingMode,
) -> (r: Result<(Cpu, Memory, Option<u16>), PokunesError>)
    requires
        mem.is_loaded(),
    ensures
        addressing_mode == AddressingMode::Implied ==> (r matches Ok((c, m, p))
            && c.pc() == advanced(cpu.pc(), 1)
            && c.status() == cpu.status()
            && m@ == mem@
            && p is None),
        addressing_mode == AddressingMode::Absolute && abs_operand_readable(mem@, cpu.pc())
            ==> (r matches Ok((c, m, p))
            && c.pc() == advanced(cpu.pc(), 3)
            && c.status() == cpu.status()
            && m@ == mem@
            && p == Some(abs_operand(mem@, cpu.pc()))),
        addressing_mode == AddressingMode::Absolute && !in_window(advanced(cpu.pc(), 1))
            ==> (r matches Err(e)
            && (e matches PokunesError::MemoryError(mem::MemoryErrorReason::InvalidAddress(a))
                && a == advanced(cpu.pc(), 1))),
        addressing_mode == AddressingMode::Absolute && in_window(advanced(cpu.pc(), 1))
            && !in_window(advanced(cpu.pc(), 2)) ==> (r matches Err(e)
            && (e matches PokunesError::MemoryError(mem::MemoryErrorReason::InvalidAddress(a))
                && a == advanced(cpu.pc(), 2))),
        addressing_mode != AddressingMode::Implied && addressing_mode != AddressingMode::Absolute
            ==> (r matches Err(e)
            && (e matches PokunesError::CpuError(
                CpuErrorReason::UnsupportedAddressingMode(name, m),
            ) && name@ == accronym@ && m == addressing_mode)),
{
    match addressing_mode {
        AddressingMode::Implied => {
            let program_counter = cpu.program_counter().wrapping_add(1);
            let cpu = cpu::move_program_counter(cpu, program_counter);
            Ok((cpu, mem, None))
        },
        AddressingMode::Absolute => {
            let operand_address = cpu.program_counter().wrapping_add(1);
            let (mem, parameter) = match mem::read_u16(mem, operand_address) {
                Ok(t) => t,
                Err(e) => {
                    return Err(e);
                },
            };
            let program_counter = cpu.program_counter().wrapping_add(3);
            let cpu = cpu::move_program_counter(cpu, program_counter);
            Ok((cpu, mem, Some(parameter)))
        },
        _ => Err(PokunesError::CpuError(CpuErrorReason::UnsupportedAddressingMode(
            accronym.to_owned(),
            addressing_mode,
        ))),
    }
}

/// Set-Interrupt-Disable: sets the `InterruptDisable` flag and advances the
/// program counter past the instruction; no other flag changes. Registered in
/// the instruction table under opcode 0x78 with implied addressing.
pub fn sei(cpu: Cpu, mem: Memory, addressing_mode: AddressingMode) -> (r: Result<
    (Cpu, Memory),
    PokunesError,
>)
    requires
        mem.is_loaded(),
    ensures
        addressing_mode == AddressingMode::Implied ==> (r matches Ok((c, m))
            && c.pc() == advanced(cpu.pc(), 1)
            && c.status() == cpu::spec_set_flag(
                cpu.status(),
                cpu::ProcessorStatusFlag::InterruptDisable,
                true,
            )
            && m@ == mem@),
        addressing_mode == AddressingMode::Absolute && abs_operand_readable(mem@, cpu.pc())
            ==> (r matches Ok((c, m))
            && c.pc() == advanced(cpu.pc(), 3)
            && c.status() == cpu::spec_set_flag(
                cpu.status(),
                cpu::ProcessorStatusFlag::InterruptDisable,
                true,
            )
            && m@ == mem@),
        addressing_mode == AddressingMode::Absolute && !in_window(advanced(cpu.pc(), 1))
            ==> (r matches Err(e)
            && (e matches PokunesError::MemoryError(mem::MemoryErrorReason::InvalidAddress(a))
                && a == advanced(cpu.pc(), 1))),
        addressing_mode == AddressingMode::Absolute && in_window(advanced(cpu.pc(), 1))
            && !in_window(advanced(cpu.pc(), 2)) ==> (r matches Err(e)
            && (e matches PokunesError::MemoryError(mem::MemoryErrorReason::InvalidAddress(a))
                && a == advanced(cpu.pc(), 2))),
        addressing_mode != AddressingMode::Implied && addressing_mode != AddressingMode::Absolute
            ==> (r matches Err(e)
            && (e matches PokunesError::CpuError(
                CpuErrorReason::UnsupportedAddressingMode(name, m),
            ) && name@ == "SEI"@ && m == addressing_mode)),
{
    let (cpu, mem, _) = match read_parameter(cpu, mem, "SEI", addressing_mode) {
        Ok(t) => t,
        Err(e) => {
            return Err(e);
        },
    };
    let cpu = cpu::update_processor_status(
        cpu,
        cpu::ProcessorStatusFlag::InterruptDisable,
        true,
    );
    Ok((cpu, mem))
}

/// Jump-Absolute: resolves the 16-bit target from the two bytes after the
/// opcode and replaces the program counter with it (it does not add). Any
/// addressing mode other than absolute fails with
/// `UnsupportedAddressingMode`, a guard against being registered under the
/// wrong mode. Registered under opcode 0x4C.
pub fn jmp(cpu: Cpu, mem: Memory, addressing_mode: AddressingMode) -> (r: Result<
    (Cpu, Memory),
    PokunesError,
>)
    requires
        mem.is_loaded(),
    ensures
        addressing_mode == AddressingMode::Absolute && abs_operand_readable(mem@, cpu.pc())
            ==> (r matches Ok((c, m))
            && c.pc() == abs_operand(mem@, cpu.pc())
            && c.status() == cpu.status()
            && m@ == mem@),
        addressing_mode == AddressingMode::Absolute && !in_window(advanced(cpu.pc(), 1))
            ==> (r matches Err(e)
            && (e matches PokunesError::MemoryError(mem::MemoryErrorReason::InvalidAddress(a))
                && a == advanced(cpu.pc(), 1))),
        addressing_mode == AddressingMode::Absolute && in_window(advanced(cpu.pc(), 1))
            && !in_window(advanced(cpu.pc(), 2)) ==> (r matches Err(e)
            && (e matches PokunesError::MemoryError(mem::MemoryErrorReason::InvalidAddress(a))
                && a == advanced(cpu.pc(), 2))),
        addressing_mode != AddressingMode::Absolute ==> (r matches Err(e)
            && (e matches PokunesError::CpuError(
                CpuErrorReason::UnsupportedAddressingMode(name, m),
            ) && name@ == "JMP"@ && m == addressing_mode)),
{
    match addressing_mode {
        AddressingMode::Absolute => {
            let (cpu, mem, jump_address) = match read_parameter(
                cpu,
                mem,
                "JMP",
                AddressingMode::Absolute,
            ) {
                Ok(t) => t,
                Err(e) => {
                    return Err(e);
                },
            };
            let cpu = cpu::move_program_counter(cpu, jump_address.unwrap());
            Ok((cpu, mem))
        },
        _ => Err(PokunesError::CpuError(CpuErrorReason::UnsupportedAddressingMode(
            "JMP".to_owned(),
            addressing_mode,
        ))),
    }
}

} // verus!
