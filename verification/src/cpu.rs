//! The CPU register/flag state and the fetch-decode-execute step.

use vstd::prelude::*;

verus! {

use crate::mem;
use crate::mem::advanced;
use crate::mem::byte_at;
use crate::mem::in_window;
use crate::mem::word_at;
use crate::mem::Memory;
use crate::mem::MemoryErrorReason;
use crate::ops;
use crate::ops::abs_operand;
use crate::ops::abs_operand_readable;
use crate::ops::AddressingMode;
use crate::ops::CpuOp;
use crate::ops::CpuOpFn;
use crate::PokunesError;

/// Where the reset routine finds the address execution begins at.
pub const RESET_VECTOR_ADDRESS: u16 = 0xFFFC;

/// Reasons the CPU refuses to execute: an opcode byte absent from the
/// instruction table, or an instruction invoked with an addressing mode it
/// does not support.
#[derive(Debug)]
pub enum CpuErrorReason {
    UnsupportedOperation(u8),
    UnsupportedAddressingMode(String, AddressingMode),
}

/// One processor-status flag. The architectural "Unused" bit is deliberately
/// not modeled.
#[derive(Clone, Copy, Debug, PartialEq, Eq, Structural)]
pub enum ProcessorStatusFlag {
    CarryFlag,
    ZeroFlag,
    InterruptDisable,
    DecimalMode,
    BreakCommand,
    OverflowFlag,
    NegativeFlag,
}

/// The bit that stores `flag` in the status register.
pub open spec fn spec_flag_mask(flag: ProcessorStatusFlag) -> u8 {
    match flag {
        ProcessorStatusFlag::CarryFlag => 0x80,
        ProcessorStatusFlag::ZeroFlag => 0x40,
        ProcessorStatusFlag::InterruptDisable => 0x20,
        ProcessorStatusFlag::DecimalMode => 0x10,
        ProcessorStatusFlag::BreakCommand => 0x08,
        ProcessorStatusFlag::OverflowFlag => 0x04,
        ProcessorStatusFlag::NegativeFlag => 0x02,
    }
}

/// The bit that stores `flag`, as an executable value.
pub fn flag_mask(flag: ProcessorStatusFlag) -> (mask: u8)
    ensures
        mask == spec_flag_mask(flag),
{
    match flag {
        ProcessorStatusFlag::CarryFlag => 0x80,
        ProcessorStatusFlag::ZeroFlag => 0x40,
        ProcessorStatusFlag::InterruptDisable => 0x20,
        ProcessorStatusFlag::DecimalMode => 0x10,
        ProcessorStatusFlag::BreakCommand => 0x08,
        ProcessorStatusFlag::OverflowFlag => 0x04,
        ProcessorStatusFlag::NegativeFlag => 0x02,
    }
}

/// The status register with `flag` set (when `enable`) or cleared (when not),
/// every other bit untouched.
pub open spec fn spec_set_flag(bits: u8, flag: ProcessorStatusFlag, enable: bool) -> u8 {
    if enable {
        bits | spec_flag_mask(flag)
    } else {
        bits & !spec_flag_mask(flag)
    }
}

/// The 8-flag processor-status bitset.
#[derive(Clone, Copy, Debug, PartialEq, Eq, Structural)]
pub struct ProcessorStatusFlags {
    bits: u8,
}

impl ProcessorStatusFlags {
    /// The raw register bits.
    pub closed spec fn spec_bits(&self) -> u8 {
        self.bits
    }

    /// Whether `flag` is set.
    pub open spec fn spec_contains(&self, flag: ProcessorStatusFlag) -> bool {
        self.spec_bits() & spec_flag_mask(flag) != 0
    }

    /// The register with every flag clear.
    pub fn empty() -> (flags: Self)
        ensures
            flags.spec_bits() == 0,
    {
        ProcessorStatusFlags { bits: 0 }
    }

    /// The raw register bits.
    pub fn bits(&self) -> (bits: u8)
        ensures
            bits == self.spec_bits(),
    {
        self.bits
    }

    /// Whether `flag` is set.
    pub fn contains(&self, flag: ProcessorStatusFlag) -> (set: bool)
        ensures
            set == self.spec_contains(flag),
    {
        self.bits & flag_mask(flag) != 0
    }
}

/// The CPU state: program counter and processor-status flags. It is mutated
/// exclusively by `move_program_counter`, `update_processor_status` and the
/// reset routine, each of which consumes the old state and returns a new one.
pub struct Cpu {
    program_counter: u16,
    processor_status: ProcessorStatusFlags,
}

impl Cpu {
    /// The program counter.
    pub closed spec fn pc(&self) -> u16 {
        self.program_counter
    }

    /// The raw bits of the status register.
    pub closed spec fn status(&self) -> u8 {
        self.processor_status.spec_bits()
    }

    /// A CPU at power-on: program counter zero, all flags clear.
    pub fn new() -> (cpu: Self)
        ensures
            cpu.pc() == 0,
            cpu.status() == 0,
    {
        Cpu { program_counter: 0, processor_status: ProcessorStatusFlags::empty() }
    }

    /// The program counter.
    pub fn program_counter(&self) -> (pc: u16)
        ensures
            pc == self.pc(),
    {
        self.program_counter
    }

    /// The processor-status register.
    pub fn processor_status(&self) -> (status: ProcessorStatusFlags)
        ensures
            status.spec_bits() == self.status(),
    {
        self.processor_status
    }
}

/// Returns a CPU whose program counter is `address`; the flags are untouched.
/// Jumps replace the program counter through this primitive rather than by
/// addition.
pub fn move_program_counter(cpu: Cpu, address: u16) -> (moved: Cpu)
    ensures
        moved.pc() == address,
        moved.status() == cpu.status(),
{
    Cpu { program_counter: address, ..cpu }
}

/// Returns a CPU with `flag` set or cleared; the program counter and every
/// other flag are untouched. This is the only primitive that changes the
/// status register.
pub fn update_processor_status(cpu: Cpu, flag: ProcessorStatusFlag, enable: bool) -> (updated: Cpu)
    ensures
        updated.pc() == cpu.pc(),
        updated.status() == spec_set_flag(cpu.status(), flag, enable),
{
    let mask = flag_mask(flag);
    let bits = if enable {
        cpu.processor_status.bits | mask
    } else {
        cpu.processor_status.bits & !mask
    };
    Cpu { processor_status: ProcessorStatusFlags { bits }, ..cpu }
}

/// Distinct flags live in disjoint bits of the status register.
pub proof fn lemma_flag_masks_disjoint(flag: ProcessorStatusFlag, other: ProcessorStatusFlag)
    requires
        flag != other,
    ensures
        spec_flag_mask(flag) & spec_flag_mask(other) == 0,
{
    assert(0x80u8 & 0x40u8 == 0 && 0x80u8 & 0x20u8 == 0 && 0x80u8 & 0x10u8 == 0 && 0x80u8 & 0x08u8
        == 0 && 0x80u8 & 0x04u8 == 0 && 0x80u8 & 0x02u8 == 0 && 0x40u8 & 0x20u8 == 0 && 0x40u8
        & 0x10u8 == 0 && 0x40u8 & 0x08u8 == 0 && 0x40u8 & 0x04u8 == 0 && 0x40u8 & 0x02u8 == 0
        && 0x20u8 & 0x10u8 == 0 && 0x20u8 & 0x08u8 == 0 && 0x20u8 & 0x04u8 == 0 && 0x20u8 & 0x02u8
        == 0 && 0x10u8 & 0x08u8 == 0 && 0x10u8 & 0x04u8 == 0 && 0x10u8 & 0x02u8 == 0 && 0x08u8
        & 0x04u8 == 0 && 0x08u8 & 0x02u8 == 0 && 0x04u8 & 0x02u8 == 0) by (bit_vector);
    assert(forall|m1: u8, m2: u8| m1 & m2 == 0 ==> #[trigger] (m2 & m1) == 0) by (bit_vector);
}

/// Law: setting or clearing one flag determines that flag and leaves every
/// other flag exactly as it was.
pub proof fn lemma_set_flag_targets_single_flag(
    bits: u8,
    flag: ProcessorStatusFlag,
    enable: bool,
    other: ProcessorStatusFlag,
)
    ensures
        (spec_set_flag(bits, flag, enable) & spec_flag_mask(flag) != 0) == enable,
        other != flag ==> (spec_set_flag(bits, flag, enable) & spec_flag_mask(other) != 0) == (bits
            & spec_flag_mask(other) != 0),
{
    let m: u8 = spec_flag_mask(flag);
    assert(m != 0);
    assert((bits | m) & m != 0) by (bit_vector)
        requires
            m != 0,
    ;
    assert((bits & !m) & m == 0) by (bit_vector);
    if other != flag {
        lemma_flag_masks_disjoint(flag, other);
        let mo: u8 = spec_flag_mask(other);
        assert((bits | m) & mo == bits & mo) by (bit_vector)
            requires
                m & mo == 0,
        ;
        assert((bits & !m) & mo == bits & mo) by (bit_vector)
            requires
                m & mo == 0,
        ;
    }
}

/// Whether the fetch-decode-execute step succeeds from program counter `pc`
/// over storage `storage`: the program counter must sit in the cartridge
/// window, the opcode there must be in the instruction table, and a jump must
/// be able to read both of its operand bytes.
pub open spec fn step_ok(storage: Seq<u8>, pc: u16) -> bool {
    &&& in_window(pc)
    &&& (byte_at(storage, pc) == 0x78 || (byte_at(storage, pc) == 0x4C && abs_operand_readable(
        storage,
        pc,
    )))
}

/// The program counter after a successful step: past the instruction for SEI,
/// the jump target for JMP.
pub open spec fn step_pc(storage: Seq<u8>, pc: u16) -> u16 {
    if byte_at(storage, pc) == 0x78 {
        advanced(pc, 1)
    } else {
        abs_operand(storage, pc)
    }
}

/// The status register after a successful step: SEI sets `InterruptDisable`,
/// JMP touches no flag.
pub open spec fn step_status(storage: Seq<u8>, pc: u16, status: u8) -> u8 {
    if byte_at(storage, pc) == 0x78 {
        spec_set_flag(status, ProcessorStatusFlag::InterruptDisable, true)
    } else {
        status
    }
}

/// The fault a failing step raises: `InvalidAddress` for a fetch outside the
/// cartridge window, `UnsupportedOperation` for an opcode absent from the
/// instruction table, and `InvalidAddress` at the first unreadable operand
/// byte of a jump whose operand wraps out of the window.
pub open spec fn step_fault(storage: Seq<u8>, pc: u16, e: PokunesError) -> bool {
    if !in_window(pc) {
        e matches PokunesError::MemoryError(MemoryErrorReason::InvalidAddress(a)) && a == pc
    } else if byte_at(storage, pc) != 0x78 && byte_at(storage, pc) != 0x4C {
        e matches PokunesError::CpuError(CpuErrorReason::UnsupportedOperation(code)) && code
            == byte_at(storage, pc)
    } else if byte_at(storage, pc) == 0x4C && !in_window(advanced(pc, 1)) {
        e matches PokunesError::MemoryError(MemoryErrorReason::InvalidAddress(a)) && a == advanced(
            pc,
            1,
        )
    } else if byte_at(storage, pc) == 0x4C && !in_window(advanced(pc, 2)) {
        e matches PokunesError::MemoryError(MemoryErrorReason::InvalidAddress(a)) && a == advanced(
            pc,
            2,
        )
    } else {
        false
    }
}

/// Fetches the opcode at the program counter and looks it up in the
/// instruction table. The table is the single source of truth for which
/// opcodes are implemented; a byte absent from it fails with
/// `UnsupportedOperation` and nothing is executed.
pub fn read_next_op(cpu: Cpu, mem: Memory) -> (r: Result<(Cpu, Memory, CpuOp), PokunesError>)
    requires
        mem.is_loaded(),
    ensures
        !in_window(cpu.pc()) ==> (r matches Err(e)
            && (e matches PokunesError::MemoryError(MemoryErrorReason::InvalidAddress(a))
                && a == cpu.pc())),
        in_window(cpu.pc()) && byte_at(mem@, cpu.pc()) == 0x78 ==> (r matches Ok((c, m, op))
            && c == cpu
            && m@ == mem@
            && op.code == 0x78
            && op.accronym@ == "SEI"@
            && op.addressing_mode == AddressingMode::Implied
            && op.apply == CpuOpFn::Sei),
        in_window(cpu.pc()) && byte_at(mem@, cpu.pc()) == 0x4C ==> (r matches Ok((c, m, op))
            && c == cpu
            && m@ == mem@
            && op.code == 0x4C
            && op.accronym@ == "JMP"@
            && op.addressing_mode == AddressingMode::Absolute
            && op.apply == CpuOpFn::Jmp),
        in_window(cpu.pc()) && byte_at(mem@, cpu.pc()) != 0x78 && byte_at(mem@, cpu.pc()) != 0x4C
            ==> (r matches Err(e)
            && (e matches PokunesError::CpuError(CpuErrorReason::UnsupportedOperation(code))
                && code == byte_at(mem@, cpu.pc()))),
{
    let (mem, op_code) = match mem::read_u8(mem, cpu.program_counter()) {
        Ok(t) => t,
        Err(e) => {
            return Err(e);
        },
    };
    let op = if op_code == 0x78 {
        CpuOp {
            code: op_code,
            accronym: "SEI",
            addressing_mode: AddressingMode::Implied,
            apply: CpuOpFn::Sei,
        }
    } else if op_code == 0x4C {
        CpuOp {
            code: op_code,
            accronym: "JMP",
            addressing_mode: AddressingMode::Absolute,
            apply: CpuOpFn::Jmp,
        }
    } else {
        return Err(PokunesError::CpuError(CpuErrorReason::UnsupportedOperation(op_code)));
    };
    Ok((cpu, mem, op))
}

/// The reset routine: reads the 16-bit little-endian reset vector at 0xFFFC
/// through the bus, seeds the program counter with it, and clears every flag.
/// The incoming CPU state is discarded.
pub fn reset(_cpu: Cpu, mem: Memory) -> (r: Result<(Cpu, Memory), PokunesError>)
    requires
        mem.is_loaded(),
    ensures
        r matches Ok((c, m)) && c.pc() == word_at(mem@, RESET_VECTOR_ADDRESS) && c.status() == 0
            && m@ == mem@,
{
    let (mem, program_start_addr) = match mem::read_u16(mem, RESET_VECTOR_ADDRESS) {
        Ok(t) => t,
        Err(e) => {
            return Err(e);
        },
    };
    let cpu = move_program_counter(Cpu::new(), program_start_addr);
    Ok((cpu, mem))
}

/// Performs exactly one fetch-decode-execute step: reads the opcode at the
/// program counter, looks it up in the instruction table, resolves its
/// operand, and applies its effect function. Returns the new CPU and bus, or
/// the fault that aborted the step (in which case no partial state escapes).
pub fn tick(cpu: Cpu, mem: Memory) -> (r: Result<(Cpu, Memory), PokunesError>)
    requires
        mem.is_loaded(),
    ensures
        step_ok(mem@, cpu.pc()) ==> (r matches Ok((c, m))
            && c.pc() == step_pc(mem@, cpu.pc())
            && c.status() == step_status(mem@, cpu.pc(), cpu.status())
            && m@ == mem@),
        !step_ok(mem@, cpu.pc()) ==> (r matches Err(e) && step_fault(mem@, cpu.pc(), e)),
{
    let (cpu, mem, cpu_op) = match read_next_op(cpu, mem) {
        Ok(t) => t,
        Err(e) => {
            return Err(e);
        },
    };
    match cpu_op.apply {
        CpuOpFn::Sei => ops::sei(cpu, mem, cpu_op.addressing_mode),
        CpuOpFn::Jmp => ops::jmp(cpu, mem, cpu_op.addressing_mode),
    }
}

/// The CPU state `count` successful steps after `(pc, status)` over
/// `storage`: component 0 is the program counter, component 1 the status
/// register.
pub open spec fn run_state(storage: Seq<u8>, pc: u16, status: u8, count: nat) -> (u16, u8)
    decreases count,
{
    if count == 0 {
        (pc, status)
    } else {
        let prev = run_state(storage, pc, status, (count - 1) as nat);
        (step_pc(storage, prev.0), step_status(storage, prev.0, prev.1))
    }
}

/// Whether every one of the first `count` steps from `(pc, status)` over
/// `storage` succeeds.
pub open spec fn run_ok(storage: Seq<u8>, pc: u16, status: u8, count: nat) -> bool
    decreases count,
{
    count == 0 || (run_ok(storage, pc, status, (count - 1) as nat) && step_ok(
        storage,
        run_state(storage, pc, status, (count - 1) as nat).0,
    ))
}

/// When the first `long` steps of a run all succeed, so does every shorter
/// prefix, and the step taken from the end of that prefix succeeds too.
pub proof fn lemma_run_ok_prefix(storage: Seq<u8>, pc: u16, status: u8, short: nat, long: nat)
    requires
        short < long,
        run_ok(storage, pc, status, long),
    ensures
        run_ok(storage, pc, status, short),
        step_ok(storage, run_state(storage, pc, status, short).0),
    decreases long,
{
    if short + 1 < long {
        lemma_run_ok_prefix(storage, pc, status, short, (long - 1) as nat);
    }
}

} // verus!
