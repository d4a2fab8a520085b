use pokunes::cpu::CpuErrorReason;
use pokunes::cpu::ProcessorStatusFlag;
use pokunes::nes;
use pokunes::nes::Nes;
use pokunes::nes::NesErrorReason;
use pokunes::nes::PowerStatus;
use pokunes::rom::Rom;
use pokunes::PokunesError;

fn image(size: usize, writes: &[(usize, u8)]) -> Vec<u8> {
    let mut bytes = vec![0u8; size];
    for &(offset, value) in writes {
        bytes[offset] = value;
    }
    bytes
}

fn rom_with(size: usize, writes: &[(usize, u8)]) -> Rom {
    Rom { prg_rom_size: size, prg_rom: image(size, writes), trainer: false }
}

#[test]
fn it_works() {
    let result: i32 = 2 + 2;
    assert_eq!(result, 4);
}

#[test]
fn insert_rom_resets_to_the_reset_vector() {
    let rom = rom_with(32768, &[(0x7FFC, 0x10), (0x7FFD, 0x80)]);
    let nes = nes::insert_rom(Nes::new(), rom).unwrap();
    assert_eq!(nes.cpu().program_counter(), 0x8010);
    assert_eq!(nes.cpu().processor_status().bits(), 0);
    assert!(matches!(nes.power_status(), PowerStatus::Off));
}

#[test]
fn insert_rom_rejects_bad_image_size() {
    let rom = Rom { prg_rom_size: 100, prg_rom: vec![0u8; 100], trainer: false };
    assert!(matches!(
        nes::insert_rom(Nes::new(), rom),
        Err(PokunesError::MemoryError(_))
    ));
}

#[test]
fn insert_rom_twice_resets_to_the_same_value() {
    let first = rom_with(16384, &[(0x3FFC, 0x34), (0x3FFD, 0x92)]);
    let second = rom_with(16384, &[(0x3FFC, 0x34), (0x3FFD, 0x92)]);
    let nes = nes::insert_rom(Nes::new(), first).unwrap();
    let pc_first = nes.cpu().program_counter();
    let nes = nes::insert_rom(nes, second).unwrap();
    assert_eq!(pc_first, 0x9234);
    assert_eq!(nes.cpu().program_counter(), pc_first);
}

#[test]
fn power_on_without_cartridge_is_refused() {
    assert!(matches!(
        nes::power_on(Nes::new()),
        Err(PokunesError::NesError(NesErrorReason::NoRomInserted))
    ));
}

#[test]
fn next_cycle_while_off_is_refused() {
    assert!(matches!(
        nes::next_cycle(Nes::new()),
        Err(PokunesError::NesError(NesErrorReason::NotPowerOn))
    ));
    let rom = rom_with(32768, &[(0x7FFC, 0x00), (0x7FFD, 0x80)]);
    let nes = nes::insert_rom(Nes::new(), rom).unwrap();
    assert!(matches!(
        nes::next_cycle(nes),
        Err(PokunesError::NesError(NesErrorReason::NotPowerOn))
    ));
}

#[test]
fn power_on_is_idempotent() {
    let rom = rom_with(32768, &[(0x7FFC, 0x00), (0x7FFD, 0x80)]);
    let nes = nes::insert_rom(Nes::new(), rom).unwrap();
    let nes = nes::power_on(nes).unwrap();
    let nes = nes::power_on(nes).unwrap();
    assert!(matches!(nes.power_status(), PowerStatus::On));
    assert_eq!(nes.cpu().program_counter(), 0x8000);
}

#[test]
fn next_cycle_steps_one_instruction() {
    // Reset vector 0x8010; there: SEI, then JMP 0x8010.
    let rom = rom_with(
        32768,
        &[
            (0x7FFC, 0x10),
            (0x7FFD, 0x80),
            (0x0010, 0x78),
            (0x0011, 0x4C),
            (0x0012, 0x10),
            (0x0013, 0x80),
        ],
    );
    let nes = nes::insert_rom(Nes::new(), rom).unwrap();
    let nes = nes::power_on(nes).unwrap();
    let nes = nes::next_cycle(nes).unwrap();
    assert_eq!(nes.cpu().program_counter(), 0x8011);
    assert!(nes.cpu().processor_status().contains(ProcessorStatusFlag::InterruptDisable));
    let nes = nes::next_cycle(nes).unwrap();
    assert_eq!(nes.cpu().program_counter(), 0x8010);
}

#[test]
fn next_cycle_surfaces_unsupported_opcode() {
    let rom = rom_with(32768, &[(0x7FFC, 0x00), (0x7FFD, 0x80), (0x0000, 0xEA)]);
    let nes = nes::insert_rom(Nes::new(), rom).unwrap();
    let nes = nes::power_on(nes).unwrap();
    match nes::next_cycle(nes) {
        Err(PokunesError::CpuError(CpuErrorReason::UnsupportedOperation(code))) => {
            assert_eq!(code, 0xEA);
        }
        _ => panic!("opcode 0xEA is not in the table"),
    }
}

#[test]
fn emulate_runs_until_the_first_fault() {
    // Reset vector 0x8000; there: SEI, then an opcode outside the table.
    let rom = rom_with(
        32768,
        &[(0x7FFC, 0x00), (0x7FFD, 0x80), (0x0000, 0x78), (0x0001, 0xFF)],
    );
    match pokunes::emulate(rom, u64::MAX) {
        Err(PokunesError::CpuError(CpuErrorReason::UnsupportedOperation(code))) => {
            assert_eq!(code, 0xFF);
        }
        _ => panic!("the run must stop at the unknown opcode"),
    }
}

#[test]
fn emulate_stops_at_the_cycle_budget() {
    let rom = rom_with(
        32768,
        &[(0x7FFC, 0x00), (0x7FFD, 0x80), (0x0000, 0x78), (0x0001, 0xFF)],
    );
    let nes = pokunes::emulate(rom, 1).unwrap();
    assert_eq!(nes.cpu().program_counter(), 0x8001);
    assert!(nes.cpu().processor_status().contains(ProcessorStatusFlag::InterruptDisable));
    let rom = rom_with(32768, &[(0x7FFC, 0x00), (0x7FFD, 0x80), (0x0000, 0x78)]);
    let nes = pokunes::emulate(rom, 0).unwrap();
    assert_eq!(nes.cpu().program_counter(), 0x8000);
    assert_eq!(nes.cpu().processor_status().bits(), 0);
}
