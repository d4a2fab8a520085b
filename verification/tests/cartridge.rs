use pokunes::rom::Rom;

fn ines_file(prg_units: u8, flags6: u8, trainer_len: usize, payload_len: usize) -> Vec<u8> {
    let mut bytes = vec![0u8; 16];
    bytes[0] = 0x4E;
    bytes[1] = 0x45;
    bytes[2] = 0x53;
    bytes[3] = 0x1A;
    bytes[4] = prg_units;
    bytes[6] = flags6;
    for i in 0..trainer_len {
        bytes.push((i % 251) as u8);
    }
    for i in 0..payload_len {
        bytes.push((i % 241) as u8);
    }
    bytes
}

#[test]
fn read_prg_rom_size_counts_16k_units() {
    let (_, one) = Rom::read_prg_rom_size(ines_file(1, 0, 0, 16384));
    assert_eq!(one, 16384);
    let (_, two) = Rom::read_prg_rom_size(ines_file(2, 0, 0, 32768));
    assert_eq!(two, 32768);
}

#[test]
fn read_flags_6_decodes_the_trainer_bit() {
    let (_, without) = Rom::read_flags_6(ines_file(1, 0b0000_0011, 0, 16384));
    assert!(!without.trainer);
    let (_, with) = Rom::read_flags_6(ines_file(1, 0b0000_0100, 0, 16384));
    assert!(with.trainer);
}

#[test]
fn from_ines_bytes_extracts_the_program_storage() {
    let rom = Rom::from_ines_bytes(ines_file(1, 0, 0, 16384));
    assert_eq!(rom.prg_rom_size, 16384);
    assert!(!rom.trainer);
    assert_eq!(rom.prg_rom.len(), 16384);
    assert_eq!(rom.prg_rom[0], 0);
    assert_eq!(rom.prg_rom[5], 5);
    assert_eq!(rom.prg_rom[16383], (16383 % 241) as u8);
}

#[test]
fn from_ines_bytes_skips_a_trainer() {
    let rom = Rom::from_ines_bytes(ines_file(1, 0b0000_0100, 512, 16384));
    assert_eq!(rom.prg_rom_size, 16384);
    assert!(rom.trainer);
    assert_eq!(rom.prg_rom.len(), 16384);
    // The payload, not the trainer, is extracted: the two regions first
    // differ at offset 241 (241 % 241 == 0, while the trainer holds 241).
    assert_eq!(rom.prg_rom[241], 0);
    assert_eq!(rom.prg_rom[250], 9);
}
