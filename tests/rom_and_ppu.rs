use y_nes::apu::Apu;
use y_nes::cpu::Cpu;
use y_nes::nes::Nes;
use y_nes::ppu::Ppu;
use y_nes::rom::{LoadError, MirroringMode, Rom};
use y_nes::util::{get_addr, NES_PALETTE};

/// Creates a minimal valid iNES ROM for testing
fn make_test_rom(prg: &[u8], chr: &[u8], vertical_mirroring: bool) -> Vec<u8> {
    let prg_banks = if prg.len() <= 0x4000 { 1 } else { (prg.len() + 0x3FFF) / 0x4000 };
    let chr_banks = if chr.is_empty() { 0 } else { (chr.len() + 0x1FFF) / 0x2000 };
    let flags6 = if vertical_mirroring { 1u8 } else { 0u8 };
    let mut rom_data = vec![0x4E, 0x45, 0x53, 0x1A, prg_banks as u8, chr_banks as u8, flags6, 0, 0, 0, 0, 0, 0, 0, 0, 0];
    let mut prg_padded = vec![0u8; prg_banks * 0x4000];
    prg_padded[..prg.len()].copy_from_slice(prg);
    rom_data.extend_from_slice(&prg_padded);
    if chr_banks > 0 {
        let mut chr_padded = vec![0u8; chr_banks * 0x2000];
        chr_padded[..chr.len()].copy_from_slice(chr);
        rom_data.extend_from_slice(&chr_padded);
    }
    rom_data
}

#[test]
fn test_rom_parse_valid() {
    let rom_data = make_test_rom(&[0u8; 0x4000], &[0u8; 0x2000], true);
    let rom = Rom::load(&rom_data);
    assert!(rom.is_ok());
    let rom = rom.unwrap();
    assert_eq!(rom.mirroring, MirroringMode::Vertical);
    assert_eq!(rom.get_prog().len(), 0x4000);
    assert_eq!(rom.get_chr().len(), 0x2000);
}

#[test]
fn test_rom_parse_horizontal_mirroring() {
    let rom_data = make_test_rom(&[0u8; 0x4000], &[0u8; 0x2000], false);
    let rom = Rom::load(&rom_data).unwrap();
    assert_eq!(rom.mirroring, MirroringMode::Horizontal);
}

#[test]
fn test_rom_chr_ram_flag() {
    // 0 CHR banks → has_chr_ram should be true
    let rom_data = make_test_rom(&[0u8; 0x4000], &[], false);
    let rom = Rom::load(&rom_data).unwrap();
    assert!(rom.has_chr_ram());
    // CHR ROM is empty for CHR RAM ROMs (PPU owns the RAM now)
    assert_eq!(rom.get_chr().len(), 0);
}

#[test]
fn test_rom_invalid() {
    let result = Rom::load(&[0, 1, 2, 3]);
    assert!(result.is_err());
}

#[test]
fn test_nes_palette_length() {
    // NES_PALETTE should have 64 colors
    assert_eq!(NES_PALETTE.len(), 64);
}

#[test]
fn test_nes_palette_first_color() {
    // First color in NES palette is (84, 84, 84)
    assert_eq!(NES_PALETTE[0], [84, 84, 84]);
}

#[test]
fn test_get_addr() {
    assert_eq!(get_addr(0x12, 0x34), 0x1234);
    assert_eq!(get_addr(0xFF, 0x00), 0xFF00);
    assert_eq!(get_addr(0x00, 0xFF), 0x00FF);
}

#[test]
fn test_ppu_new_horizontal() {
    let ppu = Ppu::new(MirroringMode::Horizontal, false);
    let screen = ppu.get_screen();
    // Initially all pixels should be 0
    assert!(screen.iter().all(|&p| p == 0));
}

#[test]
fn test_ppu_new_vertical() {
    let ppu = Ppu::new(MirroringMode::Vertical, false);
    let screen = ppu.get_screen();
    assert!(screen.iter().all(|&p| p == 0));
}

#[test]
fn test_apu_new() {
    let apu = Apu::new();
    // Initial state: reading $4015 should return 0
    // (channels disabled by default)
    let _ = apu; // Just check it constructs without panic
}

#[test]
fn test_struct_sizes() {
    println!("=== STRUCT SIZES ===");
    println!("Ppu:          {} bytes", std::mem::size_of::<Ppu>());
    println!("Nes:          {} bytes", std::mem::size_of::<Nes>());
    println!("Option<Nes>:  {} bytes", std::mem::size_of::<Option<Nes>>());
    println!("Cpu:          {} bytes", std::mem::size_of::<Cpu>());
    println!("Apu:          {} bytes", std::mem::size_of::<Apu>());
    println!("Rom:          {} bytes", std::mem::size_of::<Rom>());
}

#[test]
fn console_rejects_unknown_mapper() {
    let mut rom_data = make_test_rom(&[0u8; 0x4000], &[0u8; 0x2000], false);
    rom_data[6] = 0x10;
    assert_eq!(Rom::load(&rom_data).unwrap().mapper(), 1);
    assert_eq!(Nes::new(&rom_data).err(), Some(LoadError::UnsupportedMapper));
    rom_data[6] = 0x00;
    rom_data[7] = 0x40;
    assert_eq!(Rom::load(&rom_data).unwrap().mapper(), 0x40);
    assert_eq!(Nes::new(&rom_data).err(), Some(LoadError::UnsupportedMapper));
}

#[test]
fn rom_rejects_truncated_image() {
    let rom_data = make_test_rom(&[0u8; 0x4000], &[0u8; 0x2000], false);
    assert_eq!(Rom::load(&rom_data[..rom_data.len() - 1]).err(), Some(LoadError::HeaderInvalid));
    let mut bad_magic = rom_data.clone();
    bad_magic[3] = 0x1B;
    assert_eq!(Rom::load(&bad_magic).err(), Some(LoadError::HeaderInvalid));
}

#[test]
fn rom_header_flags() {
    let mut rom_data = make_test_rom(&[0u8; 0x4000], &[], false);
    rom_data[6] = 0b0000_1010;
    let rom = Rom::load(&rom_data).unwrap();
    assert_eq!(rom.mirroring, MirroringMode::FourScreen);
    assert!(rom.has_battery());
    assert_eq!(rom.mapper(), 0);
}

#[test]
fn rom_prg_mirrors_16k_into_32k_window() {
    let mut prg = vec![0u8; 0x4000];
    prg[0x0123] = 0x77;
    let rom = Rom::load(&make_test_rom(&prg, &[], false)).unwrap();
    assert_eq!(rom.read_prg(0x8123), 0x77);
    assert_eq!(rom.read_prg(0xC123), 0x77);
}
