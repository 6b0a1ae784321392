use cnese::addressing::AddressingMode;
use cnese::databus::Databus;
use cnese::cartridge::{create_cartridge_from_ines, create_cartridge_from_raw, CartridgeError};
use cnese::ines::{load_cartridge, parse_ines, RomFormat};
use cnese::instruction::decode_instruction;
use cnese::nametable::Mirroring;
use cnese::nes::NES;

fn ines_image(prg_banks: u8, chr_banks: u8, flags6: u8, flags7: u8) -> Vec<u8> {
    let mut d = vec![0x4E, 0x45, 0x53, 0x1A, prg_banks, chr_banks, flags6, flags7];
    d.extend_from_slice(&[0u8; 8]);
    if flags6 & 4 != 0 {
        d.extend_from_slice(&[0xEEu8; 512]);
    }
    for bank in 0..prg_banks {
        d.extend(std::iter::repeat(0x10 + bank).take(0x4000));
    }
    for _ in 0..chr_banks {
        d.extend(std::iter::repeat(0x77u8).take(0x2000));
    }
    d
}

#[test]
fn ines_single_bank_is_mirrored() {
    let cart = parse_ines(&ines_image(1, 1, 0, 0)).unwrap();
    assert_eq!(cart.read_prg(0x8000), 0x10);
    assert_eq!(cart.read_prg(0xC000), 0x10);
    assert_eq!(cart.read_chr(0x1234), 0x77);
    assert_eq!(cart.get_mirroring(), Mirroring::Horizontal);
    assert_eq!(cart.get_instruction_offset(), 0x8000);
}

#[test]
fn ines_two_banks_and_trainer() {
    let cart = parse_ines(&ines_image(2, 1, 0x05, 0)).unwrap();
    assert_eq!(cart.read_prg(0x8000), 0x10);
    assert_eq!(cart.read_prg(0xBFFF), 0x10);
    assert_eq!(cart.read_prg(0xC000), 0x11);
    assert_eq!(cart.get_mirroring(), Mirroring::Vertical);
}

#[test]
fn ines_errors() {
    let mut bad = ines_image(1, 1, 0, 0);
    bad[3] = 0;
    assert!(matches!(parse_ines(&bad), Err(CartridgeError::InvalidMagic)));
    assert!(matches!(parse_ines(&[0x4E, 0x45]), Err(CartridgeError::InvalidMagic)));
    assert!(matches!(parse_ines(&[0x4E, 0x45, 0x53, 0x1A, 1]), Err(CartridgeError::Truncated)));
    let mut short = ines_image(1, 1, 0, 0);
    short.truncate(0x4000);
    assert!(matches!(parse_ines(&short), Err(CartridgeError::Truncated)));
    assert!(matches!(
        parse_ines(&ines_image(1, 1, 0x10, 0x00)),
        Err(CartridgeError::UnsupportedMapper(1))
    ));
    assert!(matches!(
        parse_ines(&ines_image(1, 1, 0x00, 0x40)),
        Err(CartridgeError::UnsupportedMapper(0x40))
    ));
    assert!(matches!(parse_ines(&ines_image(3, 1, 0, 0)), Err(CartridgeError::UnsupportedBankCount)));
    assert!(matches!(parse_ines(&ines_image(1, 2, 0, 0)), Err(CartridgeError::UnsupportedBankCount)));
}

#[test]
fn prg_ram_stores_and_rom_ignores_writes() {
    let prg = vec![0x42u8; 0x4000];
    let chr = vec![0u8; 0x2000];
    let mut cart = create_cartridge_from_ines(0, &prg, &chr, 0).unwrap();
    cart.write_prg(0x6000, 0x12);
    assert_eq!(cart.read_prg(0x6000), 0x12);
    cart.write_prg(0x8000, 0x12);
    assert_eq!(cart.read_prg(0x8000), 0x42);
    assert_eq!(cart.read_prg(0x5000), 0);
    assert_eq!(cart.read_chr_slice(0, 4).len(), 4);
}

#[test]
fn unsupported_mapper_from_parts() {
    let prg = vec![0u8; 0x4000];
    let chr = vec![0u8; 0x2000];
    assert!(matches!(
        create_cartridge_from_ines(4, &prg, &chr, 0),
        Err(CartridgeError::UnsupportedMapper(4))
    ));
}

#[test]
fn raw_cartridge_window() {
    let data = vec![0xA9u8, 0x01, 0x02];
    let cart = create_cartridge_from_raw(&data).unwrap();
    assert_eq!(cart.get_instruction_offset(), 0x4020);
    assert_eq!(cart.read_prg(0x4020), 0xA9);
    assert_eq!(cart.read_prg(0x4022), 0x02);
    assert_eq!(cart.read_prg(0x4023), 0xFF);
    let big = vec![0u8; 0xBFE1];
    assert!(matches!(create_cartridge_from_raw(&big), Err(CartridgeError::ImageTooLarge)));
}

#[test]
fn disassembly_text() {
    let mut prg = vec![0xEAu8; 0x4000];
    let program = [
        0xA9, 0x00, 0x6C, 0x34, 0x12, 0x91, 0x12, 0xBD, 0x01, 0x80, 0x0A, 0xB6, 0x10, 0xF0, 0xFB,
        0x02,
    ];
    prg[..program.len()].copy_from_slice(&program);
    let chr = vec![0u8; 0x2000];
    let cart = create_cartridge_from_ines(0, &prg, &chr, 0).unwrap();
    let mut nes = NES::new(cart);
    let (instructions, entry) = nes.deassemble_prg();
    assert_eq!(entry, 0x8000);
    let texts: Vec<String> = instructions.iter().take(9).map(|i| i.format()).collect();
    assert_eq!(
        texts,
        vec![
            "LDA #$00", "JMP ($1234)", "STA ($12),Y", "LDA $8001,X", "ASL A", "LDX $10,Y",
            "BEQ $FB", "## ", "NOP ",
        ]
    );
    let mut bus = nes.databus;
    let first = decode_instruction(&mut bus, 0x8000);
    assert_eq!(first.get_size(), 2);
    assert_eq!(AddressingMode::IndexedIndirectX.format(0x44), "($44,X)");
    assert_eq!(AddressingMode::Implied.format(0), "");
}

#[test]
fn controller_port_shifts_buttons() {
    let prg = vec![0xEAu8; 0x4000];
    let chr = vec![0u8; 0x2000];
    let cart = create_cartridge_from_ines(0, &prg, &chr, 0).unwrap();
    let mut nes = NES::new(cart);
    nes.controller_input(0, 0b0000_0101);
    nes.databus.write(0x4016, 1);
    nes.databus.write(0x4016, 0);
    let bits: Vec<u8> = (0..4).map(|_| nes.databus.read(0x4016) & 1).collect();
    assert_eq!(bits, vec![1, 0, 1, 0]);
}

#[test]
fn load_cartridge_by_format() {
    let cart = load_cartridge(&ines_image(1, 0, 0, 0), RomFormat::Ines).unwrap();
    assert_eq!(cart.get_instruction_offset(), 0x8000);
    assert_eq!(cart.read_chr(0), 0);
    let raw = load_cartridge(&[1, 2, 3], RomFormat::Raw).unwrap();
    assert_eq!(raw.get_instruction_offset(), 0x4020);
    assert!(matches!(load_cartridge(&[1, 2, 3], RomFormat::Ines), Err(CartridgeError::InvalidMagic)));
}

#[test]
fn fresh_prg_ram_reads_zero() {
    let cart = parse_ines(&ines_image(2, 1, 0, 0)).unwrap();
    for a in [0x6000u16, 0x6123, 0x7FFF] {
        assert_eq!(cart.read_prg(a), 0);
    }
}

#[test]
fn raw_image_is_read_only_on_the_bus() {
    let cart = create_cartridge_from_raw(&[0x11u8; 0x100]).unwrap();
    let mut nes = NES::new(cart);
    nes.databus.write(0x4020, 0x99);
    assert_eq!(nes.databus.read(0x4020), 0x11);
}
