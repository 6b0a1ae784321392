use cnese::bus::NesDatabus;
use cnese::cartridge::create_cartridge_from_ines;
use cnese::databus::Databus;
use cnese::nametable::Mirroring;
use cnese::ppu::Ppu;

fn bus(chr_ram: bool) -> NesDatabus {
    let prg = vec![0xEAu8; 0x4000];
    let chr: Vec<u8> = if chr_ram { Vec::new() } else { vec![0x11u8; 0x2000] };
    let cart = create_cartridge_from_ines(0, &prg, &chr, 0).unwrap();
    NesDatabus::new(cart)
}

fn set_vram_address(bus: &mut NesDatabus, address: u16) {
    bus.write(0x2006, (address >> 8) as u8);
    bus.write(0x2006, (address & 0xFF) as u8);
}

#[test]
fn ppudata_write_then_buffered_read() {
    let mut bus = bus(false);
    set_vram_address(&mut bus, 0x2123);
    bus.write(0x2007, 0x55);
    assert_eq!(bus.ppu.get_ppuaddr(), 0x2124);
    set_vram_address(&mut bus, 0x2123);
    let _stale = bus.read(0x2007);
    assert_eq!(bus.read(0x2007), 0x55);
    assert_eq!(bus.ppu.read_vram(&bus.cartridge, 0x2123), 0x55);
}

#[test]
fn palette_reads_are_immediate_and_mirrored() {
    let mut bus = bus(false);
    set_vram_address(&mut bus, 0x3F10);
    bus.write(0x2007, 0x2A);
    set_vram_address(&mut bus, 0x3F00);
    assert_eq!(bus.read(0x2007), 0x2A);
    set_vram_address(&mut bus, 0x3F05);
    bus.write(0x2007, 0x16);
    set_vram_address(&mut bus, 0x3F15);
    assert_eq!(bus.read(0x2007), 0);
    set_vram_address(&mut bus, 0x3F05);
    assert_eq!(bus.read(0x2007), 0x16);
}

#[test]
fn chr_ram_is_writable_and_chr_rom_is_not() {
    let mut ram = bus(true);
    set_vram_address(&mut ram, 0x0010);
    ram.write(0x2007, 0x99);
    assert_eq!(ram.cartridge.read_chr(0x0010), 0x99);
    let mut rom = bus(false);
    set_vram_address(&mut rom, 0x0010);
    rom.write(0x2007, 0x99);
    assert_eq!(rom.cartridge.read_chr(0x0010), 0x11);
}

#[test]
fn vram_increment_of_32() {
    let mut bus = bus(false);
    bus.write(0x2000, 0x04);
    set_vram_address(&mut bus, 0x2000);
    bus.write(0x2007, 1);
    assert_eq!(bus.ppu.get_ppuaddr(), 0x2020);
}

#[test]
fn status_read_clears_vblank_and_toggle() {
    let mut bus = bus(false);
    bus.ppu.ppustatus = 0xC0;
    bus.write(0x2006, 0x21);
    assert!(bus.ppu.write_toggle);
    let status = bus.read(0x2002);
    assert_eq!(status, 0xC0);
    assert_eq!(bus.ppu.get_ppustatus(), 0x40);
    assert!(!bus.ppu.write_toggle);
    // Mirrors of the register window behave the same.
    bus.ppu.ppustatus = 0x80;
    assert_eq!(bus.read(0x3FFA) & 0x80, 0x80);
    assert_eq!(bus.ppu.get_ppustatus(), 0x00);
}

#[test]
fn scroll_and_oam_registers() {
    let mut bus = bus(false);
    bus.write(0x2005, 0x12);
    bus.write(0x2005, 0x34);
    assert_eq!(bus.ppu.get_ppuscroll(), 0x1234);
    bus.write(0x2003, 0x10);
    bus.write(0x2004, 0xAB);
    assert_eq!(bus.ppu.get_oamaddr(), 0x11);
    bus.write(0x2003, 0x10);
    assert_eq!(bus.read(0x2004), 0xAB);
}

#[test]
fn frame_completes_after_a_full_pass() {
    let bus = bus(false);
    let mut ppu = Ppu::new(&bus.cartridge);
    let mut dots: u32 = 0;
    loop {
        dots += 1;
        if ppu.tick(&bus.cartridge) {
            break;
        }
    }
    assert_eq!(dots, 241 * 341);
    assert_eq!(ppu.scanline, 240);
    assert_eq!(ppu.scanline_cycle, 0);
}

#[test]
fn vblank_set_at_241_and_cleared_at_pre_render() {
    let bus = bus(false);
    let mut ppu = Ppu::new(&bus.cartridge);
    ppu.ppuctrl = 0x80;
    while !(ppu.scanline == 241 && ppu.scanline_cycle == 2) {
        ppu.tick(&bus.cartridge);
        if ppu.scanline < 241 {
            assert!(!ppu.get_nmi_signal());
        }
    }
    assert_eq!(ppu.get_ppustatus() & 0x80, 0x80);
    assert!(ppu.get_nmi_signal());
    while !(ppu.scanline == 261 && ppu.scanline_cycle == 2) {
        ppu.tick(&bus.cartridge);
    }
    assert_eq!(ppu.get_ppustatus() & 0x80, 0);
}

#[test]
fn odd_frames_skip_last_pre_render_dot() {
    let bus = bus(false);
    let mut ppu = Ppu::new(&bus.cartridge);
    ppu.framecount = 1;
    ppu.scanline_cycle = 339;
    ppu.tick(&bus.cartridge);
    assert_eq!((ppu.scanline, ppu.scanline_cycle), (0, 0));
    assert_eq!(ppu.framecount, 2);
    let mut even = Ppu::new(&bus.cartridge);
    even.scanline_cycle = 339;
    even.tick(&bus.cartridge);
    assert_eq!((even.scanline, even.scanline_cycle), (261, 340));
}

#[test]
fn background_pixels_reach_the_framebuffer() {
    // Tile 1 has its low plane all set: pattern value 1 everywhere.
    let prg = vec![0xEAu8; 0x4000];
    let mut chr = vec![0u8; 0x2000];
    for row in 0..8 {
        chr[16 + row] = 0xFF;
    }
    let cart = create_cartridge_from_ines(0, &prg, &chr, 1).unwrap();
    let mut bus = NesDatabus::new(cart);
    assert_eq!(bus.cartridge.get_mirroring(), Mirroring::Vertical);
    for i in 0..0x3C0u16 {
        set_vram_address(&mut bus, 0x2000 + i);
        bus.write(0x2007, 1);
    }
    set_vram_address(&mut bus, 0x3F00);
    bus.write(0x2007, 0x0F);
    bus.write(0x2007, 0x21);
    let mut frames = 0;
    while frames < 2 {
        if bus.ppu.tick(&bus.cartridge) {
            frames += 1;
        }
    }
    let fb = bus.ppu.get_framebuffer();
    assert_eq!(fb.len(), 256 * 240);
    assert_eq!(fb[100 * 256 + 100], 0x21);
}

#[test]
fn pattern_table_decoding() {
    let prg = vec![0xEAu8; 0x4000];
    let mut chr = vec![0u8; 0x2000];
    // Tile 0: first row low plane 0b1000_0001, high plane 0b1100_0000.
    chr[0] = 0b1000_0001;
    chr[8] = 0b1100_0000;
    // Tile 17 of the second table, row 2: both planes all set.
    chr[0x1000 + 17 * 16 + 2] = 0xFF;
    chr[0x1000 + 17 * 16 + 2 + 8] = 0xFF;
    let cart = create_cartridge_from_ines(0, &prg, &chr, 0).unwrap();
    let ppu = Ppu::new(&cart);
    let t0 = ppu.patterntable_to_texture_data(&cart, 0);
    assert_eq!(t0.len(), 128 * 128);
    assert_eq!(&t0[0..8], &[3, 2, 0, 0, 0, 0, 0, 1]);
    assert_eq!(t0[128], 0);
    let t1 = ppu.patterntable_to_texture_data(&cart, 1);
    let y = 8 + 2;
    let x = 8;
    assert_eq!(t1[y * 128 + x], 3);
    assert_eq!(t1[y * 128 + x + 7], 3);
    assert_eq!(t1[y * 128 + x + 8], 0);
}

#[test]
fn status_read_returns_stored_status() {
    let mut bus = bus(false);
    bus.ppu.ppustatus = 0x80;
    bus.write(0x2003, 0x01);
    assert_eq!(bus.read(0x2002), 0x80);
    assert_eq!(bus.ppu.get_ppustatus(), 0x00);
}
