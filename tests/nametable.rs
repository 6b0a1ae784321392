use cnese::nametable::Mirroring::{Horizontal, Vertical};
use cnese::nametable::NametableMemory;

#[test]
fn test_horizontal() {
    let mem = NametableMemory::new(Horizontal);
    assert_eq!(mem._calc_address(0x2000), mem._calc_address(0x2400));
    assert_eq!(mem._calc_address(0x2001), mem._calc_address(0x2401));
    assert_eq!(mem._calc_address(0x23ff), mem._calc_address(0x27ff));
    assert_eq!(mem._calc_address(0x2800), mem._calc_address(0x2c00));
    assert_eq!(mem._calc_address(0x2801), mem._calc_address(0x2c01));
    assert_eq!(mem._calc_address(0x2bff), mem._calc_address(0x2fff));

    assert_ne!(mem._calc_address(0x2000), mem._calc_address(0x2800));
    assert_ne!(mem._calc_address(0x2001), mem._calc_address(0x2801));
    assert_ne!(mem._calc_address(0x23ff), mem._calc_address(0x2bff));
    assert_ne!(mem._calc_address(0x2400), mem._calc_address(0x2c00));
    assert_ne!(mem._calc_address(0x2401), mem._calc_address(0x2c01));
    assert_ne!(mem._calc_address(0x27ff), mem._calc_address(0x2bff));
}

#[test]
fn test_vertical() {
    let mem = NametableMemory::new(Vertical);
    assert_eq!(mem._calc_address(0x2000), mem._calc_address(0x2800));
    assert_eq!(mem._calc_address(0x2001), mem._calc_address(0x2801));
    assert_eq!(mem._calc_address(0x23ff), mem._calc_address(0x2bff));
    assert_eq!(mem._calc_address(0x2400), mem._calc_address(0x2c00));
    assert_eq!(mem._calc_address(0x2401), mem._calc_address(0x2c01));
    assert_eq!(mem._calc_address(0x27ff), mem._calc_address(0x2fff));

    assert_ne!(mem._calc_address(0x2000), mem._calc_address(0x2400));
    assert_ne!(mem._calc_address(0x2001), mem._calc_address(0x2401));
    assert_ne!(mem._calc_address(0x23ff), mem._calc_address(0x27ff));
    assert_ne!(mem._calc_address(0x2800), mem._calc_address(0x2C00));
    assert_ne!(mem._calc_address(0x2801), mem._calc_address(0x2c01));
    assert_ne!(mem._calc_address(0x2bff), mem._calc_address(0x2fff));
}

#[test]
fn horizontal_mirroring_write_read() {
    let mut mem = NametableMemory::new(Horizontal);
    mem.write(0x2000, 0xAA);
    assert_eq!(mem.read(0x2400), 0xAA);
    assert_eq!(mem.read(0x2800), 0);
}

#[test]
fn vertical_mirroring_write_read() {
    let mut mem = NametableMemory::new(Vertical);
    mem.write(0x2400, 0x5C);
    assert_eq!(mem.read(0x2C00), 0x5C);
    assert_eq!(mem.read(0x2000), 0);
    mem.write(0x2000, 0x11);
    assert_eq!(mem.read(0x2800), 0x11);
}

#[test]
fn upper_window_mirrors_lower() {
    let mut mem = NametableMemory::new(Horizontal);
    mem.write(0x2123, 0x77);
    assert_eq!(mem.read(0x3123), 0x77);
    mem.write(0x3E00, 0x42);
    assert_eq!(mem.read(0x2E00), 0x42);
}
