use nes::{Oam, PpuAddr, PpuStatus, Ram};

#[test]
fn write_u8_twice_to_make_u16() {
    let mut ppu_addr = PpuAddr::new();
    let upper_addr = 0x23;
    let lower_addr = 0x45;

    ppu_addr.write(upper_addr);
    assert_eq!(ppu_addr.read(), 0x2300);

    ppu_addr.write(lower_addr);
    assert_eq!(ppu_addr.read(), 0x2345);
}

#[test]
fn reset_latch_test() {
    let mut ppu_addr = PpuAddr::new();
    ppu_addr.write(0x23);
    assert_eq!(ppu_addr.is_lower_addr(), true);

    ppu_addr.reset_latch();
    assert_eq!(ppu_addr.is_lower_addr(), false);
}

#[test]
fn to_u8_test() {
    let mut status = PpuStatus::new();
    assert_eq!(status.to_u8(), 0b00000000);

    status.vblank_flag = true;
    assert_eq!(status.to_u8(), 0b10000000);

    status.sprite_hit = true;
    assert_eq!(status.to_u8(), 0b11000000);

    status.sprite_overflow = true;
    assert_eq!(status.to_u8(), 0b11100000);
}

#[test]
fn ppu_addr_update_moves_address_on() {
    let mut ppu_addr = PpuAddr::new();
    ppu_addr.write(0x20);
    ppu_addr.write(0x00);
    ppu_addr.update(0x20);
    assert_eq!(ppu_addr.read(), 0x2020);
    assert_eq!(ppu_addr.is_lower_addr(), false);
}

#[test]
fn ppu_addr_high_write_keeps_low_byte_of_data() {
    let mut ppu_addr = PpuAddr::new();
    ppu_addr.write(0x123);
    assert_eq!(ppu_addr.read(), 0x2300);
}

#[test]
fn sprite_overflow_alone_sets_bit_five() {
    let mut status = PpuStatus::new();
    status.sprite_overflow = true;
    assert_eq!(status.to_u8(), 0b00100000);
}

#[test]
fn oam_write_data_advances_address() {
    let mut oam = Oam::new();
    let mut ram = Ram::new(0x100);
    oam.write_addr(0x10);
    assert_eq!(oam.get_addr(), 0x10);

    oam.write_data(&mut ram, 0xAB);
    assert_eq!(oam.get_addr(), 0x11);
    assert_eq!(ram.read(0x10), 0xAB);

    oam.write_addr(0x10);
    assert_eq!(oam.read_data(&ram), 0xAB);

    oam.reset_addr();
    assert_eq!(oam.get_addr(), 0);
    assert_eq!(oam.read_data(&ram), 0);
}
