//! The PPU register facade: PPUCTRL, the PPUADDR latch discipline, the
//! PPUDATA read buffer, and the register-window mirroring.

use emulator::bus::PpuBus;
use emulator::ppu::PPU;

fn setup_ppu() -> PPU {
    let bus = PpuBus::new();
    PPU::new(bus)
}

#[test]
fn ppu_initialization() {
    let ppu = setup_ppu();

    assert_eq!(ppu.internal_read_buffer, 0);
    assert!(ppu.internal_w_register);
}

#[test]
fn ppu_write_to_ppu_ctrl() {
    let mut ppu = setup_ppu();

    ppu.write_to_ppu_ctrl(0b10000001);

    assert_eq!(ppu.ppu_ctrl.read(), 0b10000001);
}

#[test]
fn ppu_write_to_ppu_addr() {
    let mut ppu = setup_ppu();

    ppu.write_to_ppu_addr(0x21);
    assert_eq!(ppu.ppu_addr.read(), 0x2100);

    ppu.write_to_ppu_addr(0x37);
    assert_eq!(ppu.ppu_addr.read(), 0x2137);
}

#[test]
fn ppu_read_from_bus_returns_internal_buffer() {
    let mut ppu = setup_ppu();
    let internal_buffer = 0x69;

    ppu.set_internal_read_buffer(internal_buffer);
    ppu.ppu_addr.write(0x20, true);
    ppu.ppu_data.write(0x2000, 0xAB);
    let result = ppu.read_from_ppu_data();

    assert_eq!(result, internal_buffer);
}

#[test]
fn ppu_increment_addr_by_one_on_default_ppu_ctrl_mode() {
    let mut ppu = setup_ppu();

    ppu.ppu_addr.write(0x21, true);
    ppu.ppu_addr.write(0x36, false);
    ppu.increment_addr();

    assert_eq!(ppu.ppu_addr.read(), 0x2137);
}

#[test]
fn ppu_increment_addr_by_32_on_toggled_increment_mode() {
    let mut ppu = setup_ppu();

    ppu.ppu_addr.write(0x21, true);
    ppu.ppu_addr.write(0x17, false);
    ppu.ppu_ctrl.write(0b00000100);
    ppu.increment_addr();

    assert_eq!(ppu.ppu_addr.read(), 0x2137);
}

#[test]
fn ppu_mirror_write_to_ppu_addr() {
    let ppu = setup_ppu();
    assert_eq!(ppu.ppu_addr.read(), 0x0000);
}

#[test]
fn ppu_mirror_read_from_bus() {
    let mut ppu = setup_ppu();
    let internal_buffer = 0x69;

    ppu.set_internal_read_buffer(internal_buffer);
    let result = ppu.read(0x2247);

    assert_eq!(result, internal_buffer);
}

#[test]
fn ppu_status_read_resets_write_toggle() {
    let mut ppu = setup_ppu();

    // One PPUADDR write leaves the toggle on the low byte...
    ppu.write(0x2006, 0x21);
    assert!(!ppu.internal_w_register);

    // ...and a PPUSTATUS read brings it back to the high byte.
    let status = ppu.read(0x2002);
    assert_eq!(status, 0);
    assert!(ppu.internal_w_register);
}

#[test]
fn ppu_mask_byte_is_accepted() {
    let mut ppu = setup_ppu();

    ppu.write(0x2001, 0x5A);

    assert_eq!(ppu.ppu_mask, 0x5A);
}
