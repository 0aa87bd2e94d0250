//! PPU integration: the PPUADDR/PPUDATA path through the PPU's private bus
//! to VRAM and palette RAM, with the buffered-read semantics.

use emulator::addressing::AddressRange;
use emulator::bus::{PpuBus, PpuDevice};
use emulator::palette_ram::PaletteRAM;
use emulator::ppu::PPU;
use emulator::vram::VRAM;

#[test]
fn test_ppu_vram_write() {
    let vram = VRAM::new();
    let mut ppu_bus = PpuBus::new();
    ppu_bus.register(PpuDevice::Vram(vram), AddressRange::new(0x2000, 0x3FFF));

    let mut ppu = PPU::new(ppu_bus);
    ppu.write(0x2006, 0x23);
    ppu.write(0x2006, 0x06);
    ppu.write(0x2007, 0x66);

    ppu.write(0x2006, 0x23);
    ppu.write(0x2006, 0x06);

    let vram_data = ppu.read(0x2007);
    assert_eq!(vram_data, 0x00);
    let vram_data_valid = ppu.read(0x2007);
    assert_eq!(vram_data_valid, 0x66);
}

#[test]
fn test_ppu_palette_ram_write() {
    let palette_ram = PaletteRAM::new();
    let mut ppu_bus = PpuBus::new();
    ppu_bus.register(
        PpuDevice::Palette(palette_ram),
        AddressRange::new(0x3F00, 0x3FFF),
    );

    let mut ppu = PPU::new(ppu_bus);
    ppu.write(0x2006, 0x3F);
    ppu.write(0x2006, 0x2C);
    ppu.write(0x2007, 0b00101001);

    ppu.write(0x2006, 0x3F);
    ppu.write(0x2006, 0x2C);

    let color_index = ppu.read(0x2007);
    assert_eq!(color_index, 0x00);
    let color_index_valid = ppu.read(0x2007);
    assert_eq!(color_index_valid, 0b00101001);
}
