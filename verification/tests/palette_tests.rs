//! Palette RAM: the four background and four sprite palettes and the
//! mirroring of `$3F20-$3FFF` onto `$3F00-$3F1F`.

use emulator::palette_ram::{Palette, PaletteRAM, PaletteType};

#[test]
fn palette_initializes_correctly() {
    let palette = Palette::new(0);
    assert_eq!(palette.background_entries, vec![0u8; 4]);
    assert_eq!(palette.sprite_entries, vec![0u8; 4]);
}

#[test]
fn set_and_get_background_palette_entry() {
    let mut palette = Palette::new(0);
    palette.set_palette(PaletteType::Background, 2, 0x3F);
    assert_eq!(palette.get_palette(PaletteType::Background, 2), 0x3F);
}

#[test]
fn set_and_get_sprite_palette_entry() {
    let mut palette = Palette::new(0);
    palette.set_palette(PaletteType::Sprite, 1, 0x1F);
    assert_eq!(palette.get_palette(PaletteType::Sprite, 1), 0x1F);
}

#[test]
fn palette_ram_initializes_correctly() {
    let palette_ram = PaletteRAM::new();
    for palette in &palette_ram.palettes {
        assert_eq!(palette.background_entries, vec![0u8; 4]);
        assert_eq!(palette.sprite_entries, vec![0u8; 4]);
    }
}

#[test]
fn read_write_palette_ram_within_bounds() {
    let mut palette_ram = PaletteRAM::new();
    palette_ram.write(0x3F00, 0x12);
    assert_eq!(palette_ram.read(0x3F00), 0x12);
}

#[test]
fn read_write_palette_ram_mirrored_address() {
    let mut palette_ram = PaletteRAM::new();
    palette_ram.write(0x3F20, 0x34);
    assert_eq!(palette_ram.read(0x3F00), 0x34);
}

#[test]
fn distinct_palette_slots_hold_distinct_bytes() {
    let mut palette_ram = PaletteRAM::new();
    palette_ram.write(0x3F00, 0x01);
    palette_ram.write(0x3F04, 0x02);
    palette_ram.write(0x3F0D, 0x03);
    palette_ram.write(0x3F10, 0x04);
    assert_eq!(palette_ram.read(0x3F00), 0x01);
    assert_eq!(palette_ram.read(0x3F04), 0x02);
    assert_eq!(palette_ram.read(0x3F0D), 0x03);
    assert_eq!(palette_ram.read(0x3F10), 0x04);
}
