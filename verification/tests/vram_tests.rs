//! VRAM nametable storage and the horizontal/vertical mirroring quadrants.

use emulator::mirroring::Mirroring;
use emulator::vram::VRAM;

#[test]
fn vram_initializes_correctly() {
    let vram = VRAM::new();
    assert_eq!(vram.nametable_1, vec![0u8; 0x400]);
    assert_eq!(vram.nametable_2, vec![0u8; 0x400]);
    assert_eq!(vram.mirroring, Mirroring::Horizontal);
}

#[test]
fn read_from_nametable_1_within_bounds() {
    let vram = VRAM::new();
    assert_eq!(vram.read_from_nametable_1(0x0000), 0);
    assert_eq!(vram.read_from_nametable_1(0x03FF), 0);
}

#[test]
fn write_to_nametable_1_within_bounds() {
    let mut vram = VRAM::new();
    vram.write_to_nametable_1(0x0000, 42);
    assert_eq!(vram.read_from_nametable_1(0x0000), 42);
}

#[test]
fn read_write_nametable_with_horizontal_mirroring() {
    let mut vram = VRAM::new();
    vram.write_to_nametable(0x0000, 42);
    assert_eq!(vram.read_from_nametable(0x0000), 42);
    vram.write_to_nametable(0x0400, 84);
    assert_eq!(vram.read_from_nametable(0x0400), 84);
}

#[test]
fn read_write_nametable_with_vertical_mirroring() {
    let mut vram = VRAM::new();
    vram.set_mirroring(Mirroring::Vertical);
    vram.write_to_nametable(0x0000, 42);
    assert_eq!(vram.read_from_nametable(0x0000), 42);
    vram.write_to_nametable(0x0400, 84);
    assert_eq!(vram.read_from_nametable(0x0400), 84);
}

#[test]
fn horizontal_mirroring_aliases_first_two_quadrants() {
    let mut vram = VRAM::new();
    // Under horizontal mirroring, $2400 and $2000 land on the same table.
    vram.write(0x2400, 0x5D);
    assert_eq!(vram.read(0x2000), 0x5D);
    // The second pair of quadrants lives on the other table.
    vram.write(0x2800, 0x77);
    assert_eq!(vram.read(0x2C00), 0x77);
    assert_eq!(vram.read(0x2000), 0x5D);
}

#[test]
fn vertical_mirroring_aliases_alternate_quadrants() {
    let mut vram = VRAM::new();
    vram.set_mirroring(Mirroring::Vertical);
    vram.write(0x2400, 0x5D);
    assert_eq!(vram.read(0x2C00), 0x5D);
    assert_eq!(vram.read(0x2000), 0);
    vram.write(0x2000, 0x11);
    assert_eq!(vram.read(0x2800), 0x11);
}

#[test]
fn nametable_region_mirrors_into_upper_range() {
    let mut vram = VRAM::new();
    // $3000-$3EFF mirrors $2000-$2EFF.
    vram.write(0x2005, 0x42);
    assert_eq!(vram.read(0x3005), 0x42);
}
