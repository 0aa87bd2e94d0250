//! PPU palette RAM: 32 bytes at `$3F00-$3F1F`, mirrored across
//! `$3F20-$3FFF`.
//!
//! The 32 bytes are arranged as four 4-entry background palettes
//! (`$3F00-$3F0F`) followed by four 4-entry sprite palettes (`$3F10-$3F1F`).

use vstd::prelude::*;

verus! {

#[derive(Clone, Copy, PartialEq, Eq, Structural, Debug)]
pub enum PaletteType {
    Background,
    Sprite,
}

/// One palette slot: four background entries and four sprite entries.
#[derive(Debug)]
pub struct Palette {
    pub index: u8,
    pub background_entries: Vec<u8>,
    pub sprite_entries: Vec<u8>,
}

/// Mathematical model of a `Palette` value.
pub ghost struct PaletteView {
    pub index: u8,
    pub background_entries: Seq<u8>,
    pub sprite_entries: Seq<u8>,
}

impl View for Palette {
    type V = PaletteView;

    open spec fn view(&self) -> PaletteView {
        PaletteView {
            index: self.index,
            background_entries: self.background_entries@,
            sprite_entries: self.sprite_entries@,
        }
    }
}

impl PaletteView {
    pub open spec fn wf(self) -> bool {
        &&& self.background_entries.len() == 4
        &&& self.sprite_entries.len() == 4
    }

    pub open spec fn spec_get(self, palette_type: PaletteType, palette_index: u8) -> u8 {
        match palette_type {
            PaletteType::Background => self.background_entries[palette_index as int],
            PaletteType::Sprite => self.sprite_entries[palette_index as int],
        }
    }

    pub open spec fn spec_set(self, palette_type: PaletteType, palette_index: u8, value: u8)
        -> PaletteView {
        match palette_type {
            PaletteType::Background => PaletteView {
                background_entries: self.background_entries.update(palette_index as int, value),
                ..self
            },
            PaletteType::Sprite => PaletteView {
                sprite_entries: self.sprite_entries.update(palette_index as int, value),
                ..self
            },
        }
    }
}

impl Palette {
    pub fn new(index: u8) -> (r: Palette)
        ensures
            r@.wf(),
            r@.index == index,
            r@.background_entries == Seq::<u8>::new(4, |i: int| 0u8),
            r@.sprite_entries == Seq::<u8>::new(4, |i: int| 0u8),
    {
        Palette {
            index,
            background_entries: crate::devices::Memory::new(4).mem,
            sprite_entries: crate::devices::Memory::new(4).mem,
        }
    }

    pub fn set_palette(&mut self, palette_type: PaletteType, palette_index: u8, value: u8)
        requires
            old(self)@.wf(),
            palette_index < 4,
        ensures
            final(self)@ == old(self)@.spec_set(palette_type, palette_index, value),
            final(self)@.wf(),
    {
        match palette_type {
            PaletteType::Background => self.background_entries.set(palette_index as usize, value),
            PaletteType::Sprite => self.sprite_entries.set(palette_index as usize, value),
        }
    }

    pub fn get_palette(&self, palette_type: PaletteType, palette_index: u8) -> (r: u8)
        requires
            self@.wf(),
            palette_index < 4,
        ensures
            r == self@.spec_get(palette_type, palette_index),
    {
        match palette_type {
            PaletteType::Background => self.background_entries[palette_index as usize],
            PaletteType::Sprite => self.sprite_entries[palette_index as usize],
        }
    }
}

/// The 32-byte palette store, a PPU-bus device for `$3F00-$3FFF`.
#[derive(Debug)]
pub struct PaletteRAM {
    pub palettes: Vec<Palette>,
}

/// Mathematical model of a `PaletteRAM` value.
pub ghost struct PaletteRamView {
    pub palettes: Seq<PaletteView>,
}

impl View for PaletteRAM {
    type V = PaletteRamView;

    open spec fn view(&self) -> PaletteRamView {
        PaletteRamView { palettes: self.palettes@.map_values(|p: Palette| p@) }
    }
}

impl PaletteRamView {
    pub open spec fn wf(self) -> bool {
        &&& self.palettes.len() == 4
        &&& forall|i: int| 0 <= i < 4 ==> self.palettes[i].wf()
    }

    /// Where in the 32-byte store the absolute address `a` lands:
    /// which palette type, palette slot, and entry.
    pub open spec fn spec_type_of(a: u16) -> PaletteType {
        if a & 0x1F >= 0x10 {
            PaletteType::Sprite
        } else {
            PaletteType::Background
        }
    }

    pub open spec fn spec_slot_of(a: u16) -> int {
        ((a & 0x0F) / 4) as int
    }

    pub open spec fn spec_entry_of(a: u16) -> u8 {
        (a & 0x03) as u8
    }

    /// The byte that a read of absolute PPU-bus address `a` returns.
    pub open spec fn spec_read(self, a: u16) -> u8 {
        self.palettes[Self::spec_slot_of(a)].spec_get(Self::spec_type_of(a), Self::spec_entry_of(a))
    }

    /// The model after a write of `data` at absolute PPU-bus address `a`.
    pub open spec fn spec_write(self, a: u16, data: u8) -> PaletteRamView {
        PaletteRamView {
            palettes: self.palettes.update(
                Self::spec_slot_of(a),
                self.palettes[Self::spec_slot_of(a)].spec_set(
                    Self::spec_type_of(a),
                    Self::spec_entry_of(a),
                    data,
                ),
            ),
        }
    }
}

impl PaletteRAM {
    pub fn new() -> (r: PaletteRAM)
        ensures
            r@.wf(),
            forall|i: int| 0 <= i < 4 ==> {
                &&& (#[trigger] r@.palettes[i]).index == i
                &&& r@.palettes[i].background_entries == Seq::<u8>::new(4, |j: int| 0u8)
                &&& r@.palettes[i].sprite_entries == Seq::<u8>::new(4, |j: int| 0u8)
            },
    {
        let mut palettes: Vec<Palette> = Vec::new();
        palettes.push(Palette::new(0));
        palettes.push(Palette::new(1));
        palettes.push(Palette::new(2));
        palettes.push(Palette::new(3));
        PaletteRAM { palettes }
    }

    /// Reduce any `$3F20-$3FFF` alias into `$3F00-$3F1F`.
    pub fn mirror_address(&self, address: u16) -> (r: u16)
        ensures
            r == (0x3F00u16 | (address & 0x1F)),
            r & 0x1F == address & 0x1F,
    {
        proof {
            assert((0x3F00u16 | (address & 0x1F)) & 0x1F == address & 0x1F) by (bit_vector);
        }
        0x3F00 | (address & 0x1F)
    }

    fn locate(address: u16) -> (r: (PaletteType, usize, u8))
        ensures
            r.0 == PaletteRamView::spec_type_of(address),
            r.1 == PaletteRamView::spec_slot_of(address),
            r.2 == PaletteRamView::spec_entry_of(address),
            r.1 < 4,
            r.2 < 4,
    {
        let eff = address & 0x1F;
        let palette_type = if eff >= 0x10 {
            PaletteType::Sprite
        } else {
            PaletteType::Background
        };
        let slot = ((address & 0x0F) / 4) as usize;
        let entry = (address & 0x03) as u8;
        proof {
            assert((address & 0x0F) / 4 < 4 && (address & 0x03) < 4) by (bit_vector);
        }
        (palette_type, slot, entry)
    }

    /// Read at an absolute PPU-bus address in `$3F00-$3FFF` (any alias).
    pub fn read(&self, address: u16) -> (r: u8)
        requires
            self@.wf(),
        ensures
            r == self@.spec_read(address),
    {
        let (palette_type, slot, entry) = Self::locate(address);
        proof {
            assert(self@.palettes[slot as int] == self.palettes@[slot as int]@);
        }
        self.palettes[slot].get_palette(palette_type, entry)
    }

    /// Write at an absolute PPU-bus address in `$3F00-$3FFF` (any alias).
    pub fn write(&mut self, address: u16, data: u8)
        requires
            old(self)@.wf(),
        ensures
            final(self)@ == old(self)@.spec_write(address, data),
            final(self)@.wf(),
    {
        let (palette_type, slot, entry) = Self::locate(address);
        proof {
            assert(self@.palettes[slot as int] == self.palettes@[slot as int]@);
        }
        let palette = &mut self.palettes[slot];
        palette.set_palette(palette_type, entry, data);
        proof {
            assert(final(self)@.palettes =~= old(self)@.spec_write(address, data).palettes);
        }
    }
}

} // verus!
