//! PPU VRAM: two 1 KiB nametables with configurable mirroring.
//!
//! The device answers PPU-bus addresses `$2000-$3FFF`; `$3000-$3EFF` mirrors
//! `$2000-$2EFF`, so the relative address inside the device is `addr & $0FFF`.
//! The quadrant (of 1 KiB each) picks a physical table:
//!
//! * horizontal mirroring maps quadrants `{0,1,2,3}` to tables `{1,1,2,2}`;
//! * vertical mirroring maps them to `{1,2,1,2}`.

use crate::mirroring::Mirroring;
use vstd::prelude::*;

verus! {

#[derive(Debug)]
pub struct VRAM {
    pub nametable_1: Vec<u8>,
    pub nametable_2: Vec<u8>,
    pub mirroring: Mirroring,
}

/// Mathematical model of a `VRAM` value.
pub ghost struct VramView {
    pub nametable_1: Seq<u8>,
    pub nametable_2: Seq<u8>,
    pub mirroring: Mirroring,
}

impl View for VRAM {
    type V = VramView;

    open spec fn view(&self) -> VramView {
        VramView {
            nametable_1: self.nametable_1@,
            nametable_2: self.nametable_2@,
            mirroring: self.mirroring,
        }
    }
}

impl VramView {
    pub open spec fn wf(self) -> bool {
        &&& self.nametable_1.len() == 0x400
        &&& self.nametable_2.len() == 0x400
    }

    /// Does the relative address `rel` (within `$0000-$0FFF`) fall on
    /// physical table 1 under this mirroring?
    pub open spec fn uses_table_1(self, rel: u16) -> bool {
        match self.mirroring {
            Mirroring::Horizontal => rel < 0x800,
            Mirroring::Vertical => rel % 0x800 < 0x400,
        }
    }

    /// The byte that a read of absolute PPU-bus address `a` returns.
    pub open spec fn spec_read(self, a: u16) -> u8 {
        let rel = a & 0x0FFF;
        if self.uses_table_1(rel) {
            self.nametable_1[rel as int % 0x400]
        } else {
            self.nametable_2[rel as int % 0x400]
        }
    }

    /// The model after a write of `data` at absolute PPU-bus address `a`.
    pub open spec fn spec_write(self, a: u16, data: u8) -> VramView {
        let rel = a & 0x0FFF;
        if self.uses_table_1(rel) {
            VramView { nametable_1: self.nametable_1.update(rel as int % 0x400, data), ..self }
        } else {
            VramView { nametable_2: self.nametable_2.update(rel as int % 0x400, data), ..self }
        }
    }
}

impl VRAM {
    /// Both nametables zeroed, horizontal mirroring.
    pub fn new() -> (r: VRAM)
        ensures
            r@.wf(),
            r@.nametable_1 == Seq::<u8>::new(0x400, |i: int| 0u8),
            r@.nametable_2 == Seq::<u8>::new(0x400, |i: int| 0u8),
            r@.mirroring == Mirroring::Horizontal,
    {
        VRAM {
            nametable_1: crate::devices::Memory::new(0x400).mem,
            nametable_2: crate::devices::Memory::new(0x400).mem,
            mirroring: Mirroring::Horizontal,
        }
    }

    pub fn set_mirroring(&mut self, mirroring: Mirroring)
        ensures
            *final(self) == (VRAM { mirroring, ..*old(self) }),
    {
        self.mirroring = mirroring;
    }

    pub fn read_from_nametable_1(&self, addr: u16) -> (r: u8)
        requires
            self@.wf(),
            addr < 0x400,
        ensures
            r == self@.nametable_1[addr as int],
    {
        self.nametable_1[addr as usize]
    }

    pub fn read_from_nametable_2(&self, addr: u16) -> (r: u8)
        requires
            self@.wf(),
            addr < 0x400,
        ensures
            r == self@.nametable_2[addr as int],
    {
        self.nametable_2[addr as usize]
    }

    pub fn write_to_nametable_1(&mut self, addr: u16, value: u8)
        requires
            old(self)@.wf(),
            addr < 0x400,
        ensures
            final(self)@ == (VramView {
                nametable_1: old(self)@.nametable_1.update(addr as int, value),
                ..old(self)@
            }),
    {
        self.nametable_1.set(addr as usize, value);
    }

    pub fn write_to_nametable_2(&mut self, addr: u16, value: u8)
        requires
            old(self)@.wf(),
            addr < 0x400,
        ensures
            final(self)@ == (VramView {
                nametable_2: old(self)@.nametable_2.update(addr as int, value),
                ..old(self)@
            }),
    {
        self.nametable_2.set(addr as usize, value);
    }

    /// Read at a relative address within `$0000-$0FFF`, resolving the
    /// quadrant through the current mirroring.
    pub fn read_from_nametable(&self, addr: u16) -> (r: u8)
        requires
            self@.wf(),
            addr < 0x1000,
        ensures
            r == self@.spec_read(addr),
    {
        proof {
            assert(addr & 0x0FFF == addr) by (bit_vector)
                requires
                    addr < 0x1000,
            ;
        }
        if self.mirroring == Mirroring::Horizontal {
            if addr < 0x400 {
                self.read_from_nametable_1(addr)
            } else if addr < 0x800 {
                self.read_from_nametable_1(addr - 0x400)
            } else if addr < 0xC00 {
                self.read_from_nametable_2(addr - 0x800)
            } else {
                self.read_from_nametable_2(addr - 0xC00)
            }
        } else {
            if addr < 0x400 {
                self.read_from_nametable_1(addr)
            } else if addr < 0x800 {
                self.read_from_nametable_2(addr - 0x400)
            } else if addr < 0xC00 {
                self.read_from_nametable_1(addr - 0x800)
            } else {
                self.read_from_nametable_2(addr - 0xC00)
            }
        }
    }

    /// Write at a relative address within `$0000-$0FFF`, resolving the
    /// quadrant through the current mirroring.
    pub fn write_to_nametable(&mut self, addr: u16, value: u8)
        requires
            old(self)@.wf(),
            addr < 0x1000,
        ensures
            final(self)@ == old(self)@.spec_write(addr, value),
            final(self)@.wf(),
    {
        proof {
            assert(addr & 0x0FFF == addr) by (bit_vector)
                requires
                    addr < 0x1000,
            ;
        }
        if self.mirroring == Mirroring::Horizontal {
            if addr < 0x400 {
                self.write_to_nametable_1(addr, value)
            } else if addr < 0x800 {
                self.write_to_nametable_1(addr - 0x400, value)
            } else if addr < 0xC00 {
                self.write_to_nametable_2(addr - 0x800, value)
            } else {
                self.write_to_nametable_2(addr - 0xC00, value)
            }
        } else {
            if addr < 0x400 {
                self.write_to_nametable_1(addr, value)
            } else if addr < 0x800 {
                self.write_to_nametable_2(addr - 0x400, value)
            } else if addr < 0xC00 {
                self.write_to_nametable_1(addr - 0x800, value)
            } else {
                self.write_to_nametable_2(addr - 0xC00, value)
            }
        }
    }

    /// Read at an absolute PPU-bus address; `$3000-$3FFF` aliases
    /// `$2000-$2FFF`.
    pub fn read(&self, addr: u16) -> (r: u8)
        requires
            self@.wf(),
        ensures
            r == self@.spec_read(addr),
    {
        let rel = addr & 0x0FFF;
        proof {
            assert(rel < 0x1000 && rel & 0x0FFF == rel) by (bit_vector)
                requires
                    rel == addr & 0x0FFF,
            ;
        }
        self.read_from_nametable(rel)
    }

    /// Write at an absolute PPU-bus address; `$3000-$3FFF` aliases
    /// `$2000-$2FFF`.
    pub fn write(&mut self, addr: u16, data: u8)
        requires
            old(self)@.wf(),
        ensures
            final(self)@ == old(self)@.spec_write(addr, data),
            final(self)@.wf(),
    {
        let rel = addr & 0x0FFF;
        proof {
            assert(rel < 0x1000 && rel & 0x0FFF == rel) by (bit_vector)
                requires
                    rel == addr & 0x0FFF,
            ;
        }
        self.write_to_nametable(rel, data);
    }
}

} // verus!
