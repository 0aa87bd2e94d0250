//! Register-local state of the PPU: the PPUCTRL flag byte and the PPUADDR
//! address latch.

use vstd::prelude::*;

verus! {

/// The PPUCTRL byte. Bit 2 selects the VRAM address increment applied after
/// every PPUDATA access: 0 adds 1 (across), 1 adds 32 (down).
#[derive(Debug)]
pub struct PPUCtrl {
    pub bits: u8,
}

pub const PPUCTRL_INCREMENT_MODE: u8 = 0b0000_0100;

impl PPUCtrl {
    pub fn new() -> (r: PPUCtrl)
        ensures
            r.bits == 0,
    {
        PPUCtrl { bits: 0 }
    }

    /// The VRAM increment selected by bit 2.
    pub open spec fn spec_vram_increment(self) -> u8 {
        if self.bits & PPUCTRL_INCREMENT_MODE != 0 {
            32
        } else {
            1
        }
    }

    pub fn get_vram_increment(&self) -> (r: u8)
        ensures
            r == self.spec_vram_increment(),
    {
        if self.bits & PPUCTRL_INCREMENT_MODE != 0 {
            32
        } else {
            1
        }
    }

    pub fn write(&mut self, data: u8)
        ensures
            final(self).bits == data,
    {
        self.bits = data;
    }

    pub fn read(&self) -> (r: u8)
        ensures
            r == self.bits,
    {
        self.bits
    }
}

/// The PPUADDR latch: a (high, low) byte pair holding the 14-bit VRAM
/// address, always mirrored into `$0000-$3FFF`.
#[derive(Debug)]
pub struct PPUAddr {
    pub high_addr: u8,
    pub low_addr: u8,
}

impl PPUAddr {
    /// The full address this latch holds.
    pub open spec fn spec_value(self) -> int {
        self.high_addr as int * 0x100 + self.low_addr as int
    }

    /// The latch never holds more than 14 bits.
    pub open spec fn wf(self) -> bool {
        self.high_addr <= 0x3F
    }

    /// The unique well-formed latch holding the 14-bit value `v`.
    pub open spec fn from_value(v: int) -> PPUAddr {
        PPUAddr { high_addr: (v / 0x100) as u8, low_addr: (v % 0x100) as u8 }
    }

    pub fn new() -> (r: PPUAddr)
        ensures
            r.spec_value() == 0,
            r.wf(),
    {
        PPUAddr { high_addr: 0x00, low_addr: 0x00 }
    }

    pub fn read(&self) -> (r: u16)
        ensures
            r == self.spec_value(),
            self.wf() ==> r <= 0x3FFF,
    {
        let r = ((self.high_addr as u16) << 8) | self.low_addr as u16;
        proof {
            let h = self.high_addr;
            let l = self.low_addr;
            assert(((h as u16) << 8) | (l as u16) == (h as u16) * 0x100 + (l as u16))
                by (bit_vector);
        }
        r
    }

    /// Bring the held address back into `$0000-$3FFF`.
    fn mirror_address(&mut self)
        ensures
            final(self).spec_value() == old(self).spec_value() % 0x4000,
            *final(self) == PPUAddr::from_value(old(self).spec_value() % 0x4000),
            final(self).wf(),
    {
        let v = self.read();
        let mirrored = v & 0x3FFF;
        self.high_addr = (mirrored >> 8) as u8;
        self.low_addr = (mirrored & 0xFF) as u8;
        proof {
            assert(mirrored == v % 0x4000 && (mirrored >> 8) <= 0x3F
                && (mirrored >> 8) * 0x100 + (mirrored & 0xFF) == mirrored
                && (mirrored >> 8) <= 0xFF && (mirrored & 0xFF) <= 0xFF)
                by (bit_vector)
                requires
                    mirrored == v & 0x3FFF,
            ;
        }
    }

    /// Set one half of the latch. `byte_flag` true targets the high byte,
    /// false the low byte; the result is mirrored into 14 bits.
    pub fn write(&mut self, data: u8, byte_flag: bool)
        ensures
            final(self).spec_value() == (if byte_flag {
                (data as int * 0x100 + old(self).low_addr as int) % 0x4000
            } else {
                (old(self).high_addr as int * 0x100 + data as int) % 0x4000
            }),
            *final(self) == PPUAddr::from_value(final(self).spec_value()),
            final(self).wf(),
    {
        if byte_flag {
            self.high_addr = data;
        } else {
            self.low_addr = data;
        }
        if self.read() > 0x3FFF {
            self.mirror_address();
        }
    }

    /// Advance the latch by `increment` (1 or 32), wrapping inside 14 bits.
    pub fn increment(&mut self, increment: u8)
        requires
            old(self).wf(),
        ensures
            final(self).spec_value() == (old(self).spec_value() + increment) % 0x4000,
            *final(self) == PPUAddr::from_value(final(self).spec_value()),
            final(self).wf(),
    {
        let current_low = self.low_addr;
        self.low_addr = self.low_addr.wrapping_add(increment);

        if current_low > self.low_addr {
            // The low byte wrapped, so carry into the high byte.
            self.high_addr = self.high_addr.wrapping_add(1);
        }

        if self.read() > 0x3FFF {
            self.mirror_address();
        }
    }
}

} // verus!
