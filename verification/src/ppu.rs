//! The PPU's memory-mapped register facade.
//!
//! The CPU sees the PPU as an 8-byte register window at `$2000-$2007`,
//! mirrored every 8 bytes up to `$3FFF`. PPUDATA accesses are forwarded to
//! the PPU's private bus at the address held in the PPUADDR latch; reads of
//! non-palette regions are served from a one-byte internal buffer that is
//! refilled after each read, so a read returns the previously fetched byte.
//!
//! Registers out of the core's scope (PPUMASK, OAMADDR, OAMDATA, PPUSCROLL)
//! accept their byte and have no further modeled effect; reads of write-only
//! registers return 0.

use crate::bus::{PpuBus, PpuBusView};
use crate::ppu_registers::{PPUAddr, PPUCtrl};
use vstd::prelude::*;

verus! {

/// Forwards PPUDATA traffic to the PPU's private bus.
pub struct PPUData {
    pub ppu_bus: PpuBus,
}

impl PPUData {
    pub fn new(ppu_bus: PpuBus) -> (r: PPUData)
        ensures
            r.ppu_bus == ppu_bus,
    {
        PPUData { ppu_bus }
    }

    pub fn read(&mut self, address: u16) -> (r: u8)
        requires
            old(self).ppu_bus@.wf(),
        ensures
            r == old(self).ppu_bus@.spec_read(address),
            final(self).ppu_bus@ == old(self).ppu_bus@.spec_accessed(),
            final(self).ppu_bus@.wf(),
    {
        self.ppu_bus.read(address)
    }

    pub fn write(&mut self, address: u16, value: u8)
        requires
            old(self).ppu_bus@.wf(),
        ensures
            final(self).ppu_bus@ == old(self).ppu_bus@.spec_write(address, value),
            final(self).ppu_bus@.wf(),
    {
        self.ppu_bus.write(address, value);
    }
}

/// The PPU as a CPU-bus device.
pub struct PPU {
    pub ppu_addr: PPUAddr,
    pub ppu_data: PPUData,
    pub ppu_ctrl: PPUCtrl,
    pub ppu_mask: u8,
    pub ppu_status: u8,
    pub internal_read_buffer: u8,
    pub internal_w_register: bool,
}

/// Mathematical model of a `PPU` value.
pub ghost struct PpuView {
    pub ppu_addr: PPUAddr,
    pub ppu_ctrl: PPUCtrl,
    pub ppu_mask: u8,
    pub ppu_status: u8,
    pub internal_read_buffer: u8,
    pub internal_w_register: bool,
    pub bus: PpuBusView,
}

impl View for PPU {
    type V = PpuView;

    open spec fn view(&self) -> PpuView {
        PpuView {
            ppu_addr: self.ppu_addr,
            ppu_ctrl: self.ppu_ctrl,
            ppu_mask: self.ppu_mask,
            ppu_status: self.ppu_status,
            internal_read_buffer: self.internal_read_buffer,
            internal_w_register: self.internal_w_register,
            bus: self.ppu_data.ppu_bus@,
        }
    }
}

impl PpuView {
    pub open spec fn wf(self) -> bool {
        &&& self.ppu_addr.wf()
        &&& self.bus.wf()
    }

    /// The register index (0-7) that the CPU-bus address `a` selects.
    pub open spec fn spec_register_of(a: u16) -> u16 {
        a % 8
    }

    /// The byte a CPU read at `a` returns.
    pub open spec fn spec_read(self, a: u16) -> u8 {
        let reg = Self::spec_register_of(a);
        if reg == 2 {
            self.ppu_status
        } else if reg == 7 {
            self.internal_read_buffer
        } else {
            0
        }
    }

    /// The PPU (and its private bus) after a CPU read at `a`.
    pub open spec fn spec_after_read(self, a: u16) -> PpuView {
        let reg = Self::spec_register_of(a);
        if reg == 2 {
            // Reading PPUSTATUS resets the address-latch toggle.
            PpuView { internal_w_register: true, ..self }
        } else if reg == 7 {
            let vram_addr = self.ppu_addr.spec_value() as u16;
            PpuView {
                ppu_addr: PPUAddr::from_value(
                    (self.ppu_addr.spec_value() + self.ppu_ctrl.spec_vram_increment()) % 0x4000,
                ),
                internal_read_buffer: self.bus.spec_read(vram_addr),
                bus: self.bus.spec_accessed(),
                ..self
            }
        } else {
            self
        }
    }

    /// The PPU (and its private bus) after a CPU write of `data` at `a`.
    pub open spec fn spec_after_write(self, a: u16, data: u8) -> PpuView {
        let reg = Self::spec_register_of(a);
        if reg == 0 {
            PpuView { ppu_ctrl: PPUCtrl { bits: data }, ..self }
        } else if reg == 1 {
            PpuView { ppu_mask: data, ..self }
        } else if reg == 6 {
            let value = if self.internal_w_register {
                (data as int * 0x100 + self.ppu_addr.low_addr as int) % 0x4000
            } else {
                (self.ppu_addr.high_addr as int * 0x100 + data as int) % 0x4000
            };
            PpuView {
                ppu_addr: PPUAddr::from_value(value),
                internal_w_register: !self.internal_w_register,
                ..self
            }
        } else if reg == 7 {
            let vram_addr = self.ppu_addr.spec_value() as u16;
            PpuView {
                ppu_addr: PPUAddr::from_value(
                    (self.ppu_addr.spec_value() + self.ppu_ctrl.spec_vram_increment()) % 0x4000,
                ),
                bus: self.bus.spec_write(vram_addr, data),
                ..self
            }
        } else {
            // PPUSTATUS is read-only; OAMADDR, OAMDATA and PPUSCROLL are out
            // of the core's scope: the byte is accepted and dropped.
            self
        }
    }
}

impl PPU {
    pub fn new(ppu_bus: PpuBus) -> (r: PPU)
        requires
            ppu_bus@.wf(),
        ensures
            r@ == (PpuView {
                ppu_addr: PPUAddr { high_addr: 0, low_addr: 0 },
                ppu_ctrl: PPUCtrl { bits: 0 },
                ppu_mask: 0,
                ppu_status: 0,
                internal_read_buffer: 0,
                internal_w_register: true,
                bus: ppu_bus@,
            }),
            r@.wf(),
    {
        PPU {
            ppu_addr: PPUAddr::new(),
            ppu_data: PPUData::new(ppu_bus),
            ppu_ctrl: PPUCtrl::new(),
            ppu_mask: 0,
            ppu_status: 0,
            internal_read_buffer: 0,
            internal_w_register: true,
        }
    }

    /// Read PPUSTATUS: returns the status bits and resets the `w` toggle.
    pub fn read_from_ppu_status(&mut self) -> (r: u8)
        ensures
            r == old(self)@.ppu_status,
            final(self)@ == (PpuView { internal_w_register: true, ..old(self)@ }),
    {
        self.internal_w_register = true;
        self.ppu_status
    }

    /// Read PPUDATA: returns the buffer, refills it from the PPU bus at the
    /// current PPUADDR, and advances PPUADDR by the PPUCTRL increment.
    pub fn read_from_ppu_data(&mut self) -> (r: u8)
        requires
            old(self)@.wf(),
        ensures
            r == old(self)@.internal_read_buffer,
            final(self)@ == old(self)@.spec_after_read(0x2007),
            final(self)@.wf(),
    {
        let addr = self.ppu_addr.read();
        self.increment_addr();

        let current_buffer = self.internal_read_buffer;
        let result = self.ppu_data.read(addr);
        self.set_internal_read_buffer(result);
        current_buffer
    }

    pub fn write_to_ppu_ctrl(&mut self, data: u8)
        ensures
            final(self)@ == (PpuView { ppu_ctrl: PPUCtrl { bits: data }, ..old(self)@ }),
    {
        self.ppu_ctrl.write(data);
    }

    /// PPUMASK is out of the core's scope; the byte is accepted and held.
    pub fn write_to_ppu_mask(&mut self, data: u8)
        ensures
            final(self)@ == (PpuView { ppu_mask: data, ..old(self)@ }),
    {
        self.ppu_mask = data;
    }

    /// Write one half of PPUADDR, selected by the `w` toggle, then flip it.
    pub fn write_to_ppu_addr(&mut self, data: u8)
        ensures
            final(self)@ == old(self)@.spec_after_write(0x2006, data),
            final(self)@.ppu_addr.wf(),
    {
        self.ppu_addr.write(data, self.internal_w_register);
        self.invert_w_register();
    }

    /// Write PPUDATA: store to the PPU bus at the current PPUADDR, then
    /// advance PPUADDR by the PPUCTRL increment.
    pub fn write_to_ppu_data(&mut self, data: u8)
        requires
            old(self)@.wf(),
        ensures
            final(self)@ == old(self)@.spec_after_write(0x2007, data),
            final(self)@.wf(),
    {
        let addr = self.ppu_addr.read();
        self.ppu_data.write(addr, data);
        self.increment_addr();
    }

    /// Advance PPUADDR by the increment that PPUCTRL selects.
    pub fn increment_addr(&mut self)
        requires
            old(self)@.ppu_addr.wf(),
        ensures
            final(self)@ == (PpuView {
                ppu_addr: PPUAddr::from_value(
                    (old(self)@.ppu_addr.spec_value()
                        + old(self)@.ppu_ctrl.spec_vram_increment()) % 0x4000,
                ),
                ..old(self)@
            }),
            final(self)@.ppu_addr.wf(),
    {
        self.ppu_addr.increment(self.ppu_ctrl.get_vram_increment());
    }

    pub fn invert_w_register(&mut self)
        ensures
            final(self)@ == (PpuView {
                internal_w_register: !old(self)@.internal_w_register,
                ..old(self)@
            }),
    {
        self.internal_w_register = !self.internal_w_register;
    }

    pub fn set_internal_read_buffer(&mut self, data: u8)
        ensures
            final(self)@ == (PpuView { internal_read_buffer: data, ..old(self)@ }),
    {
        self.internal_read_buffer = data;
    }

    /// A CPU read of the register window; `$2008-$3FFF` mirrors `$2000-$2007`.
    pub fn read(&mut self, address: u16) -> (r: u8)
        requires
            old(self)@.wf(),
        ensures
            r == old(self)@.spec_read(address),
            final(self)@ == old(self)@.spec_after_read(address),
            final(self)@.wf(),
    {
        let reg = address & 0x7;
        proof {
            assert(address & 0x7 == address % 8) by (bit_vector);
        }
        if reg == 2 {
            self.read_from_ppu_status()
        } else if reg == 7 {
            self.read_from_ppu_data()
        } else {
            // Write-only or out-of-scope registers read as 0.
            0
        }
    }

    /// A CPU write to the register window; `$2008-$3FFF` mirrors
    /// `$2000-$2007`.
    pub fn write(&mut self, address: u16, data: u8)
        requires
            old(self)@.wf(),
        ensures
            final(self)@ == old(self)@.spec_after_write(address, data),
            final(self)@.wf(),
    {
        let reg = address & 0x7;
        proof {
            assert(address & 0x7 == address % 8) by (bit_vector);
        }
        if reg == 0 {
            self.write_to_ppu_ctrl(data);
        } else if reg == 1 {
            self.write_to_ppu_mask(data);
        } else if reg == 6 {
            self.write_to_ppu_addr(data);
        } else if reg == 7 {
            self.write_to_ppu_data(data);
        }
    }
}

} // verus!
