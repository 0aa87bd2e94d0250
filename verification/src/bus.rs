//! The two-tier bus fabric.
//!
//! A bus holds a vector of devices and a flat mapping table with one entry
//! per address; entry `a` names the device that owns address `a`. Device 0
//! is always the empty device, so every address has exactly one owner and
//! unmapped reads return 0. Registering a device appends it and overwrites
//! the mapping entries of its range, so later registrations win.
//!
//! The CPU bus decodes all 65 536 addresses; the PPU bus decodes 16 384.

use crate::addressing::AddressRange;
use crate::devices::{ChrRam, ChrRom, EmptyDevice, Memory, PrgRam, PrgRom};
use crate::palette_ram::{PaletteRAM, PaletteRamView};
use crate::ppu::{PpuView, PPU};
use crate::vram::{VramView, VRAM};
use vstd::prelude::*;

verus! {

/// How many addresses the CPU bus decodes.
pub const CPU_ADDRESS_SPACE: usize = 0x10000;

/// How many addresses the PPU bus decodes.
pub const PPU_ADDRESS_SPACE: usize = 0x4000;

/// A device that can live on the PPU bus.
pub enum PpuDevice {
    Empty(EmptyDevice),
    Ram(Memory),
    ChrRom(ChrRom),
    ChrRam(ChrRam),
    Vram(VRAM),
    Palette(PaletteRAM),
}

/// Mathematical model of a `PpuDevice`.
pub ghost enum PpuDeviceView {
    Empty,
    Ram(Seq<u8>),
    ChrRom(Seq<u8>),
    ChrRam(Seq<u8>),
    Vram(VramView),
    Palette(PaletteRamView),
}

impl View for PpuDevice {
    type V = PpuDeviceView;

    open spec fn view(&self) -> PpuDeviceView {
        match self {
            PpuDevice::Empty(_) => PpuDeviceView::Empty,
            PpuDevice::Ram(m) => PpuDeviceView::Ram(m@),
            PpuDevice::ChrRom(r) => PpuDeviceView::ChrRom(r@),
            PpuDevice::ChrRam(r) => PpuDeviceView::ChrRam(r@),
            PpuDevice::Vram(v) => PpuDeviceView::Vram(v@),
            PpuDevice::Palette(p) => PpuDeviceView::Palette(p@),
        }
    }
}

impl PpuDeviceView {
    pub open spec fn wf(self) -> bool {
        match self {
            PpuDeviceView::Empty => true,
            PpuDeviceView::Ram(s) => s.len() > 0,
            PpuDeviceView::ChrRom(s) => s.len() > 0,
            PpuDeviceView::ChrRam(s) => s.len() > 0,
            PpuDeviceView::Vram(v) => v.wf(),
            PpuDeviceView::Palette(p) => p.wf(),
        }
    }

    /// The byte a read of absolute PPU-bus address `a` returns. No PPU-bus
    /// device changes state on a read.
    pub open spec fn spec_read(self, a: u16) -> u8 {
        match self {
            PpuDeviceView::Empty => 0,
            PpuDeviceView::Ram(s) => s[a as int % s.len() as int],
            PpuDeviceView::ChrRom(s) => s[a as int % s.len() as int],
            PpuDeviceView::ChrRam(s) => s[a as int % s.len() as int],
            PpuDeviceView::Vram(v) => v.spec_read(a),
            PpuDeviceView::Palette(p) => p.spec_read(a),
        }
    }

    /// The device after a write of `data` at absolute PPU-bus address `a`.
    pub open spec fn spec_write(self, a: u16, data: u8) -> PpuDeviceView {
        match self {
            PpuDeviceView::Empty => PpuDeviceView::Empty,
            PpuDeviceView::Ram(s) => PpuDeviceView::Ram(s.update(a as int % s.len() as int, data)),
            PpuDeviceView::ChrRom(s) => PpuDeviceView::ChrRom(
                s.update(a as int % s.len() as int, data),
            ),
            PpuDeviceView::ChrRam(s) => PpuDeviceView::ChrRam(
                s.update(a as int % s.len() as int, data),
            ),
            PpuDeviceView::Vram(v) => PpuDeviceView::Vram(v.spec_write(a, data)),
            PpuDeviceView::Palette(p) => PpuDeviceView::Palette(p.spec_write(a, data)),
        }
    }
}

impl PpuDevice {
    fn read(&self, address: u16) -> (r: u8)
        requires
            self@.wf(),
        ensures
            r == self@.spec_read(address),
    {
        match self {
            PpuDevice::Empty(d) => d.read(address),
            PpuDevice::Ram(m) => m.read(address),
            PpuDevice::ChrRom(r) => r.read(address),
            PpuDevice::ChrRam(r) => r.read(address),
            PpuDevice::Vram(v) => v.read(address),
            PpuDevice::Palette(p) => p.read(address),
        }
    }

    fn write(&mut self, address: u16, data: u8)
        requires
            old(self)@.wf(),
        ensures
            final(self)@ == old(self)@.spec_write(address, data),
            final(self)@.wf(),
    {
        match self {
            PpuDevice::Empty(d) => d.write(address, data),
            PpuDevice::Ram(m) => m.write(address, data),
            PpuDevice::ChrRom(r) => r.write(address, data),
            PpuDevice::ChrRam(r) => r.write(address, data),
            PpuDevice::Vram(v) => v.write(address, data),
            PpuDevice::Palette(p) => p.write(address, data),
        }
    }
}

/// The PPU's private 16 KiB address space.
pub struct PpuBus {
    pub devices: Vec<PpuDevice>,
    pub mappings: Vec<usize>,
    /// Counts every read or write this bus has served; purely a proof
    /// artifact for the one-access-per-tick accounting.
    pub accesses: Ghost<int>,
}

/// Mathematical model of a `PpuBus`.
pub ghost struct PpuBusView {
    pub devices: Seq<PpuDeviceView>,
    pub mappings: Seq<usize>,
    pub accesses: int,
}

impl View for PpuBus {
    type V = PpuBusView;

    open spec fn view(&self) -> PpuBusView {
        PpuBusView {
            devices: self.devices@.map_values(|d: PpuDevice| d@),
            mappings: self.mappings@,
            accesses: self.accesses@,
        }
    }
}

impl PpuBusView {
    pub open spec fn wf(self) -> bool {
        &&& self.mappings.len() == PPU_ADDRESS_SPACE
        &&& self.devices.len() >= 1
        &&& self.devices.len() <= usize::MAX
        &&& self.devices[0] is Empty
        &&& forall|a: int|
            0 <= a < PPU_ADDRESS_SPACE ==> (#[trigger] self.mappings[a]) < self.devices.len()
        &&& forall|d: int| 0 <= d < self.devices.len() ==> (#[trigger] self.devices[d]).wf()
    }

    /// Which device owns the address `a` (the bus decodes 14 bits).
    pub open spec fn spec_owner(self, a: u16) -> int {
        self.mappings[a as int % 0x4000] as int
    }

    /// The byte a read at `a` returns.
    pub open spec fn spec_read(self, a: u16) -> u8 {
        self.devices[self.spec_owner(a)].spec_read(a)
    }

    /// The bus after serving any one access.
    pub open spec fn spec_accessed(self) -> PpuBusView {
        PpuBusView { accesses: self.accesses + 1, ..self }
    }

    /// The bus after a write of `data` at `a`.
    pub open spec fn spec_write(self, a: u16, data: u8) -> PpuBusView {
        PpuBusView {
            devices: self.devices.update(
                self.spec_owner(a),
                self.devices[self.spec_owner(a)].spec_write(a, data),
            ),
            accesses: self.accesses + 1,
            ..self
        }
    }

    /// The bus after registering the device `d` over `range`.
    pub open spec fn spec_register(self, d: PpuDeviceView, range: AddressRange) -> PpuBusView {
        PpuBusView {
            devices: self.devices.push(d),
            mappings: Seq::new(
                PPU_ADDRESS_SPACE as nat,
                |a: int| if range.start <= a <= range.end {
                    self.devices.len() as usize
                } else {
                    self.mappings[a]
                },
            ),
            ..self
        }
    }
}

impl PpuBus {
    /// An empty bus: every address is owned by the empty device.
    pub fn new() -> (r: PpuBus)
        ensures
            r@.wf(),
            r@.devices =~= seq![PpuDeviceView::Empty],
            r@.mappings =~= Seq::new(PPU_ADDRESS_SPACE as nat, |a: int| 0usize),
            r@.accesses == 0,
    {
        let mut mappings: Vec<usize> = Vec::new();
        let mut i: usize = 0;
        while i < PPU_ADDRESS_SPACE
            invariant
                i <= PPU_ADDRESS_SPACE,
                mappings@ =~= Seq::new(i as nat, |a: int| 0usize),
            decreases PPU_ADDRESS_SPACE - i,
        {
            mappings.push(0);
            i = i + 1;
        }
        let mut devices: Vec<PpuDevice> = Vec::new();
        devices.push(PpuDevice::Empty(EmptyDevice));
        PpuBus { devices, mappings, accesses: Ghost(0) }
    }

    /// Install `device` as the owner of every address in `range`,
    /// overwriting prior mappings there.
    pub fn register(&mut self, device: PpuDevice, address_range: AddressRange)
        requires
            old(self)@.wf(),
            device@.wf(),
            address_range.wf(),
            address_range.end < PPU_ADDRESS_SPACE,
            old(self)@.devices.len() < usize::MAX,
        ensures
            final(self)@ == old(self)@.spec_register(device@, address_range),
            final(self)@.wf(),
    {
        let ghost old_view = self@;
        let new_index = self.devices.len();
        self.devices.push(device);
        let mut a: usize = address_range.start as usize;
        while a <= address_range.end as usize
            invariant
                address_range.start <= a <= address_range.end + 1,
                address_range.end < PPU_ADDRESS_SPACE,
                self@.devices == old_view.devices.push(device@),
                self@.accesses == old_view.accesses,
                new_index == old_view.devices.len(),
                self.mappings@.len() == PPU_ADDRESS_SPACE,
                forall|j: int| 0 <= j < PPU_ADDRESS_SPACE ==> #[trigger] self.mappings@[j]
                    == if address_range.start <= j < a { new_index } else { old_view.mappings[j] },
            decreases address_range.end + 1 - a,
        {
            self.mappings.set(a, new_index);
            a = a + 1;
        }
        proof {
            assert(self@.mappings =~= old_view.spec_register(device@, address_range).mappings);
        }
    }

    /// Dispatch a read to the owning device.
    pub fn read(&mut self, address: u16) -> (r: u8)
        requires
            old(self)@.wf(),
        ensures
            r == old(self)@.spec_read(address),
            final(self)@ == old(self)@.spec_accessed(),
            final(self)@.wf(),
    {
        self.accesses = Ghost(self.accesses@ + 1);
        proof {
            assert(address & 0x3FFF == address % 0x4000 && address % 0x4000 < 0x4000)
                by (bit_vector);
        }
        let idx = self.mappings[(address & 0x3FFF) as usize];
        proof {
            assert(self@.devices[idx as int] == self.devices@[idx as int]@);
        }
        self.devices[idx].read(address)
    }

    /// Dispatch a write to the owning device.
    pub fn write(&mut self, address: u16, data: u8)
        requires
            old(self)@.wf(),
        ensures
            final(self)@ == old(self)@.spec_write(address, data),
            final(self)@.wf(),
    {
        self.accesses = Ghost(self.accesses@ + 1);
        proof {
            assert(address & 0x3FFF == address % 0x4000 && address % 0x4000 < 0x4000)
                by (bit_vector);
        }
        let idx = self.mappings[(address & 0x3FFF) as usize];
        proof {
            assert(self@.devices[idx as int] == self.devices@[idx as int]@);
        }
        let device = &mut self.devices[idx];
        device.write(address, data);
        proof {
            assert(self@.devices =~= old(self)@.spec_write(address, data).devices);
        }
    }
}


/// A device that can live on the CPU bus.
pub enum CpuDevice {
    Empty(EmptyDevice),
    Ram(Memory),
    PrgRom(PrgRom),
    PrgRam(PrgRam),
    Ppu(PPU),
}

/// Mathematical model of a `CpuDevice`.
pub ghost enum CpuDeviceView {
    Empty,
    Ram(Seq<u8>),
    PrgRom(Seq<u8>),
    PrgRam(Seq<u8>),
    Ppu(PpuView),
}

impl View for CpuDevice {
    type V = CpuDeviceView;

    open spec fn view(&self) -> CpuDeviceView {
        match self {
            CpuDevice::Empty(_) => CpuDeviceView::Empty,
            CpuDevice::Ram(m) => CpuDeviceView::Ram(m@),
            CpuDevice::PrgRom(r) => CpuDeviceView::PrgRom(r@),
            CpuDevice::PrgRam(r) => CpuDeviceView::PrgRam(r@),
            CpuDevice::Ppu(p) => CpuDeviceView::Ppu(p@),
        }
    }
}

impl CpuDeviceView {
    pub open spec fn wf(self) -> bool {
        match self {
            CpuDeviceView::Empty => true,
            CpuDeviceView::Ram(s) => s.len() > 0,
            CpuDeviceView::PrgRom(s) => s.len() > 0,
            CpuDeviceView::PrgRam(s) => s.len() > 0,
            CpuDeviceView::Ppu(p) => p.wf(),
        }
    }

    /// The byte a read of absolute CPU-bus address `a` returns.
    pub open spec fn spec_read(self, a: u16) -> u8 {
        match self {
            CpuDeviceView::Empty => 0,
            CpuDeviceView::Ram(s) => s[a as int % s.len() as int],
            CpuDeviceView::PrgRom(s) => s[
                (if a >= 0x8000 { a - 0x8000 } else { a + 0x8000 }) % s.len() as int
            ],
            CpuDeviceView::PrgRam(s) => s[
                (if a >= 0x6000 { a - 0x6000 } else { a + 0xA000 }) % s.len() as int
            ],
            CpuDeviceView::Ppu(p) => p.spec_read(a),
        }
    }

    /// The device after a read at `a`: only the PPU changes state when read.
    pub open spec fn spec_after_read(self, a: u16) -> CpuDeviceView {
        match self {
            CpuDeviceView::Ppu(p) => CpuDeviceView::Ppu(p.spec_after_read(a)),
            _ => self,
        }
    }

    /// The device after a write of `data` at `a`.
    pub open spec fn spec_write(self, a: u16, data: u8) -> CpuDeviceView {
        match self {
            CpuDeviceView::Empty => CpuDeviceView::Empty,
            CpuDeviceView::Ram(s) => CpuDeviceView::Ram(s.update(a as int % s.len() as int, data)),
            CpuDeviceView::PrgRom(s) => CpuDeviceView::PrgRom(
                s.update((if a >= 0x8000 { a - 0x8000 } else { a + 0x8000 }) % s.len() as int, data),
            ),
            CpuDeviceView::PrgRam(s) => CpuDeviceView::PrgRam(
                s.update((if a >= 0x6000 { a - 0x6000 } else { a + 0xA000 }) % s.len() as int, data),
            ),
            CpuDeviceView::Ppu(p) => CpuDeviceView::Ppu(p.spec_after_write(a, data)),
        }
    }
}

impl CpuDevice {
    fn read(&mut self, address: u16) -> (r: u8)
        requires
            old(self)@.wf(),
        ensures
            r == old(self)@.spec_read(address),
            final(self)@ == old(self)@.spec_after_read(address),
            final(self)@.wf(),
    {
        match self {
            CpuDevice::Empty(d) => d.read(address),
            CpuDevice::Ram(m) => m.read(address),
            CpuDevice::PrgRom(r) => r.read(address),
            CpuDevice::PrgRam(r) => r.read(address),
            CpuDevice::Ppu(p) => p.read(address),
        }
    }

    fn write(&mut self, address: u16, data: u8)
        requires
            old(self)@.wf(),
        ensures
            final(self)@ == old(self)@.spec_write(address, data),
            final(self)@.wf(),
    {
        match self {
            CpuDevice::Empty(d) => d.write(address, data),
            CpuDevice::Ram(m) => m.write(address, data),
            CpuDevice::PrgRom(r) => r.write(address, data),
            CpuDevice::PrgRam(r) => r.write(address, data),
            CpuDevice::Ppu(p) => p.write(address, data),
        }
    }
}

/// The CPU's 64 KiB address space.
pub struct CpuBus {
    pub devices: Vec<CpuDevice>,
    pub mappings: Vec<usize>,
    /// Counts every read or write this bus has served; purely a proof
    /// artifact for the one-access-per-tick accounting.
    pub accesses: Ghost<int>,
}

/// Mathematical model of a `CpuBus`.
pub ghost struct CpuBusView {
    pub devices: Seq<CpuDeviceView>,
    pub mappings: Seq<usize>,
    pub accesses: int,
}

impl View for CpuBus {
    type V = CpuBusView;

    open spec fn view(&self) -> CpuBusView {
        CpuBusView {
            devices: self.devices@.map_values(|d: CpuDevice| d@),
            mappings: self.mappings@,
            accesses: self.accesses@,
        }
    }
}

impl CpuBusView {
    pub open spec fn wf(self) -> bool {
        &&& self.mappings.len() == CPU_ADDRESS_SPACE
        &&& self.devices.len() >= 1
        &&& self.devices.len() <= usize::MAX
        &&& self.devices[0] is Empty
        &&& forall|a: int|
            0 <= a < CPU_ADDRESS_SPACE ==> (#[trigger] self.mappings[a]) < self.devices.len()
        &&& forall|d: int| 0 <= d < self.devices.len() ==> (#[trigger] self.devices[d]).wf()
    }

    /// Which device owns the address `a`.
    pub open spec fn spec_owner(self, a: u16) -> int {
        self.mappings[a as int] as int
    }

    /// The byte a read at `a` returns.
    pub open spec fn spec_read(self, a: u16) -> u8 {
        self.devices[self.spec_owner(a)].spec_read(a)
    }

    /// The bus after a read at `a`: the owning device may change state
    /// (the PPU's buffered PPUDATA read does), and one access is recorded.
    pub open spec fn spec_after_read(self, a: u16) -> CpuBusView {
        CpuBusView {
            devices: self.devices.update(
                self.spec_owner(a),
                self.devices[self.spec_owner(a)].spec_after_read(a),
            ),
            accesses: self.accesses + 1,
            ..self
        }
    }

    /// The bus after a write of `data` at `a`.
    pub open spec fn spec_write(self, a: u16, data: u8) -> CpuBusView {
        CpuBusView {
            devices: self.devices.update(
                self.spec_owner(a),
                self.devices[self.spec_owner(a)].spec_write(a, data),
            ),
            accesses: self.accesses + 1,
            ..self
        }
    }

    /// The bus after registering the device `d` over `range`.
    pub open spec fn spec_register(self, d: CpuDeviceView, range: AddressRange) -> CpuBusView {
        CpuBusView {
            devices: self.devices.push(d),
            mappings: Seq::new(
                CPU_ADDRESS_SPACE as nat,
                |a: int| if range.start <= a <= range.end {
                    self.devices.len() as usize
                } else {
                    self.mappings[a]
                },
            ),
            ..self
        }
    }
}

impl CpuBus {
    /// An empty bus: every address is owned by the empty device.
    pub fn new() -> (r: CpuBus)
        ensures
            r@.wf(),
            r@.devices =~= seq![CpuDeviceView::Empty],
            r@.mappings =~= Seq::new(CPU_ADDRESS_SPACE as nat, |a: int| 0usize),
            r@.accesses == 0,
    {
        let mut mappings: Vec<usize> = Vec::new();
        let mut i: usize = 0;
        while i < CPU_ADDRESS_SPACE
            invariant
                i <= CPU_ADDRESS_SPACE,
                mappings@ =~= Seq::new(i as nat, |a: int| 0usize),
            decreases CPU_ADDRESS_SPACE - i,
        {
            mappings.push(0);
            i = i + 1;
        }
        let mut devices: Vec<CpuDevice> = Vec::new();
        devices.push(CpuDevice::Empty(EmptyDevice));
        CpuBus { devices, mappings, accesses: Ghost(0) }
    }

    /// Install `device` as the owner of every address in `range`,
    /// overwriting prior mappings there.
    pub fn register(&mut self, device: CpuDevice, address_range: AddressRange)
        requires
            old(self)@.wf(),
            device@.wf(),
            address_range.wf(),
            old(self)@.devices.len() < usize::MAX,
        ensures
            final(self)@ == old(self)@.spec_register(device@, address_range),
            final(self)@.wf(),
    {
        let ghost old_view = self@;
        let new_index = self.devices.len();
        self.devices.push(device);
        let mut a: usize = address_range.start as usize;
        while a <= address_range.end as usize
            invariant
                address_range.start <= a <= address_range.end + 1,
                address_range.end < CPU_ADDRESS_SPACE,
                self@.devices == old_view.devices.push(device@),
                self@.accesses == old_view.accesses,
                new_index == old_view.devices.len(),
                self.mappings@.len() == CPU_ADDRESS_SPACE,
                forall|j: int| 0 <= j < CPU_ADDRESS_SPACE ==> #[trigger] self.mappings@[j]
                    == if address_range.start <= j < a { new_index } else { old_view.mappings[j] },
            decreases address_range.end + 1 - a,
        {
            self.mappings.set(a, new_index);
            a = a + 1;
        }
        proof {
            assert(self@.mappings =~= old_view.spec_register(device@, address_range).mappings);
        }
    }

    /// Dispatch a read to the owning device. Reads may mutate device state
    /// (hardware read side effects), so the device is borrowed mutably.
    pub fn read(&mut self, address: u16) -> (r: u8)
        requires
            old(self)@.wf(),
        ensures
            r == old(self)@.spec_read(address),
            final(self)@ == old(self)@.spec_after_read(address),
            final(self)@.wf(),
    {
        self.accesses = Ghost(self.accesses@ + 1);
        let idx = self.mappings[address as usize];
        proof {
            assert(self@.devices[idx as int] == self.devices@[idx as int]@);
        }
        let device = &mut self.devices[idx];
        let r = device.read(address);
        proof {
            assert(self@.devices =~= old(self)@.spec_after_read(address).devices);
        }
        r
    }

    /// Dispatch a write to the owning device.
    pub fn write(&mut self, address: u16, data: u8)
        requires
            old(self)@.wf(),
        ensures
            final(self)@ == old(self)@.spec_write(address, data),
            final(self)@.wf(),
    {
        self.accesses = Ghost(self.accesses@ + 1);
        let idx = self.mappings[address as usize];
        proof {
            assert(self@.devices[idx as int] == self.devices@[idx as int]@);
        }
        let device = &mut self.devices[idx];
        device.write(address, data);
        proof {
            assert(self@.devices =~= old(self)@.spec_write(address, data).devices);
        }
    }
}


/// A read immediately after `register(d, range)` of any address inside
/// `range` dispatches to `d`: the registered device becomes the owner of
/// every address in its range, and the read returns what `d` answers.
pub proof fn lemma_register_then_read(bus: CpuBusView, d: CpuDeviceView, range: AddressRange, a: u16)
    requires
        bus.wf(),
        range.wf(),
        range.spec_contains(a),
    ensures
        bus.spec_register(d, range).spec_owner(a) == bus.devices.len(),
        bus.spec_register(d, range).devices[bus.spec_register(d, range).spec_owner(a)] == d,
        bus.spec_register(d, range).spec_read(a) == d.spec_read(a),
{
}

/// Registering a device changes ownership only inside its range: every
/// address outside `range` keeps its previous owner.
pub proof fn lemma_register_elsewhere(bus: CpuBusView, d: CpuDeviceView, range: AddressRange, a: u16)
    requires
        bus.wf(),
        !range.spec_contains(a),
    ensures
        bus.spec_register(d, range).spec_owner(a) == bus.spec_owner(a),
        bus.spec_register(d, range).devices[bus.spec_owner(a)] == bus.devices[bus.spec_owner(a)],
        bus.spec_register(d, range).spec_read(a) == bus.spec_read(a),
{
}

/// An address that no `register` call ever covered is still owned by the
/// empty device (a fresh bus maps everything to it, and by
/// `lemma_register_elsewhere` registration elsewhere never changes that):
/// reading it returns 0 and writing it leaves every device unchanged.
pub proof fn lemma_unmapped_access(bus: CpuBusView, a: u16, data: u8)
    requires
        bus.wf(),
        bus.spec_owner(a) == 0,
    ensures
        bus.spec_read(a) == 0,
        bus.spec_after_read(a).devices =~= bus.devices,
        bus.spec_write(a, data).devices =~= bus.devices,
        bus.spec_write(a, data).mappings == bus.mappings,
{
}

/// When two registered ranges overlap, the later registration wins in the
/// overlap, while earlier, non-overlapping addresses still dispatch to the
/// earlier device.
pub proof fn lemma_register_overlap(
    bus: CpuBusView,
    d1: CpuDeviceView,
    r1: AddressRange,
    d2: CpuDeviceView,
    r2: AddressRange,
    a: u16,
)
    requires
        bus.wf(),
        d1.wf(),
        r1.wf(),
        r2.wf(),
        bus.devices.len() < usize::MAX,
    ensures
        r2.spec_contains(a) ==> bus.spec_register(d1, r1).spec_register(d2, r2).spec_read(a)
            == d2.spec_read(a),
        r1.spec_contains(a) && !r2.spec_contains(a)
            ==> bus.spec_register(d1, r1).spec_register(d2, r2).spec_read(a) == d1.spec_read(a),
{
    let b1 = bus.spec_register(d1, r1);
    assert(b1.devices[0] == bus.devices[0]);
    assert forall|j: int| 0 <= j < b1.devices.len() implies (#[trigger] b1.devices[j]).wf() by {
        if j < bus.devices.len() {
            assert(b1.devices[j] == bus.devices[j]);
        }
    }
    assert(b1.wf());
    if r2.spec_contains(a) {
        lemma_register_then_read(b1, d2, r2, a);
    } else if r1.spec_contains(a) {
        lemma_register_then_read(bus, d1, r1, a);
        lemma_register_elsewhere(b1, d2, r2, a);
    }
}

/// `lemma_register_then_read` for the PPU bus.
pub proof fn lemma_ppu_register_then_read(
    bus: PpuBusView,
    d: PpuDeviceView,
    range: AddressRange,
    a: u16,
)
    requires
        bus.wf(),
        range.wf(),
        range.end < PPU_ADDRESS_SPACE,
        range.spec_contains(a),
        a < PPU_ADDRESS_SPACE,
    ensures
        bus.spec_register(d, range).spec_owner(a) == bus.devices.len(),
        bus.spec_register(d, range).spec_read(a) == d.spec_read(a),
{
}

/// `lemma_unmapped_access` for the PPU bus.
pub proof fn lemma_ppu_unmapped_access(bus: PpuBusView, a: u16, data: u8)
    requires
        bus.wf(),
        bus.spec_owner(a) == 0,
    ensures
        bus.spec_read(a) == 0,
        bus.spec_write(a, data).devices =~= bus.devices,
{
}

} // verus!
