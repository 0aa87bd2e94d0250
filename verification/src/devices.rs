//! Byte-array backed memory devices.
//!
//! Every device answers a byte read or write at an absolute 16-bit bus
//! address and applies its own address translation:
//!
//! * `Memory` mirrors modulo its size, which gives the CPU internal RAM its
//!   `$0000-$1FFF` mirroring when a 2 KiB array is registered over that range.
//! * `PrgRom` / `PrgRam` live at the fixed CPU-bus bases `$8000` / `$6000`
//!   and mirror modulo their size (16 KiB NROM images repeat twice).
//! * `ChrRom` / `ChrRam` live at PPU-bus base `$0000` and mirror modulo
//!   their size.
//! * `EmptyDevice` absorbs every access: reads return 0, writes are dropped.

use vstd::prelude::*;

verus! {

/// The device that owns every address nothing else was registered for.
/// Reads return 0 and writes have no effect.
#[derive(Debug)]
pub struct EmptyDevice;

impl EmptyDevice {
    pub fn read(&self, _address: u16) -> (r: u8)
        ensures
            r == 0,
    {
        0
    }

    pub fn write(&mut self, _address: u16, _data: u8)
    {
    }
}

/// Generic RAM mirrored across whatever range it is registered on:
/// the effective cell for address `a` is `a % len`.
#[derive(Debug)]
pub struct Memory {
    pub mem: Vec<u8>,
}

impl View for Memory {
    type V = Seq<u8>;

    open spec fn view(&self) -> Seq<u8> {
        self.mem@
    }
}

impl Memory {
    /// A device must hold at least one byte for mirroring to be defined.
    pub open spec fn wf(self) -> bool {
        self@.len() > 0
    }

    /// The cell of this device that the absolute address `a` lands on.
    pub open spec fn spec_index_of(self, a: u16) -> int {
        a as int % self@.len() as int
    }

    /// A zero-filled array of `size` bytes.
    pub fn new(size: usize) -> (r: Memory)
        ensures
            r@ == Seq::<u8>::new(size as nat, |i: int| 0u8),
            size > 0 ==> r.wf(),
    {
        let mut mem: Vec<u8> = Vec::new();
        let mut i: usize = 0;
        while i < size
            invariant
                i <= size,
                mem@ =~= Seq::<u8>::new(i as nat, |j: int| 0u8),
            decreases size - i,
        {
            mem.push(0);
            i = i + 1;
        }
        proof {
            assert(mem@ =~= Seq::<u8>::new(size as nat, |j: int| 0u8));
        }
        Memory { mem }
    }

    pub fn read(&self, address: u16) -> (r: u8)
        requires
            self.wf(),
        ensures
            r == self@[self.spec_index_of(address)],
    {
        let idx = address as usize % self.mem.len();
        self.mem[idx]
    }

    pub fn write(&mut self, address: u16, data: u8)
        requires
            old(self).wf(),
        ensures
            final(self)@ == old(self)@.update(old(self).spec_index_of(address), data),
            final(self).wf(),
    {
        let idx = address as usize % self.mem.len();
        self.mem.set(idx, data);
    }
}

/// Program ROM, addressed from CPU-bus base `$8000` and mirrored modulo its
/// size (a 16 KiB NROM image therefore repeats at `$C000`).
#[derive(Debug)]
pub struct PrgRom {
    pub rom: Vec<u8>,
}

impl View for PrgRom {
    type V = Seq<u8>;

    open spec fn view(&self) -> Seq<u8> {
        self.rom@
    }
}

impl PrgRom {
    pub open spec fn wf(self) -> bool {
        self@.len() > 0
    }

    /// The cell that the absolute CPU-bus address `a` lands on.
    pub open spec fn spec_index_of(self, a: u16) -> int {
        (if a >= 0x8000 { a - 0x8000 } else { a + 0x8000 }) % self@.len() as int
    }

    pub fn new(size: usize) -> (r: PrgRom)
        ensures
            r@ == Seq::<u8>::new(size as nat, |i: int| 0u8),
    {
        PrgRom { rom: Memory::new(size).mem }
    }

    pub fn new_with_data(data: Vec<u8>) -> (r: PrgRom)
        ensures
            r@ == data@,
    {
        PrgRom { rom: data }
    }

    pub fn size(&self) -> (r: usize)
        ensures
            r == self@.len(),
    {
        self.rom.len()
    }

    pub fn read(&self, address: u16) -> (r: u8)
        requires
            self.wf(),
        ensures
            r == self@[self.spec_index_of(address)],
    {
        let idx = (address.wrapping_sub(0x8000) as usize) % self.rom.len();
        self.rom[idx]
    }

    pub fn write(&mut self, address: u16, data: u8)
        requires
            old(self).wf(),
        ensures
            final(self)@ == old(self)@.update(old(self).spec_index_of(address), data),
            final(self).wf(),
    {
        let idx = (address.wrapping_sub(0x8000) as usize) % self.rom.len();
        self.rom.set(idx, data);
    }
}

/// Program RAM, addressed from CPU-bus base `$6000` and mirrored modulo its
/// size.
#[derive(Debug)]
pub struct PrgRam {
    pub ram: Vec<u8>,
}

impl View for PrgRam {
    type V = Seq<u8>;

    open spec fn view(&self) -> Seq<u8> {
        self.ram@
    }
}

impl PrgRam {
    pub open spec fn wf(self) -> bool {
        self@.len() > 0
    }

    /// The cell that the absolute CPU-bus address `a` lands on.
    pub open spec fn spec_index_of(self, a: u16) -> int {
        (if a >= 0x6000 { a - 0x6000 } else { a + 0xA000 }) % self@.len() as int
    }

    pub fn new(size: usize) -> (r: PrgRam)
        ensures
            r@ == Seq::<u8>::new(size as nat, |i: int| 0u8),
    {
        PrgRam { ram: Memory::new(size).mem }
    }

    pub fn new_with_data(data: Vec<u8>) -> (r: PrgRam)
        ensures
            r@ == data@,
    {
        PrgRam { ram: data }
    }

    pub fn size(&self) -> (r: usize)
        ensures
            r == self@.len(),
    {
        self.ram.len()
    }

    pub fn read(&self, address: u16) -> (r: u8)
        requires
            self.wf(),
        ensures
            r == self@[self.spec_index_of(address)],
    {
        let idx = (address.wrapping_sub(0x6000) as usize) % self.ram.len();
        self.ram[idx]
    }

    pub fn write(&mut self, address: u16, data: u8)
        requires
            old(self).wf(),
        ensures
            final(self)@ == old(self)@.update(old(self).spec_index_of(address), data),
            final(self).wf(),
    {
        let idx = (address.wrapping_sub(0x6000) as usize) % self.ram.len();
        self.ram.set(idx, data);
    }
}

/// Character ROM, addressed from PPU-bus base `$0000` and mirrored modulo
/// its size.
#[derive(Debug)]
pub struct ChrRom {
    pub rom: Vec<u8>,
}

impl View for ChrRom {
    type V = Seq<u8>;

    open spec fn view(&self) -> Seq<u8> {
        self.rom@
    }
}

impl ChrRom {
    pub open spec fn wf(self) -> bool {
        self@.len() > 0
    }

    /// The cell that the absolute PPU-bus address `a` lands on.
    pub open spec fn spec_index_of(self, a: u16) -> int {
        a as int % self@.len() as int
    }

    pub fn new(size: usize) -> (r: ChrRom)
        ensures
            r@ == Seq::<u8>::new(size as nat, |i: int| 0u8),
    {
        ChrRom { rom: Memory::new(size).mem }
    }

    pub fn new_with_data(data: Vec<u8>) -> (r: ChrRom)
        ensures
            r@ == data@,
    {
        ChrRom { rom: data }
    }

    pub fn size(&self) -> (r: usize)
        ensures
            r == self@.len(),
    {
        self.rom.len()
    }

    pub fn read(&self, address: u16) -> (r: u8)
        requires
            self.wf(),
        ensures
            r == self@[self.spec_index_of(address)],
    {
        let idx = address as usize % self.rom.len();
        self.rom[idx]
    }

    pub fn write(&mut self, address: u16, data: u8)
        requires
            old(self).wf(),
        ensures
            final(self)@ == old(self)@.update(old(self).spec_index_of(address), data),
            final(self).wf(),
    {
        let idx = address as usize % self.rom.len();
        self.rom.set(idx, data);
    }
}

/// Character RAM for boards without CHR ROM; addressed like `ChrRom`.
#[derive(Debug)]
pub struct ChrRam {
    pub ram: Vec<u8>,
}

impl View for ChrRam {
    type V = Seq<u8>;

    open spec fn view(&self) -> Seq<u8> {
        self.ram@
    }
}

impl ChrRam {
    pub open spec fn wf(self) -> bool {
        self@.len() > 0
    }

    /// The cell that the absolute PPU-bus address `a` lands on.
    pub open spec fn spec_index_of(self, a: u16) -> int {
        a as int % self@.len() as int
    }

    pub fn new(size: usize) -> (r: ChrRam)
        ensures
            r@ == Seq::<u8>::new(size as nat, |i: int| 0u8),
    {
        ChrRam { ram: Memory::new(size).mem }
    }

    pub fn read(&self, address: u16) -> (r: u8)
        requires
            self.wf(),
        ensures
            r == self@[self.spec_index_of(address)],
    {
        let idx = address as usize % self.ram.len();
        self.ram[idx]
    }

    pub fn write(&mut self, address: u16, data: u8)
        requires
            old(self).wf(),
        ensures
            final(self)@ == old(self)@.update(old(self).spec_index_of(address), data),
            final(self).wf(),
    {
        let idx = address as usize % self.ram.len();
        self.ram.set(idx, data);
    }
}

} // verus!
