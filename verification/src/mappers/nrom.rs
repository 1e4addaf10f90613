use vstd::prelude::*;
use crate::mapper::Mapper;

verus! {

broadcast use vstd::array::group_array_axioms;

/// Mapper 0: fixed 16 or 32 KiB of program ROM and 8 KiB of pattern ROM.
pub struct NROM {
    pub is_32k: bool,
    pub prg_rom: Vec<u8>,
    pub chr_rom: Vec<u8>,
    pub vram: [u8; 0x0800],
}

pub ghost struct NROMView {
    pub is_32k: bool,
    pub prg_rom: Seq<u8>,
    pub chr_rom: Seq<u8>,
    pub vram: Seq<u8>,
}

impl View for NROM {
    type V = NROMView;

    open spec fn view(&self) -> NROMView {
        NROMView { is_32k: self.is_32k, prg_rom: self.prg_rom@, chr_rom: self.chr_rom@, vram: self.vram@ }
    }
}

/// 2 KiB of cleared video RAM.
pub open spec fn cleared_vram() -> Seq<u8> {
    Seq::new(0x0800, |i: int| 0u8)
}

/// The contents of an optional program RAM image.
pub open spec fn ram_view(ram: Option<Vec<u8>>) -> Option<Seq<u8>> {
    match ram {
        Some(v) => Some(v@),
        None => None,
    }
}

impl NROMView {
    pub open spec fn initial(prg: Seq<u8>, chr: Seq<u8>) -> NROMView {
        NROMView { is_32k: prg.len() > 0x4000, prg_rom: prg, chr_rom: chr, vram: cleared_vram() }
    }

    /// A 16 KiB image is mirrored into both halves of the program window.
    pub open spec fn prg_index(self, addr: u16) -> int {
        if self.is_32k { addr as int } else { (addr % 0x4000) as int }
    }

    pub open spec fn prg_read_ok(self, addr: u16) -> bool {
        self.prg_index(addr) < self.prg_rom.len()
    }
}

impl NROM {
    pub fn new(prg: Vec<u8>, chr: Vec<u8>) -> (r: NROM)
        ensures
            r@ == NROMView::initial(prg@, chr@),
    {
        let r = NROM { is_32k: prg.len() > 0x4000, prg_rom: prg, chr_rom: chr, vram: [0; 0x0800] };
        assert(r.vram@ =~= cleared_vram());
        r
    }
}

impl Mapper for NROM {
    open spec fn prg_ram_read_ok(&self, addr: u16) -> bool {
        true
    }

    open spec fn prg_ram_write_ok(&self, addr: u16) -> bool {
        true
    }

    open spec fn prg_read_ok(&self, addr: u16) -> bool {
        self@.prg_read_ok(addr)
    }

    open spec fn prg_write_ok(&self, addr: u16) -> bool {
        true
    }

    open spec fn chr_read_ok(&self, addr: u16) -> bool {
        (addr as int) < self.chr_rom.len()
    }

    open spec fn chr_write_ok(&self, addr: u16) -> bool {
        true
    }

    open spec fn vram_read_ok(&self, addr: u16) -> bool {
        addr < 0x0800
    }

    open spec fn vram_write_ok(&self, addr: u16) -> bool {
        addr < 0x0800
    }

    /// NROM boards carry no program RAM.
    fn prg_ram_read(&mut self, _addr: u16) -> (r: u8)
        ensures
            r == 0,
            final(self)@ == old(self)@,
    {
        0
    }

    fn prg_ram_write(&mut self, _addr: u16, _value: u8)
        ensures
            final(self)@ == old(self)@,
    {
    }

    fn prg_read(&mut self, addr: u16) -> (r: u8)
        ensures
            r == old(self)@.prg_rom[old(self)@.prg_index(addr)],
            final(self)@ == old(self)@,
    {
        let mut addr = addr;
        if !self.is_32k {
            addr = addr % 0x4000;
        }
        self.prg_rom[addr as usize]
    }

    /// NROM has no registers.
    fn prg_write(&mut self, _addr: u16, _value: u8)
        ensures
            final(self)@ == old(self)@,
    {
    }

    fn chr_read(&mut self, addr: u16) -> (r: u8)
        ensures
            r == old(self)@.chr_rom[addr as int],
            final(self)@ == old(self)@,
    {
        self.chr_rom[addr as usize]
    }

    /// Pattern memory is read-only on NROM.
    fn chr_write(&mut self, _addr: u16, _value: u8)
        ensures
            final(self)@ == old(self)@,
    {
    }

    fn vram_read(&mut self, addr: u16) -> (r: u8)
        ensures
            r == old(self)@.vram[addr as int],
            final(self)@ == old(self)@,
    {
        self.vram[addr as usize]
    }

    fn vram_write(&mut self, addr: u16, value: u8)
        ensures
            final(self)@ == (NROMView { vram: old(self)@.vram.update(addr as int, value), ..old(self)@ }),
    {
        self.vram[addr as usize] = value;
    }

    fn signaling_irq(&self) -> (r: bool)
        ensures
            !r,
    {
        false
    }

    fn irq_acknowledged(&mut self)
        ensures
            final(self)@ == old(self)@,
    {
    }
}

} // verus!
