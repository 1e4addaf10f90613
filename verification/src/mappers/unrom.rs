use vstd::prelude::*;
use crate::mapper::{Mapper, NametableMirroring};
use crate::mappers::{fixed_mirroring, mirrored_address, mirrored_address_spec, cleared_vram};

verus! {

broadcast use vstd::array::group_array_axioms;

/// Mapper 2: a switchable 16 KiB program bank below a fixed last bank.
pub struct UNROM {
    pub mirroring: NametableMirroring,
    pub prg_rom: Vec<u8>,
    pub chr_rom: Vec<u8>,
    pub vram: [u8; 0x0800],
    pub bank: usize,
}

pub ghost struct UNROMView {
    pub mirroring: NametableMirroring,
    pub prg_rom: Seq<u8>,
    pub chr_rom: Seq<u8>,
    pub vram: Seq<u8>,
    pub bank: usize,
}

impl View for UNROM {
    type V = UNROMView;

    open spec fn view(&self) -> UNROMView {
        UNROMView {
            mirroring: self.mirroring,
            prg_rom: self.prg_rom@,
            chr_rom: self.chr_rom@,
            vram: self.vram@,
            bank: self.bank,
        }
    }
}

impl UNROMView {
    pub open spec fn initial(prg: Seq<u8>, chr: Seq<u8>, header_byte_6: u8) -> UNROMView {
        UNROMView {
            mirroring: if header_byte_6 & 1 == 1 { NametableMirroring::Vertical } else { NametableMirroring::Horizontal },
            prg_rom: prg,
            chr_rom: chr,
            vram: cleared_vram(),
            bank: 0,
        }
    }

    /// Below 0x4000 the selected bank; above it the last 16 KiB of the image.
    pub open spec fn prg_index(self, addr: u16) -> int {
        if addr < 0x4000 { addr + self.bank * 0x4000 } else { addr + self.prg_rom.len() - 0x8000 }
    }

    pub open spec fn prg_read_ok(self, addr: u16) -> bool {
        &&& 0 <= self.prg_index(addr) < self.prg_rom.len()
        &&& addr + self.prg_rom.len() <= usize::MAX
    }

    pub open spec fn vram_index(self, addr: u16) -> int {
        (mirrored_address_spec(self.mirroring, addr % 0x1000) % 0x0800) as int
    }
}

impl UNROM {
    pub fn new(prg: Vec<u8>, chr: Vec<u8>, _prg_ram: Option<Vec<u8>>, header: &[u8; 0x10]) -> (r: UNROM)
        ensures
            r@ == UNROMView::initial(prg@, chr@, header[6]),
    {
        let r = UNROM { mirroring: fixed_mirroring(header[6]), prg_rom: prg, chr_rom: chr, vram: [0; 0x0800], bank: 0 };
        assert(r.vram@ =~= cleared_vram());
        r
    }
}

impl Mapper for UNROM {
    open spec fn prg_ram_read_ok(&self, addr: u16) -> bool {
        true
    }

    open spec fn prg_ram_write_ok(&self, addr: u16) -> bool {
        true
    }

    open spec fn prg_read_ok(&self, addr: u16) -> bool {
        self@.prg_read_ok(addr)
    }

    open spec fn prg_write_ok(&self, addr: u16) -> bool {
        true
    }

    open spec fn chr_read_ok(&self, addr: u16) -> bool {
        (addr as int) < self.chr_rom.len()
    }

    open spec fn chr_write_ok(&self, addr: u16) -> bool {
        (addr as int) < self.chr_rom.len()
    }

    open spec fn vram_read_ok(&self, addr: u16) -> bool {
        true
    }

    open spec fn vram_write_ok(&self, addr: u16) -> bool {
        true
    }

    /// UNROM boards carry no program RAM.
    fn prg_ram_read(&mut self, _addr: u16) -> (r: u8)
        ensures
            r == 0,
            final(self)@ == old(self)@,
    {
        0
    }

    fn prg_ram_write(&mut self, _addr: u16, _value: u8)
        ensures
            final(self)@ == old(self)@,
    {
    }

    fn prg_read(&mut self, addr: u16) -> (r: u8)
        ensures
            r == old(self)@.prg_rom[old(self)@.prg_index(addr)],
            final(self)@ == old(self)@,
    {
        let len = self.prg_rom.len();
        if addr < 0x4000 {
            self.prg_rom[addr as usize + self.bank * 0x4000]
        } else {
            self.prg_rom[addr as usize + len - 0x8000]
        }
    }

    /// Any write selects the bank.
    fn prg_write(&mut self, _addr: u16, value: u8)
        ensures
            final(self)@ == (UNROMView { bank: value as usize, ..old(self)@ }),
    {
        self.bank = value as usize;
    }

    fn chr_read(&mut self, addr: u16) -> (r: u8)
        ensures
            r == old(self)@.chr_rom[addr as int],
            final(self)@ == old(self)@,
    {
        self.chr_rom[addr as usize]
    }

    fn chr_write(&mut self, addr: u16, value: u8)
        ensures
            final(self)@ == (UNROMView { chr_rom: old(self)@.chr_rom.update(addr as int, value), ..old(self)@ }),
    {
        self.chr_rom.set(addr as usize, value);
    }

    fn vram_read(&mut self, addr: u16) -> (r: u8)
        ensures
            r == old(self)@.vram[old(self)@.vram_index(addr)],
            final(self)@ == old(self)@,
    {
        self.vram[mirrored_address(self.mirroring, addr % 0x1000) as usize % 0x0800]
    }

    fn vram_write(&mut self, addr: u16, value: u8)
        ensures
            final(self)@ == (UNROMView { vram: old(self)@.vram.update(old(self)@.vram_index(addr), value), ..old(self)@ }),
    {
        self.vram[mirrored_address(self.mirroring, addr % 0x1000) as usize % 0x0800] = value;
    }

    fn signaling_irq(&self) -> (r: bool)
        ensures
            !r,
    {
        false
    }

    fn irq_acknowledged(&mut self)
        ensures
            final(self)@ == old(self)@,
    {
    }
}

} // verus!
