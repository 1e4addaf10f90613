use vstd::prelude::*;

verus! {

/// How the four logical nametables are folded onto the console's video RAM.
#[derive(Copy, Clone, Debug, PartialEq, Eq, Structural)]
pub enum NametableMirroring {
    Horizontal,
    Vertical,
    FourScreen,
}

/// The cartridge hardware that decodes CPU and PPU accesses into ROM, RAM and
/// bank registers. Each access has a condition under which it stays within the
/// cartridge's memories; outside it the access is undefined.
pub trait Mapper {
    spec fn prg_ram_read_ok(&self, addr: u16) -> bool;

    spec fn prg_ram_write_ok(&self, addr: u16) -> bool;

    spec fn prg_read_ok(&self, addr: u16) -> bool;

    spec fn prg_write_ok(&self, addr: u16) -> bool;

    spec fn chr_read_ok(&self, addr: u16) -> bool;

    spec fn chr_write_ok(&self, addr: u16) -> bool;

    spec fn vram_read_ok(&self, addr: u16) -> bool;

    spec fn vram_write_ok(&self, addr: u16) -> bool;

    fn prg_ram_read(&mut self, addr: u16) -> u8
        requires
            old(self).prg_ram_read_ok(addr),
    ;

    fn prg_ram_write(&mut self, addr: u16, value: u8)
        requires
            old(self).prg_ram_write_ok(addr),
    ;

    fn prg_read(&mut self, addr: u16) -> u8
        requires
            old(self).prg_read_ok(addr),
    ;

    fn prg_write(&mut self, addr: u16, value: u8)
        requires
            addr < 0x8000,
            old(self).prg_write_ok(addr),
    ;

    fn chr_read(&mut self, addr: u16) -> u8
        requires
            old(self).chr_read_ok(addr),
    ;

    fn chr_write(&mut self, addr: u16, value: u8)
        requires
            old(self).chr_write_ok(addr),
    ;

    fn vram_read(&mut self, addr: u16) -> u8
        requires
            old(self).vram_read_ok(addr),
    ;

    fn vram_write(&mut self, addr: u16, value: u8)
        requires
            old(self).vram_write_ok(addr),
    ;

    fn signaling_irq(&self) -> bool;

    fn irq_acknowledged(&mut self);
}

} // verus!
