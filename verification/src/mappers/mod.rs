use vstd::prelude::*;
use crate::mapper::{Mapper, NametableMirroring};

pub mod nrom;
pub mod mmc1;
pub mod unrom;
pub mod mmc3;

pub use nrom::{NROM, NROMView, cleared_vram, ram_view};
pub use mmc1::{MMC1, MMC1View};
pub use unrom::{UNROM, UNROMView};
pub use mmc3::{MMC3, MMC3View};

verus! {

/// Mirroring fixed by bit 0 of header byte 6: set means vertical.
pub fn fixed_mirroring(header_byte_6: u8) -> (r: NametableMirroring)
    ensures
        r == (if header_byte_6 & 1 == 1 { NametableMirroring::Vertical } else { NametableMirroring::Horizontal }),
{
    if header_byte_6 & 1 == 1 {
        NametableMirroring::Vertical
    } else {
        NametableMirroring::Horizontal
    }
}

/// Offset into video RAM of nametable offset `addr` under a mirroring mode.
pub open spec fn mirrored_address_spec(mode: NametableMirroring, addr: u16) -> u16 {
    match mode {
        NametableMirroring::Horizontal => if addr < 0x0800 { addr % 0x0400 } else { ((addr % 0x0400) + 0x0400) as u16 },
        NametableMirroring::Vertical => addr % 0x0800,
        NametableMirroring::FourScreen => addr,
    }
}

pub fn mirrored_address(mode: NametableMirroring, addr: u16) -> (r: u16)
    ensures
        r == mirrored_address_spec(mode, addr),
        mode != NametableMirroring::FourScreen ==> r < 0x0800,
{
    match mode {
        NametableMirroring::Horizontal => if addr < 0x0800 {
            addr % 0x0400
        } else {
            (addr % 0x0400) + 0x0400
        },
        NametableMirroring::Vertical => addr % 0x0800,
        NametableMirroring::FourScreen => addr,
    }
}

/// A cartridge board: one of the supported mappers.
pub enum AnyMapper {
    NROM(NROM),
    MMC1(MMC1),
    UNROM(UNROM),
    MMC3(MMC3),
}

/// The state of a cartridge board, its memories taken as sequences.
pub ghost enum MapperView {
    NROM(NROMView),
    MMC1(MMC1View),
    UNROM(UNROMView),
    MMC3(MMC3View),
}

impl View for AnyMapper {
    type V = MapperView;

    open spec fn view(&self) -> MapperView {
        match self {
            AnyMapper::NROM(m) => MapperView::NROM(m@),
            AnyMapper::MMC1(m) => MapperView::MMC1(m@),
            AnyMapper::UNROM(m) => MapperView::UNROM(m@),
            AnyMapper::MMC3(m) => MapperView::MMC3(m@),
        }
    }
}

impl MapperView {
    pub open spec fn prg_ram_read_ok(self, addr: u16) -> bool {
        match self {
            MapperView::MMC1(m) => m.prg_ram_read_ok(addr),
            MapperView::MMC3(m) => m.prg_ram_read_ok(addr),
            _ => true,
        }
    }

    pub open spec fn prg_ram_read_value(self, addr: u16) -> u8 {
        match self {
            MapperView::MMC1(m) => m.prg_ram[addr as int],
            MapperView::MMC3(m) => m.prg_ram_read_value(addr),
            _ => 0,
        }
    }

    pub open spec fn prg_ram_write_ok(self, addr: u16) -> bool {
        match self {
            MapperView::MMC1(m) => m.prg_ram_read_ok(addr),
            MapperView::MMC3(m) => m.prg_ram_write_ok(addr),
            _ => true,
        }
    }

    pub open spec fn prg_ram_written(self, addr: u16, value: u8) -> MapperView {
        match self {
            MapperView::MMC1(m) => MapperView::MMC1(MMC1View { prg_ram: m.prg_ram.update(addr as int, value), ..m }),
            MapperView::MMC3(m) => MapperView::MMC3(m.prg_ram_written(addr, value)),
            _ => self,
        }
    }

    pub open spec fn prg_read_ok(self, addr: u16) -> bool {
        match self {
            MapperView::NROM(m) => m.prg_read_ok(addr),
            MapperView::MMC1(m) => m.prg_read_ok(addr),
            MapperView::UNROM(m) => m.prg_read_ok(addr),
            MapperView::MMC3(m) => m.prg_read_ok(addr),
        }
    }

    pub open spec fn prg_read_value(self, addr: u16) -> u8 {
        match self {
            MapperView::NROM(m) => m.prg_rom[m.prg_index(addr)],
            MapperView::MMC1(m) => m.prg_read_value(addr),
            MapperView::UNROM(m) => m.prg_rom[m.prg_index(addr)],
            MapperView::MMC3(m) => m.prg_rom[m.prg_index(addr)],
        }
    }

    pub open spec fn prg_write_ok(self, addr: u16) -> bool {
        match self {
            MapperView::MMC1(m) => m.writes < 255,
            MapperView::MMC3(m) => m.next_write_dest < 8,
            _ => true,
        }
    }

    pub open spec fn prg_written(self, addr: u16, value: u8) -> MapperView {
        match self {
            MapperView::NROM(m) => self,
            MapperView::MMC1(m) => MapperView::MMC1(m.prg_written(addr, value)),
            MapperView::UNROM(m) => MapperView::UNROM(UNROMView { bank: value as usize, ..m }),
            MapperView::MMC3(m) => MapperView::MMC3(m.prg_written(addr, value)),
        }
    }

    pub open spec fn chr_read_ok(self, addr: u16) -> bool {
        match self {
            MapperView::NROM(m) => (addr as int) < m.chr_rom.len(),
            MapperView::MMC1(m) => m.chr_ok(addr),
            MapperView::UNROM(m) => (addr as int) < m.chr_rom.len(),
            MapperView::MMC3(m) => m.chr_ok(addr),
        }
    }

    pub open spec fn chr_read_value(self, addr: u16) -> u8 {
        match self {
            MapperView::NROM(m) => m.chr_rom[addr as int],
            MapperView::MMC1(m) => m.chr_rom[m.chr_index(addr)],
            MapperView::UNROM(m) => m.chr_rom[addr as int],
            MapperView::MMC3(m) => m.chr_rom[m.chr_index(addr)],
        }
    }

    /// State after a CHR read (only MMC3 watches the PPU address lines).
    pub open spec fn after_chr_read(self, addr: u16) -> MapperView {
        match self {
            MapperView::MMC3(m) => MapperView::MMC3(m.a12_updated(addr)),
            _ => self,
        }
    }

    pub open spec fn chr_write_ok(self, addr: u16) -> bool {
        match self {
            MapperView::NROM(m) => true,
            _ => self.chr_read_ok(addr),
        }
    }

    pub open spec fn chr_written(self, addr: u16, value: u8) -> MapperView {
        match self {
            MapperView::NROM(m) => self,
            MapperView::MMC1(m) => MapperView::MMC1(MMC1View { chr_rom: m.chr_rom.update(m.chr_index(addr), value), ..m }),
            MapperView::UNROM(m) => MapperView::UNROM(UNROMView { chr_rom: m.chr_rom.update(addr as int, value), ..m }),
            MapperView::MMC3(m) => {
                let m2 = m.a12_updated(addr);
                MapperView::MMC3(MMC3View { chr_rom: m2.chr_rom.update(m.chr_index(addr), value), ..m2 })
            },
        }
    }

    pub open spec fn vram_ok(self, addr: u16) -> bool {
        match self {
            MapperView::NROM(m) => addr < 0x0800,
            MapperView::MMC3(m) => m.a12_ok(0x2000u16 | addr),
            _ => true,
        }
    }

    /// Index into the 2 KiB video RAM that nametable offset `addr` selects.
    pub open spec fn vram_index(self, addr: u16) -> int {
        match self {
            MapperView::NROM(m) => addr as int,
            MapperView::MMC1(m) => m.mirrored_addr(addr % 0x1000),
            MapperView::UNROM(m) => (mirrored_address_spec(m.mirroring, addr % 0x1000) % 0x0800) as int,
            MapperView::MMC3(m) => (mirrored_address_spec(m.mirroring, addr) % 0x0800) as int,
        }
    }

    pub open spec fn vram(self) -> Seq<u8> {
        match self {
            MapperView::NROM(m) => m.vram,
            MapperView::MMC1(m) => m.vram,
            MapperView::UNROM(m) => m.vram,
            MapperView::MMC3(m) => m.vram,
        }
    }

    pub open spec fn vram_read_value(self, addr: u16) -> u8 {
        self.vram()[self.vram_index(addr)]
    }

    pub open spec fn after_vram_read(self, addr: u16) -> MapperView {
        match self {
            MapperView::MMC3(m) => MapperView::MMC3(m.a12_updated(0x2000u16 | addr)),
            _ => self,
        }
    }

    pub open spec fn vram_written(self, addr: u16, value: u8) -> MapperView {
        let i = self.vram_index(addr);
        match self {
            MapperView::NROM(m) => MapperView::NROM(NROMView { vram: m.vram.update(i, value), ..m }),
            MapperView::MMC1(m) => MapperView::MMC1(MMC1View { vram: m.vram.update(i, value), ..m }),
            MapperView::UNROM(m) => MapperView::UNROM(UNROMView { vram: m.vram.update(i, value), ..m }),
            MapperView::MMC3(m) => {
                let m2 = m.a12_updated(0x2000u16 | addr);
                MapperView::MMC3(MMC3View { vram: m2.vram.update(i, value), ..m2 })
            },
        }
    }

    pub open spec fn irq(self) -> bool {
        match self {
            MapperView::MMC3(m) => m.irq_pending,
            _ => false,
        }
    }

    pub open spec fn irq_cleared(self) -> MapperView {
        match self {
            MapperView::MMC3(m) => MapperView::MMC3(MMC3View { irq_pending: false, ..m }),
            _ => self,
        }
    }

    /// Register ranges the boards keep.
    pub open spec fn wf(self) -> bool {
        match self {
            MapperView::NROM(m) => m.vram.len() == 0x0800,
            MapperView::MMC1(m) => m.wf(),
            MapperView::UNROM(m) => m.vram.len() == 0x0800,
            MapperView::MMC3(m) => m.wf(),
        }
    }
}

impl AnyMapper {
    pub open spec fn wf(&self) -> bool {
        self@.wf()
    }
}

impl Mapper for AnyMapper {
    open spec fn prg_ram_read_ok(&self, addr: u16) -> bool {
        self@.prg_ram_read_ok(addr)
    }

    open spec fn prg_ram_write_ok(&self, addr: u16) -> bool {
        self@.prg_ram_write_ok(addr)
    }

    open spec fn prg_read_ok(&self, addr: u16) -> bool {
        self@.prg_read_ok(addr)
    }

    open spec fn prg_write_ok(&self, addr: u16) -> bool {
        self@.prg_write_ok(addr)
    }

    open spec fn chr_read_ok(&self, addr: u16) -> bool {
        self@.chr_read_ok(addr)
    }

    open spec fn chr_write_ok(&self, addr: u16) -> bool {
        self@.chr_write_ok(addr)
    }

    open spec fn vram_read_ok(&self, addr: u16) -> bool {
        self@.vram_ok(addr)
    }

    open spec fn vram_write_ok(&self, addr: u16) -> bool {
        self@.vram_ok(addr)
    }

    fn prg_ram_read(&mut self, addr: u16) -> (r: u8)
        ensures
            r == old(self)@.prg_ram_read_value(addr),
            final(self)@ == old(self)@,
    {
        match self {
            AnyMapper::NROM(m) => m.prg_ram_read(addr),
            AnyMapper::MMC1(m) => m.prg_ram_read(addr),
            AnyMapper::UNROM(m) => m.prg_ram_read(addr),
            AnyMapper::MMC3(m) => m.prg_ram_read(addr),
        }
    }

    fn prg_ram_write(&mut self, addr: u16, value: u8)
        ensures
            final(self)@ == old(self)@.prg_ram_written(addr, value),
    {
        match self {
            AnyMapper::NROM(m) => m.prg_ram_write(addr, value),
            AnyMapper::MMC1(m) => m.prg_ram_write(addr, value),
            AnyMapper::UNROM(m) => m.prg_ram_write(addr, value),
            AnyMapper::MMC3(m) => m.prg_ram_write(addr, value),
        }
    }

    fn prg_read(&mut self, addr: u16) -> (r: u8)
        ensures
            r == old(self)@.prg_read_value(addr),
            final(self)@ == old(self)@,
    {
        match self {
            AnyMapper::NROM(m) => m.prg_read(addr),
            AnyMapper::MMC1(m) => m.prg_read(addr),
            AnyMapper::UNROM(m) => m.prg_read(addr),
            AnyMapper::MMC3(m) => m.prg_read(addr),
        }
    }

    fn prg_write(&mut self, addr: u16, value: u8)
        ensures
            final(self)@ == old(self)@.prg_written(addr, value),
            old(self)@.wf() ==> final(self)@.wf(),
    {
        match self {
            AnyMapper::NROM(m) => m.prg_write(addr, value),
            AnyMapper::MMC1(m) => m.prg_write(addr, value),
            AnyMapper::UNROM(m) => m.prg_write(addr, value),
            AnyMapper::MMC3(m) => m.prg_write(addr, value),
        }
    }

    fn chr_read(&mut self, addr: u16) -> (r: u8)
        ensures
            r == old(self)@.chr_read_value(addr),
            final(self)@ == old(self)@.after_chr_read(addr),
    {
        match self {
            AnyMapper::NROM(m) => m.chr_read(addr),
            AnyMapper::MMC1(m) => m.chr_read(addr),
            AnyMapper::UNROM(m) => m.chr_read(addr),
            AnyMapper::MMC3(m) => m.chr_read(addr),
        }
    }

    fn chr_write(&mut self, addr: u16, value: u8)
        ensures
            final(self)@ == old(self)@.chr_written(addr, value),
    {
        match self {
            AnyMapper::NROM(m) => m.chr_write(addr, value),
            AnyMapper::MMC1(m) => m.chr_write(addr, value),
            AnyMapper::UNROM(m) => m.chr_write(addr, value),
            AnyMapper::MMC3(m) => m.chr_write(addr, value),
        }
    }

    fn vram_read(&mut self, addr: u16) -> (r: u8)
        ensures
            r == old(self)@.vram_read_value(addr),
            final(self)@ == old(self)@.after_vram_read(addr),
    {
        match self {
            AnyMapper::NROM(m) => m.vram_read(addr),
            AnyMapper::MMC1(m) => m.vram_read(addr),
            AnyMapper::UNROM(m) => m.vram_read(addr),
            AnyMapper::MMC3(m) => m.vram_read(addr),
        }
    }

    fn vram_write(&mut self, addr: u16, value: u8)
        ensures
            final(self)@ == old(self)@.vram_written(addr, value),
    {
        match self {
            AnyMapper::NROM(m) => m.vram_write(addr, value),
            AnyMapper::MMC1(m) => m.vram_write(addr, value),
            AnyMapper::UNROM(m) => m.vram_write(addr, value),
            AnyMapper::MMC3(m) => m.vram_write(addr, value),
        }
    }

    fn signaling_irq(&self) -> (r: bool)
        ensures
            r == self@.irq(),
    {
        match self {
            AnyMapper::NROM(m) => m.signaling_irq(),
            AnyMapper::MMC1(m) => m.signaling_irq(),
            AnyMapper::UNROM(m) => m.signaling_irq(),
            AnyMapper::MMC3(m) => m.signaling_irq(),
        }
    }

    fn irq_acknowledged(&mut self)
        ensures
            final(self)@ == old(self)@.irq_cleared(),
    {
        match self {
            AnyMapper::NROM(m) => m.irq_acknowledged(),
            AnyMapper::MMC1(m) => m.irq_acknowledged(),
            AnyMapper::UNROM(m) => m.irq_acknowledged(),
            AnyMapper::MMC3(m) => m.irq_acknowledged(),
        }
    }
}

/// Builds the board that iNES mapper number `mapper_number` designates.
pub fn new_mapper(prg: Vec<u8>, chr: Vec<u8>, prg_ram: Option<Vec<u8>>, header: &[u8; 0x10], mapper_number: u8) -> (r: AnyMapper)
    requires
        mapper_number == 0 || mapper_number == 1 || mapper_number == 2 || mapper_number == 4,
    ensures
        r.wf(),
        mapper_number == 0 ==> r is NROM && r->NROM_0@ == NROMView::initial(prg@, chr@),
        mapper_number == 1 ==> r is MMC1 && r->MMC1_0@ == MMC1View::initial(prg@, chr@, ram_view(prg_ram)),
        mapper_number == 2 ==> r is UNROM && r->UNROM_0@ == UNROMView::initial(prg@, chr@, header[6]),
        mapper_number == 4 ==> r is MMC3 && r->MMC3_0@ == MMC3View::initial(prg@, chr@, ram_view(prg_ram), header[6]),
{
    match mapper_number {
        0 => AnyMapper::NROM(NROM::new(prg, chr)),
        1 => AnyMapper::MMC1(MMC1::new(prg, chr, prg_ram, header)),
        2 => AnyMapper::UNROM(UNROM::new(prg, chr, prg_ram, header)),
        _ => AnyMapper::MMC3(MMC3::new(prg, chr, prg_ram, header)),
    }
}


/// Program RAM gives back what was written to it: on MMC1 always, on MMC3
/// while it is enabled and not write-protected. NROM and UNROM have none and
/// read 0.
pub proof fn lemma_prg_ram_write_read(m: MapperView, addr: u16, value: u8)
    requires
        m.prg_ram_write_ok(addr),
        m.prg_ram_read_ok(addr),
    ensures
        (m is MMC1 || (m is MMC3 && m->MMC3_0.prg_ram_enabled && !m->MMC3_0.prg_ram_protected))
            ==> m.prg_ram_written(addr, value).prg_ram_read_value(addr) == value,
        (m is NROM || m is UNROM) ==> m.prg_ram_written(addr, value).prg_ram_read_value(addr) == 0,
{
}

/// Vertical mirroring shows the same nametable at 0x2000 and 0x2800 (and at
/// 0x2400 and 0x2C00); horizontal mirroring at 0x2000 and 0x2400 (and at
/// 0x2800 and 0x2C00).
pub proof fn lemma_mirroring(addr: u16)
    requires
        addr < 0x0400,
    ensures
        mirrored_address_spec(NametableMirroring::Vertical, addr) == mirrored_address_spec(NametableMirroring::Vertical, (addr + 0x0800) as u16),
        mirrored_address_spec(NametableMirroring::Vertical, (addr + 0x0400) as u16) == mirrored_address_spec(NametableMirroring::Vertical, (addr + 0x0C00) as u16),
        mirrored_address_spec(NametableMirroring::Horizontal, addr) == mirrored_address_spec(NametableMirroring::Horizontal, (addr + 0x0400) as u16),
        mirrored_address_spec(NametableMirroring::Horizontal, (addr + 0x0800) as u16) == mirrored_address_spec(NametableMirroring::Horizontal, (addr + 0x0C00) as u16),
{
}

/// A nametable byte written through the board is what the board then reads
/// at that nametable address.
pub proof fn lemma_vram_write_read(m: MapperView, addr: u16, value: u8)
    requires
        m.wf(),
        m.vram_ok(addr),
    ensures
        m.vram_written(addr, value).vram_read_value(addr) == value,
{
}

/// A pattern byte written to a board with pattern RAM is what the board then
/// reads at that address; NROM keeps pattern ROM and ignores the write.
pub proof fn lemma_chr_write_read(m: MapperView, addr: u16, value: u8)
    requires
        m.chr_write_ok(addr),
    ensures
        !(m is NROM) ==> m.chr_written(addr, value).chr_read_value(addr) == value,
        m is NROM ==> m.chr_written(addr, value) == m,
{
}

/// UNROM: a write of `v` anywhere in $8000-$FFFF selects the 16 KiB bank seen
/// at $8000; $C000 always shows the last 16 KiB of the image. `addr` is
/// relative to $8000.
pub proof fn lemma_unrom_bank_switch(m: MapperView, at: u16, v: u8, addr: u16)
    requires
        m is UNROM,
        addr < 0x8000,
    ensures
        ({
            let rom = m->UNROM_0.prg_rom;
            let r = m.prg_written(at, v).prg_read_value(addr);
            &&& addr < 0x4000 ==> r == rom[addr + 0x4000 * v]
            &&& addr >= 0x4000 ==> r == rom[addr - 0x4000 + (rom.len() - 0x4000)]
        }),
{
}

} // verus!
