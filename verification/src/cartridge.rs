use vstd::prelude::*;
use crate::mapper::Mapper;
use crate::mappers::{AnyMapper, MapperView, NROMView, MMC1View, UNROMView, MMC3View, new_mapper};

verus! {

/// A game cartridge: its file name and the board that decodes its memories.
pub struct Cartridge {
    pub name: String,
    pub mapper: AnyMapper,
}

impl View for Cartridge {
    type V = MapperView;

    open spec fn view(&self) -> MapperView {
        self.mapper@
    }
}

/// `n` zero bytes.
pub open spec fn zeros(n: nat) -> Seq<u8> {
    Seq::new(n, |i: int| 0u8)
}

/// The iNES magic number "NES" followed by 0x1A.
pub open spec fn ines_magic(d: Seq<u8>) -> bool {
    d.len() >= 4 && d[0] == 0x4E && d[1] == 0x45 && d[2] == 0x53 && d[3] == 0x1A
}

pub open spec fn ines_prg_size(d: Seq<u8>) -> int {
    0x4000 * d[4]
}

pub open spec fn ines_chr_size(d: Seq<u8>) -> int {
    0x2000 * d[5]
}

pub open spec fn ines_prg_ram_size(d: Seq<u8>) -> int {
    0x2000 * d[8]
}

/// Mapper number: low nibble from the top of byte 6, high nibble from the top of byte 7.
pub open spec fn ines_mapper_number(d: Seq<u8>) -> u8 {
    (d[6] >> 4u8) | ((d[7] >> 4u8) << 4u8)
}

pub open spec fn supported_mapper(n: u8) -> bool {
    n == 0 || n == 1 || n == 2 || n == 4
}

/// An image can be loaded without running out of data or naming a board that
/// is not supported; images without the magic number are simply refused.
pub open spec fn ines_loadable(d: Seq<u8>) -> bool {
    &&& d.len() >= 16
    &&& ines_magic(d) ==> {
        &&& d.len() >= 16 + ines_prg_size(d) + ines_chr_size(d)
        &&& supported_mapper(ines_mapper_number(d))
    }
}

/// Program ROM: the bytes right after the 16-byte header.
pub open spec fn ines_prg(d: Seq<u8>) -> Seq<u8> {
    d.subrange(16, 16 + ines_prg_size(d))
}

/// Pattern ROM after the program ROM, or 8 KiB of pattern RAM when the image has none.
pub open spec fn ines_chr(d: Seq<u8>) -> Seq<u8> {
    if ines_chr_size(d) != 0 {
        d.subrange(16 + ines_prg_size(d), 16 + ines_prg_size(d) + ines_chr_size(d))
    } else {
        zeros(0x2000)
    }
}

/// Program RAM: the save image for battery-backed boards (bit 1 of byte 6),
/// otherwise cleared RAM of the size in byte 8, if any.
pub open spec fn ines_prg_ram(d: Seq<u8>, sram: Option<Seq<u8>>) -> Option<Seq<u8>> {
    if d[6] & 2 != 0 {
        sram
    } else if ines_prg_ram_size(d) > 0 {
        Some(zeros(ines_prg_ram_size(d) as nat))
    } else {
        None
    }
}

/// The board state a loaded image starts in.
pub open spec fn ines_board(d: Seq<u8>, sram: Option<Seq<u8>>) -> MapperView {
    let n = ines_mapper_number(d);
    let prg = ines_prg(d);
    let chr = ines_chr(d);
    let ram = ines_prg_ram(d, sram);
    if n == 0 {
        MapperView::NROM(NROMView::initial(prg, chr))
    } else if n == 1 {
        MapperView::MMC1(MMC1View::initial(prg, chr, ram))
    } else if n == 2 {
        MapperView::UNROM(UNROMView::initial(prg, chr, d[6]))
    } else {
        MapperView::MMC3(MMC3View::initial(prg, chr, ram, d[6]))
    }
}

/// Copies `len` bytes of `data` starting at `start`.
fn copy_range(data: &Vec<u8>, start: usize, len: usize) -> (r: Vec<u8>)
    requires
        start + len <= data.len(),
    ensures
        r@ == data@.subrange(start as int, start + len),
{
    let mut r: Vec<u8> = Vec::with_capacity(len);
    let mut i: usize = 0;
    while i < len
        invariant
            start + len <= data.len(),
            i <= len,
            r@ == data@.subrange(start as int, start + i),
        decreases len - i,
    {
        r.push(data[start + i]);
        i = i + 1;
        assert(r@ =~= data@.subrange(start as int, start + i));
    }
    r
}

/// Whether `data` can be handed to `Cartridge::load_ines`.
pub fn ines_check(data: &Vec<u8>) -> (r: bool)
    ensures
        r == ines_loadable(data@),
{
    if data.len() < 16 {
        return false;
    }
    if !(data[0] == 0x4E && data[1] == 0x45 && data[2] == 0x53 && data[3] == 0x1A) {
        return true;
    }
    let prg_rom_size = 0x4000 * data[4] as usize;
    let chr_rom_size = 0x2000 * data[5] as usize;
    let mapper_number = (data[6] >> 4u8) | ((data[7] >> 4u8) << 4u8);
    data.len() - 16 >= prg_rom_size + chr_rom_size
        && (mapper_number == 0 || mapper_number == 1 || mapper_number == 2 || mapper_number == 4)
}

impl Cartridge {
    /// Builds a cartridge from the bytes of an iNES (or NES 2.0) image named
    /// `name`; `sram` is the saved program RAM, used by battery-backed boards.
    /// Returns `None` for data without the iNES magic number.
    pub fn load_ines(name: String, data: &Vec<u8>, sram: Option<Vec<u8>>) -> (r: Option<Cartridge>)
        requires
            ines_loadable(data@),
        ensures
            r is None <==> !ines_magic(data@),
            r is Some ==> r->0.name@ == name@ && r->0@ == ines_board(data@, ram_of(sram)) && r->0@.wf(),
    {
        let mut header = [0u8; 16];
        let mut i: usize = 0;
        while i < 16
            invariant
                data.len() >= 16,
                i <= 16,
                forall|j: int| 0 <= j < i ==> header[j] == data@[j],
            decreases 16 - i,
        {
            header[i] = data[i];
            i = i + 1;
        }
        let is_nes = header[0] == 0x4E && header[1] == 0x45 && header[2] == 0x53 && header[3] == 0x1A;
        if !is_nes {
            return None;
        }
        // NES 2.0 images are read the same way as iNES ones.
        let prg_rom_size = 0x4000 * header[4] as usize;
        let chr_rom_size = 0x2000 * header[5] as usize;
        let prg_ram_size = 0x2000 * header[8] as usize;
        let mapper_number = (header[6] >> 4u8) | ((header[7] >> 4u8) << 4u8);
        let prg_rom = copy_range(data, 16, prg_rom_size);
        let chr = if chr_rom_size != 0 {
            copy_range(data, 16 + prg_rom_size, chr_rom_size)
        } else {
            let z = vec![0; 0x2000];
            assert(z@ =~= zeros(0x2000));
            z
        };
        let prg_ram = if header[6] & 2 != 0 {
            sram
        } else if prg_ram_size > 0 {
            let z = vec![0; prg_ram_size];
            assert(z@ =~= zeros(prg_ram_size as nat));
            Some(z)
        } else {
            None
        };
        let mapper = new_mapper(prg_rom, chr, prg_ram, &header, mapper_number);
        Some(Cartridge { name, mapper })
    }

    pub fn prg_ram_read(&mut self, addr: u16) -> (r: u8)
        requires
            addr >= 0x6000,
            old(self)@.prg_ram_read_ok((addr - 0x6000) as u16),
        ensures
            final(self).name == old(self).name,
            r == old(self)@.prg_ram_read_value((addr - 0x6000) as u16),
            final(self)@ == old(self)@,
    {
        self.mapper.prg_ram_read(addr - 0x6000)
    }

    // Assumes `addr` is in the range 0x8000-0xFFFF
    pub fn prg_read(&mut self, addr: u16) -> (r: u8)
        requires
            addr >= 0x8000,
            old(self)@.prg_read_ok((addr - 0x8000) as u16),
        ensures
            final(self).name == old(self).name,
            r == old(self)@.prg_read_value((addr - 0x8000) as u16),
            final(self)@ == old(self)@,
    {
        self.mapper.prg_read(addr - 0x8000)
    }

    // Assumes `addr` is in the range 0x0000-0x1FFF
    pub fn chr_read(&mut self, addr: u16) -> (r: u8)
        requires
            old(self)@.chr_read_ok(addr),
        ensures
            final(self).name == old(self).name,
            old(self)@.wf() ==> final(self)@.wf(),
            r == old(self)@.chr_read_value(addr),
            final(self)@ == old(self)@.after_chr_read(addr),
    {
        self.mapper.chr_read(addr)
    }

    // Assumes `addr` is in the range 0x2000-0x3FFF
    pub fn vram_read(&mut self, addr: u16) -> (r: u8)
        requires
            addr >= 0x2000,
            old(self)@.vram_ok((addr - 0x2000) as u16),
        ensures
            final(self).name == old(self).name,
            old(self)@.wf() ==> final(self)@.wf(),
            r == old(self)@.vram_read_value((addr - 0x2000) as u16),
            final(self)@ == old(self)@.after_vram_read((addr - 0x2000) as u16),
    {
        self.mapper.vram_read(addr - 0x2000)
    }

    pub fn prg_ram_write(&mut self, addr: u16, value: u8)
        requires
            addr >= 0x6000,
            old(self)@.prg_ram_write_ok((addr - 0x6000) as u16),
        ensures
            final(self).name == old(self).name,
            final(self)@ == old(self)@.prg_ram_written((addr - 0x6000) as u16, value),
    {
        self.mapper.prg_ram_write(addr - 0x6000, value)
    }

    pub fn prg_write(&mut self, addr: u16, value: u8)
        requires
            addr >= 0x8000,
            old(self)@.prg_write_ok((addr - 0x8000) as u16),
        ensures
            final(self).name == old(self).name,
            final(self)@ == old(self)@.prg_written((addr - 0x8000) as u16, value),
            old(self)@.wf() ==> final(self)@.wf(),
    {
        self.mapper.prg_write(addr - 0x8000, value);
    }

    pub fn chr_write(&mut self, addr: u16, value: u8)
        requires
            old(self)@.chr_write_ok(addr),
        ensures
            final(self).name == old(self).name,
            old(self)@.wf() ==> final(self)@.wf(),
            final(self)@ == old(self)@.chr_written(addr, value),
    {
        self.mapper.chr_write(addr, value);
    }

    pub fn vram_write(&mut self, addr: u16, value: u8)
        requires
            addr >= 0x2000,
            old(self)@.vram_ok((addr - 0x2000) as u16),
        ensures
            final(self).name == old(self).name,
            old(self)@.wf() ==> final(self)@.wf(),
            final(self)@ == old(self)@.vram_written((addr - 0x2000) as u16, value),
    {
        self.mapper.vram_write(addr - 0x2000, value);
    }

    /// The 8 KiB of program RAM as the board presents it, for saving to disk.
    pub fn sram_image(&mut self) -> (r: Vec<u8>)
        requires
            forall|i: u16| i < 0x2000 ==> old(self)@.prg_ram_read_ok(i),
        ensures
            final(self).name == old(self).name,
            r@ == Seq::new(0x2000, |i: int| old(self)@.prg_ram_read_value(i as u16)),
            final(self)@ == old(self)@,
    {
        let mut ram: Vec<u8> = Vec::with_capacity(0x2000);
        let mut i: u16 = 0;
        while i < 0x2000
            invariant
                i <= 0x2000,
                self@ == old(self)@,
                self.name == old(self).name,
                forall|j: u16| j < 0x2000 ==> old(self)@.prg_ram_read_ok(j),
                ram@ == Seq::new(i as nat, |k: int| old(self)@.prg_ram_read_value(k as u16)),
            decreases 0x2000 - i,
        {
            let b = self.mapper.prg_ram_read(i);
            ram.push(b);
            i = i + 1;
            assert(ram@ =~= Seq::new(i as nat, |k: int| old(self)@.prg_ram_read_value(k as u16)));
        }
        ram
    }
}

/// The contents of an optional save image.
pub open spec fn ram_of(sram: Option<Vec<u8>>) -> Option<Seq<u8>> {
    match sram {
        Some(v) => Some(v@),
        None => None,
    }
}

} // verus!
