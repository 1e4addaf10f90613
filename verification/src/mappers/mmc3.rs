use vstd::prelude::*;
use crate::mapper::{Mapper, NametableMirroring};
use crate::mappers::{mirrored_address, mirrored_address_spec, cleared_vram, ram_view};

verus! {

broadcast use vstd::array::group_array_axioms;

/// Mapper 4: 8 KiB program banks, 1 and 2 KiB pattern banks and a scanline
/// counter clocked by rising edges of PPU address line 12.
pub struct MMC3 {
    pub prg_ram: Vec<u8>,
    pub prg_ram_enabled: bool,
    pub prg_ram_protected: bool,
    pub prg_rom: Vec<u8>,
    pub chr_rom: Vec<u8>,
    pub vram: [u8; 0x0800],
    pub next_write_dest: u8,
    pub mirroring: NametableMirroring,
    pub prg_mode: bool,
    pub chr_mode: bool,
    pub prg_8kb_1: usize,
    pub prg_8kb_2: usize,
    pub chr_2kb_1: usize,
    pub chr_2kb_2: usize,
    pub chr_1kb_1: usize,
    pub chr_1kb_2: usize,
    pub chr_1kb_3: usize,
    pub chr_1kb_4: usize,
    pub irq_enabled: bool,
    pub irq_reload: bool,
    pub irq_pending: bool,
    pub irq_reset: u8,
    pub irq_counter: u8,
    pub num_low_clocks: usize,
}

pub ghost struct MMC3View {
    pub prg_ram: Seq<u8>,
    pub prg_ram_enabled: bool,
    pub prg_ram_protected: bool,
    pub prg_rom: Seq<u8>,
    pub chr_rom: Seq<u8>,
    pub vram: Seq<u8>,
    pub next_write_dest: u8,
    pub mirroring: NametableMirroring,
    pub prg_mode: bool,
    pub chr_mode: bool,
    pub prg_8kb_1: usize,
    pub prg_8kb_2: usize,
    pub chr_2kb_1: usize,
    pub chr_2kb_2: usize,
    pub chr_1kb_1: usize,
    pub chr_1kb_2: usize,
    pub chr_1kb_3: usize,
    pub chr_1kb_4: usize,
    pub irq_enabled: bool,
    pub irq_reload: bool,
    pub irq_pending: bool,
    pub irq_reset: u8,
    pub irq_counter: u8,
    pub num_low_clocks: usize,
}

impl View for MMC3 {
    type V = MMC3View;

    open spec fn view(&self) -> MMC3View {
        MMC3View {
            prg_ram: self.prg_ram@,
            prg_ram_enabled: self.prg_ram_enabled,
            prg_ram_protected: self.prg_ram_protected,
            prg_rom: self.prg_rom@,
            chr_rom: self.chr_rom@,
            vram: self.vram@,
            next_write_dest: self.next_write_dest,
            mirroring: self.mirroring,
            prg_mode: self.prg_mode,
            chr_mode: self.chr_mode,
            prg_8kb_1: self.prg_8kb_1,
            prg_8kb_2: self.prg_8kb_2,
            chr_2kb_1: self.chr_2kb_1,
            chr_2kb_2: self.chr_2kb_2,
            chr_1kb_1: self.chr_1kb_1,
            chr_1kb_2: self.chr_1kb_2,
            chr_1kb_3: self.chr_1kb_3,
            chr_1kb_4: self.chr_1kb_4,
            irq_enabled: self.irq_enabled,
            irq_reload: self.irq_reload,
            irq_pending: self.irq_pending,
            irq_reset: self.irq_reset,
            irq_counter: self.irq_counter,
            num_low_clocks: self.num_low_clocks,
        }
    }
}

impl MMC3View {
    pub open spec fn initial(prg: Seq<u8>, chr: Seq<u8>, prg_ram: Option<Seq<u8>>, header_byte_6: u8) -> MMC3View {
        MMC3View {
            prg_ram: match prg_ram {
                Some(r) => r,
                None => Seq::new(0x2000, |i: int| 0u8),
            },
            prg_ram_enabled: false,
            prg_ram_protected: false,
            prg_rom: prg,
            chr_rom: chr,
            vram: cleared_vram(),
            next_write_dest: 0,
            mirroring: if header_byte_6 & 0x08 != 0 { NametableMirroring::FourScreen } else { NametableMirroring::Horizontal },
            prg_mode: false,
            chr_mode: false,
            prg_8kb_1: 0,
            prg_8kb_2: 0,
            chr_2kb_1: 0,
            chr_2kb_2: 0,
            chr_1kb_1: 0,
            chr_1kb_2: 0,
            chr_1kb_3: 0,
            chr_1kb_4: 0,
            irq_enabled: false,
            irq_reload: false,
            irq_pending: false,
            irq_reset: 0,
            irq_counter: 0,
            num_low_clocks: 0,
        }
    }

    pub open spec fn wf(self) -> bool {
        &&& self.next_write_dest < 8
        &&& self.vram.len() == 0x0800
    }

    pub open spec fn prg_ram_read_ok(self, addr: u16) -> bool {
        self.prg_ram_enabled ==> (addr as int) < self.prg_ram.len()
    }

    pub open spec fn prg_ram_read_value(self, addr: u16) -> u8 {
        if self.prg_ram_enabled { self.prg_ram[addr as int] } else { 0 }
    }

    pub open spec fn prg_ram_write_ok(self, addr: u16) -> bool {
        self.prg_ram_enabled && !self.prg_ram_protected ==> (addr as int) < self.prg_ram.len()
    }

    pub open spec fn prg_ram_written(self, addr: u16, value: u8) -> MMC3View {
        if self.prg_ram_enabled && !self.prg_ram_protected {
            MMC3View { prg_ram: self.prg_ram.update(addr as int, value), ..self }
        } else {
            self
        }
    }

    /// Program offset (relative to 0x8000) mapped through the four 8 KiB windows;
    /// the last two banks of the image are fixed in the windows not switched.
    pub open spec fn prg_index(self, addr: u16) -> int {
        let last = self.prg_rom.len() - 0x2000;
        let second_last = last - 0x2000;
        if self.prg_mode {
            if addr < 0x2000 {
                addr + second_last
            } else if addr < 0x4000 {
                addr - 0x2000 + self.prg_8kb_2 * 0x2000
            } else if addr < 0x6000 {
                addr - 0x4000 + self.prg_8kb_1 * 0x2000
            } else {
                addr - 0x6000 + last
            }
        } else {
            if addr < 0x2000 {
                addr + self.prg_8kb_1 * 0x2000
            } else if addr < 0x4000 {
                addr - 0x2000 + self.prg_8kb_2 * 0x2000
            } else {
                addr - 0x4000 + second_last
            }
        }
    }

    pub open spec fn prg_read_ok(self, addr: u16) -> bool {
        &&& addr < 0x8000
        &&& self.prg_rom.len() >= 0x4000
        &&& self.prg_index(addr) < self.prg_rom.len()
    }

    /// Pattern offset mapped through the 2 KiB and 1 KiB banks; the chr mode bit
    /// swaps which half holds which.
    pub open spec fn chr_index(self, addr: u16) -> int {
        if self.chr_mode {
            if addr < 0x0400 {
                addr + self.chr_1kb_1 * 0x0400
            } else if addr < 0x0800 {
                addr - 0x0400 + self.chr_1kb_2 * 0x0400
            } else if addr < 0x0C00 {
                addr - 0x0800 + self.chr_1kb_3 * 0x0400
            } else if addr < 0x1000 {
                addr - 0x0C00 + self.chr_1kb_4 * 0x0400
            } else if addr < 0x1800 {
                addr - 0x1000 + self.chr_2kb_1 * 0x0800
            } else {
                addr - 0x1800 + self.chr_2kb_2 * 0x0800
            }
        } else {
            if addr < 0x0800 {
                addr + self.chr_2kb_1 * 0x0800
            } else if addr < 0x1000 {
                addr - 0x0800 + self.chr_2kb_2 * 0x0800
            } else if addr < 0x1400 {
                addr - 0x1000 + self.chr_1kb_1 * 0x0400
            } else if addr < 0x1800 {
                addr - 0x1400 + self.chr_1kb_2 * 0x0400
            } else if addr < 0x1C00 {
                addr - 0x1800 + self.chr_1kb_3 * 0x0400
            } else {
                addr - 0x1C00 + self.chr_1kb_4 * 0x0400
            }
        }
    }

    /// The count of consecutive low-A12 accesses can still be incremented.
    pub open spec fn a12_ok(self, addr: u16) -> bool {
        addr & 0x1000 == 0 ==> self.num_low_clocks < usize::MAX
    }

    pub open spec fn chr_ok(self, addr: u16) -> bool {
        &&& addr < 0x2000
        &&& self.a12_ok(addr)
        &&& self.chr_index(addr) < self.chr_rom.len()
    }

    /// One clock of the scanline counter: reload when zero or asked to, else
    /// count down; an enabled counter that reaches zero raises the interrupt.
    pub open spec fn irq_clocked(self) -> MMC3View {
        let counter = if self.irq_counter == 0 || self.irq_reload { self.irq_reset } else { (self.irq_counter - 1) as u8 };
        MMC3View {
            irq_counter: counter,
            irq_reload: false,
            irq_pending: self.irq_pending || (counter == 0 && self.irq_enabled),
            ..self
        }
    }

    /// Effect of a PPU access at `addr` on the A12 edge detector.
    pub open spec fn a12_updated(self, addr: u16) -> MMC3View {
        if addr & 0x1000 != 0 {
            let m = if self.num_low_clocks >= 1 { self.irq_clocked() } else { self };
            MMC3View { num_low_clocks: 0, ..m }
        } else {
            MMC3View { num_low_clocks: (self.num_low_clocks + 1) as usize, ..self }
        }
    }

    pub open spec fn bank_written(self, value: u8) -> MMC3View {
        let d = self.next_write_dest;
        if d == 0 {
            MMC3View { chr_2kb_1: ((value >> 1u8) & 0x7F) as usize, ..self }
        } else if d == 1 {
            MMC3View { chr_2kb_2: ((value >> 1u8) & 0x7F) as usize, ..self }
        } else if d == 2 {
            MMC3View { chr_1kb_1: value as usize, ..self }
        } else if d == 3 {
            MMC3View { chr_1kb_2: value as usize, ..self }
        } else if d == 4 {
            MMC3View { chr_1kb_3: value as usize, ..self }
        } else if d == 5 {
            MMC3View { chr_1kb_4: value as usize, ..self }
        } else if d == 6 {
            MMC3View { prg_8kb_1: value as usize, ..self }
        } else {
            MMC3View { prg_8kb_2: value as usize, ..self }
        }
    }

    /// Effect of a CPU write to the program area (`addr` relative to 0x8000):
    /// even and odd addresses of each 8 KiB range are two registers.
    pub open spec fn prg_written(self, addr: u16, value: u8) -> MMC3View {
        let is_even = addr & 1 == 0;
        if addr < 0x2000 {
            if is_even {
                MMC3View {
                    next_write_dest: value & 0x07,
                    prg_mode: value & 0x40 != 0,
                    chr_mode: value & 0x80 != 0,
                    ..self
                }
            } else {
                self.bank_written(value)
            }
        } else if addr < 0x4000 {
            if is_even {
                if self.mirroring != NametableMirroring::FourScreen {
                    MMC3View {
                        mirroring: if value & 1 == 0 { NametableMirroring::Vertical } else { NametableMirroring::Horizontal },
                        ..self
                    }
                } else {
                    self
                }
            } else {
                MMC3View { prg_ram_protected: value & 0x40 != 0, prg_ram_enabled: value & 0x80 != 0, ..self }
            }
        } else if addr < 0x6000 {
            if is_even {
                MMC3View { irq_reset: value, ..self }
            } else {
                MMC3View { irq_counter: 0, irq_reload: true, ..self }
            }
        } else {
            MMC3View { irq_enabled: !is_even, ..self }
        }
    }
}

impl MMC3 {
    pub fn new(prg: Vec<u8>, chr: Vec<u8>, prg_ram: Option<Vec<u8>>, header: &[u8; 0x10]) -> (r: MMC3)
        ensures
            r@ == MMC3View::initial(prg@, chr@, ram_view(prg_ram), header[6]),
            r@.wf(),
    {
        let ram = if let Some(ram) = prg_ram { ram } else { vec![0; 0x2000] };
        let r = MMC3 {
            prg_ram: ram,
            prg_ram_enabled: false,
            prg_ram_protected: false,
            prg_rom: prg,
            chr_rom: chr,
            vram: [0; 0x0800],
            next_write_dest: 0,
            // Placeholder until the mirroring register is written.
            mirroring: if header[6] & 0x08 != 0 { NametableMirroring::FourScreen } else { NametableMirroring::Horizontal },
            prg_mode: false,
            chr_mode: false,
            prg_8kb_1: 0,
            prg_8kb_2: 0,
            chr_2kb_1: 0,
            chr_2kb_2: 0,
            chr_1kb_1: 0,
            chr_1kb_2: 0,
            chr_1kb_3: 0,
            chr_1kb_4: 0,
            irq_enabled: false,
            irq_reload: false,
            irq_pending: false,
            irq_reset: 0,
            irq_counter: 0,
            num_low_clocks: 0,
        };
        assert(r.vram@ =~= cleared_vram());
        assert(prg_ram is None ==> r.prg_ram@ =~= Seq::new(0x2000, |i: int| 0u8));
        r
    }

    fn prg_effective_address(&self, addr: u16) -> (r: usize)
        requires
            self@.prg_read_ok(addr),
        ensures
            r == self@.prg_index(addr),
    {
        let _len = self.prg_rom.len();
        let last_bank_loc = self.prg_rom.len() - 0x2000;
        let second_last_bank_loc = last_bank_loc - 0x2000;
        if self.prg_mode {
            if addr < 0x2000 {
                (addr as usize) + second_last_bank_loc
            } else if addr < 0x4000 {
                (addr as usize - 0x2000) + self.prg_8kb_2 * 0x2000
            } else if addr < 0x6000 {
                (addr as usize - 0x4000) + self.prg_8kb_1 * 0x2000
            } else {
                (addr as usize - 0x6000) + last_bank_loc
            }
        } else {
            if addr < 0x2000 {
                (addr as usize) + self.prg_8kb_1 * 0x2000
            } else if addr < 0x4000 {
                (addr as usize - 0x2000) + self.prg_8kb_2 * 0x2000
            } else {
                (addr as usize - 0x4000) + second_last_bank_loc
            }
        }
    }

    fn chr_effective_address(&self, addr: u16) -> (r: usize)
        requires
            addr < 0x2000,
            self@.chr_index(addr) < self.chr_rom@.len(),
        ensures
            r == self@.chr_index(addr),
    {
        let _len = self.chr_rom.len();
        if self.chr_mode {
            if addr < 0x0400 {
                (addr as usize) + self.chr_1kb_1 * 0x0400
            } else if addr < 0x0800 {
                (addr as usize - 0x0400) + self.chr_1kb_2 * 0x0400
            } else if addr < 0x0C00 {
                (addr as usize - 0x0800) + self.chr_1kb_3 * 0x0400
            } else if addr < 0x1000 {
                (addr as usize - 0x0C00) + self.chr_1kb_4 * 0x0400
            } else if addr < 0x1800 {
                (addr as usize - 0x1000) + self.chr_2kb_1 * 0x0800
            } else {
                (addr as usize - 0x1800) + self.chr_2kb_2 * 0x0800
            }
        } else {
            if addr < 0x0800 {
                (addr as usize) + self.chr_2kb_1 * 0x0800
            } else if addr < 0x1000 {
                (addr as usize - 0x0800) + self.chr_2kb_2 * 0x0800
            } else if addr < 0x1400 {
                (addr as usize - 0x1000) + self.chr_1kb_1 * 0x0400
            } else if addr < 0x1800 {
                (addr as usize - 0x1400) + self.chr_1kb_2 * 0x0400
            } else if addr < 0x1C00 {
                (addr as usize - 0x1800) + self.chr_1kb_3 * 0x0400
            } else {
                (addr as usize - 0x1C00) + self.chr_1kb_4 * 0x0400
            }
        }
    }

    fn write_bank(&mut self, value: u8)
        requires
            old(self).next_write_dest < 8,
        ensures
            final(self)@ == old(self)@.bank_written(value),
    {
        match self.next_write_dest {
            0 => self.chr_2kb_1 = ((value >> 1u8) & 0x7F) as usize,
            1 => self.chr_2kb_2 = ((value >> 1u8) & 0x7F) as usize,
            2 => self.chr_1kb_1 = value as usize,
            3 => self.chr_1kb_2 = value as usize,
            4 => self.chr_1kb_3 = value as usize,
            5 => self.chr_1kb_4 = value as usize,
            6 => self.prg_8kb_1 = value as usize,
            _ => self.prg_8kb_2 = value as usize,
        }
    }

    fn clock_irq(&mut self)
        ensures
            final(self)@ == old(self)@.irq_clocked(),
    {
        if self.irq_counter == 0 || self.irq_reload {
            self.irq_counter = self.irq_reset;
        } else {
            self.irq_counter = self.irq_counter - 1;
        }
        self.irq_reload = false;
        self.irq_pending = self.irq_pending || (self.irq_counter == 0 && self.irq_enabled);
    }

    fn update_a12(&mut self, addr: u16)
        requires
            old(self)@.a12_ok(addr),
        ensures
            final(self)@ == old(self)@.a12_updated(addr),
    {
        if addr & 0x1000 != 0 {
            if self.num_low_clocks >= 1 {
                self.clock_irq();
            }
            self.num_low_clocks = 0;
        } else {
            self.num_low_clocks = self.num_low_clocks + 1;
        }
    }
}

impl Mapper for MMC3 {
    open spec fn prg_ram_read_ok(&self, addr: u16) -> bool {
        self@.prg_ram_read_ok(addr)
    }

    open spec fn prg_ram_write_ok(&self, addr: u16) -> bool {
        self@.prg_ram_write_ok(addr)
    }

    open spec fn prg_read_ok(&self, addr: u16) -> bool {
        self@.prg_read_ok(addr)
    }

    open spec fn prg_write_ok(&self, addr: u16) -> bool {
        self.next_write_dest < 8
    }

    open spec fn chr_read_ok(&self, addr: u16) -> bool {
        self@.chr_ok(addr)
    }

    open spec fn chr_write_ok(&self, addr: u16) -> bool {
        self@.chr_ok(addr)
    }

    open spec fn vram_read_ok(&self, addr: u16) -> bool {
        self@.a12_ok(0x2000u16 | addr)
    }

    open spec fn vram_write_ok(&self, addr: u16) -> bool {
        self@.a12_ok(0x2000u16 | addr)
    }

    fn prg_ram_read(&mut self, addr: u16) -> (r: u8)
        ensures
            r == old(self)@.prg_ram_read_value(addr),
            final(self)@ == old(self)@,
    {
        if self.prg_ram_enabled {
            self.prg_ram[addr as usize]
        } else {
            0
        }
    }

    fn prg_ram_write(&mut self, addr: u16, value: u8)
        ensures
            final(self)@ == old(self)@.prg_ram_written(addr, value),
    {
        if self.prg_ram_enabled && !self.prg_ram_protected {
            self.prg_ram.set(addr as usize, value);
        }
    }

    fn prg_read(&mut self, addr: u16) -> (r: u8)
        ensures
            r == old(self)@.prg_rom[old(self)@.prg_index(addr)],
            final(self)@ == old(self)@,
    {
        let effective_address = self.prg_effective_address(addr);
        self.prg_rom[effective_address]
    }

    fn prg_write(&mut self, addr: u16, value: u8)
        ensures
            final(self)@ == old(self)@.prg_written(addr, value),
            old(self)@.wf() ==> final(self)@.wf(),
    {
        let is_even = (addr & 1) == 0;
        if addr < 0x2000 {
            if is_even {
                self.next_write_dest = value & 0x07;
                self.prg_mode = value & 0x40 != 0;
                self.chr_mode = value & 0x80 != 0;
                proof {
                    crate::bit_utils::lemma_byte_fields(value);
                }
            } else {
                self.write_bank(value);
            }
        } else if addr < 0x4000 {
            if is_even {
                if self.mirroring != NametableMirroring::FourScreen {
                    self.mirroring = if value & 1 == 0 { NametableMirroring::Vertical } else { NametableMirroring::Horizontal };
                }
            } else {
                self.prg_ram_protected = value & 0x40 != 0;
                self.prg_ram_enabled = value & 0x80 != 0;
            }
        } else if addr < 0x6000 {
            if is_even {
                self.irq_reset = value;
            } else {
                self.irq_counter = 0;
                self.irq_reload = true;
            }
        } else {
            self.irq_enabled = !is_even;
        }
    }

    fn chr_read(&mut self, addr: u16) -> (r: u8)
        ensures
            r == old(self)@.chr_rom[old(self)@.chr_index(addr)],
            final(self)@ == old(self)@.a12_updated(addr),
    {
        self.update_a12(addr);
        let effective_address = self.chr_effective_address(addr);
        self.chr_rom[effective_address]
    }

    fn chr_write(&mut self, addr: u16, value: u8)
        ensures
            final(self)@ == (MMC3View {
                chr_rom: old(self)@.chr_rom.update(old(self)@.chr_index(addr), value),
                ..old(self)@.a12_updated(addr)
            }),
    {
        self.update_a12(addr);
        let effective_address = self.chr_effective_address(addr);
        self.chr_rom.set(effective_address, value);
    }

    fn vram_read(&mut self, addr: u16) -> (r: u8)
        ensures
            r == old(self)@.vram[(mirrored_address_spec(old(self)@.mirroring, addr) % 0x0800) as int],
            final(self)@ == old(self)@.a12_updated(0x2000u16 | addr),
    {
        self.update_a12(0x2000 | addr);
        let address = mirrored_address(self.mirroring, addr) as usize;
        self.vram[address % 0x0800]
    }

    fn vram_write(&mut self, addr: u16, value: u8)
        ensures
            final(self)@ == (MMC3View {
                vram: old(self)@.vram.update((mirrored_address_spec(old(self)@.mirroring, addr) % 0x0800) as int, value),
                ..old(self)@.a12_updated(0x2000u16 | addr)
            }),
    {
        self.update_a12(0x2000 | addr);
        let address = mirrored_address(self.mirroring, addr) as usize;
        self.vram[address % 0x0800] = value;
    }

    fn signaling_irq(&self) -> (r: bool)
        ensures
            r == self.irq_pending,
    {
        self.irq_pending
    }

    fn irq_acknowledged(&mut self)
        ensures
            final(self)@ == (MMC3View { irq_pending: false, ..old(self)@ }),
    {
        self.irq_pending = false;
    }
}

/// Selecting bank register `d` with a write of `sel` to $8000 and then writing
/// `v` to $8001 maps `v` into that register's pattern window. With the CHR mode
/// bit (bit 7 of `sel`) clear, R0 and R1 pick 2 KiB banks (the low bit of `v`
/// ignored) at PPU $0000 and $0800, and R2 to R5 pick 1 KiB banks at $1000,
/// $1400, $1800 and $1C00; with it set, R2 to R5 sit at $0000, $0400, $0800 and
/// $0C00 and R0 and R1 at $1000 and $1800. A pattern read in the window returns
/// the byte of the ROM at the offset into the window plus the bank's start.
pub proof fn lemma_chr_bank_windows(m: MMC3View, sel: u8, v: u8, addr: u16)
    ensures
        ({
            let m2 = m.prg_written(0, sel).prg_written(1, v);
            let r = m2.chr_rom[m2.chr_index(addr)];
            let rom = m.chr_rom;
            let d = sel & 0x07;
            let a = addr as int;
            &&& sel & 0x80 == 0 ==> {
                &&& (d == 0 && a < 0x0800) ==> r == rom[a + 0x0800 * (v / 2)]
                &&& (d == 1 && 0x0800 <= a < 0x1000) ==> r == rom[a - 0x0800 + 0x0800 * (v / 2)]
                &&& (d == 2 && 0x1000 <= a < 0x1400) ==> r == rom[a - 0x1000 + 0x0400 * v]
                &&& (d == 3 && 0x1400 <= a < 0x1800) ==> r == rom[a - 0x1400 + 0x0400 * v]
                &&& (d == 4 && 0x1800 <= a < 0x1C00) ==> r == rom[a - 0x1800 + 0x0400 * v]
                &&& (d == 5 && 0x1C00 <= a < 0x2000) ==> r == rom[a - 0x1C00 + 0x0400 * v]
            }
            &&& sel & 0x80 != 0 ==> {
                &&& (d == 2 && a < 0x0400) ==> r == rom[a + 0x0400 * v]
                &&& (d == 3 && 0x0400 <= a < 0x0800) ==> r == rom[a - 0x0400 + 0x0400 * v]
                &&& (d == 4 && 0x0800 <= a < 0x0C00) ==> r == rom[a - 0x0800 + 0x0400 * v]
                &&& (d == 5 && 0x0C00 <= a < 0x1000) ==> r == rom[a - 0x0C00 + 0x0400 * v]
                &&& (d == 0 && 0x1000 <= a < 0x1800) ==> r == rom[a - 0x1000 + 0x0800 * (v / 2)]
                &&& (d == 1 && 0x1800 <= a < 0x2000) ==> r == rom[a - 0x1800 + 0x0800 * (v / 2)]
            }
        }),
{
    assert((v >> 1u8) & 0x7F == v / 2 && 0u16 & 1 == 0 && 1u16 & 1 == 1) by (bit_vector);
}

/// Selecting R6 or R7 with a write of `sel` to $8000 and then writing `v` to
/// $8001 maps 8 KiB bank `v` into that register's program window. With the PRG
/// mode bit (bit 6 of `sel`) clear, R6 is at $8000, R7 at $A000, and $C000 and
/// $E000 hold the second-last and last banks of the image; with it set, the
/// second-last bank is at $8000 and R6 at $C000. A read at `addr` (relative to
/// $8000) in a window returns the byte at the offset into the window plus the
/// bank's start.
pub proof fn lemma_prg_bank_windows(m: MMC3View, sel: u8, v: u8, addr: u16)
    ensures
        ({
            let m2 = m.prg_written(0, sel).prg_written(1, v);
            let rom = m.prg_rom;
            let i = m2.prg_index(addr);
            let d = sel & 0x07;
            let a = addr as int;
            let last = rom.len() - 0x2000;
            &&& sel & 0x40 == 0 ==> {
                &&& (d == 6 && a < 0x2000) ==> i == a + 0x2000 * v
                &&& (d == 7 && 0x2000 <= a < 0x4000) ==> i == a - 0x2000 + 0x2000 * v
                &&& (0x4000 <= a < 0x6000) ==> i == a - 0x4000 + last - 0x2000
                &&& (0x6000 <= a) ==> i == a - 0x6000 + last
            }
            &&& sel & 0x40 != 0 ==> {
                &&& (a < 0x2000) ==> i == a + last - 0x2000
                &&& (d == 7 && 0x2000 <= a < 0x4000) ==> i == a - 0x2000 + 0x2000 * v
                &&& (d == 6 && 0x4000 <= a < 0x6000) ==> i == a - 0x4000 + 0x2000 * v
                &&& (0x6000 <= a < 0x8000) ==> i == a - 0x6000 + last
            }
        }),
{
    assert(0u16 & 1 == 0 && 1u16 & 1 == 1) by (bit_vector);
}

} // verus!
