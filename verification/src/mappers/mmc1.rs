use vstd::prelude::*;
use crate::mapper::{Mapper, NametableMirroring};
use crate::mappers::{mirrored_address, mirrored_address_spec, cleared_vram, ram_view};

verus! {

broadcast use vstd::array::group_array_axioms;

/// Mapper 1: registers loaded one bit at a time through a five-bit shift register.
pub struct MMC1 {
    pub prg_ram: Vec<u8>,
    pub prg_rom: Vec<u8>,
    pub chr_rom: Vec<u8>,
    pub vram: [u8; 0x0800],
    pub shift: u8,
    pub writes: u8,
    pub control: u8,
    pub prg_bank: usize,
    pub chr_bank_1: usize,
    pub chr_bank_2: usize,
}

pub ghost struct MMC1View {
    pub prg_ram: Seq<u8>,
    pub prg_rom: Seq<u8>,
    pub chr_rom: Seq<u8>,
    pub vram: Seq<u8>,
    pub shift: u8,
    pub writes: u8,
    pub control: u8,
    pub prg_bank: usize,
    pub chr_bank_1: usize,
    pub chr_bank_2: usize,
}

impl View for MMC1 {
    type V = MMC1View;

    open spec fn view(&self) -> MMC1View {
        MMC1View {
            prg_ram: self.prg_ram@,
            prg_rom: self.prg_rom@,
            chr_rom: self.chr_rom@,
            vram: self.vram@,
            shift: self.shift,
            writes: self.writes,
            control: self.control,
            prg_bank: self.prg_bank,
            chr_bank_1: self.chr_bank_1,
            chr_bank_2: self.chr_bank_2,
        }
    }
}

impl MMC1View {
    pub open spec fn initial(prg: Seq<u8>, chr: Seq<u8>, prg_ram: Option<Seq<u8>>) -> MMC1View {
        MMC1View {
            prg_ram: match prg_ram {
                Some(r) => r,
                None => Seq::new(0x2000, |i: int| 0u8),
            },
            prg_rom: prg,
            chr_rom: chr,
            vram: cleared_vram(),
            shift: 0,
            writes: 0,
            control: 0b01100,
            prg_bank: 0,
            chr_bank_1: 0,
            chr_bank_2: 0,
        }
    }

    /// Between register loads at most four bits have been shifted in.
    pub open spec fn wf(self) -> bool {
        &&& self.shift < 32
        &&& self.writes < 5
        &&& self.vram.len() == 0x0800
    }

    pub open spec fn prg_ram_read_ok(self, addr: u16) -> bool {
        (addr as int) < self.prg_ram.len()
    }

    /// Nametable folding selected by the low two control bits:
    /// one-screen low, one-screen high, vertical, horizontal.
    pub open spec fn mirrored_addr(self, addr: u16) -> int {
        let m = self.control & 3;
        if m == 0 {
            (addr % 0x0400) as int
        } else if m == 1 {
            (addr % 0x0400) + 0x0400
        } else if m == 2 {
            mirrored_address_spec(NametableMirroring::Vertical, addr) as int
        } else {
            mirrored_address_spec(NametableMirroring::Horizontal, addr) as int
        }
    }

    /// Program banking mode, control bits 2 and 3.
    pub open spec fn prg_mode(self) -> u8 {
        (self.control >> 2u8) & 3
    }

    pub open spec fn prg_index(self, addr: u16) -> int {
        let mode = self.prg_mode();
        if mode <= 1 {
            addr + self.prg_bank * 0x8000
        } else if mode == 2 {
            if addr < 0x4000 { addr as int } else { addr - 0x4000 + self.prg_bank * 0x4000 }
        } else {
            if addr < 0x4000 { addr + self.prg_bank * 0x4000 } else { addr + (self.prg_rom.len() - 0x8000) }
        }
    }

    pub open spec fn prg_read_ok(self, addr: u16) -> bool {
        &&& 0 <= self.prg_index(addr) < self.prg_rom.len()
        &&& (self.prg_mode() == 3 && addr >= 0x4000 ==> self.prg_rom.len() >= 0x8000)
    }

    pub open spec fn prg_read_value(self, addr: u16) -> u8 {
        self.prg_rom[self.prg_index(addr)]
    }

    /// The shift register after one serial bit (bit 0 of `value`) enters at bit 4.
    pub open spec fn shifted_in(self, value: u8) -> u8 {
        if value & 1 == 1 { (self.shift >> 1u8) | 0x10 } else { (self.shift >> 1u8) & 0xEF }
    }

    /// Effect of a CPU write to the program area (`addr` relative to 0x8000).
    pub open spec fn prg_written(self, addr: u16, value: u8) -> MMC1View {
        if value & 0x80 != 0 {
            MMC1View { writes: 0, shift: 0, ..self }
        } else {
            let sh = self.shifted_in(value);
            if self.writes + 1 < 5 {
                MMC1View { writes: (self.writes + 1) as u8, shift: sh, ..self }
            } else {
                let s = MMC1View { writes: 0, shift: 0, ..self };
                if addr < 0x2000 {
                    MMC1View { control: sh, ..s }
                } else if addr < 0x4000 {
                    MMC1View {
                        chr_bank_1: if self.control & 0x10 != 0 { sh as usize } else { ((sh >> 1u8) & 0x0F) as usize },
                        ..s
                    }
                } else if addr < 0x6000 {
                    if self.control & 0x10 != 0 { MMC1View { chr_bank_2: sh as usize, ..s } } else { s }
                } else {
                    MMC1View {
                        prg_bank: if self.prg_mode() <= 1 { ((sh >> 1u8) & 0x0F) as usize } else { sh as usize },
                        ..s
                    }
                }
            }
        }
    }

    /// Two 4 KiB pattern banks when control bit 4 is set, else one 8 KiB bank.
    pub open spec fn chr_index(self, addr: u16) -> int {
        if self.control & 0x10 != 0 {
            if addr < 0x1000 { addr + self.chr_bank_1 * 0x1000 } else { addr - 0x1000 + self.chr_bank_2 * 0x1000 }
        } else {
            addr + self.chr_bank_1 * 0x2000
        }
    }

    pub open spec fn chr_ok(self, addr: u16) -> bool {
        self.chr_index(addr) < self.chr_rom.len()
    }
}

impl MMC1 {
    pub fn new(prg: Vec<u8>, chr: Vec<u8>, prg_ram: Option<Vec<u8>>, _header: &[u8; 0x10]) -> (r: MMC1)
        ensures
            r@ == MMC1View::initial(prg@, chr@, ram_view(prg_ram)),
            r@.wf(),
    {
        let ram = if let Some(ram) = prg_ram { ram } else { vec![0; 0x2000] };
        let r = MMC1 {
            prg_ram: ram,
            prg_rom: prg,
            chr_rom: chr,
            vram: [0; 0x0800],
            shift: 0,
            writes: 0,
            control: 0b01100,
            prg_bank: 0,
            chr_bank_1: 0,
            chr_bank_2: 0,
        };
        assert(r.vram@ =~= cleared_vram());
        assert(prg_ram is None ==> r.prg_ram@ =~= Seq::new(0x2000, |i: int| 0u8));
        r
    }

    fn mirrored_addr(&self, addr: u16) -> (r: usize)
        requires
            addr < 0x1000,
        ensures
            r == self@.mirrored_addr(addr),
            r < 0x0800,
    {
        let control = self.control;
        let m = control & 3;
        proof {
            crate::bit_utils::lemma_byte_fields(control);
        }
        if m == 0 {
            (addr % 0x0400) as usize
        } else if m == 1 {
            (addr % 0x0400) as usize + 0x0400
        } else if m == 2 {
            mirrored_address(NametableMirroring::Vertical, addr) as usize
        } else {
            mirrored_address(NametableMirroring::Horizontal, addr) as usize
        }
    }
}

impl Mapper for MMC1 {
    open spec fn prg_ram_read_ok(&self, addr: u16) -> bool {
        self@.prg_ram_read_ok(addr)
    }

    open spec fn prg_ram_write_ok(&self, addr: u16) -> bool {
        self@.prg_ram_read_ok(addr)
    }

    open spec fn prg_read_ok(&self, addr: u16) -> bool {
        self@.prg_read_ok(addr)
    }

    open spec fn prg_write_ok(&self, addr: u16) -> bool {
        self.writes < 255
    }

    open spec fn chr_read_ok(&self, addr: u16) -> bool {
        self@.chr_ok(addr)
    }

    open spec fn chr_write_ok(&self, addr: u16) -> bool {
        self@.chr_ok(addr)
    }

    open spec fn vram_read_ok(&self, addr: u16) -> bool {
        true
    }

    open spec fn vram_write_ok(&self, addr: u16) -> bool {
        true
    }

    fn prg_ram_read(&mut self, addr: u16) -> (r: u8)
        ensures
            r == old(self)@.prg_ram[addr as int],
            final(self)@ == old(self)@,
    {
        self.prg_ram[addr as usize]
    }

    fn prg_ram_write(&mut self, addr: u16, value: u8)
        ensures
            final(self)@ == (MMC1View { prg_ram: old(self)@.prg_ram.update(addr as int, value), ..old(self)@ }),
    {
        self.prg_ram.set(addr as usize, value);
    }

    fn prg_read(&mut self, addr: u16) -> (r: u8)
        ensures
            r == old(self)@.prg_read_value(addr),
            final(self)@ == old(self)@,
    {
        let control = self.control;
        let mode = (control >> 2u8) & 3;
        proof {
            crate::bit_utils::lemma_byte_fields(control);
        }
        let _len = self.prg_rom.len();
        if mode <= 1 {
            self.prg_rom[addr as usize + self.prg_bank * 0x8000]
        } else if mode == 2 {
            if addr < 0x4000 {
                self.prg_rom[addr as usize]
            } else {
                self.prg_rom[(addr - 0x4000) as usize + self.prg_bank * 0x4000]
            }
        } else {
            if addr < 0x4000 {
                self.prg_rom[addr as usize + self.prg_bank * 0x4000]
            } else {
                // Equivalent to `addr - 0x4000` plus the start of the last bank.
                self.prg_rom[addr as usize + (self.prg_rom.len() - 0x8000)]
            }
        }
    }

    fn prg_write(&mut self, addr: u16, value: u8)
        ensures
            final(self)@ == old(self)@.prg_written(addr, value),
            old(self)@.wf() ==> final(self)@.wf(),
    {
        if value & 0x80 != 0 {
            self.writes = 0;
            self.shift = 0;
            return;
        }
        let old_shift = self.shift;
        let sh = if value & 1 == 1 { (old_shift >> 1u8) | 0x10 } else { (old_shift >> 1u8) & 0xEF };
        assert(old_shift < 32 ==> sh < 32) by (bit_vector)
            requires sh == if value & 1 == 1 { (old_shift >> 1u8) | 0x10 } else { (old_shift >> 1u8) & 0xEF };
        self.writes = self.writes + 1;
        self.shift = sh;
        if self.writes < 5 {
            return;
        }
        // Addresses are relative to 0x8000, so the register ranges start at 0.
        if addr < 0x2000 {
            self.control = self.shift;
        } else if addr < 0x4000 {
            if self.control & 0x10 != 0 {
                self.chr_bank_1 = self.shift as usize;
            } else {
                self.chr_bank_1 = ((self.shift >> 1u8) & 0x0F) as usize;
            }
        } else if addr < 0x6000 {
            if self.control & 0x10 != 0 {
                self.chr_bank_2 = self.shift as usize;
            }
        } else {
            let mode = (self.control >> 2u8) & 3;
            if mode <= 1 {
                self.prg_bank = ((self.shift >> 1u8) & 0x0F) as usize;
            } else {
                self.prg_bank = self.shift as usize;
            }
        }
        self.writes = 0;
        self.shift = 0;
    }

    fn chr_read(&mut self, addr: u16) -> (r: u8)
        ensures
            r == old(self)@.chr_rom[old(self)@.chr_index(addr)],
            final(self)@ == old(self)@,
    {
        let _len = self.chr_rom.len();
        if self.control & 0x10 != 0 {
            if addr < 0x1000 {
                self.chr_rom[addr as usize + self.chr_bank_1 * 0x1000]
            } else {
                self.chr_rom[(addr - 0x1000) as usize + self.chr_bank_2 * 0x1000]
            }
        } else {
            self.chr_rom[addr as usize + self.chr_bank_1 * 0x2000]
        }
    }

    // Some MMC1 images use CHR RAM.
    fn chr_write(&mut self, addr: u16, value: u8)
        ensures
            final(self)@ == (MMC1View {
                chr_rom: old(self)@.chr_rom.update(old(self)@.chr_index(addr), value),
                ..old(self)@
            }),
    {
        let _len = self.chr_rom.len();
        if self.control & 0x10 != 0 {
            if addr < 0x1000 {
                self.chr_rom.set(addr as usize + self.chr_bank_1 * 0x1000, value);
            } else {
                self.chr_rom.set((addr - 0x1000) as usize + self.chr_bank_2 * 0x1000, value);
            }
        } else {
            self.chr_rom.set(addr as usize + self.chr_bank_1 * 0x2000, value);
        }
    }

    fn vram_read(&mut self, addr: u16) -> (r: u8)
        ensures
            r == old(self)@.vram[old(self)@.mirrored_addr(addr % 0x1000)],
            final(self)@ == old(self)@,
    {
        self.vram[self.mirrored_addr(addr % 0x1000)]
    }

    fn vram_write(&mut self, addr: u16, value: u8)
        ensures
            final(self)@ == (MMC1View {
                vram: old(self)@.vram.update(old(self)@.mirrored_addr(addr % 0x1000), value),
                ..old(self)@
            }),
    {
        let i = self.mirrored_addr(addr % 0x1000);
        self.vram[i] = value;
    }

    fn signaling_irq(&self) -> (r: bool)
        ensures
            !r,
    {
        false
    }

    fn irq_acknowledged(&mut self)
        ensures
            final(self)@ == old(self)@,
    {
    }
}

/// The serial bits carried by `values`, first write lowest, as the shift
/// register holds them after the writes.
pub open spec fn serial_value(values: Seq<u8>) -> u8 {
    ((values[0] & 1) | ((values[1] & 1) << 1u8) | ((values[2] & 1) << 2u8) | ((values[3] & 1) << 3u8)
        | ((values[4] & 1) << 4u8)) as u8
}

/// Five writes with bit 7 clear, the first made with no bits pending, load the
/// register that the address of the fifth write selects; for the control
/// register (program offsets below 0x2000) the new value is the five serial
/// bits, the first write's bit lowest.
pub proof fn lemma_five_writes_load_control(m: MMC1View, addrs: Seq<u16>, values: Seq<u8>)
    requires
        m.wf(),
        m.writes == 0,
        addrs.len() == 5,
        values.len() == 5,
        forall|i: int| 0 <= i < 5 ==> values[i] & 0x80 == 0,
        addrs[4] < 0x2000,
    ensures
        m.prg_written(addrs[0], values[0]).prg_written(addrs[1], values[1]).prg_written(addrs[2], values[2])
            .prg_written(addrs[3], values[3]).prg_written(addrs[4], values[4]).control == serial_value(values),
{
    let m1 = m.prg_written(addrs[0], values[0]);
    let m2 = m1.prg_written(addrs[1], values[1]);
    let m3 = m2.prg_written(addrs[2], values[2]);
    let m4 = m3.prg_written(addrs[3], values[3]);
    let (v0, v1, v2, v3, v4) = (values[0], values[1], values[2], values[3], values[4]);
    let s0 = m.shift;
    assert(v0 & 0x80 == 0 && v1 & 0x80 == 0 && v2 & 0x80 == 0 && v3 & 0x80 == 0 && v4 & 0x80 == 0);
    assert(m1.writes == 1 && m2.writes == 2 && m3.writes == 3 && m4.writes == 4);
    let sh1 = m.shifted_in(v0);
    let sh2 = m1.shifted_in(v1);
    let sh3 = m2.shifted_in(v2);
    let sh4 = m3.shifted_in(v3);
    let sh5 = m4.shifted_in(v4);
    assert(sh5 == ((v0 & 1) | ((v1 & 1) << 1u8) | ((v2 & 1) << 2u8) | ((v3 & 1) << 3u8) | ((v4 & 1) << 4u8)) as u8)
        by (bit_vector)
        requires
            s0 < 32,
            sh1 == if v0 & 1 == 1 { (s0 >> 1u8) | 0x10 } else { (s0 >> 1u8) & 0xEF },
            sh2 == if v1 & 1 == 1 { (sh1 >> 1u8) | 0x10 } else { (sh1 >> 1u8) & 0xEF },
            sh3 == if v2 & 1 == 1 { (sh2 >> 1u8) | 0x10 } else { (sh2 >> 1u8) & 0xEF },
            sh4 == if v3 & 1 == 1 { (sh3 >> 1u8) | 0x10 } else { (sh3 >> 1u8) & 0xEF },
            sh5 == if v4 & 1 == 1 { (sh4 >> 1u8) | 0x10 } else { (sh4 >> 1u8) & 0xEF };
}

/// Program and pattern windows by the control register. Bits 2 and 3 choose
/// the program layout: 0x00 or 0x04, one 32 KiB bank (the bank number's low bit
/// ignored when it was loaded); 0x08, the first 16 KiB bank fixed at $8000 and
/// the selected one at $C000; 0x0C, the selected 16 KiB bank at $8000 and the
/// last one of the image at $C000. Bit 4 chooses two 4 KiB pattern banks (at
/// PPU $0000 and $1000) over one 8 KiB bank. `addr` is relative to the window's
/// base.
pub proof fn lemma_mmc1_windows(m: MMC1View, addr: u16)
    ensures
        ({
            let k = m.control & 0x0C;
            let a = addr as int;
            let p = m.prg_index(addr);
            let c = m.chr_index(addr);
            &&& k <= 0x04 ==> p == a + 0x8000 * m.prg_bank
            &&& (k == 0x08 && a < 0x4000) ==> p == a
            &&& (k == 0x08 && a >= 0x4000) ==> p == a - 0x4000 + 0x4000 * m.prg_bank
            &&& (k == 0x0C && a < 0x4000) ==> p == a + 0x4000 * m.prg_bank
            &&& (k == 0x0C && a >= 0x4000) ==> p == a - 0x4000 + (m.prg_rom.len() - 0x4000)
            &&& (m.control & 0x10 != 0 && a < 0x1000) ==> c == a + 0x1000 * m.chr_bank_1
            &&& (m.control & 0x10 != 0 && a >= 0x1000) ==> c == a - 0x1000 + 0x1000 * m.chr_bank_2
            &&& m.control & 0x10 == 0 ==> c == a + 0x2000 * m.chr_bank_1
        }),
{
    crate::bit_utils::lemma_byte_fields(m.control);
}

} // verus!
