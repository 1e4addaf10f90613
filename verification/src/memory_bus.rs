use vstd::prelude::*;
use crate::cartridge::Cartridge;
use crate::controller::Controller;
use crate::mappers::MapperView;
use crate::ppu::PPU;

verus! {

broadcast use vstd::array::group_array_axioms;

/// The CPU's address space: 2 KiB of RAM mirrored up to 0x1FFF, the PPU
/// registers mirrored every eight bytes up to 0x3FFF, OAM DMA at 0x4014, the
/// joypads at 0x4016/0x4017 and the cartridge from 0x8000.
pub struct MemoryBus {
    pub ram: [u8; 0x0800],
    pub cartridge: Cartridge,
    pub ppu: PPU,
    pub player_1: Option<Controller>,
    pub player_2: Option<Controller>,
    pub dma_signal: bool,
}

/// The state of the bus and everything on it.
pub ghost struct BusView {
    pub ram: [u8; 0x0800],
    pub cart: MapperView,
    pub ppu: PPU,
    pub player_1: Option<Controller>,
    pub player_2: Option<Controller>,
    pub dma_signal: bool,
}

impl View for MemoryBus {
    type V = BusView;

    open spec fn view(&self) -> BusView {
        BusView {
            ram: self.ram,
            cart: self.cartridge@,
            ppu: self.ppu,
            player_1: self.player_1,
            player_2: self.player_2,
            dma_signal: self.dma_signal,
        }
    }
}

impl BusView {
    pub open spec fn wf(self) -> bool {
        self.ppu.wf() && self.cart.wf()
    }

    /// A CPU read of `addr`: the new state and the value, or `None` where the
    /// read is undefined (a write-only PPU register, or a cartridge access
    /// outside its memories).
    #[verifier::opaque]
    pub open spec fn read_spec(self, addr: u16) -> Option<(BusView, u8)> {
        if addr < 0x2000 {
            Some((self, self.ram[(addr % 0x0800) as int]))
        } else if addr < 0x4000 {
            let r = addr % 8;
            if r == 2 {
                Some((BusView { ppu: self.ppu.status_read(), ..self }, self.ppu.status))
            } else if r == 4 {
                Some((self, self.ppu.oam[self.ppu.oam_addr as int]))
            } else if r == 7 {
                match self.ppu.data_read(self.cart) {
                    Some((p, c, v)) => Some((BusView { ppu: p, cart: c, ..self }, v)),
                    None => None,
                }
            } else {
                None
            }
        } else if addr == 0x4016 {
            match self.player_1 {
                Some(c) => Some((BusView { player_1: Some(c.after_read()), ..self }, c.read_value())),
                None => Some((self, 0)),
            }
        } else if addr == 0x4017 {
            match self.player_2 {
                Some(c) => Some((BusView { player_2: Some(c.after_read()), ..self }, c.read_value())),
                None => Some((self, 0)),
            }
        } else if addr >= 0x8000 {
            let a = (addr - 0x8000) as u16;
            if self.cart.prg_read_ok(a) { Some((self, self.cart.prg_read_value(a))) } else { None }
        } else {
            Some((self, 0))
        }
    }

    /// The 256 reads of an OAM DMA from page `base`, from byte `i` on, filling `acc`.
    pub open spec fn dma_from(self, base: u16, i: int, acc: [u8; 0x100]) -> Option<(BusView, [u8; 0x100])>
        decreases 0x100 - i,
    {
        if i >= 0x100 || i < 0 {
            Some((self, acc))
        } else {
            match self.read_spec((base + i) as u16) {
                None => None,
                Some((b, v)) => b.dma_from(base, i + 1, vstd::array::spec_array_update(acc, i, v)),
            }
        }
    }

    /// A CPU write of `value` to `addr`; `None` where it is undefined.
    #[verifier::opaque]
    pub open spec fn write_spec(self, addr: u16, value: u8) -> Option<BusView> {
        if addr < 0x2000 {
            Some(BusView { ram: vstd::array::spec_array_update(self.ram, (addr % 0x0800) as int, value), ..self })
        } else if addr < 0x4000 {
            let r = addr % 8;
            if r == 0 {
                Some(BusView { ppu: self.ppu.ctrl_written(value), ..self })
            } else if r == 1 {
                Some(BusView { ppu: PPU { mask: value, ..self.ppu }, ..self })
            } else if r == 3 {
                Some(BusView { ppu: PPU { oam_addr: value, ..self.ppu }, ..self })
            } else if r == 4 {
                Some(BusView { ppu: self.ppu.oam_written(value), ..self })
            } else if r == 5 {
                Some(BusView { ppu: self.ppu.scroll_written(value), ..self })
            } else if r == 6 {
                Some(BusView { ppu: self.ppu.addr_written(value), ..self })
            } else if r == 7 {
                match self.ppu.data_written(self.cart, value) {
                    Some((p, c)) => Some(BusView { ppu: p, cart: c, ..self }),
                    None => None,
                }
            } else {
                None
            }
        } else if addr == 0x4014 {
            match self.dma_from(((value as u16) * 256) as u16, 0, vstd::array::spec_array_fill_for_copy_type::<u8, 0x100>(0u8)) {
                None => None,
                Some((b, oam)) => Some(BusView { ppu: PPU { oam, ..b.ppu }, dma_signal: true, ..b }),
            }
        } else if addr == 0x4016 {
            Some(BusView {
                player_1: match self.player_1 {
                    Some(c) => Some(c.written(value)),
                    None => None,
                },
                player_2: match self.player_2 {
                    Some(c) => Some(c.written(value)),
                    None => None,
                },
                ..self
            })
        } else if addr >= 0x8000 {
            let a = (addr - 0x8000) as u16;
            if self.cart.prg_write_ok(a) { Some(BusView { cart: self.cart.prg_written(a, value), ..self }) } else { None }
        } else {
            Some(self)
        }
    }
}

impl MemoryBus {
    pub fn new(cartridge: Cartridge, player_1: Option<Controller>, player_2: Option<Controller>) -> (r: Self)
        requires
            cartridge@.wf(),
        ensures
            r@.wf(),
            r.cartridge == cartridge,
            r.player_1 == player_1 && r.player_2 == player_2,
            !r.dma_signal,
            forall|i: int| 0 <= i < 0x0800 ==> r.ram[i] == 0,
            r.ppu == PPU::new_spec(),
    {
        Self { ram: [0; 0x0800], ppu: PPU::new(), player_1, player_2, cartridge, dma_signal: false }
    }
}


/// A read leaves the bus's registers within their ranges.
pub proof fn lemma_read_keeps_wf(b: BusView, addr: u16)
    requires
        b.wf(),
        b.read_spec(addr) is Some,
    ensures
        (b.read_spec(addr)->0).0.wf(),
{
    reveal(BusView::read_spec);
}

impl MemoryBus {
    pub fn read(&mut self, addr: u16) -> (r: u8)
        requires
            old(self)@.read_spec(addr) is Some,
        ensures
            final(self).cartridge.name == old(self).cartridge.name,
            (final(self)@, r) == old(self)@.read_spec(addr)->0,
            old(self)@.wf() ==> final(self)@.wf(),
    {
        proof {
            reveal(BusView::read_spec);
        }
        if addr < 0x2000 {
            self.ram[(addr % 0x0800) as usize]
        } else if addr < 0x4000 {
            let r = addr % 8;
            if r == 2 {
                self.ppu.ppustatus_read()
            } else if r == 4 {
                self.ppu.oamdata_read()
            } else {
                self.ppu.ppudata_read(&mut self.cartridge)
            }
        } else if addr == 0x4016 {
            match &mut self.player_1 {
                Some(controller) => controller.read(),
                None => 0,
            }
        } else if addr == 0x4017 {
            match &mut self.player_2 {
                Some(controller) => controller.read(),
                None => 0,
            }
        } else if addr >= 0x8000 {
            self.cartridge.prg_read(addr)
        } else {
            0
        }
    }

    fn oam_dma(&mut self, value: u8)
        requires
            old(self)@.wf(),
            old(self)@.write_spec(0x4014, value) is Some,
        ensures
            final(self).cartridge.name == old(self).cartridge.name,
            Some(final(self)@) == old(self)@.write_spec(0x4014, value),
            final(self)@.wf(),
    {
        proof {
            reveal(BusView::write_spec);
        }
        let ghost b0 = self@;
        let mut new_oam = [0u8; 0x100];
        let base_address = (value as u16) << 8u16;
        assert(base_address == value * 256) by (bit_vector)
            requires base_address == (value as u16) << 8u16;
        let mut i: u16 = 0;
        while i < 0x100
            invariant
                i <= 0x100,
                self.cartridge.name == old(self).cartridge.name,
                base_address == value * 256,
                self@.wf(),
                self@.dma_from(base_address, i as int, new_oam) is Some,
                self@.dma_from(base_address, i as int, new_oam) == b0.dma_from(
                    base_address,
                    0,
                    vstd::array::spec_array_fill_for_copy_type::<u8, 0x100>(0u8),
                ),
            decreases 0x100 - i,
        {
            let ghost bi = self@;
            let ghost acc = new_oam;
            proof {
                lemma_read_keeps_wf(bi, (base_address + i) as u16);
            }
            let b = self.read(base_address + i);
            new_oam[i as usize] = b;
            proof {
                assert(new_oam =~= vstd::array::spec_array_update(acc, i as int, b));
                assert(bi.dma_from(base_address, i as int, acc) == self@.dma_from(base_address, i + 1, new_oam));
            }
            i = i + 1;
        }
        self.ppu.overwrite_oam(new_oam);
        self.dma_signal = true;
    }

    pub fn write(&mut self, addr: u16, value: u8)
        requires
            old(self)@.wf(),
            old(self)@.write_spec(addr, value) is Some,
        ensures
            final(self).cartridge.name == old(self).cartridge.name,
            Some(final(self)@) == old(self)@.write_spec(addr, value),
            final(self)@.wf(),
    {
        proof {
            reveal(BusView::write_spec);
        }
        if addr < 0x2000 {
            self.ram[(addr % 0x0800) as usize] = value;
            assert(self.ram =~= vstd::array::spec_array_update(old(self).ram, (addr % 0x0800) as int, value));
        } else if addr < 0x4000 {
            let r = addr % 8;
            if r == 0 {
                self.ppu.ppuctrl_write(value);
            } else if r == 1 {
                self.ppu.ppumask_write(value);
            } else if r == 3 {
                self.ppu.oamaddr_write(value);
            } else if r == 4 {
                self.ppu.oamdata_write(value);
            } else if r == 5 {
                self.ppu.ppuscroll_write(value);
            } else if r == 6 {
                self.ppu.ppuaddr_write(value);
            } else {
                self.ppu.ppudata_write(&mut self.cartridge, value);
            }
        } else if addr == 0x4014 {
            self.oam_dma(value);
        } else if addr == 0x4016 {
            if let Some(controller) = &mut self.player_1 {
                controller.write(value);
            }
            if let Some(controller) = &mut self.player_2 {
                controller.write(value);
            }
        } else if addr >= 0x8000 {
            self.cartridge.prg_write(addr, value);
        }
    }

    pub fn stop_dma_signal(&mut self)
        ensures
            final(self)@ == (BusView { dma_signal: false, ..old(self)@ }),
            final(self).cartridge.name == old(self).cartridge.name,
    {
        self.dma_signal = false;
    }
}


/// RAM reads and writes are always defined, have no side effects, and a read
/// gives back what the last write to the same (mirrored) address wrote.
pub proof fn lemma_ram_access(b: BusView, addr: u16, value: u8)
    requires
        addr < 0x2000,
    ensures
        b.read_spec(addr) == Some((b, b.ram[(addr % 0x0800) as int])),
        b.write_spec(addr, value) == Some(BusView {
            ram: vstd::array::spec_array_update(b.ram, (addr % 0x0800) as int, value),
            ..b
        }),
{
    reveal(BusView::read_spec);
    reveal(BusView::write_spec);
}


/// Reads never change RAM.
pub proof fn lemma_read_keeps_ram(b: BusView, addr: u16)
    requires
        b.read_spec(addr) is Some,
    ensures
        (b.read_spec(addr)->0).0.ram == b.ram,
{
    reveal(BusView::read_spec);
}


/// RAM repeats every 2 KiB below 0x2000, and a read gives back the byte last
/// written to the same address or any of its mirrors.
pub proof fn lemma_ram_write_read(b: BusView, addr: u16, value: u8, other: u16)
    requires
        addr < 0x2000,
        other < 0x2000,
        addr % 0x0800 == other % 0x0800,
    ensures
        b.read_spec(addr) == b.read_spec(other),
        b.write_spec(addr, value) is Some,
        ({
            let b1 = b.write_spec(addr, value)->0;
            b1.read_spec(other) == Some((b1, value))
        }),
{
    lemma_ram_access(b, addr, value);
    lemma_ram_access(b, other, value);
    let b1 = b.write_spec(addr, value)->0;
    lemma_ram_access(b1, other, value);
}

/// The eight PPU registers repeat every eight bytes from 0x2000 to 0x3FFF.
pub proof fn lemma_ppu_register_mirrors(b: BusView, addr: u16, value: u8)
    requires
        0x2000 <= addr < 0x4000,
    ensures
        b.read_spec(addr) == b.read_spec((0x2000 + addr % 8) as u16),
        b.write_spec(addr, value) == b.write_spec((0x2000 + addr % 8) as u16, value),
{
    reveal(BusView::read_spec);
    reveal(BusView::write_spec);
}

} // verus!
