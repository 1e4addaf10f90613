use vstd::prelude::*;
use crate::cartridge::Cartridge;
use crate::controller::Controller;
use crate::cpu::{read16_spec, CPU};
use crate::memory_bus::{BusView, MemoryBus};
use crate::mappers::MapperView;
use crate::ppu::PPU;

verus! {

broadcast use vstd::array::group_array_axioms;

/// The RGB colour of each of the 64 NES palette entries.
pub const NES_PALETTE: [(u8, u8, u8); 64] = [
    (98, 98, 98), (0, 28, 149), (25, 4, 172), (66, 0, 157), (97, 0, 107), (101, 5, 0), (110, 0, 37), (73, 30, 0),
    (34, 55, 0), (0, 73, 0), (0, 79, 0), (0, 72, 22), (0, 53, 94), (0, 0, 0), (0, 0, 0), (0, 0, 0),
    (171, 171, 171), (12, 78, 219), (61, 46, 255), (113, 21, 243), (155, 11, 185), (176, 18, 98), (169, 39, 4), (137, 70, 0),
    (87, 102, 0), (35, 127, 0), (0, 137, 0), (0, 131, 50), (0, 109, 144), (0, 0, 0), (0, 0, 0), (0, 0, 0),
    (255, 255, 255), (87, 165, 255), (130, 135, 255), (180, 109, 255), (223, 96, 255), (248, 99, 198), (248, 116, 109), (222, 144, 32),
    (179, 174, 0), (129, 200, 0), (86, 213, 34), (61, 211, 111), (62, 193, 200), (78, 78, 78), (0, 0, 0), (0, 0, 0),
    (255, 255, 255), (190, 224, 255), (205, 212, 255), (224, 202, 255), (241, 196, 255), (252, 196, 239), (253, 202, 206), (245, 212, 175),
    (230, 223, 156), (211, 233, 154), (194, 239, 168), (183, 239, 196), (182, 234, 229), (184, 184, 184), (0, 0, 0), (0, 0, 0),
];

/// The console: CPU, bus, and the picture the PPU has drawn, 256 by 240
/// pixels in rows from the top.
pub struct NES {
    pub cpu: CPU,
    pub bus: MemoryBus,
    pub framebuffer: [(u8, u8, u8); 61440],
}

/// The state of the whole console.
pub ghost struct NESView {
    pub cpu: CPU,
    pub bus: BusView,
    pub framebuffer: [(u8, u8, u8); 61440],
}

impl View for NES {
    type V = NESView;

    open spec fn view(&self) -> NESView {
        NESView { cpu: self.cpu, bus: self.bus@, framebuffer: self.framebuffer }
    }
}

/// The colour of the pixel the PPU last shifted out.
pub open spec fn pixel_color(p: PPU) -> (u8, u8, u8) {
    NES_PALETTE[p.pal_read_spec(p.palette_index) as int]
}

impl NESView {
    pub open spec fn wf(self) -> bool {
        self.bus.wf()
    }

    /// Before the CPU cycle: a pending NMI is taken when no instruction is in
    /// progress, at most once per frame.
    pub open spec fn nmi_checked(self) -> Option<NESView> {
        if self.cpu.delay == 0 && self.bus.ppu.signaling_nmi_spec() {
            match self.cpu.interrupt_spec(self.bus, self.cpu.pc, 0xFFFA) {
                None => None,
                Some((c, b)) => Some(NESView {
                    cpu: CPU { delay: (self.cpu.delay + 7) as usize, ..c },
                    bus: BusView { ppu: PPU { nmi_done: true, ..b.ppu }, ..b },
                    ..self
                }),
            }
        } else {
            Some(self)
        }
    }

    /// After the CPU cycle: an OAM DMA started in it stalls the CPU for 513
    /// cycles, 514 when it began on an odd cycle.
    pub open spec fn dma_stalled(self) -> Option<NESView> {
        if self.bus.dma_signal {
            if self.cpu.cycles == 0 {
                None
            } else {
                let stall: int = if (self.cpu.cycles - 1) % 2 == 0 { 513 } else { 514 };
                Some(NESView {
                    cpu: CPU { delay: (self.cpu.delay + stall) as usize, ..self.cpu },
                    bus: BusView { dma_signal: false, ..self.bus },
                    ..self
                })
            }
        } else {
            Some(self)
        }
    }

    /// One PPU dot; on the visible dots (scanlines 0 to 239, cycles 1 to 256)
    /// the pixel it outputs is stored at `(cycle - 1) + scanline * 256`.
    /// `None` once the frame counter is exhausted.
    pub open spec fn dot_spec(self) -> Option<NESView> {
        let scanline = self.bus.ppu.scanline;
        let cycle = self.bus.ppu.cycle;
        if self.bus.ppu.frame == usize::MAX {
            None
        } else {
            self.dot_output(self.bus.ppu.tick_spec(self.bus.cart), scanline, cycle)
        }
    }

    /// The state after a dot whose PPU result is `ticked`, begun at `scanline`
    /// and `cycle`.
    pub open spec fn dot_output(self, ticked: Option<(PPU, MapperView)>, scanline: usize, cycle: usize) -> Option<NESView> {
        match ticked {
            None => None,
            Some((p, c)) => {
                let bus = BusView { ppu: p, cart: c, ..self.bus };
                if scanline < 240 && 1 <= cycle <= 256 {
                    let index = (cycle - 1) + scanline * 256;
                    Some(NESView {
                        bus,
                        framebuffer: vstd::array::spec_array_update(self.framebuffer, index, pixel_color(p)),
                        ..self
                    })
                } else {
                    Some(NESView { bus, ..self })
                }
            },
        }
    }

    /// `n` PPU dots in a row.
    pub open spec fn dots_spec(self, n: nat) -> Option<NESView>
        decreases n,
    {
        if n == 0 {
            Some(self)
        } else {
            match self.dot_spec() {
                None => None,
                Some(s) => s.dots_spec((n - 1) as nat),
            }
        }
    }

    /// One CPU cycle and three PPU dots.
    pub open spec fn tick_spec(self) -> Option<NESView> {
        match self.nmi_checked() {
            None => None,
            Some(s1) => match s1.cpu.step_spec(s1.bus) {
                None => None,
                Some((c2, b2, _)) => match (NESView { cpu: c2, bus: b2, ..s1 }).dma_stalled() {
                    None => None,
                    Some(s3) => s3.dots_spec(3),
                },
            },
        }
    }
}

/// Once taken, the NMI is not signalled again before the next vertical blank
/// re-arms it, so its handler is entered at most once per frame.
pub proof fn lemma_nmi_taken_once(s: NESView)
    requires
        s.cpu.delay == 0,
        s.bus.ppu.signaling_nmi_spec(),
        s.nmi_checked() is Some,
    ensures
        !(s.nmi_checked()->0).bus.ppu.signaling_nmi_spec(),
        (s.nmi_checked()->0).cpu.delay == 7,
{
}

/// A dot begun at scanline `s` < 240 and cycle `c` in 1..=256 stores the colour
/// of the pixel the PPU then outputs (the palette entry its palette index
/// selects) at `framebuffer[(c - 1) + 256 * s]`, so the top-left pixel is entry
/// 0 and rows run left to right; no other entry changes, and a dot outside the
/// visible area changes none.
pub proof fn lemma_dot_pixel(n: NESView)
    requires
        n.dot_spec() is Some,
    ensures
        ({
            let m = n.dot_spec()->0;
            let s = n.bus.ppu.scanline as int;
            let c = n.bus.ppu.cycle as int;
            let q = m.bus.ppu;
            let index = (c - 1) + 256 * s;
            &&& (s < 240 && 1 <= c <= 256) ==> {
                &&& m.framebuffer[index] == NES_PALETTE[q.pal_read_spec(q.palette_index) as int]
                &&& forall|j: int| 0 <= j < 61440 && j != index ==> m.framebuffer[j] == n.framebuffer[j]
            }
            &&& !(s < 240 && 1 <= c <= 256) ==> m.framebuffer == n.framebuffer
        }),
{
}

impl NES {
    pub fn new(cart: Cartridge, player_1: Option<Controller>, player_2: Option<Controller>) -> (r: Self)
        requires
            cart@.wf(),
        ensures
            r@.wf(),
            r.cpu == (CPU { pc: 0, sp: 0xFD, p: 0b00110000, a: 0, x: 0, y: 0, cycles: 0, delay: 0 }),
            r.bus.cartridge == cart,
            r.bus.player_1 == player_1 && r.bus.player_2 == player_2,
            !r.bus.dma_signal,
            forall|i: int| 0 <= i < 0x0800 ==> r.bus.ram[i] == 0,
            r.bus.ppu == PPU::new_spec(),
            forall|i: int| 0 <= i < 61440 ==> r.framebuffer[i] == (0u8, 0u8, 0u8),
    {
        Self { cpu: CPU::new(), bus: MemoryBus::new(cart, player_1, player_2), framebuffer: [(0, 0, 0); 61440] }
    }

    /// Loads the PC from the reset vector.
    pub fn reset(&mut self)
        requires
            old(self)@.wf(),
            old(self).cpu.delay + 7 <= usize::MAX,
            read16_spec(old(self).bus@, 0xFFFC) is Some,
        ensures
            (final(self).bus@, final(self).cpu.pc) == read16_spec(old(self).bus@, 0xFFFC)->0,
            final(self).cpu == (CPU { pc: final(self).cpu.pc, delay: (old(self).cpu.delay + 7) as usize, ..old(self).cpu }),
            final(self).framebuffer == old(self).framebuffer,
            final(self).bus.cartridge.name == old(self).bus.cartridge.name,
            final(self)@.wf(),
    {
        self.cpu.jump_to_startup(&mut self.bus);
    }

    /// One PPU dot, storing the pixel it outputs.
    fn dot(&mut self)
        requires
            old(self)@.wf(),
            old(self)@.dot_spec() is Some,
        ensures
            Some(final(self)@) == old(self)@.dot_spec(),
            final(self).bus.cartridge.name == old(self).bus.cartridge.name,
            final(self)@.wf(),
    {
        let scanline = self.bus.ppu.scanline;
        let cycle = self.bus.ppu.cycle;
        self.bus.ppu.tick(&mut self.bus.cartridge);
        if scanline < 240 && 1 <= cycle && cycle <= 256 {
            let x = cycle - 1;
            let y = scanline;
            let index = x + y * 256;
            let color = self.bus.ppu.pal_read(self.bus.ppu.palette_index);
            let ghost before = self.framebuffer;
            self.framebuffer[index] = NES_PALETTE[color as usize];
            assert(self.framebuffer =~= vstd::array::spec_array_update(before, index as int, pixel_color(self.bus.ppu)));
        }
    }

    /// One CPU cycle and three PPU dots: a pending NMI is taken first, an OAM
    /// DMA stalls the CPU, and each visible dot stores its pixel.
    pub fn tick(&mut self)
        requires
            old(self)@.wf(),
            old(self).cpu.cycles < usize::MAX,
            old(self).cpu.delay <= usize::MAX - 514,
            old(self)@.tick_spec() is Some,
        ensures
            Some(final(self)@) == old(self)@.tick_spec(),
            final(self).bus.cartridge.name == old(self).bus.cartridge.name,
            final(self)@.wf(),
    {
        if self.cpu.delay == 0 && self.bus.ppu.signaling_nmi() {
            self.cpu.jump_to_nmi_handler(&mut self.bus);
            // An NMI handler is entered at most once per frame.
            self.bus.ppu.disable_nmi_this_frame();
        }
        assert(Some(self@) == old(self)@.nmi_checked());
        self.cpu.step(&mut self.bus);
        if self.bus.dma_signal {
            // The DMA began on the cycle just run.
            if (self.cpu.cycles - 1) % 2 == 0 {
                self.cpu.delay = self.cpu.delay + 513;
            } else {
                self.cpu.delay = self.cpu.delay + 514;
            }
            self.bus.stop_dma_signal();
        }
        let ghost s3 = self@;
        assert(s3.dots_spec(3) == old(self)@.tick_spec());
        let mut k: usize = 0;
        while k < 3
            invariant
                k <= 3,
                self@.wf(),
                self.bus.cartridge.name == old(self).bus.cartridge.name,
                self@.dots_spec((3 - k) as nat) is Some,
                self@.dots_spec((3 - k) as nat) == s3.dots_spec(3),
            decreases 3 - k,
        {
            self.dot();
            k = k + 1;
        }
    }
}

} // verus!
