use vstd::prelude::*;
use crate::cartridge::Cartridge;
use crate::mappers::MapperView;

verus! {

broadcast use vstd::array::group_array_axioms;

/// Bits of PPUCTRL ($2000).
#[derive(Copy, Clone, Debug)]
pub enum PPUControlFlags {
    X9thBit,
    Y9thBit,
    VRAMIncrement,
    SpriteTableAddress,
    BgTableAddress,
    SpriteSize,
    MasterSlave,
    NMIEnabled,
}

/// Bits of PPUMASK ($2001).
#[derive(Copy, Clone, Debug)]
pub enum PPUMaskFlags {
    Greyscale,
    ShowBorderBg,
    ShowBorderSprites,
    EnableBg,
    EnableSprites,
    EmphasizeRed,
    EmphasizeGreen,
    EmphasizeBlue,
}

/// Bits of PPUSTATUS ($2002).
#[derive(Copy, Clone, Debug)]
pub enum PPUStatusFlags {
    SpriteOverflow,
    Sprite0Hit,
    VBlank,
}

/// Bits of a sprite's attribute byte.
#[derive(Copy, Clone, Debug)]
pub enum SpriteAttributes {
    BehindBg,
    FlipHorizontally,
    FlipVertically,
}

impl PPUControlFlags {
    pub open spec fn spec_index(self) -> usize {
        match self {
            PPUControlFlags::X9thBit => 0,
            PPUControlFlags::Y9thBit => 1,
            PPUControlFlags::VRAMIncrement => 2,
            PPUControlFlags::SpriteTableAddress => 3,
            PPUControlFlags::BgTableAddress => 4,
            PPUControlFlags::SpriteSize => 5,
            PPUControlFlags::MasterSlave => 6,
            PPUControlFlags::NMIEnabled => 7,
        }
    }

    /// Bit position of the flag in PPUCTRL.
    pub fn index(self) -> (r: usize)
        ensures
            r == self.spec_index(),
    {
        match self {
            PPUControlFlags::X9thBit => 0,
            PPUControlFlags::Y9thBit => 1,
            PPUControlFlags::VRAMIncrement => 2,
            PPUControlFlags::SpriteTableAddress => 3,
            PPUControlFlags::BgTableAddress => 4,
            PPUControlFlags::SpriteSize => 5,
            PPUControlFlags::MasterSlave => 6,
            PPUControlFlags::NMIEnabled => 7,
        }
    }
}

impl PPUMaskFlags {
    pub open spec fn spec_index(self) -> usize {
        match self {
            PPUMaskFlags::Greyscale => 0,
            PPUMaskFlags::ShowBorderBg => 1,
            PPUMaskFlags::ShowBorderSprites => 2,
            PPUMaskFlags::EnableBg => 3,
            PPUMaskFlags::EnableSprites => 4,
            PPUMaskFlags::EmphasizeRed => 5,
            PPUMaskFlags::EmphasizeGreen => 6,
            PPUMaskFlags::EmphasizeBlue => 7,
        }
    }

    /// Bit position of the flag in PPUMASK.
    pub fn index(self) -> (r: usize)
        ensures
            r == self.spec_index(),
    {
        match self {
            PPUMaskFlags::Greyscale => 0,
            PPUMaskFlags::ShowBorderBg => 1,
            PPUMaskFlags::ShowBorderSprites => 2,
            PPUMaskFlags::EnableBg => 3,
            PPUMaskFlags::EnableSprites => 4,
            PPUMaskFlags::EmphasizeRed => 5,
            PPUMaskFlags::EmphasizeGreen => 6,
            PPUMaskFlags::EmphasizeBlue => 7,
        }
    }
}

impl PPUStatusFlags {
    pub open spec fn spec_index(self) -> usize {
        match self {
            PPUStatusFlags::SpriteOverflow => 5,
            PPUStatusFlags::Sprite0Hit => 6,
            PPUStatusFlags::VBlank => 7,
        }
    }

    /// Bit position of the flag in PPUSTATUS.
    pub fn index(self) -> (r: usize)
        ensures
            r == self.spec_index(),
    {
        match self {
            PPUStatusFlags::SpriteOverflow => 5,
            PPUStatusFlags::Sprite0Hit => 6,
            PPUStatusFlags::VBlank => 7,
        }
    }
}

impl SpriteAttributes {
    pub open spec fn spec_index(self) -> usize {
        match self {
            SpriteAttributes::BehindBg => 5,
            SpriteAttributes::FlipHorizontally => 6,
            SpriteAttributes::FlipVertically => 7,
        }
    }

    /// Bit position of the flag in a sprite's attribute byte.
    pub fn index(self) -> (r: usize)
        ensures
            r == self.spec_index(),
    {
        match self {
            SpriteAttributes::BehindBg => 5,
            SpriteAttributes::FlipHorizontally => 6,
            SpriteAttributes::FlipVertically => 7,
        }
    }
}

/// The picture processing unit. Its pattern tables and nametables live on the
/// cartridge, which the operations that touch them take as an argument.
pub struct PPU {
    pub control: u8,
    pub mask: u8,
    pub status: u8,
    pub nmi_done: bool,
    pub v: u16,
    pub t: u16,
    pub x: u8,
    pub w: bool,
    pub buffer: u8,
    pub nt_byte: u8,
    pub at_byte: u8,
    pub pt_low: u8,
    pub pt_high: u8,
    pub p_shift_lo: u16,
    pub p_shift_hi: u16,
    pub a_latch_lo: bool,
    pub a_latch_hi: bool,
    pub a_shift_lo: u16,
    pub a_shift_hi: u16,
    pub oam_addr: u8,
    pub oam: [u8; 0x100],
    pub secondary_oam: [u8; 0x020],
    pub sprite_count: usize,
    pub can_hit_sp0: bool,
    pub sprite_pt_lo: [u8; 0x008],
    pub sprite_pt_hi: [u8; 0x008],
    pub sprite_attr: [u8; 0x008],
    pub sprite_xs: [u8; 0x008],
    pub palette_ram: [u8; 0x020],
    // The palette address of the latest pixel shifted out.
    pub palette_index: u16,
    pub cycle: usize,
    pub scanline: usize,
    pub frame: usize,
}

/// `x` reduced to 16 bits.
pub open spec fn wrap16(x: int) -> u16 {
    (x % 0x10000) as u16
}

/// Result of a PPU-bus read of `addr`: pattern memory below 0x2000, nametables
/// up to 0x3EFF, and 0 above; `None` when the cartridge cannot serve it.
pub open spec fn cart_read(cart: MapperView, addr: u16) -> Option<(MapperView, u8)> {
    if addr < 0x2000 {
        if cart.chr_read_ok(addr) { Some((cart.after_chr_read(addr), cart.chr_read_value(addr))) } else { None }
    } else if addr < 0x3F00 {
        let a = (addr - 0x2000) as u16;
        if cart.vram_ok(a) { Some((cart.after_vram_read(a), cart.vram_read_value(a))) } else { None }
    } else {
        Some((cart, 0))
    }
}

/// Horizontal scroll position within the tile row (coarse X).
pub open spec fn coarse_x(v: u16) -> u16 {
    v & 0x1F
}

pub open spec fn coarse_y(v: u16) -> u16 {
    (v >> 5u16) & 0x1F
}

pub open spec fn fine_y(v: u16) -> u16 {
    (v >> 12u16) & 0x07
}

/// `v` moved one tile right: coarse X wraps from 31 to 0 and then switches the
/// horizontal nametable.
pub open spec fn incremented_x(v: u16) -> u16 {
    if coarse_x(v) == 31 { (v & 0xFFE0) ^ 0x0400 } else { (v + 1) as u16 }
}

/// `v` moved one pixel row down: fine Y counts to 7, then coarse Y advances;
/// row 29 wraps to 0 and switches the vertical nametable, row 31 wraps without
/// switching.
pub open spec fn incremented_y(v: u16) -> u16 {
    if fine_y(v) < 7 {
        (v + 0x1000) as u16
    } else {
        let base = v & 0x8C1F;
        let cy = coarse_y(v);
        if cy == 29 {
            base ^ 0x0800
        } else if cy == 31 {
            base
        } else {
            base | (((cy + 1) as u16) << 5u16)
        }
    }
}

/// Index into palette RAM of a palette address; the backdrop entries of the
/// sprite palettes mirror those of the background palettes.
pub open spec fn palette_address_spec(addr: u16) -> int {
    let a = (addr - 0x3F00) % 0x20;
    if a == 0x10 || a == 0x14 || a == 0x18 || a == 0x1C { a - 0x10 } else { a }
}

impl PPU {
    /// Registers within the ranges the hardware gives them.
    pub open spec fn wf(self) -> bool {
        &&& self.x < 8
        &&& self.sprite_count <= 8
        &&& self.cycle <= 340
        &&& self.scanline <= 261
        &&& self.palette_index >= 0x3F00
    }

    pub open spec fn increment_spec(self) -> u16 {
        if self.control & 0x04 != 0 { 32 } else { 1 }
    }

    pub open spec fn rendering_spec(self) -> bool {
        self.mask & 0x08 != 0 || self.mask & 0x10 != 0
    }

    pub open spec fn attribute_bits_spec(self) -> (bool, bool) {
        let quadrant_x = (coarse_x(self.v) >> 1u16) & 1;
        let quadrant_y = (coarse_y(self.v) >> 1u16) & 1;
        let shift = (quadrant_y << 2u16) | (quadrant_x << 1u16);
        let shifted = self.at_byte >> (shift as u8);
        (shifted & 1 == 1, (shifted >> 1u8) & 1 == 1)
    }

    pub open spec fn shifters_shifted(self) -> Self {
        PPU {
            p_shift_lo: self.p_shift_lo << 1u16,
            p_shift_hi: self.p_shift_hi << 1u16,
            a_shift_lo: self.a_shift_lo << 1u16,
            a_shift_hi: self.a_shift_hi << 1u16,
            ..self
        }
    }

    /// The fetched tile row enters the low bytes of the shifters; the attribute
    /// shifters take eight copies of the latched attribute bits.
    pub open spec fn shifters_reloaded(self) -> Self {
        PPU {
            p_shift_lo: (self.p_shift_lo & 0xFF00) | (self.pt_low as u16),
            p_shift_hi: (self.p_shift_hi & 0xFF00) | (self.pt_high as u16),
            a_shift_lo: if self.a_latch_lo { self.a_shift_lo | 0x00FF } else { self.a_shift_lo & 0xFF00 },
            a_shift_hi: if self.a_latch_hi { self.a_shift_hi | 0x00FF } else { self.a_shift_hi & 0xFF00 },
            ..self
        }
    }

    pub open spec fn status_read(self) -> Self {
        PPU { w: false, status: self.status & 0x7F, ..self }
    }

    pub open spec fn ctrl_written(self, to: u8) -> Self {
        PPU { control: to, t: (self.t & 0xF3FF) | (((to & 0x03) as u16) << 10u16), ..self }
    }

    /// The first write sets fine X and coarse X, the second fine Y and coarse Y.
    pub open spec fn scroll_written(self, to: u8) -> Self {
        if self.w {
            PPU {
                t: (((self.t & 0x8FFF) | (((to & 0x07) as u16) << 12u16)) & 0xFC1F) | (((to >> 3u8) as u16) << 5u16),
                w: false,
                ..self
            }
        } else {
            PPU { x: to & 0x07, t: (self.t & 0xFFE0) | ((to >> 3u8) as u16), w: true, ..self }
        }
    }

    /// The first write sets the high six bits of the address (clearing bit 15),
    /// the second the low byte, and copies it to `v`.
    pub open spec fn addr_written(self, to: u8) -> Self {
        if self.w {
            let t = (self.t & 0xFF00) | (to as u16);
            PPU { t, v: t, w: false, ..self }
        } else {
            PPU { t: ((self.t & 0xC0FF) | (((to & 0x3F) as u16) << 8u16)) & 0x7FFF, w: true, ..self }
        }
    }

    pub open spec fn pal_read_spec(self, addr: u16) -> u8 {
        self.palette_ram[palette_address_spec(addr)] & 0x3F
    }

    /// PPUDATA read: below the palettes the value comes through the read buffer,
    /// which is refilled from `v`; palette reads are immediate and refill the
    /// buffer from the nametable underneath. `v` then advances.
    pub open spec fn data_read(self, cart: MapperView) -> Option<(PPU, MapperView, u8)> {
        let mv = self.v & 0x3FFF;
        let next_v = wrap16(self.v + self.increment_spec());
        if mv < 0x3F00 {
            match cart_read(cart, mv) {
                Some((c, b)) => Some((PPU { buffer: b, v: next_v, ..self }, c, self.buffer)),
                None => None,
            }
        } else {
            match cart_read(cart, (mv - 0x1000) as u16) {
                Some((c, b)) => Some((PPU { buffer: b, v: next_v, ..self }, c, self.pal_read_spec(mv))),
                None => None,
            }
        }
    }

    /// PPUDATA write: pattern memory, nametables or palette RAM, then `v` advances.
    pub open spec fn data_written(self, cart: MapperView, to: u8) -> Option<(PPU, MapperView)> {
        let mv = self.v & 0x3FFF;
        let next_v = wrap16(self.v + self.increment_spec());
        if mv < 0x2000 {
            if cart.chr_write_ok(mv) { Some((PPU { v: next_v, ..self }, cart.chr_written(mv, to))) } else { None }
        } else if mv < 0x3F00 {
            let a = (mv - 0x2000) as u16;
            if cart.vram_ok(a) { Some((PPU { v: next_v, ..self }, cart.vram_written(a, to))) } else { None }
        } else {
            Some((
                PPU { palette_ram: vstd::array::spec_array_update(self.palette_ram, palette_address_spec(mv), to & 0x3F), v: next_v, ..self },
                cart,
            ))
        }
    }

    pub open spec fn oam_written(self, to: u8) -> Self {
        PPU {
            oam: vstd::array::spec_array_update(self.oam, self.oam_addr as int, to),
            oam_addr: ((self.oam_addr + 1) % 0x100) as u8,
            ..self
        }
    }

    pub open spec fn signaling_nmi_spec(self) -> bool {
        !self.nmi_done && self.control & 0x80 != 0 && self.status & 0x80 != 0
    }

    pub open spec fn nametable_fetch(self, cart: MapperView) -> Option<(MapperView, u8)> {
        cart_read(cart, 0x2000u16 | (self.v & 0x0FFF))
    }

    pub open spec fn attribute_address(self) -> u16 {
        0x23C0u16 | (self.v & 0x0C00) | ((self.v >> 4u16) & 0x38) | ((self.v >> 2u16) & 0x07)
    }

    /// Pattern-table address of the low plane of the current background tile row.
    pub open spec fn bg_pattern_address(self) -> u16 {
        ((if self.control & 0x10 != 0 { 0x1000int } else { 0 }) + (self.nt_byte as int) * 16 + fine_y(self.v)) as u16
    }

    /// The background fetch made at the current cycle of an eight-cycle group.
    pub open spec fn fetched(self, cart: MapperView) -> Option<(PPU, MapperView)> {
        let phase = self.cycle % 8;
        if phase == 1 {
            match self.nametable_fetch(cart) {
                Some((c, b)) => Some((PPU { nt_byte: b, ..self }, c)),
                None => None,
            }
        } else if phase == 3 {
            match cart_read(cart, self.attribute_address()) {
                Some((c, b)) => {
                    let p = PPU { at_byte: b, ..self };
                    let (lo, hi) = p.attribute_bits_spec();
                    Some((PPU { a_latch_lo: lo, a_latch_hi: hi, ..p }, c))
                },
                None => None,
            }
        } else if phase == 5 {
            match cart_read(cart, self.bg_pattern_address()) {
                Some((c, b)) => Some((PPU { pt_low: b, ..self }, c)),
                None => None,
            }
        } else if phase == 7 {
            match cart_read(cart, (self.bg_pattern_address() + 8) as u16) {
                Some((c, b)) => Some((PPU { pt_high: b, ..self }, c)),
                None => None,
            }
        } else if phase == 0 {
            Some((self.shifters_reloaded(), cart))
        } else {
            Some((self, cart))
        }
    }

    pub open spec fn sprite_height(self) -> int {
        if self.control & 0x20 != 0 { 16 } else { 8 }
    }

    /// Sprite evaluation from OAM entry `i` on: sprites covering scanline `next`
    /// are copied to secondary OAM until eight are found; a ninth sets the
    /// overflow flag and ends the search.
    pub open spec fn evaluated_from(self, i: int, next: int) -> Self
        decreases 64 - i,
    {
        if i >= 64 || i < 0 {
            self
        } else {
            let top = self.oam[i * 4] + 1;
            if next >= top && next < top + self.sprite_height() {
                if self.sprite_count < 8 {
                    let c = self.sprite_count as int;
                    let s0 = vstd::array::spec_array_update(self.secondary_oam, c * 4, self.oam[i * 4]);
                    let s1 = vstd::array::spec_array_update(s0, c * 4 + 1, self.oam[i * 4 + 1]);
                    let s2 = vstd::array::spec_array_update(s1, c * 4 + 2, self.oam[i * 4 + 2]);
                    let s3 = vstd::array::spec_array_update(s2, c * 4 + 3, self.oam[i * 4 + 3]);
                    PPU {
                        secondary_oam: s3,
                        can_hit_sp0: self.can_hit_sp0 || i == 0,
                        sprite_count: (self.sprite_count + 1) as usize,
                        ..self
                    }.evaluated_from(i + 1, next)
                } else {
                    PPU { status: self.status | 0x20, ..self }
                }
            } else {
                self.evaluated_from(i + 1, next)
            }
        }
    }

    /// Pattern address of the row of selected sprite `i` that falls on scanline `next`.
    pub open spec fn sprite_pattern_address(self, i: int, next: int) -> u16 {
        let height = self.sprite_height();
        let y = self.secondary_oam[i * 4] as int;
        let tile = self.secondary_oam[i * 4 + 1];
        let attr = self.secondary_oam[i * 4 + 2];
        let row = next - (y + 1);
        let rel_y = if attr & 0x80 != 0 { height - 1 - row } else { row };
        let bank = if height == 16 {
            if tile & 1 == 1 { 0x1000int } else { 0 }
        } else {
            if self.control & 0x08 != 0 { 0x1000int } else { 0 }
        };
        let tile16 = if height == 16 { (tile & 0xFE) as int } else { tile as int };
        (if height == 8 {
            bank + tile16 * 16 + rel_y
        } else if rel_y >= 8 {
            bank + (tile16 + 1) * 16 + rel_y - 8
        } else {
            bank + tile16 * 16 + rel_y
        }) as u16
    }

    /// Pattern fetches for the selected sprites from `i` on.
    pub open spec fn sprite_fetches_from(self, cart: MapperView, i: int, next: int) -> Option<(PPU, MapperView)>
        decreases self.sprite_count - i,
    {
        if i >= self.sprite_count || i < 0 {
            Some((self, cart))
        } else {
            let address = self.sprite_pattern_address(i, next);
            match cart_read(cart, address) {
                None => None,
                Some((c1, lo)) => match cart_read(c1, (address + 8) as u16) {
                    None => None,
                    Some((c2, hi)) => PPU {
                        sprite_pt_lo: vstd::array::spec_array_update(self.sprite_pt_lo, i, lo),
                        sprite_pt_hi: vstd::array::spec_array_update(self.sprite_pt_hi, i, hi),
                        sprite_attr: vstd::array::spec_array_update(self.sprite_attr, i, self.secondary_oam[i * 4 + 2]),
                        sprite_xs: vstd::array::spec_array_update(self.sprite_xs, i, self.secondary_oam[i * 4 + 3]),
                        ..self
                    }.sprite_fetches_from(c2, i + 1, next),
                },
            }
        }
    }

    /// Address of the dummy fetches made for the unused sprite slots.
    pub open spec fn dummy_address(self) -> u16 {
        if self.control & 0x20 != 0 {
            0x1FF0
        } else if self.control & 0x08 != 0 {
            0x1FF0
        } else {
            0x0FF0
        }
    }

    /// The dummy fetch pairs for slots `k` to 7.
    pub open spec fn dummy_fetches_from(self, cart: MapperView, k: int) -> Option<MapperView>
        decreases 8 - k,
    {
        if k >= 8 {
            Some(cart)
        } else {
            match cart_read(cart, self.dummy_address()) {
                None => None,
                Some((c1, _)) => match cart_read(c1, (self.dummy_address() + 8) as u16) {
                    None => None,
                    Some((c2, _)) => self.dummy_fetches_from(c2, k + 1),
                },
            }
        }
    }

    /// Sprite evaluation and pattern fetches for the next scanline.
    pub open spec fn sprites_evaluated(self, cart: MapperView) -> Option<(PPU, MapperView)> {
        let next = self.scanline + 1;
        let e = PPU { sprite_count: 0, can_hit_sp0: false, ..self }.evaluated_from(0, next);
        match e.sprite_fetches_from(cart, 0, next) {
            None => None,
            Some((p, c)) => match p.dummy_fetches_from(c, p.sprite_count as int) {
                None => None,
                Some(c2) => Some((p, c2)),
            },
        }
    }

    /// Sprite pixel at the current cycle, trying selected sprites from `i` on:
    /// the first opaque one sets the palette index unless it is behind an
    /// opaque background, and sprite 0 over opaque background sets the hit flag.
    pub open spec fn rendered_from(self, i: int, bg_opaque: bool) -> Self
        decreases 8 - i,
    {
        if i >= self.sprite_count || i >= 8 || i < 0 {
            self
        } else {
            let x = self.sprite_xs[i] as int;
            let cur = self.cycle as int;
            if cur < x || cur >= x + 8 {
                self.rendered_from(i + 1, bg_opaque)
            } else if x < 8 && self.mask & 0x04 == 0 {
                self.rendered_from(i + 1, bg_opaque)
            } else {
                let offset = cur - x;
                let attr = self.sprite_attr[i];
                let bit_index = (if attr & 0x40 != 0 { offset } else { 7 - offset }) as u8;
                let lo = (self.sprite_pt_lo[i] >> bit_index) & 1;
                let hi = (self.sprite_pt_hi[i] >> bit_index) & 1;
                let pattern = (hi * 2 + lo) as u16;
                if pattern == 0 {
                    self.rendered_from(i + 1, bg_opaque)
                } else {
                    let p1 = if bg_opaque && self.can_hit_sp0 && i == 0 && cur < 255 {
                        PPU { status: self.status | 0x40, ..self }
                    } else {
                        self
                    };
                    let palette_index = 0x3F10u16 | (((attr & 3) as u16) << 2u16) | pattern;
                    if !bg_opaque || attr & 0x20 == 0 {
                        PPU { palette_index, ..p1 }
                    } else {
                        p1
                    }
                }
            }
        }
    }
}


impl PPU {
    /// The sprites in secondary OAM all cover scanline `next`.
    pub open spec fn selected_ok(self, next: int) -> bool {
        &&& self.sprite_count <= 8
        &&& forall|k: int|
            0 <= k < self.sprite_count ==> {
                let top = #[trigger] self.secondary_oam[k * 4] + 1;
                top <= next < top + self.sprite_height()
            }
    }
}

impl PPU {
    /// Palette address of the background pixel shifted out at fine X.
    pub open spec fn bg_pixel(self) -> u16 {
        let bit_pos = (15 - self.x) as u16;
        let lo = (self.p_shift_lo >> bit_pos) & 1;
        let hi = (self.p_shift_hi >> bit_pos) & 1;
        let alo = (self.a_shift_lo >> bit_pos) & 1;
        let ahi = (self.a_shift_hi >> bit_pos) & 1;
        let pattern = (hi * 2 + lo) as u16;
        let attribute = (ahi * 2 + alo) as u16;
        0x3F00u16 | (if pattern == 0 { 0u16 } else { (attribute << 2u16) | pattern })
    }

    /// Shifting and background fetches during the fetch cycles, with the
    /// coarse X increment at the end of each tile.
    pub open spec fn fetch_step(self, cart: MapperView, rendering: bool) -> Option<(PPU, MapperView)> {
        let c = self.cycle;
        if (1 <= c <= 256) || (321 <= c <= 336) {
            match self.shifters_shifted().fetched(cart) {
                None => None,
                Some((p, cc)) => Some((if c % 8 == 0 && rendering { PPU { v: incremented_x(p.v), ..p } } else { p }, cc)),
            }
        } else {
            Some((self, cart))
        }
    }

    /// The Y increment at cycle 256, and at cycle 257 the horizontal scroll
    /// copy and sprite evaluation (cleared on the pre-render line).
    pub open spec fn scroll_step(self, cart: MapperView, rendering: bool) -> Option<(PPU, MapperView)> {
        let c = self.cycle;
        let p2 = if c == 256 && rendering { PPU { v: incremented_y(self.v), ..self } } else { self };
        if c == 257 && rendering {
            let p3 = PPU { v: (p2.v & 0xFBE0) | (p2.t & 0x041F), ..p2 };
            if p3.scanline == 261 {
                Some((PPU { sprite_count: 0, can_hit_sp0: false, ..p3 }, cart))
            } else {
                p3.sprites_evaluated(cart)
            }
        } else {
            Some((p2, cart))
        }
    }

    /// The unused nametable fetches at the end of the line.
    pub open spec fn late_fetch_step(self, cart: MapperView) -> Option<(PPU, MapperView)> {
        if self.cycle == 338 || self.cycle == 340 {
            match self.nametable_fetch(cart) {
                None => None,
                Some((c5, _)) => Some((self, c5)),
            }
        } else {
            Some((self, cart))
        }
    }

    /// Shifting, background fetches and scroll updates of a rendering scanline,
    /// with sprite evaluation at cycle 257.
    pub open spec fn background_phase(self, cart: MapperView, rendering: bool) -> Option<(PPU, MapperView)> {
        match self.fetch_step(cart, rendering) {
            None => None,
            Some((p1, c1)) => match p1.scroll_step(c1, rendering) {
                None => None,
                Some((p2, c2)) => p2.late_fetch_step(c2),
            },
        }
    }

    /// Flag updates and pixel output of a rendering scanline; the flag tells
    /// whether the odd-frame skip ended the tick early.
    pub open spec fn pixel_phase(self, rendering: bool) -> (PPU, bool) {
        let c = self.cycle;
        if self.scanline == 261 {
            let p1 = if c == 1 { PPU { status: self.status & 0x1F, ..self } } else { self };
            let p2 = if rendering && 280 <= c <= 304 { PPU { v: (p1.v & 0x841F) | (p1.t & 0x7BE0), ..p1 } } else { p1 };
            if c == 339 && self.frame % 2 != 0 && rendering {
                (PPU { cycle: 0, scanline: 0, ..p2 }, true)
            } else {
                (p2, false)
            }
        } else {
            let pi = if self.mask & 0x08 != 0 {
                if c <= 8 && self.mask & 0x02 == 0 { 0x3F00u16 } else { self.bg_pixel() }
            } else {
                0x3F00u16
            };
            let bg_opaque = self.mask & 0x08 != 0 && pi != 0x3F00;
            let p1 = PPU { palette_index: pi, ..self };
            let p2 = if 1 <= c <= 256 && self.mask & 0x10 != 0 { p1.rendered_from(0, bg_opaque) } else { p1 };
            (p2, false)
        }
    }

    /// The dot counter advanced: 341 cycles per scanline, 262 scanlines per frame.
    pub open spec fn advanced(self) -> PPU {
        let c = self.cycle + 1;
        let (c2, s) = if c >= 341 { (0int, self.scanline + 1) } else { (c, self.scanline as int) };
        PPU { cycle: c2 as usize, scanline: if s >= 262 { 0 } else { s as usize }, ..self }
    }

    /// One PPU dot.
    pub open spec fn tick_spec(self, cart: MapperView) -> Option<(PPU, MapperView)> {
        if self.cycle == 0 {
            Some((PPU { cycle: 1, ..self }, cart))
        } else if self.scanline <= 239 || self.scanline == 261 {
            let rendering = self.rendering_spec();
            match self.background_phase(cart, rendering) {
                None => None,
                Some((p, c)) => {
                    let (q, early) = p.pixel_phase(rendering);
                    if early { Some((q, c)) } else { Some((q.advanced(), c)) }
                },
            }
        } else if self.scanline == 241 {
            let p = if self.cycle == 1 { PPU { nmi_done: false, status: self.status | 0x80, ..self } } else { self };
            Some((p.advanced(), cart))
        } else if self.scanline == 260 && self.cycle == 340 {
            Some((PPU { frame: (self.frame + 1) as usize, ..self }.advanced(), cart))
        } else {
            Some((self.advanced(), cart))
        }
    }
}

/// Fields of a VRAM address: fine Y, the nametable byte and attribute byte
/// addresses it selects, and the attribute quadrant shift.
proof fn lemma_vram_address_fields(v: u16)
    by (bit_vector)
    ensures
        (v >> 12u16) & 0x07 < 8,
        0x2000 <= 0x2000 | (v & 0x0FFF) < 0x3000,
        0x2000 <= 0x23C0 | (v & 0x0C00) | ((v >> 4u16) & 0x38) | ((v >> 2u16) & 0x07) < 0x3000,
        (((((v >> 5u16) & 0x1F) >> 1u16) & 1) << 2u16) | ((((v & 0x1F) >> 1u16) & 1) << 1u16) < 8,
{
}

/// Setting bits never lowers a value.
proof fn lemma_or_ge(z: u16, y: u16)
    ensures
        (z | y) >= z,
{
    assert((z | y) >= z) by (bit_vector);
}

proof fn lemma_render_keeps(p: PPU, i: int, bg_opaque: bool)
    ensures
        p.palette_index >= 0x3F00 ==> p.rendered_from(i, bg_opaque).palette_index >= 0x3F00,
        p.rendered_from(i, bg_opaque).x == p.x,
        p.rendered_from(i, bg_opaque).sprite_count == p.sprite_count,
        p.rendered_from(i, bg_opaque).cycle == p.cycle,
        p.rendered_from(i, bg_opaque).scanline == p.scanline,
        p.rendered_from(i, bg_opaque).frame == p.frame,
        p.rendered_from(i, bg_opaque).nmi_done == p.nmi_done,
    decreases 8 - i,
{
    if 0 <= i < p.sprite_count && i < 8 {
        lemma_render_keeps(p, i + 1, bg_opaque);
        let attr = p.sprite_attr[i];
        let high = 0x3F10u16 | (((attr & 3) as u16) << 2u16);
        lemma_or_ge(0x3F10u16, (((attr & 3) as u16) << 2u16));
        assert forall|pattern: u16| (high | pattern) >= 0x3F00 by {
            lemma_or_ge(high, pattern);
        }
    }
}

proof fn lemma_fetches_keep(p: PPU, cart: MapperView, i: int, next: int)
    ensures
        p.sprite_fetches_from(cart, i, next) matches Some((q, c)) ==> {
            &&& q.sprite_count == p.sprite_count
            &&& q.x == p.x
            &&& q.cycle == p.cycle
            &&& q.scanline == p.scanline
            &&& q.control == p.control
            &&& q.frame == p.frame
            &&& q.mask == p.mask
            &&& q.palette_index == p.palette_index
            &&& q.nmi_done == p.nmi_done
        },
    decreases p.sprite_count - i,
{
    if 0 <= i < p.sprite_count {
        let address = p.sprite_pattern_address(i, next);
        match cart_read(cart, address) {
            None => {},
            Some((c1, lo)) => match cart_read(c1, (address + 8) as u16) {
                None => {},
                Some((c2, hi)) => {
                    let q = PPU {
                        sprite_pt_lo: vstd::array::spec_array_update(p.sprite_pt_lo, i, lo),
                        sprite_pt_hi: vstd::array::spec_array_update(p.sprite_pt_hi, i, hi),
                        sprite_attr: vstd::array::spec_array_update(p.sprite_attr, i, p.secondary_oam[i * 4 + 2]),
                        sprite_xs: vstd::array::spec_array_update(p.sprite_xs, i, p.secondary_oam[i * 4 + 3]),
                        ..p
                    };
                    lemma_fetches_keep(q, c2, i + 1, next);
                },
            },
        }
    }
}

proof fn lemma_evaluation_selects(p: PPU, i: int, next: int)
    requires
        p.selected_ok(next),
    ensures
        p.evaluated_from(i, next).selected_ok(next),
        p.evaluated_from(i, next).control == p.control,
        p.evaluated_from(i, next).sprite_count >= p.sprite_count,
        p.evaluated_from(i, next).x == p.x,
        p.evaluated_from(i, next).cycle == p.cycle,
        p.evaluated_from(i, next).scanline == p.scanline,
        p.evaluated_from(i, next).frame == p.frame,
        p.evaluated_from(i, next).mask == p.mask,
        p.evaluated_from(i, next).palette_index == p.palette_index,
        p.evaluated_from(i, next).nmi_done == p.nmi_done,
    decreases 64 - i,
{
    if 0 <= i < 64 {
        let top = p.oam[i * 4] + 1;
        if next >= top && next < top + p.sprite_height() && p.sprite_count < 8 {
            let c = p.sprite_count as int;
            let s0 = vstd::array::spec_array_update(p.secondary_oam, c * 4, p.oam[i * 4]);
            let s1 = vstd::array::spec_array_update(s0, c * 4 + 1, p.oam[i * 4 + 1]);
            let s2 = vstd::array::spec_array_update(s1, c * 4 + 2, p.oam[i * 4 + 2]);
            let s3 = vstd::array::spec_array_update(s2, c * 4 + 3, p.oam[i * 4 + 3]);
            let q = PPU {
                secondary_oam: s3,
                can_hit_sp0: p.can_hit_sp0 || i == 0,
                sprite_count: (p.sprite_count + 1) as usize,
                ..p
            };
            assert forall|k: int| 0 <= k < q.sprite_count implies {
                let top = #[trigger] q.secondary_oam[k * 4] + 1;
                top <= next < top + q.sprite_height()
            } by {
                if k < c {
                    assert(q.secondary_oam[k * 4] == p.secondary_oam[k * 4]);
                } else {
                    assert(q.secondary_oam[k * 4] == p.oam[i * 4]);
                }
            }
            lemma_evaluation_selects(q, i + 1, next);
        } else if !(next >= top && next < top + p.sprite_height()) {
            lemma_evaluation_selects(p, i + 1, next);
        }
    }
}

impl PPU {
    /// The power-up state.
    pub open spec fn new_spec() -> PPU {
        PPU {
            control: 0,
            mask: 0,
            status: 0,
            nmi_done: false,
            v: 0,
            t: 0,
            x: 0,
            w: false,
            nt_byte: 0,
            at_byte: 0,
            pt_low: 0,
            pt_high: 0,
            p_shift_lo: 0,
            p_shift_hi: 0,
            a_latch_lo: false,
            a_latch_hi: false,
            a_shift_lo: 0,
            a_shift_hi: 0,
            buffer: 0,
            oam_addr: 0,
            oam: vstd::array::spec_array_fill_for_copy_type::<u8, 0x100>(0u8),
            secondary_oam: vstd::array::spec_array_fill_for_copy_type::<u8, 0x020>(0u8),
            sprite_count: 0,
            can_hit_sp0: false,
            sprite_pt_lo: vstd::array::spec_array_fill_for_copy_type::<u8, 0x008>(0u8),
            sprite_pt_hi: vstd::array::spec_array_fill_for_copy_type::<u8, 0x008>(0u8),
            sprite_attr: vstd::array::spec_array_fill_for_copy_type::<u8, 0x008>(0u8),
            sprite_xs: vstd::array::spec_array_fill_for_copy_type::<u8, 0x008>(0u8),
            palette_ram: vstd::array::spec_array_fill_for_copy_type::<u8, 0x020>(0u8),
            palette_index: 0x3F00,
            cycle: 0,
            scanline: 261,
            frame: 0,
        }
    }

    pub fn new() -> (r: PPU)
        ensures
            r.wf(),
            r == PPU::new_spec(),
            r.control == 0 && r.mask == 0 && r.status == 0 && !r.nmi_done,
            r.v == 0 && r.t == 0 && r.x == 0 && !r.w && r.buffer == 0,
            r.oam_addr == 0 && r.sprite_count == 0 && !r.can_hit_sp0,
            forall|i: int| 0 <= i < 0x100 ==> r.oam[i] == 0,
            forall|i: int| 0 <= i < 0x20 ==> r.palette_ram[i] == 0,
            r.palette_index == 0x3F00,
            r.cycle == 0 && r.scanline == 261 && r.frame == 0,
    {
        PPU {
            control: 0,
            mask: 0,
            status: 0,
            nmi_done: false,
            v: 0,
            t: 0,
            x: 0,
            w: false,
            nt_byte: 0,
            at_byte: 0,
            pt_low: 0,
            pt_high: 0,
            p_shift_lo: 0,
            p_shift_hi: 0,
            a_latch_lo: false,
            a_latch_hi: false,
            a_shift_lo: 0,
            a_shift_hi: 0,
            buffer: 0,
            oam_addr: 0,
            oam: [0; 0x100],
            secondary_oam: [0; 0x020],
            sprite_count: 0,
            can_hit_sp0: false,
            sprite_pt_lo: [0; 0x008],
            sprite_pt_hi: [0; 0x008],
            sprite_attr: [0; 0x008],
            sprite_xs: [0; 0x008],
            palette_ram: [0; 0x020],
            palette_index: 0x3F00,
            cycle: 0,
            scanline: 261,
            frame: 0,
        }
    }

    fn increment(&self) -> (r: u16)
        ensures
            r == self.increment_spec(),
    {
        if self.control & 0x04 != 0 {
            32
        } else {
            1
        }
    }

    fn rendering(&self) -> (r: bool)
        ensures
            r == self.rendering_spec(),
    {
        self.mask & 0x08 != 0 || self.mask & 0x10 != 0
    }

    fn increment_x(&mut self)
        ensures
            *final(self) == (PPU { v: incremented_x(old(self).v), ..*old(self) }),
    {
        let v = self.v;
        let mut coarse = v & 0x1F;
        let mut nv = v;
        if coarse < 31 {
            coarse = coarse + 1;
        } else {
            coarse = 0;
            nv = nv ^ 0x0400;
        }
        nv = (nv & 0xFFE0) | coarse;
        assert(nv == incremented_x(v)) by (bit_vector)
            requires
                nv == ((if v & 0x1F < 31 { v } else { v ^ 0x0400 }) & 0xFFE0) | (if v & 0x1F < 31 { ((v & 0x1F) + 1) as u16 } else { 0u16 }),
                incremented_x(v) == if v & 0x1F == 31 { (v & 0xFFE0) ^ 0x0400 } else { (v + 1) as u16 };
        self.v = nv;
    }

    fn increment_y(&mut self)
        ensures
            *final(self) == (PPU { v: incremented_y(old(self).v), ..*old(self) }),
    {
        let v = self.v;
        let fy = (v >> 12u16) & 0x07;
        if fy < 7 {
            let nv = (v & 0x8FFF) | ((fy + 1) << 12u16);
            assert(nv == (v + 0x1000) as u16) by (bit_vector)
                requires fy == (v >> 12u16) & 0x07, fy < 7, nv == (v & 0x8FFF) | (((fy + 1) as u16) << 12u16);
            self.v = nv;
            return;
        }
        let v1 = v & 0x8FFF;
        let mut cy = (v1 >> 5u16) & 0x1F;
        assert(cy <= 31) by (bit_vector)
            requires cy == (v1 >> 5u16) & 0x1F;
        let mut v2 = v1;
        if cy == 29 {
            cy = 0;
            v2 = v2 ^ 0x0800;
        } else if cy == 31 {
            cy = 0;
        } else {
            cy = cy + 1;
        }
        let nv = (v2 & 0xFC1F) | (cy << 5u16);
        proof {
            let ocy = (v >> 5u16) & 0x1F;
            assert(ocy == (v1 >> 5u16) & 0x1F) by (bit_vector)
                requires v1 == v & 0x8FFF, ocy == (v >> 5u16) & 0x1F;
            assert(nv == incremented_y(v)) by (bit_vector)
                requires
                    fy == (v >> 12u16) & 0x07,
                    fy >= 7,
                    ocy == (v >> 5u16) & 0x1F,
                    v1 == v & 0x8FFF,
                    nv == ((if ocy == 29 { v1 ^ 0x0800 } else { v1 }) & 0xFC1F) | ((if ocy == 29 || ocy == 31 { 0u16 } else { (ocy + 1) as u16 }) << 5u16),
                    incremented_y(v) == if fy < 7 { (v + 0x1000) as u16 } else {
                        if ocy == 29 { (v & 0x8C1F) ^ 0x0800 } else if ocy == 31 { v & 0x8C1F } else { (v & 0x8C1F) | (((ocy + 1) as u16) << 5u16) }
                    };
        }
        self.v = nv;
    }

    //                                  LO    HI
    fn attribute_bits(&self) -> (r: (bool, bool))
        ensures
            r == self.attribute_bits_spec(),
    {
        let v = self.v;
        let coarse_x = v & 0x1F;
        let coarse_y = (v >> 5u16) & 0x1F;
        let quadrant_x = (coarse_x >> 1u16) & 1;
        let quadrant_y = (coarse_y >> 1u16) & 1;
        // The quadrant selects a 2-bit field: shift = (quadrant_y << 2) | (quadrant_x << 1).
        let shift = (quadrant_y << 2u16) | (quadrant_x << 1u16);
        proof {
            lemma_vram_address_fields(v);
        }
        let shifted = self.at_byte >> (shift as u8);
        (shifted & 1 == 1, (shifted >> 1u8) & 1 == 1)
    }

    fn shift_shifters(&mut self)
        ensures
            *final(self) == old(self).shifters_shifted(),
    {
        self.p_shift_lo = self.p_shift_lo.wrapping_shl(1);
        self.p_shift_hi = self.p_shift_hi.wrapping_shl(1);
        self.a_shift_lo = self.a_shift_lo.wrapping_shl(1);
        self.a_shift_hi = self.a_shift_hi.wrapping_shl(1);
    }

    fn reload_shifters(&mut self)
        ensures
            *final(self) == old(self).shifters_reloaded(),
    {
        self.p_shift_lo = (self.p_shift_lo & 0xFF00) | (self.pt_low as u16);
        self.p_shift_hi = (self.p_shift_hi & 0xFF00) | (self.pt_high as u16);
        self.a_shift_lo = if self.a_latch_lo { self.a_shift_lo | 0x00FF } else { self.a_shift_lo & 0xFF00 };
        self.a_shift_hi = if self.a_latch_hi { self.a_shift_hi | 0x00FF } else { self.a_shift_hi & 0xFF00 };
    }

    fn odd_frame(&self) -> (r: bool)
        ensures
            r == (self.frame % 2 != 0),
    {
        self.frame % 2 != 0
    }

    pub fn outputting_pixels(&self) -> (r: bool)
        ensures
            r == (self.scanline <= 239 && self.cycle <= 256),
    {
        self.scanline <= 239 && self.cycle <= 256
    }

    /// Reading PPUSTATUS returns it, then clears the vertical-blank flag and
    /// the write toggle.
    pub fn ppustatus_read(&mut self) -> (r: u8)
        ensures
            r == old(self).status,
            *final(self) == old(self).status_read(),
    {
        self.w = false;
        let result = self.status;
        self.status = self.status & 0x7F;
        result
    }

    pub fn ppuctrl_write(&mut self, to: u8)
        ensures
            *final(self) == old(self).ctrl_written(to),
    {
        self.control = to;
        self.t = (self.t & 0xF3FF) | (((to & 0x03) as u16) << 10u16);
    }

    pub fn ppumask_write(&mut self, to: u8)
        ensures
            *final(self) == (PPU { mask: to, ..*old(self) }),
    {
        self.mask = to;
    }

    pub fn ppuscroll_write(&mut self, to: u8)
        requires
            old(self).wf(),
        ensures
            *final(self) == old(self).scroll_written(to),
            final(self).wf(),
    {
        if self.w {
            let t1 = (self.t & 0x8FFF) | (((to & 0x07) as u16) << 12u16);
            self.t = (t1 & 0xFC1F) | (((to >> 3u8) as u16) << 5u16);
            self.w = false;
        } else {
            self.x = to & 0x07;
            proof {
                crate::bit_utils::lemma_byte_fields(to);
            }
            self.t = (self.t & 0xFFE0) | ((to >> 3u8) as u16);
            self.w = true;
        }
    }

    pub fn ppuaddr_write(&mut self, to: u8)
        ensures
            *final(self) == old(self).addr_written(to),
    {
        if self.w {
            self.t = (self.t & 0xFF00) | (to as u16);
            self.v = self.t;
            self.w = false;
        } else {
            let t1 = (self.t & 0xC0FF) | (((to & 0x3F) as u16) << 8u16);
            self.t = t1 & 0x7FFF;
            self.w = true;
        }
    }

    fn palette_address(addr: u16) -> (r: usize)
        requires
            addr >= 0x3F00,
        ensures
            r == palette_address_spec(addr),
            r < 0x20,
    {
        let mut a = (addr - 0x3F00) % 0x20;
        if a == 0x10 || a == 0x14 || a == 0x18 || a == 0x1C {
            a = a - 0x10;
        }
        a as usize
    }

    fn ppu_read(&self, cart: &mut Cartridge, addr: u16) -> (r: u8)
        requires
            cart_read(old(cart)@, addr) is Some,
        ensures
            final(cart).name == old(cart).name,
            old(cart)@.wf() ==> final(cart)@.wf(),
            (final(cart)@, r) == cart_read(old(cart)@, addr)->0,
    {
        if addr < 0x2000 {
            cart.chr_read(addr)
        } else if addr < 0x3F00 {
            cart.vram_read(addr)
        } else {
            0
        }
    }

    pub fn pal_read(&self, addr: u16) -> (r: u8)
        requires
            addr >= 0x3F00,
        ensures
            r == self.pal_read_spec(addr),
            r < 64,
    {
        let b = self.palette_ram[Self::palette_address(addr)];
        let r = b & 0x3F;
        proof {
            crate::bit_utils::lemma_byte_fields(b);
        }
        r
    }

    pub fn ppudata_read(&mut self, cart: &mut Cartridge) -> (r: u8)
        requires
            old(self).data_read(old(cart)@) is Some,
        ensures
            final(cart).name == old(cart).name,
            old(cart)@.wf() ==> final(cart)@.wf(),
            (*final(self), final(cart)@, r) == old(self).data_read(old(cart)@)->0,
    {
        let mirrored_v = self.v & 0x3FFF;
        let byte = if mirrored_v < 0x3F00 {
            let ret = self.buffer;
            self.buffer = self.ppu_read(cart, mirrored_v);
            ret
        } else {
            let ret = self.pal_read(mirrored_v);
            self.buffer = self.ppu_read(cart, mirrored_v - 0x1000);
            ret
        };
        self.v = self.v.wrapping_add(self.increment());
        byte
    }

    pub fn ppudata_write(&mut self, cart: &mut Cartridge, to: u8)
        requires
            old(self).data_written(old(cart)@, to) is Some,
        ensures
            final(cart).name == old(cart).name,
            old(cart)@.wf() ==> final(cart)@.wf(),
            (*final(self), final(cart)@) == old(self).data_written(old(cart)@, to)->0,
    {
        let mirrored_v = self.v & 0x3FFF;
        if mirrored_v < 0x2000 {
            cart.chr_write(mirrored_v, to);
        } else if mirrored_v < 0x3F00 {
            cart.vram_write(mirrored_v, to);
        } else {
            self.palette_ram[Self::palette_address(mirrored_v)] = to & 0x3F;
        }
        self.v = self.v.wrapping_add(self.increment());
    }

    pub fn oamaddr_write(&mut self, to: u8)
        ensures
            *final(self) == (PPU { oam_addr: to, ..*old(self) }),
    {
        self.oam_addr = to;
    }

    pub fn oamdata_read(&mut self) -> (r: u8)
        ensures
            r == old(self).oam[old(self).oam_addr as int],
            *final(self) == *old(self),
    {
        self.oam[self.oam_addr as usize]
    }

    pub fn oamdata_write(&mut self, to: u8)
        ensures
            *final(self) == old(self).oam_written(to),
    {
        let a = self.oam_addr;
        self.oam[a as usize] = to;
        assert(self.oam =~= vstd::array::spec_array_update(old(self).oam, a as int, to));
        self.oam_addr = self.oam_addr.wrapping_add(1);
    }

    pub fn overwrite_oam(&mut self, new: [u8; 0x100])
        ensures
            *final(self) == (PPU { oam: new, ..*old(self) }),
    {
        self.oam = new;
    }

    fn fetch_nametable_byte(&mut self, cart: &mut Cartridge) -> (r: u8)
        requires
            old(self).nametable_fetch(old(cart)@) is Some,
        ensures
            old(cart)@.wf() ==> final(cart)@.wf(),
            final(cart).name == old(cart).name,
            (final(cart)@, r) == old(self).nametable_fetch(old(cart)@)->0,
            *final(self) == *old(self),
    {
        let v = self.v;
        let nametable_address = 0x2000 | (v & 0x0FFF);
        proof {
            lemma_vram_address_fields(v);
        }
        cart.vram_read(nametable_address)
    }

    pub fn signaling_nmi(&self) -> (r: bool)
        ensures
            r == self.signaling_nmi_spec(),
    {
        !self.nmi_done && self.control & 0x80 != 0 && self.status & 0x80 != 0
    }

    pub fn disable_nmi_this_frame(&mut self)
        ensures
            *final(self) == (PPU { nmi_done: true, ..*old(self) }),
    {
        self.nmi_done = true;
    }
}


impl PPU {
    fn perform_fetches(&mut self, cart: &mut Cartridge)
        requires
            old(self).fetched(old(cart)@) is Some,
        ensures
            old(cart)@.wf() ==> final(cart)@.wf(),
            final(cart).name == old(cart).name,
            (*final(self), final(cart)@) == old(self).fetched(old(cart)@)->0,
    {
        match self.cycle % 8 {
            1 => {
                self.nt_byte = self.fetch_nametable_byte(cart);
            },
            3 => {
                let v = self.v;
                let attribute_address = 0x23C0 | (v & 0x0C00) | ((v >> 4u16) & 0x38) | ((v >> 2u16) & 0x07);
                proof {
                    lemma_vram_address_fields(v);
                }
                self.at_byte = cart.vram_read(attribute_address);
                let (lo, hi) = self.attribute_bits();
                self.a_latch_lo = lo;
                self.a_latch_hi = hi;
            },
            5 => {
                let base_address: u16 = if self.control & 0x10 != 0 { 0x1000 } else { 0x0000 };
                let v = self.v;
                let fy = (v >> 12u16) & 0x07;
                proof {
                    lemma_vram_address_fields(v);
                }
                let bg_pattern_lo_addr = base_address + (self.nt_byte as u16) * 16 + fy;
                self.pt_low = cart.chr_read(bg_pattern_lo_addr);
            },
            7 => {
                let base_address: u16 = if self.control & 0x10 != 0 { 0x1000 } else { 0x0000 };
                let v = self.v;
                let fy = (v >> 12u16) & 0x07;
                proof {
                    lemma_vram_address_fields(v);
                }
                let bg_pattern_lo_addr = base_address + (self.nt_byte as u16) * 16 + fy;
                self.pt_high = cart.chr_read(bg_pattern_lo_addr + 8);
            },
            0 => {
                self.reload_shifters();
            },
            _ => {},
        }
    }

    /// The first phase of sprite evaluation: the OAM scan.
    #[verifier::rlimit(40)]
    fn select_sprites(&mut self, next_scanline: usize, sprite_height: usize)
        requires
            old(self).sprite_count <= 8,
            next_scanline < 263,
            sprite_height == old(self).sprite_height(),
        ensures
            *final(self) == old(self).evaluated_from(0, next_scanline as int),
    {
        let ghost start = *self;
        let ghost next = next_scanline as int;
        let mut i: usize = 0;
        while i < 64
            invariant_except_break
                i <= 64,
                self.evaluated_from(i as int, next) == start.evaluated_from(0, next),
            invariant
                self.sprite_count <= 8,
                self.control == start.control,
                self.oam == start.oam,
                next == next_scanline,
                next_scanline < 263,
                sprite_height == start.sprite_height(),
            ensures
                *self == start.evaluated_from(0, next),
            decreases 64 - i,
        {
            let y = self.oam[i * 4] as usize;
            let sprite_top = y + 1;
            let ghost before = *self;
            if next_scanline >= sprite_top && next_scanline < sprite_top + sprite_height {
                if self.sprite_count < 8 {
                    // Copy this sprite to secondary OAM.
                    let c = self.sprite_count;
                    self.secondary_oam[c * 4] = self.oam[i * 4];
                    self.secondary_oam[c * 4 + 1] = self.oam[i * 4 + 1];
                    self.secondary_oam[c * 4 + 2] = self.oam[i * 4 + 2];
                    self.secondary_oam[c * 4 + 3] = self.oam[i * 4 + 3];
                    if i == 0 {
                        self.can_hit_sp0 = true;
                    }
                    self.sprite_count = c + 1;
                    proof {
                        let s0 = vstd::array::spec_array_update(before.secondary_oam, c * 4, before.oam[i * 4]);
                        let s1 = vstd::array::spec_array_update(s0, c * 4 + 1, before.oam[i * 4 + 1]);
                        let s2 = vstd::array::spec_array_update(s1, c * 4 + 2, before.oam[i * 4 + 2]);
                        let s3 = vstd::array::spec_array_update(s2, c * 4 + 3, before.oam[i * 4 + 3]);
                        assert(self.secondary_oam =~= s3);
                        assert(*self == PPU {
                            secondary_oam: s3,
                            can_hit_sp0: before.can_hit_sp0 || i == 0,
                            sprite_count: (before.sprite_count + 1) as usize,
                            ..before
                        });
                        assert(before.evaluated_from(i as int, next) == self.evaluated_from(i + 1, next));
                    }
                } else {
                    self.status = self.status | 0x20;
                    proof {
                        assert(before.evaluated_from(i as int, next) == *self);
                    }
                    break;
                }
            } else {
                assert(before.evaluated_from(i as int, next) == self.evaluated_from(i + 1, next));
            }
            i = i + 1;
        }
    }

    /// The second phase of sprite evaluation: pattern fetches for the selected sprites.
    #[verifier::rlimit(40)]
    fn fetch_sprite_patterns(&mut self, cart: &mut Cartridge, next_scanline: usize, sprite_height: usize)
        requires
            old(self).selected_ok(next_scanline as int),
            sprite_height == old(self).sprite_height(),
            old(self).sprite_fetches_from(old(cart)@, 0, next_scanline as int) is Some,
        ensures
            old(cart)@.wf() ==> final(cart)@.wf(),
            final(cart).name == old(cart).name,
            (*final(self), final(cart)@) == old(self).sprite_fetches_from(old(cart)@, 0, next_scanline as int)->0,
    {
        let ghost start = *self;
        let ghost cart0 = cart@;
        let ghost next = next_scanline as int;
        let tall_sprites = self.control & 0x20 != 0;
        let mut i: usize = 0;
        while i < self.sprite_count
            invariant
                old(cart)@.wf() ==> cart@.wf(),
                cart.name == old(cart).name,
                i <= self.sprite_count,
                start.selected_ok(next),
                self.sprite_count == start.sprite_count,
                self.secondary_oam == start.secondary_oam,
                self.control == start.control,
                next == next_scanline,
                sprite_height == start.sprite_height(),
                tall_sprites == (start.control & 0x20 != 0),
                self.sprite_fetches_from(cart@, i as int, next) is Some,
                self.sprite_fetches_from(cart@, i as int, next) == start.sprite_fetches_from(cart0, 0, next),
            decreases self.sprite_count - i,
        {
            let y = self.secondary_oam[i * 4] as usize;
            let tile = self.secondary_oam[i * 4 + 1];
            let attribute = self.secondary_oam[i * 4 + 2];
            let x = self.secondary_oam[i * 4 + 3];
            let sprite_top = y + 1;
            assert(start.secondary_oam[i * 4] + 1 <= next);
            let row = next_scanline - sprite_top;
            let rel_y = if attribute & 0x80 != 0 { sprite_height - 1 - row } else { row };
            proof {
                crate::bit_utils::lemma_byte_fields(tile);
            }
            let (bank, tile): (u16, u16) = if tall_sprites {
                let bank: u16 = if tile & 1 == 1 { 0x1000 } else { 0x0000 };
                (bank, (tile & 0xFE) as u16)
            } else {
                let bank: u16 = if self.control & 0x08 != 0 { 0x1000 } else { 0x0000 };
                (bank, tile as u16)
            };
            let address: u16 = if sprite_height == 8 {
                bank + tile * 16 + rel_y as u16
            } else {
                if rel_y >= 8 {
                    bank + (tile + 1) * 16 + (rel_y - 8) as u16
                } else {
                    bank + tile * 16 + rel_y as u16
                }
            };
            assert(address == self.sprite_pattern_address(i as int, next));
            assert(address < 0x1FF8);
            let ghost before = *self;
            let ghost c0 = cart@;
            let lo = cart.chr_read(address);
            let ghost c1 = cart@;
            let hi = cart.chr_read(address + 8);
            self.sprite_pt_lo[i] = lo;
            self.sprite_pt_hi[i] = hi;
            self.sprite_attr[i] = attribute;
            self.sprite_xs[i] = x;
            proof {
                assert(self.sprite_pt_lo =~= vstd::array::spec_array_update(before.sprite_pt_lo, i as int, lo));
                assert(self.sprite_pt_hi =~= vstd::array::spec_array_update(before.sprite_pt_hi, i as int, hi));
                assert(self.sprite_attr =~= vstd::array::spec_array_update(before.sprite_attr, i as int, attribute));
                assert(self.sprite_xs =~= vstd::array::spec_array_update(before.sprite_xs, i as int, x));
                assert(cart_read(c0, address) == Some((c1, lo)));
                assert(cart_read(c1, (address + 8) as u16) == Some((cart@, hi)));
                assert(before.sprite_fetches_from(c0, i as int, next) == self.sprite_fetches_from(cart@, i + 1, next));
            }
            i = i + 1;
        }
    }

    /// The last phase of sprite evaluation: dummy fetches for the empty slots.
    fn dummy_fetches(&mut self, cart: &mut Cartridge, count: usize)
        requires
            count <= 8,
            old(self).dummy_fetches_from(old(cart)@, count as int) is Some,
        ensures
            old(cart)@.wf() ==> final(cart)@.wf(),
            final(cart).name == old(cart).name,
            *final(self) == *old(self),
            Some(final(cart)@) == old(self).dummy_fetches_from(old(cart)@, count as int),
    {
        let ghost cart0 = cart@;
        let tall_sprites = self.control & 0x20 != 0;
        let mut k: usize = count;
        while k < 8
            invariant
                old(cart)@.wf() ==> cart@.wf(),
                cart.name == old(cart).name,
                k <= 8,
                *self == *old(self),
                tall_sprites == (self.control & 0x20 != 0),
                self.dummy_fetches_from(cart@, k as int) is Some,
                self.dummy_fetches_from(cart@, k as int) == self.dummy_fetches_from(cart0, count as int),
            decreases 8 - k,
        {
            let dummy_addr: u16 = if tall_sprites {
                0x1FF0
            } else {
                let bank: u16 = if self.control & 0x08 != 0 { 0x1000 } else { 0x0000 };
                bank + 0x0FF0
            };
            assert(dummy_addr == self.dummy_address());
            let ghost c0 = cart@;
            cart.chr_read(dummy_addr);
            let ghost c1 = cart@;
            cart.chr_read(dummy_addr + 8);
            proof {
                let r0 = cart_read(c0, dummy_addr)->0;
                let r1 = cart_read(c1, (dummy_addr + 8) as u16)->0;
                assert(r0.0 == c1);
                assert(r1.0 == cart@);
            }
            k = k + 1;
        }
    }

    fn sprite_evaluation(&mut self, cart: &mut Cartridge)
        requires
            old(self).wf(),
            old(self).scanline < 261,
            old(self).sprites_evaluated(old(cart)@) is Some,
        ensures
            old(cart)@.wf() ==> final(cart)@.wf(),
            final(cart).name == old(cart).name,
            (*final(self), final(cart)@) == old(self).sprites_evaluated(old(cart)@)->0,
            final(self).wf(),
            final(self).cycle == old(self).cycle && final(self).scanline == old(self).scanline,
            final(self).frame == old(self).frame && final(self).mask == old(self).mask,
    {
        self.sprite_count = 0;
        self.can_hit_sp0 = false;
        let next_scanline = self.scanline + 1;
        let tall_sprites = self.control & 0x20 != 0;
        let sprite_height: usize = if tall_sprites { 16 } else { 8 };
        let ghost start = *self;
        let ghost next = next_scanline as int;
        let ghost cart0 = cart@;
        assert(start.selected_ok(next));
        proof {
            lemma_evaluation_selects(start, 0, next);
        }
        self.select_sprites(next_scanline, sprite_height);
        let ghost mid = *self;
        proof {
            lemma_evaluation_selects(start, 0, next);
        }
        proof {
            lemma_fetches_keep(mid, cart0, 0, next);
        }
        self.fetch_sprite_patterns(cart, next_scanline, sprite_height);
        let count = self.sprite_count;
        self.dummy_fetches(cart, count);
    }
}


impl PPU {
    fn render_sprites(&mut self, bg_opaque: bool)
        requires
            old(self).wf(),
        ensures
            *final(self) == old(self).rendered_from(0, bg_opaque),
    {
        let current_x = self.cycle;
        let mut i: usize = 0;
        while i < self.sprite_count
            invariant
                i <= self.sprite_count <= 8,
                *self == *old(self),
                current_x == self.cycle,
                old(self).rendered_from(i as int, bg_opaque) == old(self).rendered_from(0, bg_opaque),
            decreases self.sprite_count - i,
        {
            let x = self.sprite_xs[i] as usize;
            if current_x < x || current_x >= x + 8 {
                i = i + 1;
                continue;
            }
            if x < 8 && self.mask & 0x04 == 0 {
                i = i + 1;
                continue;
            }
            let offset = current_x - x;
            let attr = self.sprite_attr[i];
            let bit_index = if attr & 0x40 != 0 { offset } else { 7 - offset };
            let lo_byte = self.sprite_pt_lo[i];
            let hi_byte = self.sprite_pt_hi[i];
            let bi = bit_index as u8;
            let pal_lo = ((lo_byte >> bi) & 1) as u16;
            let pal_hi = ((hi_byte >> bi) & 1) as u16;
            let pattern_bits = (pal_hi << 1u16) | pal_lo;
            assert(pattern_bits == (((hi_byte >> bi) & 1) * 2 + ((lo_byte >> bi) & 1)) as u16) by (bit_vector)
                requires
                    pal_lo == ((lo_byte >> bi) & 1) as u16,
                    pal_hi == ((hi_byte >> bi) & 1) as u16,
                    pattern_bits == (pal_hi << 1u16) | pal_lo;
            // A zero pattern is a transparent pixel of this sprite.
            if pattern_bits == 0 {
                i = i + 1;
                continue;
            }
            if bg_opaque && self.can_hit_sp0 && i == 0 {
                if current_x < 255 {
                    self.status = self.status | 0x40;
                }
            }
            let attribute_bits = (attr & 3) as u16;
            let palette_index = 0x3F10 | (attribute_bits << 2u16) | pattern_bits;
            let behind_bg = attr & 0x20 != 0;
            if !bg_opaque || !behind_bg {
                self.palette_index = palette_index;
            }
            return;
        }
    }

    fn fetch_step_exec(&mut self, cart: &mut Cartridge, rendering: bool)
        requires
            old(self).fetch_step(old(cart)@, rendering) is Some,
        ensures
            old(cart)@.wf() ==> final(cart)@.wf(),
            final(cart).name == old(cart).name,
            (*final(self), final(cart)@) == old(self).fetch_step(old(cart)@, rendering)->0,
            final(self).x == old(self).x && final(self).sprite_count == old(self).sprite_count,
            final(self).cycle == old(self).cycle && final(self).scanline == old(self).scanline,
            final(self).frame == old(self).frame && final(self).mask == old(self).mask,
    {
        if (1 <= self.cycle && self.cycle <= 256) || (321 <= self.cycle && self.cycle <= 336) {
            self.shift_shifters();
            self.perform_fetches(cart);
            if self.cycle % 8 == 0 && rendering {
                self.increment_x();
            }
        }
    }

    fn scroll_step_exec(&mut self, cart: &mut Cartridge, rendering: bool)
        requires
            old(self).wf(),
            old(self).scanline <= 239 || old(self).scanline == 261,
            old(self).scroll_step(old(cart)@, rendering) is Some,
        ensures
            old(cart)@.wf() ==> final(cart)@.wf(),
            final(cart).name == old(cart).name,
            (*final(self), final(cart)@) == old(self).scroll_step(old(cart)@, rendering)->0,
            final(self).wf(),
            final(self).cycle == old(self).cycle && final(self).scanline == old(self).scanline,
            final(self).frame == old(self).frame && final(self).mask == old(self).mask,
    {
        if self.cycle == 256 && rendering {
            self.increment_y();
        }
        if self.cycle == 257 && rendering {
            self.v = (self.v & 0xFBE0) | (self.t & 0x041F);
            if self.scanline == 261 {
                self.sprite_count = 0;
                self.can_hit_sp0 = false;
            } else {
                self.sprite_evaluation(cart);
            }
        }
    }

    fn background_phase_exec(&mut self, cart: &mut Cartridge, rendering: bool)
        requires
            old(self).wf(),
            old(self).scanline <= 239 || old(self).scanline == 261,
            old(self).background_phase(old(cart)@, rendering) is Some,
        ensures
            old(cart)@.wf() ==> final(cart)@.wf(),
            final(cart).name == old(cart).name,
            (*final(self), final(cart)@) == old(self).background_phase(old(cart)@, rendering)->0,
            final(self).wf(),
            final(self).cycle == old(self).cycle && final(self).scanline == old(self).scanline,
            final(self).frame == old(self).frame && final(self).mask == old(self).mask,
    {
        self.fetch_step_exec(cart, rendering);
        self.scroll_step_exec(cart, rendering);
        if self.cycle == 338 || self.cycle == 340 {
            self.fetch_nametable_byte(cart);
        }
    }

    fn pixel_phase_exec(&mut self, rendering: bool) -> (early: bool)
        requires
            old(self).wf(),
            old(self).scanline <= 239 || old(self).scanline == 261,
            old(self).cycle >= 1,
        ensures
            (*final(self), early) == old(self).pixel_phase(rendering),
            final(self).wf(),
            !early ==> final(self).cycle == old(self).cycle && final(self).scanline == old(self).scanline,
            final(self).frame == old(self).frame,
    {
        if self.scanline == 261 {
            if self.cycle == 1 {
                self.status = self.status & 0x1F;
            }
            if rendering && self.cycle >= 280 && self.cycle <= 304 {
                self.v = (self.v & 0x841F) | (self.t & 0x7BE0);
            }
            if self.cycle == 339 && self.odd_frame() && rendering {
                self.cycle = 0;
                self.scanline = 0;
                return true;
            }
            return false;
        }
        let mut bg_opaque = false;
        if self.mask & 0x08 != 0 {
            if self.cycle <= 8 && self.mask & 0x02 == 0 {
                self.palette_index = 0x3F00;
            } else {
                let bit_pos = (15 - self.x) as u16;
                let (plo, phi, alo, ahi) = (self.p_shift_lo, self.p_shift_hi, self.a_shift_lo, self.a_shift_hi);
                let pal_lo = (plo >> bit_pos) & 1;
                let pal_hi = (phi >> bit_pos) & 1;
                let attr_lo = (alo >> bit_pos) & 1;
                let attr_hi = (ahi >> bit_pos) & 1;
                let pattern_bits = (pal_hi << 1u16) | pal_lo;
                let attribute_bits = (attr_hi << 1u16) | attr_lo;
                let pi = 0x3F00 | if pattern_bits == 0 { 0 } else { (attribute_bits << 2u16) | pattern_bits };
                assert(pi == 0x3F00u16 | (if ((pal_hi * 2 + pal_lo) as u16) == 0 { 0u16 } else {
                    ((((attr_hi * 2 + attr_lo) as u16) << 2u16) | ((pal_hi * 2 + pal_lo) as u16))
                })) by (bit_vector)
                    requires
                        pal_lo == (plo >> bit_pos) & 1,
                        pal_hi == (phi >> bit_pos) & 1,
                        attr_lo == (alo >> bit_pos) & 1,
                        attr_hi == (ahi >> bit_pos) & 1,
                        pattern_bits == (pal_hi << 1u16) | pal_lo,
                        attribute_bits == (attr_hi << 1u16) | attr_lo,
                        pi == 0x3F00 | if pattern_bits == 0 { 0 } else { (attribute_bits << 2u16) | pattern_bits };
                assert(pi == self.bg_pixel());
                proof {
                    lemma_or_ge(0x3F00u16, if pattern_bits == 0 { 0u16 } else { (attribute_bits << 2u16) | pattern_bits });
                }
                self.palette_index = pi;
            }
            bg_opaque = self.palette_index != 0x3F00;
        } else {
            self.palette_index = 0x3F00;
        }
        if 1 <= self.cycle && self.cycle <= 256 && self.mask & 0x10 != 0 {
            proof {
                lemma_render_keeps(*self, 0, bg_opaque);
            }
            self.render_sprites(bg_opaque);
        }
        false
    }

    /// Advances the PPU by one dot.
    #[verifier::rlimit(40)]
    pub fn tick(&mut self, cart: &mut Cartridge)
        requires
            old(self).wf(),
            old(self).frame < usize::MAX,
            old(self).tick_spec(old(cart)@) is Some,
        ensures
            final(self).frame <= old(self).frame + 1,
            old(cart)@.wf() ==> final(cart)@.wf(),
            final(cart).name == old(cart).name,
            (*final(self), final(cart)@) == old(self).tick_spec(old(cart)@)->0,
            final(self).wf(),
    {
        if self.cycle == 0 {
            self.cycle = self.cycle + 1;
            return;
        }
        if self.scanline <= 239 || self.scanline == 261 {
            let rendering = self.rendering();
            self.background_phase_exec(cart, rendering);
            if self.pixel_phase_exec(rendering) {
                return;
            }
        } else if self.scanline == 241 {
            if self.cycle == 1 {
                self.nmi_done = false;
                self.status = self.status | 0x80;
            }
        } else if self.scanline == 260 && self.cycle == 340 {
            self.frame = self.frame + 1;
        }
        self.cycle = self.cycle + 1;
        if self.cycle >= 341 {
            self.cycle = 0;
            self.scanline = self.scanline + 1;
        }
        if self.scanline >= 262 {
            self.scanline = 0;
        }
    }
}


/// The background phase of a dot leaves the dot counters, the frame counter
/// and the NMI latch alone.
proof fn lemma_background_keeps(p: PPU, cart: MapperView, rendering: bool)
    ensures
        p.background_phase(cart, rendering) matches Some((q, _)) ==> {
            &&& q.cycle == p.cycle
            &&& q.scanline == p.scanline
            &&& q.frame == p.frame
            &&& q.nmi_done == p.nmi_done
        },
{
    match p.fetch_step(cart, rendering) {
        None => {},
        Some((p1, c1)) => {
            let c = p1.cycle;
            let p2 = if c == 256 && rendering { PPU { v: incremented_y(p1.v), ..p1 } } else { p1 };
            if c == 257 && rendering {
                let p3 = PPU { v: (p2.v & 0xFBE0) | (p2.t & 0x041F), ..p2 };
                if p3.scanline != 261 {
                    let next = p3.scanline + 1;
                    let e0 = PPU { sprite_count: 0, can_hit_sp0: false, ..p3 };
                    lemma_evaluation_selects(e0, 0, next);
                    let e = e0.evaluated_from(0, next);
                    lemma_fetches_keep(e, c1, 0, next);
                }
            }
        },
    }
}

/// The pixel phase of a dot keeps the frame counter and the NMI latch, and
/// keeps the dot position unless it ends the dot early.
proof fn lemma_pixel_keeps(p: PPU, rendering: bool)
    ensures
        p.pixel_phase(rendering).0.frame == p.frame,
        p.pixel_phase(rendering).0.nmi_done == p.nmi_done,
        !p.pixel_phase(rendering).1 ==> p.pixel_phase(rendering).0.cycle == p.cycle
            && p.pixel_phase(rendering).0.scanline == p.scanline,
        p.pixel_phase(rendering).1 ==> p.pixel_phase(rendering).0.cycle == 0 && p.pixel_phase(rendering).0.scanline == 0,
{
    if p.scanline != 261 {
        let c = p.cycle;
        let pi = if p.mask & 0x08 != 0 {
            if c <= 8 && p.mask & 0x02 == 0 { 0x3F00u16 } else { p.bg_pixel() }
        } else {
            0x3F00u16
        };
        let bg_opaque = p.mask & 0x08 != 0 && pi != 0x3F00;
        lemma_render_keeps(PPU { palette_index: pi, ..p }, 0, bg_opaque);
    }
}

/// Every dot moves the position one cycle on: 341 cycles make a scanline and
/// 262 scanlines a frame, except that on odd frames with rendering on the
/// pre-render line ends at cycle 339. The frame counter advances exactly at
/// scanline 260, cycle 340.
pub proof fn lemma_dot_counter(p: PPU, cart: MapperView)
    requires
        p.wf(),
        p.tick_spec(cart) is Some,
    ensures
        ({
            let (q, _) = p.tick_spec(cart)->0;
            let rendering = p.mask & 0x18 != 0;
            &&& q.cycle <= 340 && q.scanline <= 261
            &&& if p.scanline == 261 && p.cycle == 339 && p.frame % 2 == 1 && rendering {
                q.cycle == 0 && q.scanline == 0
            } else if p.cycle < 340 {
                q.cycle == p.cycle + 1 && q.scanline == p.scanline
            } else {
                q.cycle == 0 && q.scanline == (p.scanline + 1) % 262
            }
            &&& q.frame == (if p.scanline == 260 && p.cycle == 340 { (p.frame + 1) as usize } else { p.frame })
        }),
{
    let rendering = p.rendering_spec();
    let m = p.mask;
    assert((m & 0x18 != 0) == (m & 0x08 != 0 || m & 0x10 != 0)) by (bit_vector);
    if p.cycle != 0 && (p.scanline <= 239 || p.scanline == 261) {
        lemma_background_keeps(p, cart, rendering);
        let (b, _) = p.background_phase(cart, rendering)->0;
        lemma_pixel_keeps(b, rendering);
    }
}

/// A dot leaves the NMI latch set unless it is the dot at scanline 241,
/// cycle 1, which starts vertical blank.
pub proof fn lemma_nmi_latch_kept(p: PPU, cart: MapperView)
    requires
        p.nmi_done,
        !(p.scanline == 241 && p.cycle == 1),
        p.tick_spec(cart) is Some,
    ensures
        (p.tick_spec(cart)->0).0.nmi_done,
{
    if p.cycle != 0 && (p.scanline <= 239 || p.scanline == 261) {
        let rendering = p.rendering_spec();
        lemma_background_keeps(p, cart, rendering);
        let (b, _) = p.background_phase(cart, rendering)->0;
        lemma_pixel_keeps(b, rendering);
    }
}

impl PPU {
    /// `n` dots in a row.
    pub open spec fn ticks_spec(self, cart: MapperView, n: nat) -> Option<(PPU, MapperView)>
        decreases n,
    {
        if n == 0 {
            Some((self, cart))
        } else {
            match self.tick_spec(cart) {
                None => None,
                Some((q, c)) => q.ticks_spec(c, (n - 1) as nat),
            }
        }
    }

    /// Whether one of the next `n` dots starts at scanline 241, cycle 1.
    pub open spec fn vblank_start_within(self, cart: MapperView, n: nat) -> bool
        decreases n,
    {
        if n == 0 {
            false
        } else if self.scanline == 241 && self.cycle == 1 {
            true
        } else {
            match self.tick_spec(cart) {
                None => false,
                Some((q, c)) => q.vblank_start_within(c, (n - 1) as nat),
            }
        }
    }
}

/// Once `disable_nmi_this_frame` has set the NMI latch, `signaling_nmi` stays
/// false through any run of `n` dots (`PPU::tick` calls) none of which starts at
/// scanline 241, cycle 1, and the latch stays set.
pub proof fn lemma_nmi_suppressed(p: PPU, cart: MapperView, n: nat)
    requires
        p.nmi_done,
        p.ticks_spec(cart, n) is Some,
        !p.vblank_start_within(cart, n),
    ensures
        !p.signaling_nmi_spec(),
        (p.ticks_spec(cart, n)->0).0.nmi_done,
        !(p.ticks_spec(cart, n)->0).0.signaling_nmi_spec(),
    decreases n,
{
    if n > 0 {
        lemma_nmi_latch_kept(p, cart);
        let (q, c) = p.tick_spec(cart)->0;
        lemma_nmi_suppressed(q, c, (n - 1) as nat);
    }
}

/// Sprite slots `j` to `i` that do not cover the current dot leave the search
/// for the sprite pixel to the slots from `i` on.
proof fn lemma_sprites_skipped(p: PPU, j: int, i: int, bg_opaque: bool)
    requires
        0 <= j <= i <= p.sprite_count <= 8,
        forall|m: int| j <= m < i ==> !(#[trigger] p.sprite_xs[m] <= p.cycle < p.sprite_xs[m] + 8),
    ensures
        p.rendered_from(j, bg_opaque) == p.rendered_from(i, bg_opaque),
    decreases i - j,
{
    if j < i {
        lemma_sprites_skipped(p, j + 1, i, bg_opaque);
    }
}

/// The sprite pixel at `x = sprite_x + k` of the first selected sprite covering
/// the dot: an unflipped sprite (attribute bit 6 clear) shows bit `7 - k` of its
/// two pattern bytes, so its leftmost pixel is the most significant bit; a
/// horizontally flipped one shows bit `k`. An opaque pixel (either bit set)
/// sets the palette index to `0x3F10 + 4 * palette + 2 * high bit + low bit`
/// unless the background is opaque and the sprite is behind it (attribute bit
/// 5), which keeps the index; sprite 0 opaque over an opaque background before
/// dot 255 sets the sprite-0 hit flag (status bit 6), and no other case changes
/// the status. A transparent pixel, with no later sprite on the dot, leaves the
/// palette index as it was.
pub proof fn lemma_sprite_pixel(p: PPU, i: int, bg_opaque: bool)
    requires
        0 <= i < p.sprite_count <= 8,
        forall|j: int| 0 <= j < i ==> !(#[trigger] p.sprite_xs[j] <= p.cycle < p.sprite_xs[j] + 8),
        p.sprite_xs[i] <= p.cycle < p.sprite_xs[i] + 8,
        p.sprite_xs[i] >= 8 || p.mask & 0x04 != 0,
    ensures
        ({
            let k = p.cycle - p.sprite_xs[i];
            let a = p.sprite_attr[i];
            let column = if a & 0x40 == 0 { 7 - k } else { k };
            let lo = (p.sprite_pt_lo[i] >> (column as u8)) & 1;
            let hi = (p.sprite_pt_hi[i] >> (column as u8)) & 1;
            let q = p.rendered_from(0, bg_opaque);
            let opaque = lo != 0 || hi != 0;
            let hit = opaque && bg_opaque && p.can_hit_sp0 && i == 0 && p.cycle < 255;
            &&& (opaque && (!bg_opaque || a & 0x20 == 0)) ==> q.palette_index == 0x3F10 + 4 * (a & 3) + 2 * hi + lo
            &&& (opaque && bg_opaque && a & 0x20 != 0) ==> q.palette_index == p.palette_index
            &&& opaque ==> q.status == (if hit { p.status | 0x40 } else { p.status })
            &&& (lo == 0 && hi == 0 && forall|j: int| i < j < p.sprite_count ==> !(#[trigger] p.sprite_xs[j] <= p.cycle < p.sprite_xs[j] + 8))
                ==> q.palette_index == p.palette_index
        }),
{
    lemma_sprites_skipped(p, 0, i, bg_opaque);
    let k = p.cycle - p.sprite_xs[i];
    let a = p.sprite_attr[i];
    let column = (if a & 0x40 == 0 { 7 - k } else { k }) as u8;
    let lb = p.sprite_pt_lo[i];
    let hb = p.sprite_pt_hi[i];
    let lo = (lb >> column) & 1;
    let hi = (hb >> column) & 1;
    let pattern = (hi * 2 + lo) as u16;
    let a3 = ((a & 3) as u16);
    assert(lo <= 1 && hi <= 1 && a & 3 < 4 && (a & 3) as u16 == a & 3) by (bit_vector)
        requires lo == (lb >> column) & 1, hi == (hb >> column) & 1;
    assert(0x3F10u16 | (a3 << 2u16) | pattern == 0x3F10 + 4 * a3 + pattern) by (bit_vector)
        requires a3 < 4, pattern < 4;
    if lo == 0 && hi == 0 && forall|j: int| i < j < p.sprite_count ==> !(#[trigger] p.sprite_xs[j] <= p.cycle < p.sprite_xs[j] + 8) {
        lemma_sprites_skipped(p, i + 1, p.sprite_count as int, bg_opaque);
    }
}

/// Two PPUADDR writes, high byte first, point PPUDATA at the address they
/// spell (its top two bits dropped) and leave the write toggle clear.
pub proof fn lemma_ppuaddr_pair(p: PPU, hi: u8, lo: u8)
    requires
        !p.w,
    ensures
        ({
            let q = p.addr_written(hi).addr_written(lo);
            &&& q.v & 0x3FFF == ((hi & 0x3F) as u16) * 256 + lo
            &&& q.t == q.v
            &&& !q.w
        }),
{
    let t = p.t;
    let t1 = ((t & 0xC0FF) | (((hi & 0x3F) as u16) << 8u16)) & 0x7FFF;
    let v = (t1 & 0xFF00) | (lo as u16);
    assert(v & 0x3FFF == ((hi & 0x3F) as u16) * 256 + lo) by (bit_vector)
        requires
            t1 == ((t & 0xC0FF) | (((hi & 0x3F) as u16) << 8u16)) & 0x7FFF,
            v == (t1 & 0xFF00) | (lo as u16);
}

/// The dot at scanline 241, cycle 1 starts vertical blank: it sets the
/// vertical-blank flag and re-arms the NMI, which is then signalled exactly
/// when PPUCTRL enables it.
pub proof fn lemma_vblank_start(p: PPU, cart: MapperView)
    requires
        p.scanline == 241,
        p.cycle == 1,
    ensures
        p.tick_spec(cart) is Some,
        ({
            let (q, c) = p.tick_spec(cart)->0;
            &&& c == cart
            &&& q.status & 0x80 != 0
            &&& !q.nmi_done
            &&& q.signaling_nmi_spec() == (p.control & 0x80 != 0)
            &&& q.scanline == 241 && q.cycle == 2
        }),
{
    crate::bit_utils::lemma_byte_fields(p.status);
}

/// Reading PPUSTATUS clears the vertical-blank flag and the write toggle and
/// keeps the other status bits.
pub proof fn lemma_status_read_clears(p: PPU)
    ensures
        p.status_read().status & 0x80 == 0,
        p.status_read().status & 0x7F == p.status & 0x7F,
        !p.status_read().w,
{
    crate::bit_utils::lemma_byte_fields(p.status);
}

/// An OAMDATA write stores the byte at OAMADDR, which then moves on by one
/// (wrapping), and leaves the other OAM bytes alone.
pub proof fn lemma_oam_write(p: PPU, value: u8, i: int)
    requires
        0 <= i < 0x100,
    ensures
        p.oam_written(value).oam[p.oam_addr as int] == value,
        p.oam_written(value).oam_addr == (p.oam_addr + 1) % 0x100,
        i != p.oam_addr ==> p.oam_written(value).oam[i] == p.oam[i],
{
}

/// The backdrop entry of each sprite palette is that of the background
/// palette below it, and the 32 palette bytes repeat every 0x20 addresses.
pub proof fn lemma_palette_mirrors(p: PPU, k: u16, addr: u16)
    requires
        k < 4,
    ensures
        p.pal_read_spec((0x3F10 + 4 * k) as u16) == p.pal_read_spec((0x3F00 + 4 * k) as u16),
        0x3F00 <= addr <= 0x3FDF ==> p.pal_read_spec((addr + 0x20) as u16) == p.pal_read_spec(addr),
{
}

/// A palette byte written through PPUDATA reads back, cut to its six colour
/// bits, through PPUDATA at the same address, whenever that read is defined.
pub proof fn lemma_palette_data_roundtrip(p: PPU, cart: MapperView, hi: u8, lo: u8, x: u8)
    requires
        !p.w,
        hi & 0x3F == 0x3F,
    ensures
        ({
            let p1 = p.addr_written(hi).addr_written(lo);
            &&& p1.data_written(cart, x) is Some
            &&& ({
                let (p2, c2) = p1.data_written(cart, x)->0;
                let p3 = p2.addr_written(hi).addr_written(lo);
                &&& p3.pal_read_spec((0x3F00u16 + lo) as u16) == x & 0x3F
                &&& (p3.data_read(c2) matches Some((_, _, r)) ==> r == x & 0x3F)
            })
        }),
{
    lemma_ppuaddr_pair(p, hi, lo);
    let p1 = p.addr_written(hi).addr_written(lo);
    assert(p1.v & 0x3FFF == (0x3F00u16 + lo) as u16);
    let (p2, c2) = p1.data_written(cart, x)->0;
    lemma_ppuaddr_pair(p2, hi, lo);
    crate::bit_utils::lemma_byte_fields(x);
}

} // verus!
