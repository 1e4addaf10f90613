use vstd::prelude::*;
use crate::bit_utils::address_from_bytes;
use crate::memory_bus::{BusView, MemoryBus};
use crate::ppu::wrap16;

verus! {

/// Status-register flags.
#[derive(Copy, Clone, Debug)]
pub enum CPUFlags {
    Carry,
    Zero,
    InterruptDisable,
    Decimal,
    Overflow,
    Negative,
}

/// Bit position of a flag in the status register (bits 4 and 5 are the B flag
/// and the always-set bit).
pub open spec fn flag_bit(f: CPUFlags) -> u8 {
    match f {
        CPUFlags::Carry => 0,
        CPUFlags::Zero => 1,
        CPUFlags::InterruptDisable => 2,
        CPUFlags::Decimal => 3,
        CPUFlags::Overflow => 6,
        CPUFlags::Negative => 7,
    }
}

impl CPUFlags {
    pub fn index(self) -> (r: u8)
        ensures
            r == flag_bit(self),
    {
        match self {
            CPUFlags::Carry => 0,
            CPUFlags::Zero => 1,
            CPUFlags::InterruptDisable => 2,
            CPUFlags::Decimal => 3,
            CPUFlags::Overflow => 6,
            CPUFlags::Negative => 7,
        }
    }
}

#[derive(Copy, Clone, Debug, PartialEq, Eq, Structural)]
pub enum AddressingMode {
    Implied,
    Accumulator,
    Immediate,
    ZeroPage,
    ZeroPageX,
    ZeroPageY,
    Relative,
    Absolute,
    AbsoluteX,
    AbsoluteY,
    Indirect,
    IndexedIndirect,
    IndirectIndexed,
}

/// The 6502 core: registers and cycle bookkeeping.
#[derive(Copy, Clone, Debug)]
pub struct CPU {
    pub pc: u16,
    pub sp: u8,
    pub p: u8,
    pub a: u8,
    pub x: u8,
    pub y: u8,
    pub cycles: usize,
    pub delay: usize,
}

/// `a + 1` modulo 2^16.
pub open spec fn inc16(a: u16) -> u16 {
    wrap16(a + 1)
}

/// A byte read as a two's-complement number.
pub open spec fn signed8(v: u8) -> int {
    if v < 128 { v as int } else { v - 256 }
}

/// Two bus reads, low byte first, combined into a little-endian word.
#[verifier::opaque]
pub open spec fn read16_spec(b: BusView, addr: u16) -> Option<(BusView, u16)> {
    match b.read_spec(addr) {
        None => None,
        Some((b1, lo)) => match b1.read_spec(inc16(addr)) {
            None => None,
            Some((b2, hi)) => Some((b2, (lo + 256 * hi) as u16)),
        },
    }
}

/// Bytes an instruction occupies in each addressing mode.
pub open spec fn mode_length(mode: AddressingMode) -> int {
    match mode {
        AddressingMode::Implied | AddressingMode::Accumulator => 1,
        AddressingMode::Absolute | AddressingMode::AbsoluteX | AddressingMode::AbsoluteY | AddressingMode::Indirect => 3,
        _ => 2,
    }
}

impl CPU {
    pub open spec fn flag(self, f: CPUFlags) -> bool {
        (self.p >> flag_bit(f)) & 1 == 1
    }

    /// `p` with the bit of `f` set to `to`.
    pub open spec fn with_flag(self, f: CPUFlags, to: bool) -> CPU {
        let mask = (1u8 << flag_bit(f));
        CPU { p: if to { self.p | mask } else { self.p & !mask }, ..self }
    }

    /// Zero and negative flags describing `v`.
    pub open spec fn with_zn(self, v: u8) -> CPU {
        self.with_flag(CPUFlags::Zero, v == 0).with_flag(CPUFlags::Negative, v & 0x80 != 0)
    }

    /// The program counter moved past an instruction of this mode.
    pub open spec fn advanced(self, mode: AddressingMode) -> CPU {
        CPU { pc: wrap16(self.pc + mode_length(mode)), ..self }
    }

    /// (a16): the pointer's high byte is fetched without carrying into its page.
    #[verifier::opaque]
    pub open spec fn indirect_spec(self, b: BusView) -> Option<(BusView, u16)> {
        match read16_spec(b, inc16(self.pc)) {
            None => None,
            Some((b1, ptr)) => match b1.read_spec(ptr) {
                None => None,
                Some((b2, lo)) => match b2.read_spec((ptr & 0xFF00) | (inc16(ptr) & 0x00FF)) {
                    None => None,
                    Some((b3, hi)) => Some((b3, (lo + 256 * hi) as u16)),
                },
            },
        }
    }

    /// (zp,X): a zero-page pointer indexed by X, wrapping within the zero page.
    #[verifier::opaque]
    pub open spec fn indexed_indirect_spec(self, b: BusView) -> Option<(BusView, u16)> {
        match b.read_spec(inc16(self.pc)) {
            None => None,
            Some((b1, v)) => {
                let ptr = ((self.x + v) % 256) as u8;
                match b1.read_spec(ptr as u16) {
                    None => None,
                    Some((b2, lo)) => match b2.read_spec(((ptr + 1) % 256) as u16) {
                        None => None,
                        Some((b3, hi)) => Some((b3, (lo + 256 * hi) as u16)),
                    },
                }
            },
        }
    }

    /// (zp),Y: a zero-page pointer whose target is indexed by Y.
    #[verifier::opaque]
    pub open spec fn indirect_indexed_spec(self, b: BusView) -> Option<(BusView, u16)> {
        match b.read_spec(inc16(self.pc)) {
            None => None,
            Some((b1, ptr)) => match b1.read_spec(ptr as u16) {
                None => None,
                Some((b2, lo)) => match b2.read_spec(((ptr + 1) % 256) as u16) {
                    None => None,
                    Some((b3, hi)) => Some((b3, wrap16(lo + 256 * hi + self.y))),
                },
            },
        }
    }

    /// Effective address of the operand: the bus after the reads and the address,
    /// or `None` for modes without one or undefined reads.
    pub open spec fn address_spec(self, b: BusView, mode: AddressingMode) -> Option<(BusView, u16)> {
        let op = inc16(self.pc);
        match mode {
            AddressingMode::ZeroPage => match b.read_spec(op) {
                None => None,
                Some((b1, v)) => Some((b1, v as u16)),
            },
            AddressingMode::ZeroPageX => match b.read_spec(op) {
                None => None,
                Some((b1, v)) => Some((b1, ((self.x + v) % 256) as u16)),
            },
            AddressingMode::ZeroPageY => match b.read_spec(op) {
                None => None,
                Some((b1, v)) => Some((b1, ((self.y + v) % 256) as u16)),
            },
            AddressingMode::Absolute => read16_spec(b, op),
            AddressingMode::AbsoluteX => match read16_spec(b, op) {
                None => None,
                Some((b1, w)) => Some((b1, wrap16(w + self.x))),
            },
            AddressingMode::AbsoluteY => match read16_spec(b, op) {
                None => None,
                Some((b1, w)) => Some((b1, wrap16(w + self.y))),
            },
            AddressingMode::Relative => match b.read_spec(op) {
                None => None,
                Some((b1, v)) => Some((b1, wrap16(wrap16(self.pc + 2) + signed8(v)))),
            },
            AddressingMode::Indirect => self.indirect_spec(b),
            AddressingMode::IndexedIndirect => self.indexed_indirect_spec(b),
            AddressingMode::IndirectIndexed => self.indirect_indexed_spec(b),
            _ => None,
        }
    }

    /// Whether indexing or branching crossed a page, re-reading the operand.
    pub open spec fn page_crossed_spec(self, b: BusView, mode: AddressingMode) -> Option<(BusView, bool)> {
        let op = inc16(self.pc);
        match mode {
            AddressingMode::AbsoluteX | AddressingMode::AbsoluteY => match read16_spec(b, op) {
                None => None,
                Some((b1, w)) => Some((b1, (w & 0xFF) + (if mode == AddressingMode::AbsoluteX { self.x } else { self.y }) > 0xFF)),
            },
            AddressingMode::IndirectIndexed => match b.read_spec(op) {
                None => None,
                Some((b1, ptr)) => match b1.read_spec(ptr as u16) {
                    None => None,
                    Some((b2, lo)) => match b2.read_spec(((ptr + 1) % 256) as u16) {
                        None => None,
                        Some((b3, hi)) => Some((b3, lo + self.y > 0xFF)),
                    },
                },
            },
            AddressingMode::Relative => match b.read_spec(op) {
                None => None,
                Some((b1, v)) => {
                    let base = wrap16(self.pc + 2);
                    let target = wrap16(base + signed8(v));
                    Some((b1, base / 256 != target / 256))
                },
            },
            _ => Some((b, false)),
        }
    }

    /// The operand value: the accumulator, the byte after the opcode, or memory.
    pub open spec fn operand_spec(self, b: BusView, mode: AddressingMode) -> Option<(BusView, u8)> {
        match mode {
            AddressingMode::Accumulator => Some((b, self.a)),
            AddressingMode::Immediate | AddressingMode::Relative => b.read_spec(inc16(self.pc)),
            _ => match self.address_spec(b, mode) {
                None => None,
                Some((b1, addr)) => b1.read_spec(addr),
            },
        }
    }

    /// Writing a result back: to the accumulator or to the operand's address.
    pub open spec fn store_spec(self, b: BusView, mode: AddressingMode, value: u8) -> Option<(CPU, BusView)> {
        match mode {
            AddressingMode::Accumulator => Some((CPU { a: value, ..self }, b)),
            AddressingMode::Immediate | AddressingMode::Relative => None,
            _ => match self.address_spec(b, mode) {
                None => None,
                Some((b1, addr)) => match b1.write_spec(addr, value) {
                    None => None,
                    Some(b2) => Some((self, b2)),
                },
            },
        }
    }

    /// The stack slot the stack pointer designates.
    pub open spec fn stack_addr(sp: u8) -> u16 {
        (0x100 + sp) as u16
    }

    pub open spec fn push8_spec(self, b: BusView, v: u8) -> Option<(CPU, BusView)> {
        match b.write_spec(Self::stack_addr(self.sp), v) {
            None => None,
            Some(b1) => Some((CPU { sp: ((self.sp + 255) % 256) as u8, ..self }, b1)),
        }
    }

    pub open spec fn pop8_spec(self, b: BusView) -> Option<(CPU, BusView, u8)> {
        let sp = ((self.sp + 1) % 256) as u8;
        match b.read_spec(Self::stack_addr(sp)) {
            None => None,
            Some((b1, v)) => Some((CPU { sp, ..self }, b1, v)),
        }
    }

    /// High byte pushed first, so the low byte sits at the lower address.
    pub open spec fn push16_spec(self, b: BusView, v: u16) -> Option<(CPU, BusView)> {
        match self.push8_spec(b, (v / 256) as u8) {
            None => None,
            Some((c1, b1)) => c1.push8_spec(b1, (v % 256) as u8),
        }
    }

    pub open spec fn pop16_spec(self, b: BusView) -> Option<(CPU, BusView, u16)> {
        match self.pop8_spec(b) {
            None => None,
            Some((c1, b1, lo)) => match c1.pop8_spec(b1) {
                None => None,
                Some((c2, b2, hi)) => Some((c2, b2, (lo + 256 * hi) as u16)),
            },
        }
    }

    /// Interrupt entry: return address and status (B and bit 5 set) pushed,
    /// interrupts disabled, and the vector at `lsb_addr` loaded into the PC.
    pub open spec fn interrupt_spec(self, b: BusView, ret_target: u16, lsb_addr: u16) -> Option<(CPU, BusView)> {
        match self.push16_spec(b, ret_target) {
            None => None,
            Some((c1, b1)) => match c1.push8_spec(b1, c1.p | 0x30) {
                None => None,
                Some((c2, b2)) => {
                    let c3 = c2.with_flag(CPUFlags::InterruptDisable, true);
                    match read16_spec(b2, lsb_addr) {
                        None => None,
                        Some((b3, target)) => Some((CPU { pc: target, ..c3 }, b3)),
                    }
                },
            }
        }
    }
}

impl CPU {
    pub fn new() -> (r: CPU)
        ensures
            r == (CPU { pc: 0, sp: 0xFD, p: 0b00110000, a: 0, x: 0, y: 0, cycles: 0, delay: 0 }),
    {
        CPU { pc: 0, sp: 0xFD, p: 0b00110000, a: 0, x: 0, y: 0, cycles: 0, delay: 0 }
    }

    pub fn set_flag(&mut self, flag: CPUFlags, to: bool)
        ensures
            *final(self) == old(self).with_flag(flag, to),
    {
        let mask: u8 = 1u8 << flag.index();
        self.p = if to { self.p | mask } else { self.p & !mask };
    }

    pub fn flag_set(&self, flag: CPUFlags) -> (r: bool)
        ensures
            r == self.flag(flag),
    {
        (self.p >> flag.index()) & 1 == 1
    }

    pub fn read8(&self, bus: &mut MemoryBus, addr: u16) -> (r: u8)
        requires
            old(bus)@.read_spec(addr) is Some,
        ensures
            final(bus).cartridge.name == old(bus).cartridge.name,
            (final(bus)@, r) == old(bus)@.read_spec(addr)->0,
            old(bus)@.wf() ==> final(bus)@.wf(),
    {
        bus.read(addr)
    }

    pub fn read16(&self, bus: &mut MemoryBus, addr: u16) -> (r: u16)
        requires
            read16_spec(old(bus)@, addr) is Some,
        ensures
            final(bus).cartridge.name == old(bus).cartridge.name,
            (final(bus)@, r) == read16_spec(old(bus)@, addr)->0,
            old(bus)@.wf() ==> final(bus)@.wf(),
    {
        proof {
            reveal(read16_spec);
        }
        let lo = bus.read(addr);
        let hi = bus.read(addr.wrapping_add(1));
        address_from_bytes(lo, hi)
    }

    pub fn write8(&mut self, bus: &mut MemoryBus, addr: u16, to: u8)
        requires
            old(bus)@.wf(),
            old(bus)@.write_spec(addr, to) is Some,
        ensures
            final(bus).cartridge.name == old(bus).cartridge.name,
            Some(final(bus)@) == old(bus)@.write_spec(addr, to),
            final(bus)@.wf(),
            *final(self) == *old(self),
    {
        bus.write(addr, to);
    }

    pub fn push8(&mut self, bus: &mut MemoryBus, b: u8)
        requires
            old(bus)@.wf(),
        ensures
            final(bus).cartridge.name == old(bus).cartridge.name,
            old(self).push8_spec(old(bus)@, b) is Some,
            (*final(self), final(bus)@) == old(self).push8_spec(old(bus)@, b)->0,
            final(bus)@.wf(),
    {
        proof {
            crate::memory_bus::lemma_ram_access(bus@, Self::stack_addr(self.sp), b);
        }
        bus.write(0x100 + self.sp as u16, b);
        self.sp = self.sp.wrapping_sub(1);
    }

    pub fn pop8(&mut self, bus: &mut MemoryBus) -> (r: u8)
        requires
            old(bus)@.wf(),
        ensures
            final(bus).cartridge.name == old(bus).cartridge.name,
            old(self).pop8_spec(old(bus)@) is Some,
            (*final(self), final(bus)@, r) == old(self).pop8_spec(old(bus)@)->0,
            final(bus)@.wf(),
    {
        self.sp = self.sp.wrapping_add(1);
        proof {
            crate::memory_bus::lemma_ram_access(bus@, Self::stack_addr(self.sp), 0);
        }
        bus.read(0x100 + self.sp as u16)
    }

    pub fn push16(&mut self, bus: &mut MemoryBus, value: u16)
        requires
            old(bus)@.wf(),
        ensures
            final(bus).cartridge.name == old(bus).cartridge.name,
            old(self).push16_spec(old(bus)@, value) is Some,
            (*final(self), final(bus)@) == old(self).push16_spec(old(bus)@, value)->0,
            final(bus)@.wf(),
    {
        let hi = (value >> 8u16) as u8;
        let lo = value as u8;
        assert(hi == value / 256 && lo == value % 256) by (bit_vector)
            requires hi == (value >> 8u16) as u8, lo == value as u8;
        self.push8(bus, hi);
        self.push8(bus, lo);
    }

    pub fn pop16(&mut self, bus: &mut MemoryBus) -> (r: u16)
        requires
            old(bus)@.wf(),
        ensures
            final(bus).cartridge.name == old(bus).cartridge.name,
            old(self).pop16_spec(old(bus)@) is Some,
            (*final(self), final(bus)@, r) == old(self).pop16_spec(old(bus)@)->0,
            final(bus)@.wf(),
    {
        let lo = self.pop8(bus) as u16;
        let hi = self.pop8(bus) as u16;
        let r = (hi << 8u16) | lo;
        assert(r == lo + 256 * hi) by (bit_vector)
            requires lo < 256, hi < 256, r == (hi << 8u16) | lo;
        r
    }

    pub(crate) fn jump_to_handler(&mut self, bus: &mut MemoryBus, ret_target: u16, lsb_addr: u16) -> (r: usize)
        requires
            old(bus)@.wf(),
            old(self).interrupt_spec(old(bus)@, ret_target, lsb_addr) is Some,
        ensures
            final(bus).cartridge.name == old(bus).cartridge.name,
            (*final(self), final(bus)@) == old(self).interrupt_spec(old(bus)@, ret_target, lsb_addr)->0,
            final(bus)@.wf(),
            r == 7,
    {
        let ghost c0 = *self;
        let ghost b0 = bus@;
        self.push16(bus, ret_target);
        let ghost c1 = *self;
        let ghost b1 = bus@;
        assert((c1, b1) == c0.push16_spec(b0, ret_target)->0);
        self.push8(bus, self.p | 0x30);
        let ghost c2 = *self;
        let ghost b2 = bus@;
        assert((c2, b2) == c1.push8_spec(b1, c1.p | 0x30)->0);
        self.set_flag(CPUFlags::InterruptDisable, true);
        assert(read16_spec(b2, lsb_addr) is Some);
        self.pc = self.read16(bus, lsb_addr);
        7
    }
}


/// `base` moved by a signed byte offset, as branches do.
fn offset_address(base: u16, offset_byte: u8) -> (r: u16)
    ensures
        r == wrap16(base + signed8(offset_byte)),
{
    let offset = offset_byte as i8;
    let off16 = offset as i16;
    assert(off16 == (if offset_byte < 128 { offset_byte as i16 } else { ((offset_byte as i16) - 256) as i16 })) by (bit_vector)
        requires off16 == ((offset_byte as i8) as i16);
    base.wrapping_add_signed(off16)
}

impl CPU {
    fn indirect_address(&self, bus: &mut MemoryBus) -> (r: u16)
        requires
            self.indirect_spec(old(bus)@) is Some,
        ensures
            final(bus).cartridge.name == old(bus).cartridge.name,
            (final(bus)@, r) == self.indirect_spec(old(bus)@)->0,
            old(bus)@.wf() ==> final(bus)@.wf(),
    {
        proof {
            reveal(CPU::indirect_spec);
        }
        let ptr = self.read16(bus, self.pc.wrapping_add(1));
        let lsb = self.read8(bus, ptr);
        let msb_addr = (ptr & 0xFF00) | ((ptr.wrapping_add(1)) & 0x00FF);
        let msb = self.read8(bus, msb_addr);
        address_from_bytes(lsb, msb)
    }

    fn indexed_indirect_address(&self, bus: &mut MemoryBus) -> (r: u16)
        requires
            self.indexed_indirect_spec(old(bus)@) is Some,
        ensures
            final(bus).cartridge.name == old(bus).cartridge.name,
            (final(bus)@, r) == self.indexed_indirect_spec(old(bus)@)->0,
            old(bus)@.wf() ==> final(bus)@.wf(),
    {
        proof {
            reveal(CPU::indexed_indirect_spec);
        }
        let ptr = self.x.wrapping_add(self.read8(bus, self.pc.wrapping_add(1)));
        // Must read byte by byte to preserve page wrapping behaviors
        let lsb = self.read8(bus, ptr as u16);
        let msb = self.read8(bus, ptr.wrapping_add(1) as u16);
        address_from_bytes(lsb, msb)
    }

    fn indirect_indexed_address(&self, bus: &mut MemoryBus) -> (r: u16)
        requires
            self.indirect_indexed_spec(old(bus)@) is Some,
        ensures
            final(bus).cartridge.name == old(bus).cartridge.name,
            (final(bus)@, r) == self.indirect_indexed_spec(old(bus)@)->0,
            old(bus)@.wf() ==> final(bus)@.wf(),
    {
        proof {
            reveal(CPU::indirect_indexed_spec);
        }
        let ptr = self.read8(bus, self.pc.wrapping_add(1));
        let lsb = self.read8(bus, ptr as u16);
        let msb = self.read8(bus, ptr.wrapping_add(1) as u16);
        address_from_bytes(lsb, msb).wrapping_add(self.y as u16)
    }

    /// Zero-page addressing, plain or indexed by X or Y (wrapping within the page).
    #[verifier::spinoff_prover]
    #[verifier::rlimit(40)]
    fn zero_page_address(&self, bus: &mut MemoryBus, mode: AddressingMode) -> (r: u16)
        requires
            mode is ZeroPage || mode is ZeroPageX || mode is ZeroPageY,
            self.address_spec(old(bus)@, mode) is Some,
        ensures
            final(bus).cartridge.name == old(bus).cartridge.name,
            (final(bus)@, r) == self.address_spec(old(bus)@, mode)->0,
            old(bus)@.wf() ==> final(bus)@.wf(),
    {
        let v = self.read8(bus, self.pc.wrapping_add(1));
        match mode {
            AddressingMode::ZeroPageX => self.x.wrapping_add(v) as u16,
            AddressingMode::ZeroPageY => self.y.wrapping_add(v) as u16,
            _ => v as u16,
        }
    }

    /// Absolute addressing, plain or indexed by X or Y (wrapping at 0xFFFF).
    #[verifier::spinoff_prover]
    #[verifier::rlimit(40)]
    fn absolute_address(&self, bus: &mut MemoryBus, mode: AddressingMode) -> (r: u16)
        requires
            mode is Absolute || mode is AbsoluteX || mode is AbsoluteY,
            self.address_spec(old(bus)@, mode) is Some,
        ensures
            final(bus).cartridge.name == old(bus).cartridge.name,
            (final(bus)@, r) == self.address_spec(old(bus)@, mode)->0,
            old(bus)@.wf() ==> final(bus)@.wf(),
    {
        let w = self.read16(bus, self.pc.wrapping_add(1));
        match mode {
            AddressingMode::AbsoluteX => w.wrapping_add(self.x as u16),
            AddressingMode::AbsoluteY => w.wrapping_add(self.y as u16),
            _ => w,
        }
    }

    #[verifier::spinoff_prover]
    #[verifier::rlimit(100)]
    pub(crate) fn get_address(&self, bus: &mut MemoryBus, mode: AddressingMode) -> (r: u16)
        requires
            self.address_spec(old(bus)@, mode) is Some,
        ensures
            final(bus).cartridge.name == old(bus).cartridge.name,
            (final(bus)@, r) == self.address_spec(old(bus)@, mode)->0,
            old(bus)@.wf() ==> final(bus)@.wf(),
    {
        match mode {
            AddressingMode::ZeroPage | AddressingMode::ZeroPageX | AddressingMode::ZeroPageY => {
                self.zero_page_address(bus, mode)
            },
            AddressingMode::Absolute | AddressingMode::AbsoluteX | AddressingMode::AbsoluteY => {
                self.absolute_address(bus, mode)
            },
            AddressingMode::Relative => {
                let offset = self.read8(bus, self.pc.wrapping_add(1));
                offset_address(self.pc.wrapping_add(2), offset)
            },
            AddressingMode::Indirect => self.indirect_address(bus),
            AddressingMode::IndexedIndirect => self.indexed_indirect_address(bus),
            AddressingMode::IndirectIndexed => self.indirect_indexed_address(bus),
            _ => {
                proof {
                    assert(false);
                }
                0
            },
        }
    }

    pub(crate) fn page_crossed(&self, bus: &mut MemoryBus, mode: AddressingMode) -> (r: bool)
        requires
            self.page_crossed_spec(old(bus)@, mode) is Some,
        ensures
            final(bus).cartridge.name == old(bus).cartridge.name,
            (final(bus)@, r) == self.page_crossed_spec(old(bus)@, mode)->0,
            old(bus)@.wf() ==> final(bus)@.wf(),
    {
        match mode {
            AddressingMode::AbsoluteX | AddressingMode::AbsoluteY => {
                let address_before_add = self.read16(bus, self.pc.wrapping_add(1));
                let index = if mode == AddressingMode::AbsoluteX { self.x } else { self.y };
                assert(address_before_add & 0xFF <= 0xFF) by (bit_vector);
                (address_before_add & 0xFF) + index as u16 > 0xFF
            },
            AddressingMode::IndirectIndexed => {
                let ptr = self.read8(bus, self.pc.wrapping_add(1));
                let lsb = self.read8(bus, ptr as u16);
                let msb = self.read8(bus, ptr.wrapping_add(1) as u16);
                let address_before_add = address_from_bytes(lsb, msb);
                assert(address_before_add & 0xFF == lsb) by (bit_vector)
                    requires address_before_add == lsb + 256 * msb;
                (address_before_add & 0xFF) + self.y as u16 > 0xFF
            },
            AddressingMode::Relative => {
                let offset = self.read8(bus, self.pc.wrapping_add(1));
                let base = self.pc.wrapping_add(2);
                let target = offset_address(base, offset);
                assert((base >> 8u16) == base / 256 && (target >> 8u16) == target / 256) by (bit_vector);
                (base >> 8u16) != (target >> 8u16)
            },
            _ => false,
        }
    }

    pub(crate) fn get8(&self, bus: &mut MemoryBus, mode: AddressingMode) -> (r: u8)
        requires
            self.operand_spec(old(bus)@, mode) is Some,
        ensures
            final(bus).cartridge.name == old(bus).cartridge.name,
            (final(bus)@, r) == self.operand_spec(old(bus)@, mode)->0,
            old(bus)@.wf() ==> final(bus)@.wf(),
    {
        match mode {
            AddressingMode::Accumulator => self.a,
            AddressingMode::Immediate | AddressingMode::Relative => self.read8(bus, self.pc.wrapping_add(1)),
            _ => {
                let addr = self.get_address(bus, mode);
                self.read8(bus, addr)
            },
        }
    }

    pub(crate) fn set8(&mut self, bus: &mut MemoryBus, mode: AddressingMode, value: u8)
        requires
            old(bus)@.wf(),
            old(self).store_spec(old(bus)@, mode, value) is Some,
        ensures
            final(bus).cartridge.name == old(bus).cartridge.name,
            (*final(self), final(bus)@) == old(self).store_spec(old(bus)@, mode, value)->0,
            final(bus)@.wf(),
    {
        match mode {
            AddressingMode::Accumulator => {
                self.a = value;
            },
            AddressingMode::Immediate | AddressingMode::Relative => {
                proof {
                    assert(false);
                }
            },
            _ => {
                let addr = self.get_address(bus, mode);
                self.write8(bus, addr, value);
            },
        }
    }

    pub fn jump_to_nmi_handler(&mut self, bus: &mut MemoryBus)
        requires
            old(bus)@.wf(),
            old(self).delay + 7 <= usize::MAX,
            old(self).interrupt_spec(old(bus)@, old(self).pc, 0xFFFA) is Some,
        ensures
            final(bus).cartridge.name == old(bus).cartridge.name,
            (CPU { delay: old(self).delay, ..*final(self) }, final(bus)@) == old(self).interrupt_spec(
                old(bus)@,
                old(self).pc,
                0xFFFA,
            )->0,
            final(self).delay == old(self).delay + 7,
            final(bus)@.wf(),
    {
        let d = self.delay;
        let pc = self.pc;
        let c = self.jump_to_handler(bus, pc, 0xFFFA);
        self.delay = d + c;
    }

    pub fn jump_to_startup(&mut self, bus: &mut MemoryBus)
        requires
            old(bus)@.wf(),
            old(self).delay + 7 <= usize::MAX,
            read16_spec(old(bus)@, 0xFFFC) is Some,
        ensures
            final(bus).cartridge.name == old(bus).cartridge.name,
            (final(bus)@, final(self).pc) == read16_spec(old(bus)@, 0xFFFC)->0,
            *final(self) == (CPU { pc: final(self).pc, delay: (old(self).delay + 7) as usize, ..*old(self) }),
            final(bus)@.wf(),
    {
        self.pc = self.read16(bus, 0xFFFC);
        self.delay = self.delay + 7;
    }
}


/// Setting a flag makes it read back as set, and leaves every other flag as
/// it was.
pub proof fn lemma_flag_set_get(c: CPU, f: CPUFlags, g: CPUFlags, to: bool)
    ensures
        c.with_flag(f, to).flag(f) == to,
        f != g ==> c.with_flag(f, to).flag(g) == c.flag(g),
{
    lemma_bit_set_get(c.p, flag_bit(f), flag_bit(g));
}

/// Setting or clearing bit `bf` of a byte changes that bit and no other.
proof fn lemma_bit_set_get(p: u8, bf: u8, bg: u8)
    by (bit_vector)
    requires
        bf < 8,
        bg < 8,
    ensures
        ((p | (1u8 << bf)) >> bf) & 1 == 1,
        ((p & !(1u8 << bf)) >> bf) & 1 == 0,
        bf != bg ==> ((p | (1u8 << bf)) >> bg) & 1 == (p >> bg) & 1,
        bf != bg ==> ((p & !(1u8 << bf)) >> bg) & 1 == (p >> bg) & 1,
{
}

/// A pushed byte is the next byte popped, from any later bus whose RAM is
/// the RAM the push left, and the stack pointer comes back to where it was.
pub proof fn lemma_push_pop8(c: CPU, b: BusView, v: u8, d: CPU, later: BusView)
    requires
        ({
            let (c1, b1) = c.push8_spec(b, v)->0;
            d.sp == c1.sp && later.ram == b1.ram
        }),
    ensures
        c.push8_spec(b, v) is Some,
        ({
            let (c1, b1) = c.push8_spec(b, v)->0;
            c1 == (CPU { sp: c1.sp, ..c })
        }),
        d.pop8_spec(later) == Some(((CPU { sp: c.sp, ..d }), later, v)),
{
    crate::memory_bus::lemma_ram_access(b, CPU::stack_addr(c.sp), v);
    crate::memory_bus::lemma_ram_access(later, CPU::stack_addr(c.sp), 0);
}

/// A pushed word is the next word popped, from any later bus whose RAM is
/// the RAM the push left, and the stack pointer comes back to where it was.
pub proof fn lemma_push_pop16(c: CPU, b: BusView, v: u16, d: CPU, later: BusView)
    requires
        ({
            let (c1, b1) = c.push16_spec(b, v)->0;
            d.sp == c1.sp && later.ram == b1.ram
        }),
    ensures
        c.push16_spec(b, v) is Some,
        ({
            let (c1, b1) = c.push16_spec(b, v)->0;
            c1 == (CPU { sp: c1.sp, ..c })
        }),
        d.pop16_spec(later) == Some(((CPU { sp: c.sp, ..d }), later, v)),
{
    let hi = (v / 256) as u8;
    let lo = (v % 256) as u8;
    let sp0 = c.sp;
    let sp1 = ((sp0 + 255) % 256) as u8;
    crate::memory_bus::lemma_ram_access(b, CPU::stack_addr(sp0), hi);
    let (c1, b1) = c.push8_spec(b, hi)->0;
    crate::memory_bus::lemma_ram_access(b1, CPU::stack_addr(sp1), lo);
    let (c2, b2) = c1.push8_spec(b1, lo)->0;
    assert(b2.ram[(CPU::stack_addr(sp0) % 0x0800) as int] == hi);
    assert(b2.ram[(CPU::stack_addr(sp1) % 0x0800) as int] == lo);
    crate::memory_bus::lemma_ram_access(later, CPU::stack_addr(sp1), 0);
    crate::memory_bus::lemma_ram_access(later, CPU::stack_addr(sp0), 0);
    let e1 = CPU { sp: sp1, ..d };
    assert(d.pop8_spec(later) == Some((e1, later, lo)));
    assert(e1.pop8_spec(later) == Some((CPU { sp: sp0, ..d }, later, hi)));
}

} // verus!
