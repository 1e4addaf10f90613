use vstd::prelude::*;
use crate::cartridge::Cartridge;
use crate::mappers::MapperView;

verus! {

/// Timer periods selectable for the sample channel, in CPU cycles.
pub const RATE_TABLE: [u16; 0x10] = [428, 380, 340, 320, 286, 254, 226, 214, 190, 160, 142, 128, 106, 84, 72, 54];

/// The delta-modulation sample channel. It fetches sample bytes from the
/// cartridge's program space; the cartridge is handed to `tick`.
#[derive(Clone, Copy)]
pub struct APUDMC {
    pub timer_reset: u16,
    pub timer: u16,
    pub sample_address: u16,
    pub current_address: u16,
    pub sample_length: u16,
    pub remaining_samples: u16,
    pub bits_remaining: u8,
    pub sample_buffer: u8,
    pub output_shifter: u8,
    pub output_level: u8,
    pub buffer_empty: bool,
    pub irq_enabled: bool,
    pub irq_pending: bool,
    pub will_loop: bool,
    pub silence: bool,
    pub transferring: bool,
}

impl APUDMC {
    /// The output level is a 7-bit value and between one and eight bits of the
    /// current byte remain to be played.
    pub open spec fn wf(self) -> bool {
        &&& 1 <= self.bits_remaining <= 8
        &&& self.output_level <= 127
    }

    pub open spec fn flags_written(self, value: u8) -> Self {
        let irq_enabled = value & 0x80 != 0;
        APUDMC {
            timer_reset: RATE_TABLE[(value & 0x0F) as int],
            will_loop: value & 0x40 != 0,
            irq_enabled,
            irq_pending: if !irq_enabled { false } else { self.irq_pending },
            ..self
        }
    }

    pub open spec fn load_written(self, value: u8) -> Self {
        APUDMC { output_level: value & 0x7F, ..self }
    }

    pub open spec fn address_written(self, value: u8) -> Self {
        let a = (0xC000 + value * 0x40) as u16;
        APUDMC { sample_address: a, current_address: a, ..self }
    }

    pub open spec fn length_written(self, value: u8) -> Self {
        let l = (value * 16 + 1) as u16;
        APUDMC { sample_length: l, remaining_samples: l, ..self }
    }

    /// The sample buffer is empty and bytes of the sample remain to be fetched.
    pub open spec fn fetch_needed(self) -> bool {
        self.buffer_empty && self.remaining_samples > 0
    }

    /// The fetch this tick makes, if any, stays within the cartridge.
    pub open spec fn fetch_ok(self, cart: MapperView) -> bool {
        self.fetch_needed() ==> self.current_address >= 0x8000 && cart.prg_read_ok((self.current_address - 0x8000) as u16)
    }

    /// The byte the sample fetch reads from the cartridge.
    pub open spec fn fetched(self, cart: MapperView) -> u8 {
        cart.prg_read_value((self.current_address - 0x8000) as u16)
    }

    /// State after the sample-fetch step, with `byte` the byte fetched.
    pub open spec fn after_fetch(self, byte: u8) -> Self {
        if self.fetch_needed() {
            let remaining = (self.remaining_samples - 1) as u16;
            let base = APUDMC {
                sample_buffer: byte,
                transferring: true,
                buffer_empty: false,
                current_address: if self.current_address == 0xFFFF { 0x8000 } else { (self.current_address + 1) as u16 },
                remaining_samples: remaining,
                ..self
            };
            if remaining == 0 {
                if self.will_loop {
                    APUDMC { remaining_samples: self.sample_length, current_address: self.sample_address, ..base }
                } else {
                    APUDMC { irq_pending: self.irq_enabled, ..base }
                }
            } else {
                base
            }
        } else {
            self
        }
    }

    /// State after the output unit steps: each bit of the shifter moves the
    /// level up or down by two within 0..=127.
    pub open spec fn after_output(self) -> Self {
        if self.timer != 0 {
            APUDMC { timer: (self.timer - 1) as u16, ..self }
        } else {
            let level = if self.silence {
                self.output_level
            } else if self.output_shifter & 1 == 1 {
                if self.output_level <= 125 { (self.output_level + 2) as u8 } else { self.output_level }
            } else {
                if self.output_level >= 2 { (self.output_level - 2) as u8 } else { self.output_level }
            };
            let s = APUDMC {
                timer: self.timer_reset,
                output_level: level,
                output_shifter: self.output_shifter >> 1u8,
                bits_remaining: (self.bits_remaining - 1) as u8,
                ..self
            };
            if s.bits_remaining == 0 {
                if s.buffer_empty {
                    APUDMC { bits_remaining: 8, silence: true, ..s }
                } else {
                    APUDMC { bits_remaining: 8, silence: false, output_shifter: s.sample_buffer, buffer_empty: true, ..s }
                }
            } else {
                s
            }
        }
    }

    pub open spec fn ticked(self, byte: u8) -> Self {
        self.after_fetch(byte).after_output()
    }

    pub fn new() -> (r: APUDMC)
        ensures
            r.wf(),
            r == (APUDMC {
                timer_reset: 0,
                timer: 0,
                sample_address: 0,
                current_address: 0,
                sample_length: 0,
                remaining_samples: 0,
                bits_remaining: 8,
                sample_buffer: 0,
                output_shifter: 0,
                output_level: 0,
                buffer_empty: true,
                irq_enabled: false,
                irq_pending: false,
                will_loop: false,
                silence: false,
                transferring: false,
            }),
    {
        APUDMC {
            timer_reset: 0,
            timer: 0,
            sample_address: 0,
            current_address: 0,
            sample_length: 0,
            remaining_samples: 0,
            bits_remaining: 8,
            sample_buffer: 0,
            output_shifter: 0,
            output_level: 0,
            buffer_empty: true,
            irq_enabled: false,
            irq_pending: false,
            will_loop: false,
            silence: false,
            transferring: false,
        }
    }

    pub fn write_flags_and_rate(&mut self, value: u8)
        requires
            old(self).wf(),
        ensures
            *final(self) == old(self).flags_written(value),
            final(self).wf(),
    {
        proof {
            crate::bit_utils::lemma_byte_fields(value);
        }
        self.timer_reset = RATE_TABLE[(value & 0x0F) as usize];
        self.will_loop = value & 0x40 != 0;
        self.irq_enabled = value & 0x80 != 0;
        if !self.irq_enabled {
            self.irq_pending = false;
        }
    }

    pub fn write_load(&mut self, value: u8)
        requires
            old(self).wf(),
        ensures
            *final(self) == old(self).load_written(value),
            final(self).wf(),
    {
        self.output_level = value & 0x7F;
        proof {
            crate::bit_utils::lemma_byte_fields(value);
        }
    }

    pub fn write_sample_address(&mut self, value: u8)
        requires
            old(self).wf(),
        ensures
            *final(self) == old(self).address_written(value),
            final(self).wf(),
    {
        self.sample_address = 0xC000 + (value as u16) * 0x40;
        self.current_address = self.sample_address;
    }

    pub fn write_sample_length(&mut self, value: u8)
        requires
            old(self).wf(),
        ensures
            *final(self) == old(self).length_written(value),
            final(self).wf(),
    {
        assert(((value as u16) << 4u16) == value * 16) by (bit_vector);
        self.sample_length = ((value as u16) << 4u16) + 1;
        self.remaining_samples = self.sample_length;
    }

    pub fn tick(&mut self, cart: &mut Cartridge)
        requires
            old(self).wf(),
            old(self).fetch_ok(old(cart)@),
        ensures
            *final(self) == old(self).ticked(old(self).fetched(old(cart)@)),
            final(cart)@ == old(cart)@,
            final(cart).name == old(cart).name,
            final(self).wf(),
    {
        if self.buffer_empty && self.remaining_samples > 0 {
            self.sample_buffer = cart.prg_read(self.current_address);
            self.transferring = true;
            self.buffer_empty = false;
            if self.current_address == 0xFFFF {
                self.current_address = 0x8000;
            } else {
                self.current_address = self.current_address + 1;
            }
            self.remaining_samples = self.remaining_samples - 1;
            if self.remaining_samples == 0 {
                if self.will_loop {
                    self.remaining_samples = self.sample_length;
                    self.current_address = self.sample_address;
                } else {
                    self.irq_pending = self.irq_enabled;
                }
            }
        }
        if self.timer != 0 {
            self.timer = self.timer - 1;
            return;
        }
        self.timer = self.timer_reset;
        if !self.silence {
            let will_add = self.output_shifter & 1 == 1;
            if will_add {
                if self.output_level <= 125 {
                    self.output_level = self.output_level + 2;
                }
            } else {
                if self.output_level >= 2 {
                    self.output_level = self.output_level - 2;
                }
            }
        }
        self.output_shifter = self.output_shifter >> 1u8;
        self.bits_remaining = self.bits_remaining - 1;
        if self.bits_remaining == 0 {
            self.bits_remaining = 8;
            if self.buffer_empty {
                self.silence = true;
            } else {
                self.silence = false;
                self.output_shifter = self.sample_buffer;
                self.buffer_empty = true;
            }
        }
    }

    pub fn volume(&self) -> (r: u8)
        ensures
            r == self.output_level,
    {
        self.output_level
    }

    pub fn signaling_irq(&self) -> (r: bool)
        ensures
            r == self.irq_pending,
    {
        self.irq_pending
    }

    pub fn disable_irq_until_next(&mut self)
        ensures
            *final(self) == (APUDMC { irq_pending: false, ..*old(self) }),
    {
        self.irq_pending = false;
    }

    pub fn done_transferring(&mut self)
        ensures
            *final(self) == (APUDMC { transferring: false, ..*old(self) }),
    {
        self.transferring = false;
    }
}


/// One DMC cycle keeps the output level within 0..=127 and one to eight bits
/// pending. While the timer runs it only counts down; when it expires it
/// reloads, and unless the channel is silent the level moves up by two for a
/// 1 bit and down by two for a 0 bit, staying put at the edges.
pub proof fn lemma_dmc_output(d: APUDMC, byte: u8)
    requires
        d.wf(),
    ensures
        ({
            let n = d.ticked(byte);
            let l = d.output_level;
            &&& n.wf()
            &&& d.timer != 0 ==> {
                &&& n.timer == d.timer - 1
                &&& n.output_level == l
                &&& n.output_shifter == d.output_shifter
                &&& n.bits_remaining == d.bits_remaining
            }
            &&& d.timer == 0 ==> {
                &&& n.timer == d.timer_reset
                &&& n.output_level == (if d.silence {
                    l
                } else if d.output_shifter & 1 != 0 {
                    if l <= 125 { (l + 2) as u8 } else { l }
                } else if l >= 2 {
                    (l - 2) as u8
                } else {
                    l
                })
            }
        }),
{
    let s = d.output_shifter;
    assert((s & 1 != 0) == (s & 1 == 1)) by (bit_vector);
}

} // verus!
