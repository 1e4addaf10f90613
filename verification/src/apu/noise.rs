use vstd::prelude::*;
use crate::apu::LENGTH_TABLE;

verus! {

/// Timer periods selectable for the noise channel.
pub const PERIOD_TABLE: [u16; 16] = [4, 8, 16, 32, 64, 96, 128, 160, 202, 254, 380, 508, 762, 1016, 2034, 4068];

/// The pseudo-random noise channel of the APU, driven by a 15-bit linear
/// feedback shift register.
#[derive(Clone, Copy)]
pub struct APUNoise {
    pub halt: bool,
    pub constant_volume: bool,
    pub envelope_period: u8,
    pub mode: bool,
    pub period: u8,
    pub delay: u16,
    pub length_counter: u8,
    pub envelope_start: bool,
    pub decay_divider: u8,
    pub decay_level: u8,
    pub shift: u16,
}

impl APUNoise {
    /// Register ranges; the shift register is a nonzero 15-bit value.
    pub open spec fn wf(self) -> bool {
        &&& self.envelope_period < 16
        &&& self.period < 16
        &&& self.decay_divider < 16
        &&& self.decay_level < 16
        &&& 0 < self.shift < 0x8000
    }

    pub open spec fn envelope_written(self, to: u8) -> Self {
        APUNoise { envelope_period: to & 0x0F, constant_volume: to & 0x10 != 0, halt: to & 0x20 != 0, ..self }
    }

    pub open spec fn period_written(self, to: u8) -> Self {
        APUNoise { period: to & 0x0F, mode: to & 0x80 != 0, ..self }
    }

    pub open spec fn length_written(self, to: u8, lc_enabled: bool) -> Self {
        APUNoise {
            length_counter: if lc_enabled { LENGTH_TABLE[(to >> 3u8) as int] } else { self.length_counter },
            envelope_start: true,
            ..self
        }
    }

    /// The feedback bit: bit 0 exclusive-or bit 6 (short mode) or bit 1.
    pub open spec fn feedback(self) -> bool {
        (self.shift & 1 == 1) != (if self.mode { (self.shift >> 6u16) & 1 == 1 } else { (self.shift >> 1u16) & 1 == 1 })
    }

    pub open spec fn ticked(self) -> Self {
        if self.delay != 0 {
            APUNoise { delay: (self.delay - 1) as u16, ..self }
        } else {
            APUNoise {
                delay: PERIOD_TABLE[self.period as int],
                shift: if self.feedback() { (self.shift >> 1u16) | 0x4000 } else { (self.shift >> 1u16) & 0xBFFF },
                ..self
            }
        }
    }

    pub open spec fn envelope_ticked(self) -> Self {
        if self.envelope_start {
            APUNoise { envelope_start: false, decay_level: 15, decay_divider: self.envelope_period, ..self }
        } else if self.decay_divider == 0 {
            APUNoise {
                decay_divider: self.envelope_period,
                decay_level: if self.decay_level > 0 {
                    (self.decay_level - 1) as u8
                } else if self.halt {
                    15
                } else {
                    self.decay_level
                },
                ..self
            }
        } else {
            APUNoise { decay_divider: (self.decay_divider - 1) as u8, ..self }
        }
    }

    pub open spec fn length_ticked(self) -> Self {
        if !self.halt && self.length_counter != 0 {
            APUNoise { length_counter: (self.length_counter - 1) as u8, ..self }
        } else {
            self
        }
    }

    pub open spec fn volume_spec(self) -> u8 {
        if self.shift & 1 == 1 || self.length_counter == 0 {
            0
        } else if self.constant_volume {
            self.envelope_period
        } else {
            self.decay_level
        }
    }

    pub fn new() -> (r: APUNoise)
        ensures
            r.wf(),
            r == (APUNoise {
                halt: false,
                constant_volume: false,
                envelope_period: 0,
                mode: false,
                period: 0,
                delay: 0,
                length_counter: 0,
                envelope_start: false,
                decay_divider: 0,
                decay_level: 0,
                shift: 1,
            }),
    {
        APUNoise {
            halt: false,
            constant_volume: false,
            envelope_period: 0,
            mode: false,
            delay: 0,
            period: 0,
            length_counter: 0,
            envelope_start: false,
            decay_divider: 0,
            decay_level: 0,
            shift: 1,
        }
    }

    pub fn write_envelope(&mut self, to: u8)
        requires
            old(self).wf(),
        ensures
            *final(self) == old(self).envelope_written(to),
            final(self).wf(),
    {
        self.envelope_period = to & 0x0F;
        self.constant_volume = to & 0x10 != 0;
        self.halt = to & 0x20 != 0;
        proof {
            crate::bit_utils::lemma_byte_fields(to);
        }
    }

    pub fn write_period(&mut self, to: u8)
        requires
            old(self).wf(),
        ensures
            *final(self) == old(self).period_written(to),
            final(self).wf(),
    {
        self.period = to & 0x0F;
        self.mode = to & 0x80 != 0;
        proof {
            crate::bit_utils::lemma_byte_fields(to);
        }
    }

    pub fn write_length_counter(&mut self, to: u8, lc_enabled: bool)
        requires
            old(self).wf(),
        ensures
            *final(self) == old(self).length_written(to, lc_enabled),
            final(self).wf(),
    {
        if lc_enabled {
            proof {
                crate::bit_utils::lemma_byte_fields(to);
            }
            self.length_counter = LENGTH_TABLE[(to >> 3u8) as usize];
        }
        self.envelope_start = true;
    }

    pub fn tick(&mut self)
        requires
            old(self).wf(),
        ensures
            *final(self) == old(self).ticked(),
            final(self).wf(),
    {
        if self.delay != 0 {
            self.delay = self.delay - 1;
            return;
        }
        proof {
            lemma_noise_shift_never_zero(*self);
        }
        self.delay = PERIOD_TABLE[self.period as usize];
        let s = self.shift;
        let feedback = (s & 1 == 1) != (if self.mode { (s >> 6u16) & 1 == 1 } else { (s >> 1u16) & 1 == 1 });
        let shifted = s >> 1u16;
        self.shift = if feedback { shifted | 0x4000 } else { shifted & 0xBFFF };
    }

    pub fn tick_envelope(&mut self)
        requires
            old(self).wf(),
        ensures
            *final(self) == old(self).envelope_ticked(),
            final(self).wf(),
    {
        if self.envelope_start {
            self.envelope_start = false;
            self.decay_level = 15;
            self.decay_divider = self.envelope_period;
            return;
        }
        if self.decay_divider == 0 {
            self.decay_divider = self.envelope_period;
            if self.decay_level > 0 {
                self.decay_level = self.decay_level - 1;
            } else if self.halt {
                self.decay_level = 15;
            }
        } else {
            self.decay_divider = self.decay_divider - 1;
        }
    }

    pub fn tick_length_counter(&mut self)
        requires
            old(self).wf(),
        ensures
            *final(self) == old(self).length_ticked(),
            final(self).wf(),
    {
        if !self.halt && self.length_counter != 0 {
            self.length_counter = self.length_counter - 1;
        }
    }

    pub fn volume(&self) -> (r: u8)
        requires
            self.wf(),
        ensures
            r == self.volume_spec(),
            r < 16,
    {
        if self.shift & 1 == 1 || self.length_counter == 0 {
            return 0;
        }
        if self.constant_volume {
            self.envelope_period
        } else {
            self.decay_level
        }
    }
}

/// After a write of `to` to $400C, a noise channel with a running length
/// counter and shift-register bit 0 clear outputs the low four bits of `to`
/// when bit 4 of `to` (constant volume) is set and the envelope's decay level
/// when it is clear; otherwise it outputs 0.
pub proof fn lemma_noise_level_after_write(n: APUNoise, to: u8)
    ensures
        ({
            let q = n.envelope_written(to);
            let sounding = n.shift & 1 != 1 && n.length_counter != 0;
            &&& sounding ==> q.volume_spec() == (if to & 0x10 != 0 { to & 0x0F } else { n.decay_level })
            &&& !sounding ==> q.volume_spec() == 0
        }),
{
}

/// The noise shift register never reaches the all-zero state, from which it
/// could not recover: every tick keeps it a nonzero 15-bit value.
pub proof fn lemma_noise_shift_never_zero(n: APUNoise)
    requires
        n.wf(),
    ensures
        n.ticked().wf(),
        n.ticked().shift != 0,
{
    let s = n.shift;
    let m = n.mode;
    let fb = n.feedback();
    assert(0 < (if fb { (s >> 1u16) | 0x4000 } else { (s >> 1u16) & 0xBFFF }) < 0x8000) by (bit_vector)
        requires
            0 < s < 0x8000,
            fb == ((s & 1 == 1) != (if m { (s >> 6u16) & 1 == 1 } else { (s >> 1u16) & 1 == 1 }));
}

} // verus!
