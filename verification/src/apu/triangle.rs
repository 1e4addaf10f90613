use vstd::prelude::*;
use crate::apu::LENGTH_TABLE;

verus! {

/// The triangle channel's 32-step output sequence.
pub const SEQUENCE: [u8; 32] = [
    15, 14, 13, 12, 11, 10, 9, 8, 7, 6, 5, 4, 3, 2, 1, 0,
    0, 1, 2, 3, 4, 5, 6, 7, 8, 9, 10, 11, 12, 13, 14, 15,
];

/// The triangle-wave channel of the APU.
#[derive(Clone, Copy)]
pub struct APUTriangle {
    pub linear_counter: u8,
    pub linear_reset: u8,
    pub linear_reload: bool,
    pub sequence_step: u8,
    pub control: bool,
    pub timer_reset: u16,
    pub timer: u16,
    pub length_counter: u8,
}

impl APUTriangle {
    pub open spec fn wf(self) -> bool {
        &&& self.sequence_step < 32
        &&& self.timer_reset <= 0x7FF
        &&& self.timer <= 0x7FF
        &&& self.linear_reset < 128
        &&& self.linear_counter < 128
    }

    pub open spec fn setup_written(self, to: u8) -> Self {
        APUTriangle { linear_reset: to & 0x7F, control: to & 0x80 != 0, ..self }
    }

    pub open spec fn timer_lo_written(self, to: u8) -> Self {
        APUTriangle { timer_reset: (self.timer_reset & 0xFF00) | (to as u16), ..self }
    }

    pub open spec fn timer_hi_written(self, to: u8, lc_enabled: bool) -> Self {
        APUTriangle {
            timer_reset: (self.timer_reset & 0xF8FF) | (((to & 0x07) as u16) << 8u16),
            length_counter: if lc_enabled { LENGTH_TABLE[(to >> 3u8) as int] } else { self.length_counter },
            linear_reload: true,
            ..self
        }
    }

    pub open spec fn ticked(self) -> Self {
        if self.timer == 0 {
            APUTriangle {
                timer: self.timer_reset,
                sequence_step: if self.linear_counter != 0 && self.length_counter != 0 {
                    ((self.sequence_step + 1) % 32) as u8
                } else {
                    self.sequence_step
                },
                ..self
            }
        } else {
            APUTriangle { timer: (self.timer - 1) as u16, ..self }
        }
    }

    pub open spec fn linear_ticked(self) -> Self {
        APUTriangle {
            linear_counter: if self.linear_reload {
                self.linear_reset
            } else if self.linear_counter != 0 {
                (self.linear_counter - 1) as u8
            } else {
                0
            },
            linear_reload: self.linear_reload && self.control,
            ..self
        }
    }

    pub open spec fn length_ticked(self) -> Self {
        if !self.control && self.length_counter != 0 {
            APUTriangle { length_counter: (self.length_counter - 1) as u8, ..self }
        } else {
            self
        }
    }

    /// The output level: a ramp from 15 down to 0 and back up to 15.
    pub open spec fn volume_spec(self) -> u8 {
        if self.sequence_step < 16 { (15 - self.sequence_step) as u8 } else { (self.sequence_step - 16) as u8 }
    }

    pub fn new() -> (r: APUTriangle)
        ensures
            r.wf(),
            r == (APUTriangle {
                linear_counter: 0,
                linear_reset: 0,
                linear_reload: false,
                sequence_step: 0,
                control: false,
                timer_reset: 0,
                timer: 0,
                length_counter: 0,
            }),
    {
        APUTriangle {
            linear_counter: 0,
            linear_reset: 0,
            linear_reload: false,
            sequence_step: 0,
            control: false,
            timer_reset: 0,
            timer: 0,
            length_counter: 0,
        }
    }

    pub fn write_setup(&mut self, to: u8)
        requires
            old(self).wf(),
        ensures
            *final(self) == old(self).setup_written(to),
            final(self).wf(),
    {
        self.linear_reset = to & 0x7F;
        self.control = to & 0x80 != 0;
        proof {
            crate::bit_utils::lemma_byte_fields(to);
        }
    }

    pub fn write_timer_lo(&mut self, to: u8)
        requires
            old(self).wf(),
        ensures
            *final(self) == old(self).timer_lo_written(to),
            final(self).wf(),
    {
        let tr = self.timer_reset;
        self.timer_reset = (tr & 0xFF00) | (to as u16);
        proof {
            crate::apu::lemma_timer_fields(tr, to);
        }
    }

    pub fn write_timer_hi(&mut self, to: u8, lc_enabled: bool)
        requires
            old(self).wf(),
        ensures
            *final(self) == old(self).timer_hi_written(to, lc_enabled),
            final(self).wf(),
    {
        let tr = self.timer_reset;
        self.timer_reset = (tr & 0xF8FF) | (((to & 0x07) as u16) << 8u16);
        proof {
            crate::apu::lemma_timer_fields(tr, to);
        }
        if lc_enabled {
            proof {
                crate::bit_utils::lemma_byte_fields(to);
            }
            self.length_counter = LENGTH_TABLE[(to >> 3u8) as usize];
        }
        self.linear_reload = true;
    }

    pub fn tick(&mut self)
        requires
            old(self).wf(),
        ensures
            *final(self) == old(self).ticked(),
            final(self).wf(),
    {
        if self.timer == 0 {
            self.timer = self.timer_reset;
            if self.linear_counter != 0 && self.length_counter != 0 {
                self.sequence_step = (self.sequence_step + 1) % 32;
            }
        } else {
            self.timer = self.timer - 1;
        }
    }

    pub fn tick_linear_counter(&mut self)
        requires
            old(self).wf(),
        ensures
            *final(self) == old(self).linear_ticked(),
            final(self).wf(),
    {
        if self.linear_reload {
            self.linear_counter = self.linear_reset;
        } else if self.linear_counter != 0 {
            self.linear_counter = self.linear_counter - 1;
        }
        if !self.control {
            self.linear_reload = false;
        }
    }

    pub fn tick_length_counter(&mut self)
        requires
            old(self).wf(),
        ensures
            *final(self) == old(self).length_ticked(),
            final(self).wf(),
    {
        if !self.control && self.length_counter != 0 {
            self.length_counter = self.length_counter - 1;
        }
    }

    pub fn volume(&self) -> (r: u8)
        requires
            self.wf(),
        ensures
            r == self.volume_spec(),
            r < 16,
    {
        SEQUENCE[self.sequence_step as usize]
    }
}

} // verus!
