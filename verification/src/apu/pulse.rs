use vstd::prelude::*;
use crate::apu::LENGTH_TABLE;

verus! {

/// Waveform of each duty setting over the eight sequencer steps.
pub const DUTY_CYCLE_SEQUENCES: [[bool; 8]; 4] = [
    [false, true, false, false, false, false, false, false],
    [false, true, true, false, false, false, false, false],
    [false, true, true, true, true, false, false, false],
    [true, false, false, true, true, true, true, true],
];

/// One of the two square-wave channels of the APU.
#[derive(Clone, Copy)]
pub struct APUPulse {
    pub duty_cycle: u8,
    pub sequence_step: u8,
    pub envelope_period: u8,
    pub sweep_enable: bool,
    pub divide_period: u8,
    pub sweep_negate: bool,
    pub shift_count: u8,
    pub sweep_divider: u8,
    pub sweep_reload: bool,
    pub halt: bool,
    pub constant_vol: bool,
    pub timer_reset: u16,
    pub timer: u16,
    pub length_counter: u8,
    pub envelope_start: bool,
    pub decay_divider: u8,
    pub decay_level: u8,
    pub is_2nd: bool,
}

impl APUPulse {
    /// The ranges every register of the channel stays within.
    pub open spec fn wf(self) -> bool {
        &&& self.duty_cycle < 4
        &&& self.sequence_step < 8
        &&& self.envelope_period < 16
        &&& self.divide_period < 8
        &&& self.shift_count < 8
        &&& self.sweep_divider < 8
        &&& self.timer_reset <= 0x7FF
        &&& self.timer <= 0x7FF
        &&& self.decay_divider < 16
        &&& self.decay_level < 16
    }

    /// The period the sweep unit would move the channel to.
    pub open spec fn target_period_spec(self) -> int {
        let delta = (self.timer_reset >> self.shift_count) as int;
        if self.sweep_negate {
            if self.is_2nd {
                self.timer_reset - delta
            } else if self.timer_reset - delta >= 1 {
                self.timer_reset - delta - 1
            } else {
                0
            }
        } else {
            self.timer_reset + delta
        }
    }

    /// The channel is muted by the sweep unit or by its length counter.
    pub open spec fn silent(self) -> bool {
        self.target_period_spec() > 0x07FF || self.length_counter == 0 || self.timer_reset < 8
    }

    pub open spec fn misc_written(self, to: u8) -> Self {
        APUPulse {
            envelope_period: to & 0x0F,
            constant_vol: to & 0x10 != 0,
            halt: to & 0x20 != 0,
            duty_cycle: to >> 6u8,
            ..self
        }
    }

    pub open spec fn sweep_written(self, to: u8) -> Self {
        APUPulse {
            shift_count: to & 0x07,
            sweep_negate: to & 0x08 != 0,
            divide_period: (to >> 4u8) & 0x07,
            sweep_enable: to & 0x80 != 0,
            sweep_reload: true,
            ..self
        }
    }

    pub open spec fn timer_lo_written(self, to: u8) -> Self {
        APUPulse { timer_reset: (self.timer_reset & 0xFF00) | (to as u16), ..self }
    }

    pub open spec fn timer_hi_written(self, to: u8, lc_enabled: bool) -> Self {
        APUPulse {
            timer_reset: (self.timer_reset & 0xF8FF) | (((to & 0x07) as u16) << 8u16),
            length_counter: if lc_enabled { LENGTH_TABLE[(to >> 3u8) as int] } else { self.length_counter },
            sequence_step: 0,
            envelope_start: true,
            ..self
        }
    }

    pub open spec fn ticked(self) -> Self {
        if self.timer == 0 {
            APUPulse { timer: self.timer_reset, sequence_step: ((self.sequence_step + 1) % 8) as u8, ..self }
        } else {
            APUPulse { timer: (self.timer - 1) as u16, ..self }
        }
    }

    pub open spec fn envelope_ticked(self) -> Self {
        if self.envelope_start {
            APUPulse { envelope_start: false, decay_level: 15, decay_divider: self.envelope_period, ..self }
        } else if self.decay_divider == 0 {
            APUPulse {
                decay_divider: self.envelope_period,
                decay_level: if self.decay_level > 0 {
                    (self.decay_level - 1) as u8
                } else if self.halt {
                    15
                } else {
                    self.decay_level
                },
                ..self
            }
        } else {
            APUPulse { decay_divider: (self.decay_divider - 1) as u8, ..self }
        }
    }

    pub open spec fn sweep_ticked(self) -> Self {
        let target = self.target_period_spec();
        let new_reset = if self.sweep_divider == 0 && self.sweep_enable && self.shift_count > 0
            && self.timer_reset >= 8 && target <= 0x07FF {
            target as u16
        } else {
            self.timer_reset
        };
        if self.sweep_divider == 0 || self.sweep_reload {
            APUPulse { timer_reset: new_reset, sweep_divider: self.divide_period, sweep_reload: false, ..self }
        } else {
            APUPulse { timer_reset: new_reset, sweep_divider: (self.sweep_divider - 1) as u8, ..self }
        }
    }

    pub open spec fn length_ticked(self) -> Self {
        if !self.halt && self.length_counter != 0 {
            APUPulse { length_counter: (self.length_counter - 1) as u8, ..self }
        } else {
            self
        }
    }

    /// The channel's current output level, 0 to 15.
    pub open spec fn volume_spec(self) -> u8 {
        if self.silent() || !DUTY_CYCLE_SEQUENCES[self.duty_cycle as int][self.sequence_step as int] {
            0
        } else if self.constant_vol {
            self.envelope_period
        } else {
            self.decay_level
        }
    }

    pub open spec fn new_spec(is_2nd: bool) -> APUPulse {
        APUPulse {
            duty_cycle: 0,
            sequence_step: 0,
            envelope_period: 0,
            sweep_enable: false,
            divide_period: 0,
            sweep_negate: false,
            shift_count: 0,
            sweep_divider: 0,
            sweep_reload: false,
            halt: false,
            constant_vol: false,
            timer_reset: 0,
            timer: 0,
            length_counter: 0,
            envelope_start: false,
            decay_divider: 0,
            decay_level: 0,
            is_2nd,
        }
    }

    pub fn new(is_2nd: bool) -> (r: APUPulse)
        ensures
            r.wf(),
            r == APUPulse::new_spec(is_2nd),
    {
        APUPulse {
            duty_cycle: 0,
            sequence_step: 0,
            envelope_period: 0,
            sweep_enable: false,
            divide_period: 0,
            sweep_negate: false,
            shift_count: 0,
            sweep_divider: 0,
            sweep_reload: false,
            halt: false,
            constant_vol: false,
            timer_reset: 0,
            timer: 0,
            length_counter: 0,
            envelope_start: false,
            decay_divider: 0,
            decay_level: 0,
            is_2nd,
        }
    }

    fn is_silent(&self) -> (r: bool)
        requires
            self.wf(),
        ensures
            r == self.silent(),
    {
        self.target_period() > 0x07FF || self.length_counter == 0 || self.timer_reset < 8
    }

    fn target_period(&self) -> (r: u16)
        requires
            self.wf(),
        ensures
            r == self.target_period_spec(),
    {
        let delta = self.timer_reset >> self.shift_count;
        let tr = self.timer_reset;
        let sc = self.shift_count;
        assert(delta <= tr) by (bit_vector)
            requires delta == tr >> sc;
        if self.sweep_negate {
            if self.is_2nd {
                self.timer_reset.saturating_sub(delta)
            } else {
                self.timer_reset.saturating_sub(delta).saturating_sub(1)
            }
        } else {
            self.timer_reset + delta
        }
    }

    pub fn write_misc(&mut self, to: u8)
        requires
            old(self).wf(),
        ensures
            *final(self) == old(self).misc_written(to),
            final(self).wf(),
    {
        self.envelope_period = to & 0x0F;
        self.constant_vol = to & 0x10 != 0;
        self.halt = to & 0x20 != 0;
        self.duty_cycle = to >> 6u8;
        proof {
            crate::bit_utils::lemma_byte_fields(to);
        }
    }

    pub fn write_sweep(&mut self, to: u8)
        requires
            old(self).wf(),
        ensures
            *final(self) == old(self).sweep_written(to),
            final(self).wf(),
    {
        self.shift_count = to & 0x07;
        self.sweep_negate = to & 0x08 != 0;
        self.divide_period = (to >> 4u8) & 0x07;
        self.sweep_enable = to & 0x80 != 0;
        self.sweep_reload = true;
        proof {
            crate::bit_utils::lemma_byte_fields(to);
        }
    }

    pub fn write_timer_lo(&mut self, to: u8)
        requires
            old(self).wf(),
        ensures
            *final(self) == old(self).timer_lo_written(to),
            final(self).wf(),
    {
        let tr = self.timer_reset;
        self.timer_reset = (tr & 0xFF00) | (to as u16);
        proof {
            crate::apu::lemma_timer_fields(tr, to);
        }
    }

    pub fn write_timer_hi(&mut self, to: u8, lc_enabled: bool)
        requires
            old(self).wf(),
        ensures
            *final(self) == old(self).timer_hi_written(to, lc_enabled),
            final(self).wf(),
    {
        let tr = self.timer_reset;
        self.timer_reset = (tr & 0xF8FF) | (((to & 0x07) as u16) << 8u16);
        proof {
            crate::apu::lemma_timer_fields(tr, to);
        }
        if lc_enabled {
            proof {
                crate::bit_utils::lemma_byte_fields(to);
            }
            self.length_counter = LENGTH_TABLE[(to >> 3u8) as usize];
        }
        self.sequence_step = 0;
        self.envelope_start = true;
    }

    pub fn tick(&mut self)
        requires
            old(self).wf(),
        ensures
            *final(self) == old(self).ticked(),
            final(self).wf(),
    {
        if self.timer == 0 {
            self.timer = self.timer_reset;
            self.sequence_step = (self.sequence_step + 1) % 8;
        } else {
            self.timer = self.timer - 1;
        }
    }

    pub fn tick_envelope(&mut self)
        requires
            old(self).wf(),
        ensures
            *final(self) == old(self).envelope_ticked(),
            final(self).wf(),
    {
        if self.envelope_start {
            self.envelope_start = false;
            self.decay_level = 15;
            self.decay_divider = self.envelope_period;
            return;
        }
        if self.decay_divider == 0 {
            self.decay_divider = self.envelope_period;
            if self.decay_level > 0 {
                self.decay_level = self.decay_level - 1;
            } else if self.halt {
                self.decay_level = 15;
            }
        } else {
            self.decay_divider = self.decay_divider - 1;
        }
    }

    pub fn tick_sweep(&mut self)
        requires
            old(self).wf(),
        ensures
            *final(self) == old(self).sweep_ticked(),
            final(self).wf(),
    {
        let target_period = self.target_period();
        if self.sweep_divider == 0 && self.sweep_enable && self.shift_count > 0 && self.timer_reset >= 8
            && target_period <= 0x07FF {
            self.timer_reset = target_period;
        }
        if self.sweep_divider == 0 || self.sweep_reload {
            self.sweep_divider = self.divide_period;
            self.sweep_reload = false;
        } else {
            self.sweep_divider = self.sweep_divider - 1;
        }
    }

    // Only runs if the APU length counter flag is not clear.
    pub fn tick_length_counter(&mut self)
        requires
            old(self).wf(),
        ensures
            *final(self) == old(self).length_ticked(),
            final(self).wf(),
    {
        if !self.halt && self.length_counter != 0 {
            self.length_counter = self.length_counter - 1;
        }
    }

    pub fn volume(&self) -> (r: u8)
        requires
            self.wf(),
        ensures
            r == self.volume_spec(),
            r < 16,
    {
        if self.is_silent() || !DUTY_CYCLE_SEQUENCES[self.duty_cycle as usize][self.sequence_step as usize] {
            return 0;
        }
        if self.constant_vol {
            self.envelope_period
        } else {
            self.decay_level
        }
    }
}

/// After a write of `to` to the channel's first register ($4000 or $4004), a
/// channel that is not muted and whose duty step is high outputs the low four
/// bits of `to` when bit 4 of `to` (constant volume) is set, and the envelope's
/// decay level when it is clear; otherwise it outputs 0.
pub proof fn lemma_pulse_level_after_write(p: APUPulse, to: u8)
    requires
        p.sequence_step < 8,
    ensures
        ({
            let q = p.misc_written(to);
            let high = DUTY_CYCLE_SEQUENCES[(to >> 6u8) as int][p.sequence_step as int];
            &&& (!q.silent() && high) ==> q.volume_spec() == (if to & 0x10 != 0 { to & 0x0F } else { p.decay_level })
            &&& (q.silent() || !high) ==> q.volume_spec() == 0
        }),
{
}

/// Only a write to the first register changes what the level is taken from:
/// the other register writes, the timer, the envelope, the sweep and the
/// length counter keep the constant-volume bit and the volume field.
pub proof fn lemma_pulse_level_source_kept(p: APUPulse, to: u8, lc_enabled: bool)
    ensures
        ({
            let keeps = |q: APUPulse| q.constant_vol == p.constant_vol && q.envelope_period == p.envelope_period;
            &&& keeps(p.sweep_written(to))
            &&& keeps(p.timer_lo_written(to))
            &&& keeps(p.timer_hi_written(to, lc_enabled))
            &&& keeps(p.ticked())
            &&& keeps(p.envelope_ticked())
            &&& keeps(p.sweep_ticked())
            &&& keeps(p.length_ticked())
        }),
{
}

} // verus!
