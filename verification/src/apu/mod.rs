use vstd::prelude::*;
use crate::bit_utils::bit_of;
use crate::cartridge::Cartridge;
use crate::mappers::MapperView;

pub mod pulse;
pub mod triangle;
pub mod noise;
pub mod dmc;

use pulse::APUPulse;
use triangle::APUTriangle;
use noise::APUNoise;
use dmc::APUDMC;

verus! {

/// The timer period stays within 11 bits when its low byte or its high
/// three bits are written.
pub(crate) proof fn lemma_timer_fields(tr: u16, to: u8)
    by (bit_vector)
    requires
        tr <= 0x7FF,
    ensures
        (tr & 0xFF00) | (to as u16) <= 0x7FF,
        (tr & 0xF8FF) | (((to & 0x07) as u16) << 8u16) <= 0x7FF,
{
}

/// Length-counter load values, indexed by the top five bits of a length write.
pub const LENGTH_TABLE: [u8; 32] = [
    10, 254, 20, 2, 40, 4, 80, 6, 160, 8, 60, 10, 14, 12, 26, 14,
    12, 16, 24, 18, 48, 20, 96, 22, 192, 24, 72, 26, 16, 28, 32, 30,
];

/// Bits of the channel-enable register ($4015).
#[derive(Copy, Clone, Debug)]
pub enum APUStatus {
    Pulse1Enabled,
    Pulse2Enabled,
    TriangleEnabled,
    NoiseEnabled,
    DMCEnabled,
}

/// Bit position of a channel-enable flag.
pub open spec fn status_bit(s: APUStatus) -> u8 {
    match s {
        APUStatus::Pulse1Enabled => 0,
        APUStatus::Pulse2Enabled => 1,
        APUStatus::TriangleEnabled => 2,
        APUStatus::NoiseEnabled => 3,
        APUStatus::DMCEnabled => 4,
    }
}

/// The audio processing unit: five channels and the frame sequencer that
/// clocks their envelopes, sweeps and length counters. Mixing the channel
/// levels into a sample is left to the caller.
pub struct APU {
    pub pulse_1: APUPulse,
    pub pulse_2: APUPulse,
    pub triangle: APUTriangle,
    pub noise: APUNoise,
    pub dmc: APUDMC,
    pub status: u8,
    pub mode: bool,
    pub irq: bool,
    pub irq_pending: bool,
    pub step_num: usize,
}

impl APU {
    /// Channels within range; the frame sequencer below the end of its sequence.
    pub open spec fn wf(self) -> bool {
        &&& self.pulse_1.wf()
        &&& self.pulse_2.wf()
        &&& self.triangle.wf()
        &&& self.noise.wf()
        &&& self.dmc.wf()
        &&& if self.mode { self.step_num <= 18641 } else { self.step_num <= 14915 }
    }

    pub open spec fn enabled(self, s: APUStatus) -> bool {
        (self.status >> status_bit(s)) & 1 == 1
    }

    /// The status byte read from $4015.
    pub open spec fn status_value(self) -> u8 {
        (bit_of(self.pulse_1.length_counter > 0) + 2 * bit_of(self.pulse_2.length_counter > 0) + 4 * bit_of(
            self.triangle.length_counter > 0,
        ) + 8 * bit_of(self.noise.length_counter > 0) + 16 * bit_of(self.dmc.remaining_samples != 0) + 64 * bit_of(
            self.irq_pending,
        ) + 128 * bit_of(self.dmc.irq_pending)) as u8
    }

    pub open spec fn read_value(self, addr: u16) -> u8 {
        if addr == 0x4015 { self.status_value() } else { 0 }
    }

    pub open spec fn after_read(self, addr: u16) -> Self {
        if addr == 0x4015 { APU { irq_pending: false, ..self } } else { self }
    }

    pub open spec fn quarter_ticked(self) -> Self {
        APU {
            pulse_1: self.pulse_1.envelope_ticked(),
            pulse_2: self.pulse_2.envelope_ticked(),
            noise: self.noise.envelope_ticked(),
            triangle: self.triangle.linear_ticked(),
            ..self
        }
    }

    pub open spec fn half_ticked(self) -> Self {
        let q = self.quarter_ticked();
        APU {
            pulse_1: q.pulse_1.length_ticked().sweep_ticked(),
            pulse_2: q.pulse_2.length_ticked().sweep_ticked(),
            noise: q.noise.length_ticked(),
            triangle: q.triangle.length_ticked(),
            ..q
        }
    }

    /// Effect of a write to a pulse-channel register ($4000-$4007).
    pub open spec fn pulse_written(self, addr: u16, to: u8) -> Self {
        if addr == 0x4000 {
            APU { pulse_1: self.pulse_1.misc_written(to), ..self }
        } else if addr == 0x4001 {
            APU { pulse_1: self.pulse_1.sweep_written(to), ..self }
        } else if addr == 0x4002 {
            APU { pulse_1: self.pulse_1.timer_lo_written(to), ..self }
        } else if addr == 0x4003 {
            APU { pulse_1: self.pulse_1.timer_hi_written(to, self.enabled(APUStatus::Pulse1Enabled)), ..self }
        } else if addr == 0x4004 {
            APU { pulse_2: self.pulse_2.misc_written(to), ..self }
        } else if addr == 0x4005 {
            APU { pulse_2: self.pulse_2.sweep_written(to), ..self }
        } else if addr == 0x4006 {
            APU { pulse_2: self.pulse_2.timer_lo_written(to), ..self }
        } else {
            APU { pulse_2: self.pulse_2.timer_hi_written(to, self.enabled(APUStatus::Pulse2Enabled)), ..self }
        }
    }

    /// Effect of a write to a triangle, noise or sample register ($4008-$4013).
    pub open spec fn tnd_written(self, addr: u16, to: u8) -> Self {
        if addr == 0x4008 {
            APU { triangle: self.triangle.setup_written(to), ..self }
        } else if addr == 0x400A {
            APU { triangle: self.triangle.timer_lo_written(to), ..self }
        } else if addr == 0x400B {
            APU { triangle: self.triangle.timer_hi_written(to, self.enabled(APUStatus::TriangleEnabled)), ..self }
        } else if addr == 0x400C {
            APU { noise: self.noise.envelope_written(to), ..self }
        } else if addr == 0x400E {
            APU { noise: self.noise.period_written(to), ..self }
        } else if addr == 0x400F {
            APU { noise: self.noise.length_written(to, self.enabled(APUStatus::NoiseEnabled)), ..self }
        } else if addr == 0x4010 {
            APU { dmc: self.dmc.flags_written(to), ..self }
        } else if addr == 0x4011 {
            APU { dmc: self.dmc.load_written(to), ..self }
        } else if addr == 0x4012 {
            APU { dmc: self.dmc.address_written(to), ..self }
        } else if addr == 0x4013 {
            APU { dmc: self.dmc.length_written(to), ..self }
        } else {
            self
        }
    }

    /// Effect of a write to the channel-enable register ($4015): disabled
    /// channels have their length counters (or remaining sample) cleared.
    pub open spec fn status_written(self, to: u8) -> Self {
        let s = APU { status: to & 0x1F, ..self };
        APU {
            pulse_1: if !s.enabled(APUStatus::Pulse1Enabled) { APUPulse { length_counter: 0, ..self.pulse_1 } } else { self.pulse_1 },
            pulse_2: if !s.enabled(APUStatus::Pulse2Enabled) { APUPulse { length_counter: 0, ..self.pulse_2 } } else { self.pulse_2 },
            triangle: if !s.enabled(APUStatus::TriangleEnabled) {
                APUTriangle { length_counter: 0, ..self.triangle }
            } else {
                self.triangle
            },
            noise: if !s.enabled(APUStatus::NoiseEnabled) { APUNoise { length_counter: 0, ..self.noise } } else { self.noise },
            dmc: APUDMC {
                remaining_samples: if !s.enabled(APUStatus::DMCEnabled) { 0 } else { self.dmc.remaining_samples },
                irq_pending: false,
                ..self.dmc
            },
            ..s
        }
    }

    /// Effect of a write to the frame-counter register ($4017).
    pub open spec fn frame_counter_written(self, to: u8) -> Self {
        let irq = to & 0x40 == 0;
        let s = APU {
            irq,
            mode: to & 0x80 != 0,
            irq_pending: if !irq { false } else { self.irq_pending },
            step_num: 0,
            ..self
        };
        if s.mode { s.half_ticked() } else { s }
    }

    /// Effect of a CPU write to an APU register.
    pub open spec fn written(self, addr: u16, to: u8) -> Self {
        if 0x4000 <= addr <= 0x4007 {
            self.pulse_written(addr, to)
        } else if 0x4008 <= addr <= 0x4013 {
            self.tnd_written(addr, to)
        } else if addr == 0x4015 {
            self.status_written(to)
        } else if addr == 0x4017 {
            self.frame_counter_written(to)
        } else {
            self
        }
    }

    /// One CPU cycle: the triangle and sample channels every cycle, the other
    /// channels every second one, and the frame sequencer's quarter and half
    /// frames at fixed steps (with the frame interrupt in four-step mode).
    pub open spec fn ticked(self, byte: u8) -> Self {
        let a = APU { triangle: self.triangle.ticked(), dmc: self.dmc.ticked(byte), ..self };
        let b = if self.step_num % 2 == 0 {
            APU { pulse_1: a.pulse_1.ticked(), pulse_2: a.pulse_2.ticked(), noise: a.noise.ticked(), ..a }
        } else {
            a
        };
        let n = self.step_num;
        let c = if n == 3729 || n == 11186 {
            b.quarter_ticked()
        } else if n == 7457 {
            b.half_ticked()
        } else if self.mode && n == 18641 {
            APU { step_num: 0, ..b.half_ticked() }
        } else if !self.mode && n == 14915 {
            APU { irq_pending: b.irq, step_num: 0, ..b.half_ticked() }
        } else {
            b
        };
        APU { step_num: (c.step_num + 1) as usize, ..c }
    }

    pub fn new() -> (r: APU)
        ensures
            r.wf(),
            r.pulse_1 == APUPulse::new_spec(false),
            r.pulse_2 == APUPulse::new_spec(true),
            r.status == 0b11111,
            !r.mode && !r.irq && !r.irq_pending && r.step_num == 0,
            r.dmc.remaining_samples == 0 && r.dmc.output_level == 0,
            r.noise.shift == 1,
    {
        APU {
            pulse_1: APUPulse::new(false),
            pulse_2: APUPulse::new(true),
            triangle: APUTriangle::new(),
            noise: APUNoise::new(),
            dmc: APUDMC::new(),
            status: 0b11111,
            mode: false,
            irq: false,
            irq_pending: false,
            step_num: 0,
        }
    }

    pub fn read(&mut self, addr: u16) -> (r: u8)
        ensures
            r == old(self).read_value(addr),
            *final(self) == old(self).after_read(addr),
    {
        if addr == 0x4015 {
            let p1: u8 = if self.pulse_1.length_counter > 0 { 1 } else { 0 };
            let p2: u8 = if self.pulse_2.length_counter > 0 { 1 } else { 0 };
            let t: u8 = if self.triangle.length_counter > 0 { 1 } else { 0 };
            let n: u8 = if self.noise.length_counter > 0 { 1 } else { 0 };
            let d: u8 = if self.dmc.remaining_samples != 0 { 1 } else { 0 };
            let f: u8 = if self.irq_pending { 1 } else { 0 };
            let di: u8 = if self.dmc.irq_pending { 1 } else { 0 };
            let value = p1 | (p2 << 1u8) | (t << 2u8) | (n << 3u8) | (d << 4u8) | (f << 6u8) | (di << 7u8);
            assert(value == (p1 + 2 * p2 + 4 * t + 8 * n + 16 * d + 64 * f + 128 * di) as u8) by (bit_vector)
                requires
                    p1 <= 1, p2 <= 1, t <= 1, n <= 1, d <= 1, f <= 1, di <= 1,
                    value == p1 | (p2 << 1u8) | (t << 2u8) | (n << 3u8) | (d << 4u8) | (f << 6u8) | (di << 7u8);
            self.irq_pending = false;
            value
        } else {
            0
        }
    }

    fn status_enabled(&self, s: APUStatus) -> (r: bool)
        ensures
            r == self.enabled(s),
    {
        let b: u8 = match s {
            APUStatus::Pulse1Enabled => 0,
            APUStatus::Pulse2Enabled => 1,
            APUStatus::TriangleEnabled => 2,
            APUStatus::NoiseEnabled => 3,
            APUStatus::DMCEnabled => 4,
        };
        (self.status >> b) & 1 == 1
    }

    pub fn write(&mut self, addr: u16, to: u8)
        requires
            old(self).wf(),
        ensures
            *final(self) == old(self).written(addr, to),
            final(self).wf(),
    {
        if 0x4000 <= addr && addr <= 0x4007 {
            self.write_pulse(addr, to);
        } else if 0x4008 <= addr && addr <= 0x4013 {
            self.write_tnd(addr, to);
        } else if addr == 0x4015 {
            self.write_status(to);
        } else if addr == 0x4017 {
            self.write_frame_counter(to);
        }
    }

    fn write_pulse(&mut self, addr: u16, to: u8)
        requires
            old(self).wf(),
        ensures
            *final(self) == old(self).pulse_written(addr, to),
            final(self).wf(),
    {
        if addr == 0x4000 {
            self.pulse_1.write_misc(to);
        } else if addr == 0x4001 {
            self.pulse_1.write_sweep(to);
        } else if addr == 0x4002 {
            self.pulse_1.write_timer_lo(to);
        } else if addr == 0x4003 {
            let en = self.status_enabled(APUStatus::Pulse1Enabled);
            self.pulse_1.write_timer_hi(to, en);
        } else if addr == 0x4004 {
            self.pulse_2.write_misc(to);
        } else if addr == 0x4005 {
            self.pulse_2.write_sweep(to);
        } else if addr == 0x4006 {
            self.pulse_2.write_timer_lo(to);
        } else {
            let en = self.status_enabled(APUStatus::Pulse2Enabled);
            self.pulse_2.write_timer_hi(to, en);
        }
    }

    fn write_tnd(&mut self, addr: u16, to: u8)
        requires
            old(self).wf(),
        ensures
            *final(self) == old(self).tnd_written(addr, to),
            final(self).wf(),
    {
        if addr == 0x4008 {
            self.triangle.write_setup(to);
        } else if addr == 0x400A {
            self.triangle.write_timer_lo(to);
        } else if addr == 0x400B {
            let en = self.status_enabled(APUStatus::TriangleEnabled);
            self.triangle.write_timer_hi(to, en);
        } else if addr == 0x400C {
            self.noise.write_envelope(to);
        } else if addr == 0x400E {
            self.noise.write_period(to);
        } else if addr == 0x400F {
            let en = self.status_enabled(APUStatus::NoiseEnabled);
            self.noise.write_length_counter(to, en);
        } else if addr == 0x4010 {
            self.dmc.write_flags_and_rate(to);
        } else if addr == 0x4011 {
            self.dmc.write_load(to);
        } else if addr == 0x4012 {
            self.dmc.write_sample_address(to);
        } else if addr == 0x4013 {
            self.dmc.write_sample_length(to);
        }
    }

    fn write_status(&mut self, to: u8)
        requires
            old(self).wf(),
        ensures
            *final(self) == old(self).status_written(to),
            final(self).wf(),
    {
        let ghost expected = old(self).status_written(to);
        self.status = to & 0x1F;
        let e1 = self.status_enabled(APUStatus::Pulse1Enabled);
        let e2 = self.status_enabled(APUStatus::Pulse2Enabled);
        let et = self.status_enabled(APUStatus::TriangleEnabled);
        let en = self.status_enabled(APUStatus::NoiseEnabled);
        let ed = self.status_enabled(APUStatus::DMCEnabled);
        if !e1 {
            self.pulse_1 = APUPulse { length_counter: 0, ..self.pulse_1 };
        }
        if !e2 {
            self.pulse_2 = APUPulse { length_counter: 0, ..self.pulse_2 };
        }
        if !et {
            self.triangle = APUTriangle { length_counter: 0, ..self.triangle };
        }
        if !en {
            self.noise = APUNoise { length_counter: 0, ..self.noise };
        }
        self.dmc = APUDMC { remaining_samples: if !ed { 0 } else { self.dmc.remaining_samples }, irq_pending: false, ..self.dmc };
        assert(self.pulse_1 == expected.pulse_1);
        assert(self.pulse_2 == expected.pulse_2);
        assert(self.triangle == expected.triangle);
        assert(self.noise == expected.noise);
        assert(self.dmc == expected.dmc);
    }

    fn write_frame_counter(&mut self, to: u8)
        requires
            old(self).wf(),
        ensures
            *final(self) == old(self).frame_counter_written(to),
            final(self).wf(),
    {
        self.irq = to & 0x40 == 0;
        self.mode = to & 0x80 != 0;
        if !self.irq {
            self.irq_pending = false;
        }
        self.step_num = 0;
        if self.mode {
            self.tick_half_frame();
        }
    }

    #[verifier::rlimit(60)]
    pub fn tick(&mut self, cart: &mut Cartridge)
        requires
            old(self).wf(),
            old(self).dmc.fetch_ok(old(cart)@),
        ensures
            *final(self) == old(self).ticked(old(self).dmc.fetched(old(cart)@)),
            final(cart)@ == old(cart)@,
            final(cart).name == old(cart).name,
            final(self).wf(),
    {
        self.triangle.tick();
        self.dmc.tick(cart);
        if self.step_num % 2 == 0 {
            self.pulse_1.tick();
            self.pulse_2.tick();
            self.noise.tick();
        }
        if self.mode {
            if self.step_num == 3729 {
                self.tick_quarter_frame();
            } else if self.step_num == 7457 {
                self.tick_half_frame();
            } else if self.step_num == 11186 {
                self.tick_quarter_frame();
            } else if self.step_num == 18641 {
                self.tick_half_frame();
                self.step_num = 0;
            }
        } else {
            if self.step_num == 3729 {
                self.tick_quarter_frame();
            } else if self.step_num == 7457 {
                self.tick_half_frame();
            } else if self.step_num == 11186 {
                self.tick_quarter_frame();
            } else if self.step_num == 14915 {
                self.tick_half_frame();
                self.irq_pending = self.irq;
                self.step_num = 0;
            }
        }
        self.step_num = self.step_num + 1;
    }

    fn tick_quarter_frame(&mut self)
        requires
            old(self).pulse_1.wf() && old(self).pulse_2.wf() && old(self).noise.wf() && old(self).triangle.wf(),
        ensures
            *final(self) == old(self).quarter_ticked(),
            final(self).pulse_1.wf() && final(self).pulse_2.wf() && final(self).noise.wf() && final(self).triangle.wf(),
    {
        self.pulse_1.tick_envelope();
        self.pulse_2.tick_envelope();
        self.noise.tick_envelope();
        self.triangle.tick_linear_counter();
    }

    fn tick_half_frame(&mut self)
        requires
            old(self).pulse_1.wf() && old(self).pulse_2.wf() && old(self).noise.wf() && old(self).triangle.wf(),
        ensures
            *final(self) == old(self).half_ticked(),
            final(self).pulse_1.wf() && final(self).pulse_2.wf() && final(self).noise.wf() && final(self).triangle.wf(),
    {
        self.tick_quarter_frame();
        self.pulse_1.tick_length_counter();
        self.pulse_2.tick_length_counter();
        self.noise.tick_length_counter();
        self.triangle.tick_length_counter();
        self.pulse_1.tick_sweep();
        self.pulse_2.tick_sweep();
    }

    /// The five channel levels, each 0 if the channel is disabled in the
    /// status register: pulse 1, pulse 2, triangle, noise, sample.
    pub fn levels(&self) -> (r: (u8, u8, u8, u8, u8))
        requires
            self.wf(),
        ensures
            r.0 == (if self.enabled(APUStatus::Pulse1Enabled) { self.pulse_1.volume_spec() } else { 0 }),
            r.1 == (if self.enabled(APUStatus::Pulse2Enabled) { self.pulse_2.volume_spec() } else { 0 }),
            r.2 == (if self.enabled(APUStatus::TriangleEnabled) { self.triangle.volume_spec() } else { 0 }),
            r.3 == (if self.enabled(APUStatus::NoiseEnabled) { self.noise.volume_spec() } else { 0 }),
            r.4 == (if self.enabled(APUStatus::DMCEnabled) { self.dmc.output_level } else { 0 }),
            r.0 < 16 && r.1 < 16 && r.2 < 16 && r.3 < 16 && r.4 < 128,
    {
        let p1 = if self.status_enabled(APUStatus::Pulse1Enabled) { self.pulse_1.volume() } else { 0 };
        let p2 = if self.status_enabled(APUStatus::Pulse2Enabled) { self.pulse_2.volume() } else { 0 };
        let t = if self.status_enabled(APUStatus::TriangleEnabled) { self.triangle.volume() } else { 0 };
        let n = if self.status_enabled(APUStatus::NoiseEnabled) { self.noise.volume() } else { 0 };
        let d = if self.status_enabled(APUStatus::DMCEnabled) { self.dmc.volume() } else { 0 };
        (p1, p2, t, n, d)
    }

    pub fn signaling_irq(&self) -> (r: bool)
        ensures
            r == self.irq_pending,
    {
        self.irq_pending
    }

    pub fn disable_irq_until_next(&mut self)
        ensures
            *final(self) == (APU { irq_pending: false, ..*old(self) }),
    {
        self.irq_pending = false;
    }
}

} // verus!
