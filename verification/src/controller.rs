use vstd::prelude::*;
use crate::bit_utils::bit_of;

verus! {

/// A standard NES joypad: eight buttons and the serial shift register that
/// reports them to the console.
pub struct Controller {
    pub a: bool,
    pub b: bool,
    pub left: bool,
    pub right: bool,
    pub up: bool,
    pub down: bool,
    pub start: bool,
    pub select: bool,
    pub output: u8,
    pub latch: bool,
}

impl Controller {
    /// The button held at serial position `i` (0 is reported first):
    /// A, B, Select, Start, Up, Down, Left, Right.
    pub open spec fn button(self, i: int) -> bool {
        if i == 0 { self.a }
        else if i == 1 { self.b }
        else if i == 2 { self.select }
        else if i == 3 { self.start }
        else if i == 4 { self.up }
        else if i == 5 { self.down }
        else if i == 6 { self.left }
        else { self.right }
    }

    /// The byte loaded into the shift register when the strobe rises:
    /// the button at serial position `i` sits in bit `7 - i`.
    pub open spec fn report(self) -> u8 {
        (128 * bit_of(self.a) + 64 * bit_of(self.b) + 32 * bit_of(self.select) + 16 * bit_of(self.start)
            + 8 * bit_of(self.up) + 4 * bit_of(self.down) + 2 * bit_of(self.left) + bit_of(self.right)) as u8
    }

    /// State after the console writes `to` to the strobe port.
    pub open spec fn written(self, to: u8) -> Controller {
        let bit = to & 1 == 1;
        Controller {
            output: if !self.latch && bit { self.report() } else { self.output },
            latch: bit,
            ..self
        }
    }

    /// Value returned by a read of the serial port.
    pub open spec fn read_value(self) -> u8 {
        if self.latch { bit_of(self.a) } else { self.output >> 7u8 }
    }

    /// State after a read of the serial port.
    pub open spec fn after_read(self) -> Controller {
        if self.latch { self } else { Controller { output: self.output << 1u8, ..self } }
    }

    pub fn new() -> (r: Self)
        ensures
            !r.a && !r.b && !r.left && !r.right && !r.up && !r.down && !r.start && !r.select,
            r.output == 0,
            !r.latch,
    {
        Self {
            a: false,
            b: false,
            left: false,
            right: false,
            up: false,
            down: false,
            start: false,
            select: false,
            output: 0,
            latch: false,
        }
    }

    pub fn write(&mut self, to: u8)
        ensures
            *final(self) == old(self).written(to),
    {
        let bit = to & 1 == 1;
        // Fill the output shifter with controller data.
        if !self.latch && bit {
            let a: u8 = if self.a { 1 } else { 0 };
            let b: u8 = if self.b { 1 } else { 0 };
            let sl: u8 = if self.select { 1 } else { 0 };
            let st: u8 = if self.start { 1 } else { 0 };
            let u: u8 = if self.up { 1 } else { 0 };
            let d: u8 = if self.down { 1 } else { 0 };
            let l: u8 = if self.left { 1 } else { 0 };
            let r: u8 = if self.right { 1 } else { 0 };
            let out: u8 = (a << 7u8) | (b << 6u8) | (sl << 5u8) | (st << 4u8) | (u << 3u8) | (d << 2u8) | (l << 1u8) | r;
            assert(out == 128 * a + 64 * b + 32 * sl + 16 * st + 8 * u + 4 * d + 2 * l + r) by (bit_vector)
                requires
                    a <= 1, b <= 1, sl <= 1, st <= 1, u <= 1, d <= 1, l <= 1, r <= 1,
                    out == (a << 7u8) | (b << 6u8) | (sl << 5u8) | (st << 4u8) | (u << 3u8) | (d << 2u8) | (l << 1u8) | r;
            self.output = out;
        }
        self.latch = bit;
    }

    pub fn read(&mut self) -> (r: u8)
        ensures
            r == old(self).read_value(),
            *final(self) == old(self).after_read(),
    {
        if self.latch {
            return if self.a { 1 } else { 0 };
        }
        let bit = self.output >> 7u8;
        self.output = self.output << 1u8;
        bit
    }
}

/// The controller after `k` reads of the serial port, each taking the state
/// `Controller::read` leaves behind.
pub open spec fn after_reads(c: Controller, k: nat) -> Controller
    decreases k,
{
    if k == 0 { c } else { after_reads(c.after_read(), (k - 1) as nat) }
}

proof fn lemma_reads_shift(e: Controller, k: nat)
    requires
        !e.latch,
    ensures
        after_reads(e, k).read_value() == if k < 8 { (e.output << (k as u8)) >> 7u8 } else { 0 },
    decreases k,
{
    if k == 0 {
        let o = e.output;
        assert((o << 0u8) >> 7u8 == o >> 7u8) by (bit_vector);
    } else {
        lemma_reads_shift(e.after_read(), (k - 1) as nat);
        let o = e.output;
        if k < 8 {
            let kk = k as u8;
            assert(((o << 1u8) << ((kk - 1) as u8)) == o << kk) by (bit_vector)
                requires 1 <= kk < 8;
        } else if k == 8 {
            assert(((o << 1u8) << 7u8) >> 7u8 == 0) by (bit_vector);
        }
    }
}

/// After a strobe pulse (a write of 1 then a write of 0) from a controller whose
/// strobe was low, the read that follows `k` earlier reads reports A, B, Select,
/// Start, Up, Down, Left, Right for `k` = 0 to 7, and 0 for every later `k`, until
/// the next strobe.
pub proof fn lemma_strobe_then_reads(c: Controller, k: nat)
    requires
        !c.latch,
    ensures
        k < 8 ==> after_reads(c.written(1).written(0), k).read_value() == bit_of(c.button(k as int)),
        k >= 8 ==> after_reads(c.written(1).written(0), k).read_value() == 0,
{
    let d = c.written(1).written(0);
    assert(1u8 & 1 == 1 && 0u8 & 1 == 0) by (bit_vector);
    assert(d.output == c.report() && !d.latch);
    lemma_reads_shift(d, k);
    let a = bit_of(c.a);
    let b = bit_of(c.b);
    let sl = bit_of(c.select);
    let st = bit_of(c.start);
    let u = bit_of(c.up);
    let dn = bit_of(c.down);
    let l = bit_of(c.left);
    let r = bit_of(c.right);
    let o = c.report();
    assert(o == (128 * a + 64 * b + 32 * sl + 16 * st + 8 * u + 4 * dn + 2 * l + r) as u8);
    assert({
        &&& (o << 0u8) >> 7u8 == a
        &&& (o << 1u8) >> 7u8 == b
        &&& (o << 2u8) >> 7u8 == sl
        &&& (o << 3u8) >> 7u8 == st
        &&& (o << 4u8) >> 7u8 == u
        &&& (o << 5u8) >> 7u8 == dn
        &&& (o << 6u8) >> 7u8 == l
        &&& (o << 7u8) >> 7u8 == r
    }) by (bit_vector)
        requires
            a <= 1, b <= 1, sl <= 1, st <= 1, u <= 1, dn <= 1, l <= 1, r <= 1,
            o == (128 * a + 64 * b + 32 * sl + 16 * st + 8 * u + 4 * dn + 2 * l + r) as u8;
}

/// While the strobe is high every read reports the A button and leaves the
/// controller as it was.
pub proof fn lemma_latched_reads(c: Controller, k: nat)
    requires
        c.latch,
    ensures
        after_reads(c, k) == c,
        after_reads(c, k).read_value() == bit_of(c.a),
    decreases k,
{
    if k > 0 {
        lemma_latched_reads(c.after_read(), (k - 1) as nat);
    }
}

} // verus!
