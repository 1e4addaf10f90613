use vstd::prelude::*;
use std::ops::Range;

verus! {

/// 1 for `true`, 0 for `false`.
pub open spec fn bit_of(b: bool) -> u8 {
    if b { 1 } else { 0 }
}

/// Combines a little-endian pair of bytes into a 16-bit address.
pub fn address_from_bytes(lsb: u8, msb: u8) -> (r: u16)
    ensures
        r == lsb as int + 256 * (msb as int),
{
    let r = (lsb as u16) | ((msb as u16) << 8u16);
    assert(r == lsb as int + 256 * (msb as int)) by (bit_vector)
        requires r == (lsb as u16) | ((msb as u16) << 8u16);
    r
}

/// Ranges of the fields that masks and shifts cut out of a byte.
pub proof fn lemma_byte_fields(x: u8)
    by (bit_vector)
    ensures
        x & 0x03 < 4,
        x & 0x07 < 8,
        x & 0x0F < 16,
        x & 0x3F < 64,
        x & 0x7F < 128,
        x & 0xFE <= 254,
        x >> 3u8 < 32,
        x >> 6u8 < 4,
        (x >> 2u8) & 3 < 4,
        (x >> 4u8) & 0x07 < 8,
        (x & 0x3F) & 0x3F == x & 0x3F,
        (x & 0x7F) & 0x80 == 0,
        (x & 0x7F) & 0x7F == x & 0x7F,
        (x | 0x80) & 0x80 != 0,
        (x & 0x80u8 != 0u8) == (x >= 128u8),
        (x & 1u8 != 0u8) == (x % 2u8 == 1u8),
        x >> 1u8 == x / 2u8,
        x < 128 ==> x << 1u8 == x * 2,
        x >= 128 ==> x << 1u8 == x * 2 - 256,
        x < 128 ==> (x << 1u8) | 1u8 == x * 2 + 1,
        x >= 128 ==> (x << 1u8) | 1u8 == x * 2 - 255,
        (x << 1u8) | 0u8 == x << 1u8,
        (x >> 1u8) | (1u8 << 7u8) == x / 2 + 128,
        (x >> 1u8) | (0u8 << 7u8) == x >> 1u8,
        ((x >> 2u8) & 3) * 4 == x & 0x0C,
{
}

/// Bit `i` of `v`.
pub open spec fn bit_at(v: u64, i: u64) -> bool {
    (v >> i) & 1 == 1
}

/// `v` has no bit set at or above position `w`.
pub open spec fn fits(v: u64, w: u64) -> bool {
    v >> w == 0
}

/// The `n` low bits set.
pub open spec fn low_mask(n: u64) -> u64 {
    ((1u64 << n) - 1) as u64
}

/// A bit range the helpers accept for a type of `w` bits: ordered, starting
/// below `w`, and narrower than `w`.
pub open spec fn range_ok(r: Range<usize>, w: u64) -> bool {
    r.start <= r.end && r.start < w && r.end - r.start < w
}

/// Whether bit `i` lies in one of `ranges`.
pub open spec fn in_ranges(ranges: Seq<Range<usize>>, i: u64) -> bool {
    exists|k: int| 0 <= k < ranges.len() && (#[trigger] ranges[k]).start <= i < ranges[k].end
}

/// Unsigned integer types whose bits the helpers below work on, through
/// their value widened to 64 bits.
pub trait PrimBits: Copy {
    /// Number of bits.
    spec fn bit_width() -> u64;

    /// The value, widened to 64 bits.
    spec fn value(self) -> u64;

    fn width() -> (r: u64)
        ensures
            r == Self::bit_width(),
            1 <= r <= 32,
    ;

    fn widen(self) -> (r: u64)
        ensures
            r == self.value(),
            fits(r, Self::bit_width()),
    ;

    fn narrow(v: u64) -> (r: Self)
        requires
            fits(v, Self::bit_width()),
        ensures
            r.value() == v,
    ;
}

/// The widths of `u8` and `u16` as bounds, and zero, which has no bit set.
proof fn lemma_width_bounds(v: u64, w: u64)
    by (bit_vector)
    ensures
        fits(v, 8) == (v < 256),
        fits(v, 16) == (v < 65536),
        fits(0, w),
        forall|i: u64| !(#[trigger] bit_at(0, i)),
{
}

impl PrimBits for u8 {
    open spec fn bit_width() -> u64 {
        8
    }

    open spec fn value(self) -> u64 {
        self as u64
    }

    fn width() -> (r: u64) {
        8
    }

    fn widen(self) -> (r: u64) {
        proof {
            lemma_width_bounds(self as u64, 0);
        }
        self as u64
    }

    fn narrow(v: u64) -> (r: u8) {
        proof {
            lemma_width_bounds(v, 0);
        }
        v as u8
    }
}

impl PrimBits for u16 {
    open spec fn bit_width() -> u64 {
        16
    }

    open spec fn value(self) -> u64 {
        self as u64
    }

    fn width() -> (r: u64) {
        16
    }

    fn widen(self) -> (r: u64) {
        proof {
            lemma_width_bounds(self as u64, 0);
        }
        self as u64
    }

    fn narrow(v: u64) -> (r: u16) {
        proof {
            lemma_width_bounds(v, 0);
        }
        v as u16
    }
}

/// Setting, clearing, flipping or reading one bit below the width.
proof fn lemma_one_bit(v: u64, b: u64, w: u64)
    by (bit_vector)
    requires
        w <= 32,
        b < w,
        fits(v, w),
    ensures
        fits(1u64 << b, w),
        fits(v | (1u64 << b), w),
        fits(v & !(1u64 << b), w),
        fits(v ^ (1u64 << b), w),
        forall|i: u64| i < 64 ==> #[trigger] bit_at(1u64 << b, i) == (i == b),
        forall|i: u64| i < 64 ==> #[trigger] bit_at(v | (1u64 << b), i) == (i == b || bit_at(v, i)),
        forall|i: u64| i < 64 ==> #[trigger] bit_at(v & !(1u64 << b), i) == (i != b && bit_at(v, i)),
        forall|i: u64| i < 64 ==> #[trigger] bit_at(v ^ (1u64 << b), i) == ((i == b) != bit_at(v, i)),
{
}

/// The mask of bits `s..e`, cut to `w` bits, and the field of `v` at `s..e`
/// moved down to bit 0.
proof fn lemma_field(v: u64, s: u64, e: u64, w: u64)
    by (bit_vector)
    requires
        w <= 32,
        s <= e,
        s < w,
        e - s < w,
        fits(v, w),
    ensures
        1u64 << ((e - s) as u64) >= 1,
        1u64 << w >= 1,
        fits((low_mask((e - s) as u64) << s) & low_mask(w), w),
        forall|i: u64| i < w ==> #[trigger] bit_at((low_mask((e - s) as u64) << s) & low_mask(w), i) == (s <= i && i < e),
        fits((v >> s) & low_mask((e - s) as u64), w),
        forall|i: u64| i < w ==> #[trigger] bit_at((v >> s) & low_mask((e - s) as u64), i) == (i < e - s && bit_at(v, (s + i) as u64)),
{
}

/// Replacing bits `s..e` of `v` by the low bits of `t`, cut to `w` bits.
proof fn lemma_replace_field(v: u64, t: u64, s: u64, e: u64, w: u64)
    by (bit_vector)
    requires
        w <= 32,
        s <= e,
        s < w,
        e - s < w,
    ensures
        fits(((v & !((low_mask((e - s) as u64) << s) & low_mask(w))) | ((t & low_mask((e - s) as u64)) << s)) & low_mask(w), w),
        forall|i: u64| i < w ==> #[trigger] bit_at(((v & !((low_mask((e - s) as u64) << s) & low_mask(w))) | ((t & low_mask((e - s) as u64)) << s)) & low_mask(w), i)
            == (if s <= i && i < e { bit_at(t, (i - s) as u64) } else { bit_at(v, i) }),
{
}

/// Bits of unions, intersections and blends.
proof fn lemma_bitwise(a: u64, b: u64, m: u64, w: u64)
    by (bit_vector)
    requires
        fits(a, w),
        fits(b, w),
    ensures
        fits(a | b, w),
        fits(a & b, w),
        fits((a & !m) | (b & m), w),
        forall|i: u64| i < 64 ==> #[trigger] bit_at(a | b, i) == (bit_at(a, i) || bit_at(b, i)),
        forall|i: u64| i < 64 ==> #[trigger] bit_at(a & b, i) == (bit_at(a, i) && bit_at(b, i)),
        forall|i: u64| i < 64 ==> #[trigger] bit_at((a & !m) | (b & m), i) == (if bit_at(m, i) { bit_at(b, i) } else { bit_at(a, i) }),
{
}

/// The value with only bit `bit` set.
pub fn nth_bit<T: PrimBits>(bit: usize) -> (r: T)
    requires
        bit < T::bit_width(),
    ensures
        forall|i: u64| i < T::bit_width() ==> #[trigger] bit_at(r.value(), i) == (i == bit),
{
    let w = T::width();
    let b = bit as u64;
    proof {
        lemma_width_bounds(0, w);
        lemma_one_bit(0, b, w);
    }
    T::narrow(1u64 << b)
}

/// The mask with bits `bits.start..bits.end` set, cut to the type's width.
pub fn bits_mask<T: PrimBits>(bits: Range<usize>) -> (r: T)
    requires
        range_ok(bits, T::bit_width()),
    ensures
        forall|i: u64| i < T::bit_width() ==> #[trigger] bit_at(r.value(), i) == (bits.start <= i < bits.end),
{
    let w = T::width();
    let s = bits.start as u64;
    let e = bits.end as u64;
    proof {
        lemma_width_bounds(0, w);
        lemma_field(0, s, e, w);
    }
    let m = (((1u64 << (e - s)) - 1) << s) & ((1u64 << w) - 1);
    T::narrow(m)
}

/// The union of the masks of `ranges`.
pub fn bits_ranges_mask<T: PrimBits>(ranges: &[Range<usize>]) -> (r: T)
    requires
        forall|k: int| 0 <= k < ranges@.len() ==> range_ok(#[trigger] ranges@[k], T::bit_width()),
    ensures
        forall|i: u64| i < T::bit_width() ==> #[trigger] bit_at(r.value(), i) == in_ranges(ranges@, i),
{
    let w = T::width();
    let mut acc: u64 = 0;
    let mut k: usize = 0;
    proof {
        lemma_width_bounds(0, w);
    }
    while k < ranges.len()
        invariant
            w == T::bit_width(),
            1 <= w <= 32,
            k <= ranges@.len(),
            forall|j: int| 0 <= j < ranges@.len() ==> range_ok(#[trigger] ranges@[j], T::bit_width()),
            fits(acc, w),
            forall|i: u64| i < w ==> #[trigger] bit_at(acc, i) == in_ranges(ranges@.take(k as int), i),
        decreases ranges@.len() - k,
    {
        let m = bits_mask::<T>(ranges[k].start..ranges[k].end).widen();
        proof {
            lemma_bitwise(acc, m, 0, w);
            assert forall|i: u64| i < w implies bit_at(acc | m, i) == in_ranges(ranges@.take(k + 1), i) by {
                let prefix = ranges@.take(k as int);
                let next = ranges@.take(k + 1);
                if in_ranges(prefix, i) {
                    let j = choose|j: int| 0 <= j < prefix.len() && (#[trigger] prefix[j]).start <= i < prefix[j].end;
                    assert(next[j] == prefix[j]);
                }
                if in_ranges(next, i) {
                    let j = choose|j: int| 0 <= j < next.len() && (#[trigger] next[j]).start <= i < next[j].end;
                    if j < k {
                        assert(prefix[j] == next[j]);
                    }
                }
                assert(next[k as int] == ranges@[k as int]);
            }
        }
        acc = acc | m;
        k = k + 1;
    }
    proof {
        assert(ranges@.take(ranges@.len() as int) =~= ranges@);
    }
    T::narrow(acc)
}

/// Whether bit `bit` of `val` is set.
pub fn bit_set<T: PrimBits>(val: T, bit: usize) -> (r: bool)
    requires
        bit < T::bit_width(),
    ensures
        r == bit_at(val.value(), bit as u64),
{
    let _w = T::width();
    let v = val.widen();
    (v >> (bit as u64)) & 1 == 1
}

/// `val` with bit `bit` set to `to`.
pub fn set_bit<T: PrimBits>(val: T, bit: usize, to: bool) -> (r: T)
    requires
        bit < T::bit_width(),
    ensures
        forall|i: u64| i < T::bit_width() ==> #[trigger] bit_at(r.value(), i) == (if i == bit { to } else { bit_at(val.value(), i) }),
{
    let w = T::width();
    let v = val.widen();
    let b = bit as u64;
    proof {
        lemma_one_bit(v, b, w);
    }
    let r = if to { v | (1u64 << b) } else { v & !(1u64 << b) };
    T::narrow(r)
}

/// `val` with bit `bit` flipped.
pub fn toggle_bit<T: PrimBits>(val: T, bit: usize) -> (r: T)
    requires
        bit < T::bit_width(),
    ensures
        forall|i: u64| i < T::bit_width() ==> #[trigger] bit_at(r.value(), i) == (if i == bit { !bit_at(val.value(), i) } else { bit_at(val.value(), i) }),
{
    let w = T::width();
    let v = val.widen();
    let b = bit as u64;
    proof {
        lemma_one_bit(v, b, w);
    }
    T::narrow(v ^ (1u64 << b))
}

/// The field of `val` at `range`, moved down to bit 0.
///
/// The field is shifted down, not left in place: `get_bits(0b1101_0000u8, 4..8)`
/// is `0b1101`. Every field read of the emulator relies on this, for example
/// the length-counter index `to >> 3` of the sound channels, the scroll, fine Y
/// and attribute quadrant fields of the PPU, the MMC1 and MMC3 bank numbers and
/// the mapper number of an iNES header (high nibble of byte 6 in the low
/// nibble). A mask left in place would index past the length table, pick the
/// wrong banks and turn every mapper number but 0 into an unknown one.
pub fn get_bits<T: PrimBits>(val: T, range: Range<usize>) -> (r: T)
    requires
        range_ok(range, T::bit_width()),
    ensures
        forall|i: u64| i < T::bit_width() ==> #[trigger] bit_at(r.value(), i) == (i < range.end - range.start && bit_at(val.value(), (range.start + i) as u64)),
{
    let w = T::width();
    let v = val.widen();
    let s = range.start as u64;
    let e = range.end as u64;
    proof {
        lemma_field(v, s, e, w);
    }
    T::narrow((v >> s) & ((1u64 << (e - s)) - 1))
}

/// The bits of `val` that lie in `ranges`, in place.
pub fn extract_bits_ranges<T: PrimBits>(val: T, ranges: &[Range<usize>]) -> (r: T)
    requires
        forall|k: int| 0 <= k < ranges@.len() ==> range_ok(#[trigger] ranges@[k], T::bit_width()),
    ensures
        forall|i: u64| i < T::bit_width() ==> #[trigger] bit_at(r.value(), i) == (bit_at(val.value(), i) && in_ranges(ranges@, i)),
{
    let w = T::width();
    let v = val.widen();
    let m = bits_ranges_mask::<T>(ranges).widen();
    proof {
        lemma_bitwise(v, m, 0, w);
    }
    T::narrow(v & m)
}

/// `val` with bits `range` replaced by the low bits of `to`.
pub fn set_bits<T: PrimBits>(val: T, range: Range<usize>, to: T) -> (r: T)
    requires
        range_ok(range, T::bit_width()),
    ensures
        forall|i: u64| i < T::bit_width() ==> #[trigger] bit_at(r.value(), i) == (if range.start <= i < range.end {
            bit_at(to.value(), (i - range.start) as u64)
        } else {
            bit_at(val.value(), i)
        }),
{
    let w = T::width();
    let v = val.widen();
    let t = to.widen();
    let s = range.start as u64;
    let e = range.end as u64;
    proof {
        lemma_field(v, s, e, w);
        lemma_replace_field(v, t, s, e, w);
    }
    let mask = (((1u64 << (e - s)) - 1) << s) & ((1u64 << w) - 1);
    let field = (t & ((1u64 << (e - s)) - 1)) << s;
    T::narrow(((v & !mask) | field) & ((1u64 << w) - 1))
}

/// `to` with bit `bit` taken from `from`.
pub fn copy_bit<T: PrimBits>(to: T, from: T, bit: usize) -> (r: T)
    requires
        bit < T::bit_width(),
    ensures
        forall|i: u64| i < T::bit_width() ==> #[trigger] bit_at(r.value(), i) == (if i == bit { bit_at(from.value(), i) } else { bit_at(to.value(), i) }),
{
    set_bit(to, bit, bit_set(from, bit))
}

/// `to` with bits `range` taken from `from`, the field staying at the same
/// position (`get_bits` moves it down, `set_bits` moves it back up).
pub fn copy_bits<T: PrimBits>(to: T, from: T, range: Range<usize>) -> (r: T)
    requires
        range_ok(range, T::bit_width()),
    ensures
        forall|i: u64| i < T::bit_width() ==> #[trigger] bit_at(r.value(), i) == (if range.start <= i < range.end {
            bit_at(from.value(), i)
        } else {
            bit_at(to.value(), i)
        }),
{
    let field = get_bits(from, range.start..range.end);
    let r = set_bits(to, range.start..range.end, field);
    proof {
        assert forall|i: u64| i < T::bit_width() && range.start <= i < range.end implies bit_at(r.value(), i) == bit_at(from.value(), i) by {
            assert(((i - range.start) as u64) < T::bit_width());
            assert((range.start + ((i - range.start) as u64)) as u64 == i);
        }
    }
    r
}

/// `to` with the bits in `ranges` taken from `from`.
pub fn copy_bit_ranges<T: PrimBits>(to: T, from: T, ranges: &[Range<usize>]) -> (r: T)
    requires
        forall|k: int| 0 <= k < ranges@.len() ==> range_ok(#[trigger] ranges@[k], T::bit_width()),
    ensures
        forall|i: u64| i < T::bit_width() ==> #[trigger] bit_at(r.value(), i) == (if in_ranges(ranges@, i) {
            bit_at(from.value(), i)
        } else {
            bit_at(to.value(), i)
        }),
{
    let w = T::width();
    let t = to.widen();
    let f = from.widen();
    let mask = bits_ranges_mask::<T>(ranges).widen();
    proof {
        lemma_bitwise(t, f, mask, w);
    }
    T::narrow((t & !mask) | (f & mask))
}

} // verus!
