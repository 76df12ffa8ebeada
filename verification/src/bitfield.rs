//! Generic bit-range read/modify/write primitives.
//!
//! The sensor exposes every configuration option as a small bit-field inside
//! an 8-bit register, and scatters each sample channel over several such
//! registers. The two operations here are the only bit surgery the rest of
//! the crate performs: [`write_bits`] plants a right-aligned value into a
//! bit range of a byte, and [`extract_channel_bits`] moves a bit range of a
//! byte into a bit range of a 32-bit accumulator.

use vstd::prelude::*;

verus! {

/// True when bit `i` of `x` is set. Meaningful for `i < 8`.
pub open spec fn bit8(x: u8, i: u8) -> bool {
    (x >> i) & 1 == 1
}

/// True when bit `i` of `x` is set. Meaningful for `i < 32`.
pub open spec fn bit32(x: u32, i: u32) -> bool {
    (x >> i) & 1 == 1
}

/// A byte with exactly the `count` lowest bits set, for `count <= 8`:
/// `low_mask8(3) == 0x07`, `low_mask8(8) == 0xFF`.
pub open spec fn low_mask8(count: u8) -> u8 {
    !(0xFFu8 << count)
}

/// A word with exactly the `count` lowest bits set, for `count <= 32`.
pub open spec fn low_mask32(count: u32) -> u32 {
    !(0xFFFF_FFFFu32 << count)
}

/// The byte that results from clearing bits `[start_to, start_to + count)`
/// of `to` and planting the low `count` bits of `value` there.
pub open spec fn spec_write_bits(value: u8, to: u8, start_to: u8, count: u8) -> u8 {
    (to & !(low_mask8(count) << start_to)) | ((value & low_mask8(count)) << start_to)
}

/// The word that results from clearing bits `[start_to, start_to + count)`
/// of `to` and planting bits `[start_from, start_from + count)` of `from`
/// there, right-aligned to `start_to`.
pub open spec fn spec_extract_bits(from: u8, start_from: u32, to: u32, start_to: u32, count: u32) -> u32 {
    (to & !(low_mask32(count) << start_to))
        | ((((from as u32) >> start_from) & low_mask32(count)) << start_to)
}

/// Bits `[start_to, start_to + count)` of the written byte equal the low
/// `count` bits of `value`; every other bit keeps its old value.
proof fn lemma_write_bits_bitwise(value: u8, to: u8, start_to: u8, count: u8)
    by (bit_vector)
    requires
        start_to + count <= 8,
    ensures
        forall|i: u8|
            start_to <= i < start_to + count ==> #[trigger] bit8(
                spec_write_bits(value, to, start_to, count),
                i,
            ) == bit8(value, (i - start_to) as u8),
        forall|i: u8|
            i < 8 && !(start_to <= i < start_to + count) ==> #[trigger] bit8(
                spec_write_bits(value, to, start_to, count),
                i,
            ) == bit8(to, i),
{
}

/// Bits `[start_to, start_to + count)` of the result equal bits
/// `[start_from, start_from + count)` of `from`; every other bit of the
/// accumulator keeps its old value.
proof fn lemma_extract_bits_bitwise(from: u8, start_from: u32, to: u32, start_to: u32, count: u32)
    by (bit_vector)
    requires
        start_from + count <= 8,
        start_to + count <= 32,
    ensures
        forall|i: u32|
            start_to <= i < start_to + count ==> #[trigger] bit32(
                spec_extract_bits(from, start_from, to, start_to, count),
                i,
            ) == bit8(from, (i - start_to + start_from) as u8),
        forall|i: u32|
            i < 32 && !(start_to <= i < start_to + count) ==> #[trigger] bit32(
                spec_extract_bits(from, start_from, to, start_to, count),
                i,
            ) == bit32(to, i),
{
}

/// Planting the same value into the same bit range twice gives the same
/// byte as planting it once. Every configuration setter pins its output
/// byte to `spec_write_bits` of the option's field value at the family's
/// fixed position, so writing the same configuration value twice produces
/// an identical register byte on the second read/modify/write cycle.
pub proof fn lemma_write_bits_idempotent(value: u8, to: u8, start_to: u8, count: u8)
    by (bit_vector)
    requires
        start_to + count <= 8,
    ensures
        spec_write_bits(value, spec_write_bits(value, to, start_to, count), start_to, count)
            == spec_write_bits(value, to, start_to, count),
{
}

/// Clears bits `[start_to, start_to + count)` of `to` and sets them to the
/// low `count` bits of `from_right_aligned`. All other bits of `to` are
/// unchanged.
pub fn write_bits(from_right_aligned: u8, to: &mut u8, start_to: usize, count: usize)
    requires
        start_to + count <= 8,
    ensures
        *final(to) == spec_write_bits(from_right_aligned, *old(to), start_to as u8, count as u8),
        forall|i: u8|
            start_to <= i < start_to + count ==> #[trigger] bit8(*final(to), i) == bit8(
                from_right_aligned,
                (i - start_to) as u8,
            ),
        forall|i: u8|
            i < 8 && !(start_to <= i < start_to + count) ==> #[trigger] bit8(*final(to), i)
                == bit8(*old(to), i),
{
    let old_to: u8 = *to;
    // Work in u16 so that the shifts stay in range even for count == 8
    // (where the mask is the whole byte) and for count == 0 with
    // start_to == 8 (where nothing is written).
    let m: u16 = !(0xFFu16 << count) & 0xFF;
    let v: u16 = (from_right_aligned as u16) & m;
    let result: u16 = ((old_to as u16) & !(m << start_to)) | (v << start_to);
    let r: u8 = (result & 0xFF) as u8;
    *to = r;
    proof {
        assert(r == spec_write_bits(from_right_aligned, old_to, start_to as u8, count as u8))
            by (bit_vector)
            requires
                start_to + count <= 8,
                m == !(0xFFu16 << count) & 0xFF,
                v == (from_right_aligned as u16) & m,
                result == ((old_to as u16) & !(m << start_to)) | (v << start_to),
                r == (result & 0xFF) as u8,
        ;
        lemma_write_bits_bitwise(from_right_aligned, old_to, start_to as u8, count as u8);
    }
}

/// Reads bits `[start_from, start_from + count)` of `from`, right-aligns
/// them, clears bits `[start_to, start_to + count)` of `to`, and writes the
/// extracted bits there. All other bits of `to` are unchanged.
pub fn extract_channel_bits(from: u8, start_from: usize, to: &mut u32, start_to: usize, count: usize)
    requires
        start_from + count <= 8,
        start_to + count <= 32,
    ensures
        *final(to) == spec_extract_bits(
            from,
            start_from as u32,
            *old(to),
            start_to as u32,
            count as u32,
        ),
        forall|i: u32|
            start_to <= i < start_to + count ==> #[trigger] bit32(*final(to), i) == bit8(
                from,
                (i - start_to + start_from) as u8,
            ),
        forall|i: u32|
            i < 32 && !(start_to <= i < start_to + count) ==> #[trigger] bit32(*final(to), i)
                == bit32(*old(to), i),
{
    let old_to: u32 = *to;
    // Work in u64 so that the shifts stay in range even at the edges of the
    // allowed ranges (count == 0 with start_to == 32).
    let m: u64 = !(0xFFFF_FFFFu64 << count) & 0xFFFF_FFFF;
    let f: u64 = ((from as u64) >> start_from) & m;
    let result: u64 = ((old_to as u64) & !(m << start_to)) | (f << start_to);
    let r: u32 = (result & 0xFFFF_FFFF) as u32;
    *to = r;
    proof {
        assert(r == spec_extract_bits(
            from,
            start_from as u32,
            old_to,
            start_to as u32,
            count as u32,
        ))
            by (bit_vector)
            requires
                start_from + count <= 8,
                start_to + count <= 32,
                m == !(0xFFFF_FFFFu64 << count) & 0xFFFF_FFFF,
                f == ((from as u64) >> start_from) & m,
                result == ((old_to as u64) & !(m << start_to)) | (f << start_to),
                r == (result & 0xFFFF_FFFF) as u32,
        ;
        lemma_extract_bits_bitwise(
            from,
            start_from as u32,
            old_to,
            start_to as u32,
            count as u32,
        );
    }
}

} // verus!
