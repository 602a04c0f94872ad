//! The fixed-point numeric domain.  Each quantity has its own format, named
//! after its integer and fraction bits; a value is stored as its raw bits.
//! Arithmetic that can leave a format saturates instead of wrapping, and
//! products are formed at full width before any narrowing.
use vstd::arithmetic::div_mod::lemma_hoist_over_denominator;
use vstd::arithmetic::power2::{lemma_pow2_adds, lemma_pow2_pos, pow2};
use vstd::bits::{lemma_u64_pow2_no_overflow, lemma_u64_shl_is_mul};
use vstd::prelude::*;

verus! {

/// Signed audio sample: 4 integer bits, 12 fraction bits (value `bits / 4096`).
#[derive(Clone, Copy, Debug, PartialEq, Eq, Structural)]
pub struct SampleFxP {
    pub bits: i16,
}

/// Unsigned sample: 4 integer bits, 12 fraction bits.
#[derive(Clone, Copy, Debug, PartialEq, Eq, Structural)]
pub struct USampleFxP {
    pub bits: u16,
}

/// MIDI note number: 7 integer bits, 9 fraction bits (value `bits / 512`).
#[derive(Clone, Copy, Debug, PartialEq, Eq, Structural)]
pub struct NoteFxP {
    pub bits: u16,
}

/// Unit scalar in `[0, 1)`: 16 fraction bits (value `bits / 65536`).
#[derive(Clone, Copy, Debug, PartialEq, Eq, Structural)]
pub struct ScalarFxP {
    pub bits: u16,
}

/// Envelope rate or level: 3 integer bits, 13 fraction bits.
#[derive(Clone, Copy, Debug, PartialEq, Eq, Structural)]
pub struct EnvParamFxP {
    pub bits: u16,
}

impl SampleFxP {
    pub fn from_bits(bits: i16) -> (r: Self)
        ensures
            r.bits == bits,
    {
        SampleFxP { bits }
    }

    pub fn to_bits(self) -> (r: i16)
        ensures
            r == self.bits,
    {
        self.bits
    }

    /// The product of two samples, saturated to the sample format.
    pub fn saturating_mul(self, other: SampleFxP) -> (r: SampleFxP)
        ensures
            r.bits == sample_mul(self.bits as int, other.bits as int),
    {
        proof {
            lemma_i16_product_bound(self.bits, other.bits);
        }
        let wide: i64 = (self.bits as i64) * (other.bits as i64);
        SampleFxP { bits: saturate_i16(floor_shr(wide, 12)) }
    }
}

impl USampleFxP {
    pub fn from_bits(bits: u16) -> (r: Self)
        ensures
            r.bits == bits,
    {
        USampleFxP { bits }
    }

    pub fn to_bits(self) -> (r: u16)
        ensures
            r == self.bits,
    {
        self.bits
    }
}

impl NoteFxP {
    pub fn from_bits(bits: u16) -> (r: Self)
        ensures
            r.bits == bits,
    {
        NoteFxP { bits }
    }

    pub fn to_bits(self) -> (r: u16)
        ensures
            r == self.bits,
    {
        self.bits
    }
}

impl ScalarFxP {
    pub fn from_bits(bits: u16) -> (r: Self)
        ensures
            r.bits == bits,
    {
        ScalarFxP { bits }
    }

    pub fn to_bits(self) -> (r: u16)
        ensures
            r == self.bits,
    {
        self.bits
    }
}

impl EnvParamFxP {
    pub fn from_bits(bits: u16) -> (r: Self)
        ensures
            r.bits == bits,
    {
        EnvParamFxP { bits }
    }

    pub fn to_bits(self) -> (r: u16)
        ensures
            r == self.bits,
    {
        self.bits
    }
}

pub open spec fn clamp(x: int, lo: int, hi: int) -> int {
    if x < lo {
        lo
    } else if x > hi {
        hi
    } else {
        x
    }
}

/// `x` saturated to the range of `i16`.
pub open spec fn sat_i16(x: int) -> int {
    clamp(x, -0x8000, 0x7fff)
}

/// `x` saturated to the range of `i32`.
pub open spec fn sat_i32(x: int) -> int {
    clamp(x, -0x8000_0000, 0x7fff_ffff)
}

/// `x` shifted right by `k` bits, rounding toward negative infinity.
pub open spec fn shr(x: int, k: nat) -> int {
    x / (pow2(k) as int)
}

/// The saturating product of two 4.12 samples.
pub open spec fn sample_mul(a: int, b: int) -> int {
    sat_i16(shr(a * b, 12))
}

pub fn saturate_i16(x: i64) -> (r: i16)
    ensures
        r == sat_i16(x as int),
{
    if x < -0x8000 {
        -0x8000
    } else if x > 0x7fff {
        0x7fff
    } else {
        x as i16
    }
}

pub fn saturate_i32(x: i64) -> (r: i32)
    ensures
        r == sat_i32(x as int),
{
    if x < -0x8000_0000 {
        -0x8000_0000
    } else if x > 0x7fff_ffff {
        0x7fff_ffff
    } else {
        x as i32
    }
}

pub proof fn lemma_i16_product_bound(a: i16, b: i16)
    ensures
        -0x4000_0000 < a * b <= 0x4000_0000,
{
    assert(-0x4000_0000 < a * b <= 0x4000_0000) by (nonlinear_arith)
        requires
            -32768 <= a <= 32767,
            -32768 <= b <= 32767,
    ;
}

/// Arithmetic shift right of a signed value (floor division by `2^k`).
pub fn floor_shr(x: i64, k: u32) -> (r: i64)
    requires
        -0x4000_0000_0000_0000 <= x < 0x4000_0000_0000_0000,
        k <= 40,
    ensures
        r == shr(x as int, k as nat),
        x >= 0 ==> 0 <= r <= x,
        x < 0 ==> x <= r < 0,
        -0x4000_0000_0000_0000 <= r < 0x4000_0000_0000_0000,
{
    proof {
        lemma_u64_pow2_no_overflow(k as nat);
        lemma_u64_pow2_no_overflow((62 - k) as nat);
        lemma_u64_shl_is_mul(1, k as u64);
        lemma_u64_shl_is_mul(1, (62 - k) as u64);
        lemma_pow2_adds((62 - k) as nat, k as nat);
        lemma_pow2_pos(k as nat);
        vstd::arithmetic::power2::lemma2_to64();
        vstd::arithmetic::power2::lemma2_to64_rest();
    }
    let p: u64 = 1u64 << (k as u64);
    let j: u64 = 1u64 << ((62 - k) as u64);
    assert(j * p == 0x4000_0000_0000_0000);
    let b: u64 = (x + 0x4000_0000_0000_0000) as u64;
    let q: u64 = b / p;
    proof {
        lemma_hoist_over_denominator(x as int, j as int, p as nat);
        assert((x + j * p) / (p as int) == (x as int) / (p as int) + j);
        assert(q as int == (x as int) / (p as int) + j);
        if x >= 0 {
            assert((x as int) / (p as int) >= 0) by (nonlinear_arith)
                requires
                    x >= 0,
                    p > 0,
            ;
        } else {
            assert((x as int) / (p as int) < 0) by (nonlinear_arith)
                requires
                    x < 0,
                    p > 0,
            ;
        }
        assert((x as int) / (p as int) <= x || x < 0) by (nonlinear_arith)
            requires
                p > 0,
        ;
        assert((x as int) / (p as int) >= x || x >= 0) by (nonlinear_arith)
            requires
                p > 0,
        ;
    }
    (q as i64) - (j as i64)
}

pub proof fn lemma_mul_bound(a: int, b: int, ma: int, mb: int)
    requires
        -ma <= a <= ma,
        -mb <= b <= mb,
    ensures
        -(ma * mb) <= a * b <= ma * mb,
{
    assert(-(ma * mb) <= a * b <= ma * mb) by (nonlinear_arith)
        requires
            -ma <= a <= ma,
            -mb <= b <= mb,
    ;
}

pub proof fn lemma_scaled_product_le(a: int, b: int)
    requires
        0 <= a < 0x1_0000,
        0 <= b < 0x1_0000,
    ensures
        0 <= a * b / 0x1_0000 <= a,
        a * b / 0x1_0000 <= b,
{
    assert(0 <= a * b / 0x1_0000 <= a && a * b / 0x1_0000 <= b) by (nonlinear_arith)
        requires
            0 <= a < 0x1_0000,
            0 <= b < 0x1_0000,
    ;
}

/// `1 / (1 + i / 16)` in 1.15 format, for `i` in `0..=16`: the breakpoints of
/// the piecewise-linear reciprocal.
pub open spec fn recip_table(i: int) -> int {
    if i == 0 {
        32768
    } else if i == 1 {
        30840
    } else if i == 2 {
        29127
    } else if i == 3 {
        27594
    } else if i == 4 {
        26214
    } else if i == 5 {
        24966
    } else if i == 6 {
        23831
    } else if i == 7 {
        22795
    } else if i == 8 {
        21845
    } else if i == 9 {
        20972
    } else if i == 10 {
        20165
    } else if i == 11 {
        19418
    } else if i == 12 {
        18725
    } else if i == 13 {
        18079
    } else if i == 14 {
        17476
    } else if i == 15 {
        16913
    } else {
        16384
    }
}

fn recip_entry(i: u64) -> (r: u64)
    requires
        i <= 16,
    ensures
        r == recip_table(i as int),
{
    if i == 0 {
        32768
    } else if i == 1 {
        30840
    } else if i == 2 {
        29127
    } else if i == 3 {
        27594
    } else if i == 4 {
        26214
    } else if i == 5 {
        24966
    } else if i == 6 {
        23831
    } else if i == 7 {
        22795
    } else if i == 8 {
        21845
    } else if i == 9 {
        20972
    } else if i == 10 {
        20165
    } else if i == 11 {
        19418
    } else if i == 12 {
        18725
    } else if i == 13 {
        18079
    } else if i == 14 {
        17476
    } else if i == 15 {
        16913
    } else {
        16384
    }
}

/// A 1.x value normalised into `[1, 2)`: its leading 15 fraction bits (as a
/// 1.15 value) and the right shift applied, for `d` a 4.29 value in `[1, 9)`.
pub open spec fn recip_norm(d: int) -> (int, int) {
    if d < 0x4000_0000 {
        (d / 0x4000, 0)
    } else if d < 0x8000_0000 {
        (d / 0x8000, 1)
    } else if d < 0x1_0000_0000 {
        (d / 0x1_0000, 2)
    } else {
        (d / 0x2_0000, 3)
    }
}

/// The approximate reciprocal of `1 + k`, for `k` a 3.29 value: a normalised
/// 1.15 reciprocal `r` and a shift `s`, with `1 / (1 + k) ~ r * 2^-(15 + s)`.
/// The reciprocal of the normalised value is interpolated linearly between
/// sixteen equally spaced breakpoints.
pub open spec fn recip_approx(k: int) -> (int, int) {
    let (m, s) = recip_norm(0x2000_0000 + k);
    let idx = (m - 0x8000) / 0x800;
    let frac = (m - 0x8000) % 0x800;
    let lo = recip_table(idx);
    let hi = recip_table(idx + 1);
    (lo - (lo - hi) * frac / 0x800, s)
}

/// Computes `1 / (1 + k)` without a division, as a normalised reciprocal and
/// a shift (see [recip_approx]).
pub fn one_over_one_plus(k: u32) -> (r: (u16, u32))
    ensures
        r.0 as int == recip_approx(k as int).0,
        r.1 as int == recip_approx(k as int).1,
        0x4000 <= r.0 <= 0x8000,
        r.1 <= 3,
{
    let d: u64 = 0x2000_0000 + k as u64;
    let (m, s): (u64, u32) = if d < 0x4000_0000 {
        (d / 0x4000, 0)
    } else if d < 0x8000_0000 {
        (d / 0x8000, 1)
    } else if d < 0x1_0000_0000 {
        (d / 0x1_0000, 2)
    } else {
        (d / 0x2_0000, 3)
    };
    assert(0x8000 <= m < 0x1_0000);
    let idx: u64 = (m - 0x8000) / 0x800;
    let frac: u64 = (m - 0x8000) % 0x800;
    let lo = recip_entry(idx);
    let hi = recip_entry(idx + 1);
    assert(hi <= lo && lo - hi <= 2000);
    proof {
        lemma_mul_bound((lo - hi) as int, frac as int, 2000, 0x800);
        assert(0 <= (lo - hi) * frac / 0x800 <= lo - hi) by (nonlinear_arith)
            requires
                0 <= lo - hi,
                0 <= frac < 0x800,
        ;
    }
    let r: u64 = lo - (lo - hi) * frac / 0x800;
    (r as u16, s)
}

/// The truncated Taylor series `x + x^3/3 + 2x^5/15 + 17x^7/315` of the
/// tangent, for `x` a 0.16 angle in radians, as a 1.15 value.  Accurate to
/// about one percent below `0.9` rad; less accurate above.
pub open spec fn tan_approx(x: int) -> int {
    let x2 = x * x / 0x1_0000;
    let x3 = x2 * x / 0x1_0000;
    let x5 = x3 * x2 / 0x1_0000;
    let x7 = x5 * x2 / 0x1_0000;
    (x + x3 / 3 + 2 * x5 / 15 + 17 * x7 / 315) / 2
}

/// The tangent of a 0.16 angle, as a 1.15 value (see [tan_approx]).
pub fn tan_fixed(x: u16) -> (r: u16)
    ensures
        r as int == tan_approx(x as int),
{
    let x: u64 = x as u64;
    proof {
        lemma_scaled_product_le(x as int, x as int);
    }
    let x2: u64 = x * x / 0x1_0000;
    proof {
        lemma_scaled_product_le(x2 as int, x as int);
    }
    let x3: u64 = x2 * x / 0x1_0000;
    proof {
        lemma_scaled_product_le(x3 as int, x2 as int);
    }
    let x5: u64 = x3 * x2 / 0x1_0000;
    proof {
        lemma_scaled_product_le(x5 as int, x2 as int);
    }
    let x7: u64 = x5 * x2 / 0x1_0000;
    let r: u64 = (x + x3 / 3 + 2 * x5 / 15 + 17 * x7 / 315) / 2;
    r as u16
}

/// `4 * 440 * 2^((s - 69) / 12) * 2^16` for `s` in `0..=12`: the lowest
/// octave's semitones as 14.2 frequencies with 16 extra fraction bits.
pub open spec fn freq_table(s: int) -> int {
    if s == 0 {
        2143237
    } else if s == 1 {
        2270680
    } else if s == 2 {
        2405702
    } else if s == 3 {
        2548752
    } else if s == 4 {
        2700309
    } else if s == 5 {
        2860878
    } else if s == 6 {
        3030994
    } else if s == 7 {
        3211227
    } else if s == 8 {
        3402176
    } else if s == 9 {
        3604480
    } else if s == 10 {
        3818814
    } else if s == 11 {
        4045892
    } else {
        4286473
    }
}

fn freq_entry(s: u64) -> (r: u64)
    requires
        s <= 12,
    ensures
        r == freq_table(s as int),
{
    if s == 0 {
        2143237
    } else if s == 1 {
        2270680
    } else if s == 2 {
        2405702
    } else if s == 3 {
        2548752
    } else if s == 4 {
        2700309
    } else if s == 5 {
        2860878
    } else if s == 6 {
        3030994
    } else if s == 7 {
        3211227
    } else if s == 8 {
        3402176
    } else if s == 9 {
        3604480
    } else if s == 10 {
        3818814
    } else if s == 11 {
        4045892
    } else {
        4286473
    }
}

/// The frequency of a 7.9 MIDI note, as a 14.2 value in hertz:
/// `440 * 2^((note - 69) / 12)`, interpolated linearly between semitones.
pub open spec fn note_freq(n: int) -> int {
    let oct = n / 6144;
    let rem = n % 6144;
    let s = rem / 512;
    let frac = rem % 512;
    let lo = freq_table(s);
    let hi = freq_table(s + 1);
    let v = lo + (hi - lo) * frac / 512;
    v * (pow2(oct as nat) as int) / 0x1_0000
}

/// Converts a MIDI note to its frequency (see [note_freq]).
pub fn midi_note_to_frequency(n: NoteFxP) -> (r: u16)
    ensures
        r as int == note_freq(n.bits as int),
{
    let n: u64 = n.bits as u64;
    let oct: u64 = n / 6144;
    let rem: u64 = n % 6144;
    let s: u64 = rem / 512;
    let frac: u64 = rem % 512;
    let lo = freq_entry(s);
    let hi = freq_entry(s + 1);
    assert(lo <= hi && hi - lo <= 250000);
    proof {
        assert(0 <= (hi - lo) * frac / 512 <= hi - lo) by (nonlinear_arith)
            requires
                0 <= hi - lo,
                0 <= frac < 512,
        ;
    }
    let v: u64 = lo + (hi - lo) * frac / 512;
    assert(v <= 4286473);
    proof {
        vstd::arithmetic::power2::lemma2_to64();
        lemma_u64_pow2_no_overflow(oct as nat);
        if oct < 10 {
            if oct < 9 {
                vstd::arithmetic::power2::lemma_pow2_strictly_increases(oct as nat, 9);
            }
            assert(v * pow2(oct as nat) <= 4286473 * 512) by (nonlinear_arith)
                requires
                    v <= 4286473,
                    pow2(oct as nat) <= 512,
            ;
        } else {
            assert(oct == 10);
            assert(s <= 7);
            assert(v <= 3402176);
            assert(v * pow2(oct as nat) <= 3402176 * 1024) by (nonlinear_arith)
                requires
                    v <= 3402176,
                    pow2(oct as nat) == 1024,
            ;
        }
        lemma_u64_shl_is_mul(v, oct);
    }
    let r: u64 = (v << oct) / 0x1_0000;
    assert(r < 0x1_0000);
    r as u16
}

/// The frequency within the lowest octave of a note `rem` steps of 1/512
/// semitone above C, before the octave shift (see [note_freq]).
pub open spec fn octave_interp(rem: int) -> int {
    let s = rem / 512;
    let frac = rem % 512;
    let lo = freq_table(s);
    let hi = freq_table(s + 1);
    lo + (hi - lo) * frac / 512
}

proof fn lemma_freq_table_mono(a: int, b: int)
    requires
        0 <= a <= b <= 12,
    ensures
        freq_table(a) <= freq_table(b),
    decreases b - a,
{
    if a < b {
        lemma_freq_table_mono(a + 1, b);
    }
}

proof fn lemma_octave_interp_mono(r1: int, r2: int)
    requires
        0 <= r1 <= r2 < 6144,
    ensures
        freq_table(0) <= octave_interp(r1) <= octave_interp(r2) <= freq_table(12),
{
    let s1 = r1 / 512;
    let s2 = r2 / 512;
    let f1 = r1 % 512;
    let f2 = r2 % 512;
    lemma_freq_table_mono(s1, s1 + 1);
    lemma_freq_table_mono(s2, s2 + 1);
    lemma_freq_table_mono(0, s1);
    lemma_freq_table_mono(s2 + 1, 12);
    let d1 = freq_table(s1 + 1) - freq_table(s1);
    let d2 = freq_table(s2 + 1) - freq_table(s2);
    assert(0 <= d1 * f1 / 512 <= d1) by (nonlinear_arith)
        requires
            0 <= d1,
            0 <= f1 < 512,
    ;
    assert(0 <= d2 * f2 / 512 <= d2) by (nonlinear_arith)
        requires
            0 <= d2,
            0 <= f2 < 512,
    ;
    if s1 == s2 {
        assert(f1 <= f2);
        assert(d1 * f1 / 512 <= d1 * f2 / 512) by (nonlinear_arith)
            requires
                0 <= d1,
                0 <= f1 <= f2,
        ;
    } else {
        lemma_freq_table_mono(s1 + 1, s2);
    }
}

/// Higher notes never have lower frequencies.
pub proof fn lemma_note_freq_mono(n1: int, n2: int)
    requires
        0 <= n1 <= n2 <= 0xffff,
    ensures
        note_freq(n1) <= note_freq(n2),
{
    let o1 = n1 / 6144;
    let o2 = n2 / 6144;
    let v1 = octave_interp(n1 % 6144);
    let v2 = octave_interp(n2 % 6144);
    let scale_lo = pow2(o1 as nat) as int;
    let scale_hi = pow2(o2 as nat) as int;
    lemma_pow2_pos(o1 as nat);
    lemma_octave_interp_mono(n1 % 6144, 6143);
    lemma_octave_interp_mono(0, n2 % 6144);
    if o1 == o2 {
        lemma_octave_interp_mono(n1 % 6144, n2 % 6144);
        assert(v1 * scale_lo <= v2 * scale_lo) by (nonlinear_arith)
            requires
                v1 <= v2,
                scale_lo > 0,
        ;
    } else {
        vstd::arithmetic::power2::lemma_pow2_unfold((o1 + 1) as nat);
        if o1 + 1 < o2 {
            vstd::arithmetic::power2::lemma_pow2_strictly_increases((o1 + 1) as nat, o2 as nat);
        }
        assert(v1 * scale_lo <= v2 * scale_hi) by (nonlinear_arith)
            requires
                v1 <= 4286473,
                v2 >= 2143237,
                scale_lo > 0,
                2 * scale_lo <= scale_hi,
        ;
    }
    assert((v1 * scale_lo) / 0x1_0000 <= (v2 * scale_hi) / 0x1_0000) by (nonlinear_arith)
        requires
            v1 * scale_lo <= v2 * scale_hi,
    ;
}

/// `r` is the highest note whose frequency is at most `f`, or the lowest
/// note where every note is above `f`.
pub open spec fn is_note_of_freq(f: int, r: int) -> bool {
    &&& 0 <= r <= 0xffff
    &&& f < note_freq(0) ==> r == 0
    &&& f >= note_freq(0) ==> note_freq(r) <= f && (r == 0xffff || note_freq(r + 1) > f)
}

/// Converts a 14.2 frequency back to a 7.9 MIDI note: the highest note
/// whose frequency (by [midi_note_to_frequency]) does not exceed it.
pub fn frequency_to_note(f: u16) -> (r: NoteFxP)
    ensures
        is_note_of_freq(f as int, r.bits as int),
{
    let lowest = midi_note_to_frequency(NoteFxP { bits: 0 });
    if f < lowest {
        return NoteFxP { bits: 0 };
    }
    let mut lo: u32 = 0;
    let mut hi: u32 = 0x1_0000;
    while hi - lo > 1
        invariant
            lo < hi <= 0x1_0000,
            note_freq(lo as int) <= f,
            hi < 0x1_0000 ==> note_freq(hi as int) > f,
        decreases hi - lo,
    {
        let mid: u32 = lo + (hi - lo) / 2;
        if midi_note_to_frequency(NoteFxP { bits: mid as u16 }) <= f {
            lo = mid;
        } else {
            hi = mid;
        }
    }
    NoteFxP { bits: lo as u16 }
}

/// Converting a note to its frequency and back lands on a note no lower,
/// with exactly the same frequency: the round trip is exact up to the
/// quantisation of the frequency.
pub proof fn lemma_note_frequency_round_trip(n: int, r: int)
    requires
        0 <= n <= 0xffff,
        is_note_of_freq(note_freq(n), r),
    ensures
        note_freq(r) == note_freq(n),
        n <= r,
{
    lemma_note_freq_mono(0, n);
    if r < n {
        lemma_note_freq_mono(r + 1, n);
    }
    lemma_note_freq_mono(n, r);
}

} // verus!
