//! Audio channel sample types.
//!
//! A channel holds one sample of one speaker position.  The integer channel
//! types here saturate at their minimum and maximum instead of wrapping.
use crate::private::Sealed;
use vstd::prelude::*;
use vstd::std_specs::convert::FromSpecImpl;
use vstd::std_specs::ops::{AddSpecImpl, MulSpecImpl, NegSpecImpl, SubSpecImpl};

verus! {

/// Smallest value of a 16-bit channel.
pub const SAMP16_MIN: i16 = -32768i16;

/// Largest value of a 16-bit channel.
pub const SAMP16_MAX: i16 = 32767i16;

/// Smallest value of a 24-bit channel.
pub const SAMP24_MIN: i32 = -8388608i32;

/// Largest value of a 24-bit channel.
pub const SAMP24_MAX: i32 = 8388607i32;

/// Rust's truncating (rounding toward zero) division of `a` by a positive `b`.
pub open spec fn trunc_div(a: int, b: int) -> int
    recommends
        b > 0,
{
    if a >= 0 {
        a / b
    } else {
        -((-a) / b)
    }
}

/// `v` limited to the range `lo..=hi`.
pub open spec fn clamp(v: int, lo: int, hi: int) -> int {
    if v < lo {
        lo
    } else if v > hi {
        hi
    } else {
        v
    }
}

/// `v` limited to the range of a 16-bit channel.
pub open spec fn clamp16(v: int) -> int {
    clamp(v, SAMP16_MIN as int, SAMP16_MAX as int)
}

/// `v` limited to the range of a 24-bit channel.
pub open spec fn clamp24(v: int) -> int {
    clamp(v, SAMP24_MIN as int, SAMP24_MAX as int)
}

/// Saturating sum of two 16-bit samples.
pub open spec fn samp16_add(a: int, b: int) -> int {
    clamp16(a + b)
}

/// Saturating difference of two 16-bit samples.
pub open spec fn samp16_sub(a: int, b: int) -> int {
    clamp16(a - b)
}

/// Fixed-point product of two 16-bit samples, where `32767` stands for one.
pub open spec fn samp16_mul(a: int, b: int) -> int {
    clamp16(trunc_div(a * b, 32767))
}

/// Negation of a 16-bit sample: the bitwise complement, so that the
/// minimum and the maximum swap.
pub open spec fn samp16_neg(a: int) -> int {
    -a - 1
}

/// Saturating sum of two 24-bit samples.
pub open spec fn samp24_add(a: int, b: int) -> int {
    clamp24(a + b)
}

/// Saturating difference of two 24-bit samples.
pub open spec fn samp24_sub(a: int, b: int) -> int {
    clamp24(a - b)
}

/// Fixed-point product of two 24-bit samples, where `8388607` stands for one.
pub open spec fn samp24_mul(a: int, b: int) -> int {
    clamp24(trunc_div(a * b, 8388607))
}

/// Negation of a 24-bit sample: the bitwise complement, so that the
/// minimum and the maximum swap.
pub open spec fn samp24_neg(a: int) -> int {
    -a - 1
}

/// The 24-bit sample that a 16-bit sample `s` widens to: `s` in the upper
/// 16 bits, and below it the upper byte of `s` with its top bit flipped, so
/// that the minimum and the maximum map to the minimum and the maximum.
pub open spec fn widen16(s: int) -> int {
    256 * s + (s / 256 + 128)
}

/// The 16-bit sample that a 24-bit sample `s` narrows to: its upper 16 bits.
pub open spec fn narrow24(s: int) -> int {
    s / 256
}

/// Component of a speaker configuration, such as *front left*, *lfe*, *etc*.
///
/// Each channel type stands for the range *negative one* to *one* by the
/// integers `lo()..=hi()`, with zero as silence.
pub trait Channel: Sized + Copy + Sealed {
    /// The integer value of the sample.
    spec fn value(&self) -> int;

    /// The smallest value (*negative one*).
    spec fn lo() -> int;

    /// The largest value (*one*).
    spec fn hi() -> int;

    /// The value of the sum of two samples of the given values.
    spec fn sum(a: int, b: int) -> int;

    /// The value of the difference of two samples of the given values.
    spec fn diff(a: int, b: int) -> int;

    /// The value of the product of two samples of the given values.
    spec fn prod(a: int, b: int) -> int;

    /// The value of the negation of a sample of the given value.
    spec fn negation(a: int) -> int;

    /// Every sample lies within `lo()..=hi()`, and equal values are equal
    /// samples.
    proof fn lemma_value(a: Self, b: Self)
        ensures
            Self::lo() <= a.value() <= Self::hi(),
            (a.value() == b.value()) == (a == b),
    ;

    /// Minimum value (*negative one*).
    fn min_value() -> (r: Self)
        ensures
            r.value() == Self::lo(),
    ;

    /// Mid value (*zero/silence*).
    fn mid_value() -> (r: Self)
        ensures
            r.value() == 0,
    ;

    /// Maximum value (*one*).
    fn max_value() -> (r: Self)
        ensures
            r.value() == Self::hi(),
    ;

    /// Sum of two samples.
    fn plus(self, rhs: Self) -> (r: Self)
        ensures
            r.value() == Self::sum(self.value(), rhs.value()),
    ;

    /// Difference of two samples.
    fn minus(self, rhs: Self) -> (r: Self)
        ensures
            r.value() == Self::diff(self.value(), rhs.value()),
    ;

    /// Product of two samples.
    fn times(self, rhs: Self) -> (r: Self)
        ensures
            r.value() == Self::prod(self.value(), rhs.value()),
    ;

    /// Negation of a sample.
    fn negate(self) -> (r: Self)
        ensures
            r.value() == Self::negation(self.value()),
    ;

    /// Linear interpolation: `self + t * (rhs - self)`.
    fn lerp(self, rhs: Self, t: Self) -> (r: Self)
        ensures
            r.value() == Self::sum(
                self.value(),
                Self::prod(t.value(), Self::diff(rhs.value(), self.value())),
            ),
    {
        let d = rhs.minus(self);
        let p = t.times(d);
        self.plus(p)
    }
}

/// 16-bit audio channel.
#[derive(Clone, Copy, Debug, PartialEq, Eq, PartialOrd, Structural)]
pub struct Samp16(i16);

/// 24-bit audio channel, stored as its upper 16 bits and its lowest byte.
#[derive(Clone, Copy, Debug, PartialEq, Eq, PartialOrd, Structural)]
pub struct Samp24(i16, u8);

impl View for Samp16 {
    type V = int;

    closed spec fn view(&self) -> int {
        self.0 as int
    }
}

impl View for Samp24 {
    type V = int;

    closed spec fn view(&self) -> int {
        256 * (self.0 as int) + (self.1 as int)
    }
}

impl Samp16 {
    /// The 16-bit channel of value `v` (for `v` in range).
    pub closed spec fn of(v: int) -> Samp16 {
        Samp16(v as i16)
    }

    /// Every 16-bit channel lies within the range of `i16`, a value in
    /// range makes the channel of that value, and equal values are equal
    /// channels.
    pub broadcast proof fn lemma_of(v: int)
        requires
            SAMP16_MIN <= v <= SAMP16_MAX,
        ensures
            #[trigger] Samp16::of(v)@ == v,
    {
    }

    /// Every 16-bit channel lies within the range of `i16` and is the
    /// channel of its value.
    pub broadcast proof fn lemma_view(s: Samp16)
        ensures
            SAMP16_MIN <= #[trigger] s@ <= SAMP16_MAX,
            Samp16::of(s@) == s,
    {
    }

    /// Create a new 16-bit channel value.
    pub fn new(value: i16) -> (r: Samp16)
        ensures
            r@ == value as int,
    {
        Samp16(value)
    }

    /// The sample as an `i16`.
    pub fn to_i16(self) -> (r: i16)
        ensures
            r as int == self@,
    {
        self.0
    }
}

impl Samp24 {
    /// The 24-bit channel of value `v` (for `v` in range).
    pub closed spec fn of(v: int) -> Samp24 {
        Samp24((v / 256) as i16, (v % 256) as u8)
    }

    /// A value in range makes the 24-bit channel of that value.
    pub broadcast proof fn lemma_of(v: int)
        requires
            SAMP24_MIN <= v <= SAMP24_MAX,
        ensures
            #[trigger] Samp24::of(v)@ == v,
    {
    }

    /// Every 24-bit channel lies within the 24-bit range and is the channel
    /// of its value.
    pub broadcast proof fn lemma_view(s: Samp24)
        ensures
            SAMP24_MIN <= #[trigger] s@ <= SAMP24_MAX,
            Samp24::of(s@) == s,
    {
        let hi = s.0 as int;
        let lo = s.1 as int;
        assert((256 * hi + lo) / 256 == hi && (256 * hi + lo) % 256 == lo) by (nonlinear_arith)
            requires
                0 <= lo < 256,
        ;
    }

    /// Create a new 24-bit channel value, saturating `value` to the 24-bit
    /// range.
    pub fn new(value: i32) -> (r: Samp24)
        ensures
            r@ == clamp24(value as int),
    {
        let value: i32 = if value < SAMP24_MIN {
            SAMP24_MIN
        } else if value > SAMP24_MAX {
            SAMP24_MAX
        } else {
            value
        };
        let hi: i16 = (value >> 8u32) as i16;
        let lo: u8 = value as u8;
        assert(256 * (hi as int) + (lo as int) == value as int) by (bit_vector)
            requires
                -8388608i32 <= value <= 8388607i32,
                hi == (value >> 8u32) as i16,
                lo == value as u8,
        ;
        Samp24(hi, lo)
    }

    /// The sample as an `i32`.
    pub fn to_i32(self) -> (r: i32)
        ensures
            r as int == self@,
    {
        let hi: i16 = self.0;
        let lo: u8 = self.1;
        let r: i32 = ((hi as i32) << 8u32) | (lo as i32);
        assert(r as int == 256 * (hi as int) + (lo as int)) by (bit_vector)
            requires
                r == ((hi as i32) << 8u32) | (lo as i32),
        ;
        r
    }
}


impl Samp16 {
    fn saturating_add(self, rhs: Samp16) -> (r: Samp16)
        ensures
            r == Samp16::of(samp16_add(self@, rhs@)),
    {
        let v: i32 = self.0 as i32 + rhs.0 as i32;
        let v: i32 = if v < SAMP16_MIN as i32 {
            SAMP16_MIN as i32
        } else if v > SAMP16_MAX as i32 {
            SAMP16_MAX as i32
        } else {
            v
        };
        Samp16(v as i16)
    }

    fn saturating_sub(self, rhs: Samp16) -> (r: Samp16)
        ensures
            r == Samp16::of(samp16_sub(self@, rhs@)),
    {
        let v: i32 = self.0 as i32 - rhs.0 as i32;
        let v: i32 = if v < SAMP16_MIN as i32 {
            SAMP16_MIN as i32
        } else if v > SAMP16_MAX as i32 {
            SAMP16_MAX as i32
        } else {
            v
        };
        Samp16(v as i16)
    }

    fn fixed_mul(self, rhs: Samp16) -> (r: Samp16)
        ensures
            r == Samp16::of(samp16_mul(self@, rhs@)),
    {
        let l: i32 = self.0 as i32;
        let r: i32 = rhs.0 as i32;
        assert(-1073709056 <= l * r <= 1073741824) by (nonlinear_arith)
            requires
                -32768 <= l <= 32767,
                -32768 <= r <= 32767,
        ;
        let v: i32 = (l * r) / 32767;
        let v: i32 = if v < SAMP16_MIN as i32 {
            SAMP16_MIN as i32
        } else if v > SAMP16_MAX as i32 {
            SAMP16_MAX as i32
        } else {
            v
        };
        Samp16(v as i16)
    }

    fn complement(self) -> (r: Samp16)
        ensures
            r == Samp16::of(samp16_neg(self@)),
    {
        let s: i16 = self.0;
        let v: i16 = (u16::MAX - s as u16) as i16;
        assert(v as int == -(s as int) - 1) by (bit_vector)
            requires
                v == (u16::MAX - s as u16) as i16,
        ;
        Samp16(v)
    }
}

impl Samp24 {
    fn saturating_add(self, rhs: Samp24) -> (r: Samp24)
        ensures
            r == Samp24::of(samp24_add(self@, rhs@)),
    {
        let a: i32 = self.to_i32();
        let b: i32 = rhs.to_i32();
        proof {
            Samp24::lemma_view(self);
            Samp24::lemma_view(rhs);
        }
        let r = Samp24::new(a + b);
        proof {
            Samp24::lemma_view(r);
        }
        r
    }

    fn saturating_sub(self, rhs: Samp24) -> (r: Samp24)
        ensures
            r == Samp24::of(samp24_sub(self@, rhs@)),
    {
        let a: i32 = self.to_i32();
        let b: i32 = rhs.to_i32();
        proof {
            Samp24::lemma_view(self);
            Samp24::lemma_view(rhs);
        }
        let r = Samp24::new(a - b);
        proof {
            Samp24::lemma_view(r);
        }
        r
    }

    fn fixed_mul(self, rhs: Samp24) -> (r: Samp24)
        ensures
            r == Samp24::of(samp24_mul(self@, rhs@)),
    {
        let l: i64 = self.to_i32() as i64;
        let r: i64 = rhs.to_i32() as i64;
        proof {
            Samp24::lemma_view(self);
            Samp24::lemma_view(rhs);
        }
        assert(-70368735789056 <= l * r <= 70368744177664) by (nonlinear_arith)
            requires
                -8388608 <= l <= 8388607,
                -8388608 <= r <= 8388607,
        ;
        let v: i64 = (l * r) / 8388607;
        let v: i64 = if v < SAMP24_MIN as i64 {
            SAMP24_MIN as i64
        } else if v > SAMP24_MAX as i64 {
            SAMP24_MAX as i64
        } else {
            v
        };
        let out = Samp24::new(v as i32);
        proof {
            Samp24::lemma_view(out);
        }
        out
    }

    fn complement(self) -> (r: Samp24)
        ensures
            r == Samp24::of(samp24_neg(self@)),
    {
        let s: i32 = self.to_i32();
        proof {
            Samp24::lemma_view(self);
        }
        let v: i32 = (u32::MAX - s as u32) as i32;
        assert(v as int == -(s as int) - 1) by (bit_vector)
            requires
                v == (u32::MAX - s as u32) as i32,
        ;
        let r = Samp24::new(v);
        proof {
            Samp24::lemma_view(r);
        }
        r
    }
}

impl Default for Samp16 {
    fn default() -> (r: Samp16)
        ensures
            r@ == 0,
    {
        Samp16(0)
    }
}

impl Default for Samp24 {
    fn default() -> (r: Samp24)
        ensures
            r@ == 0,
    {
        Samp24(0, 0)
    }
}

impl From<Samp16> for i16 {
    fn from(ch: Samp16) -> (r: i16)
        ensures
            r == ch@,
    {
        ch.0
    }
}

impl FromSpecImpl<Samp16> for i16 {
    open spec fn obeys_from_spec() -> bool {
        true
    }

    open spec fn from_spec(ch: Samp16) -> i16 {
        ch@ as i16
    }
}

impl From<Samp24> for i32 {
    fn from(ch: Samp24) -> (r: i32)
        ensures
            r == ch@,
    {
        ch.to_i32()
    }
}

impl FromSpecImpl<Samp24> for i32 {
    open spec fn obeys_from_spec() -> bool {
        true
    }

    open spec fn from_spec(ch: Samp24) -> i32 {
        ch@ as i32
    }
}

impl From<Samp24> for Samp16 {
    fn from(ch: Samp24) -> (r: Samp16)
        ensures
            r@ == narrow24(ch@),
    {
        proof {
            Samp24::lemma_view(ch);
            assert(ch@ / 256 == ch.0 as int) by (nonlinear_arith)
                requires
                    ch@ == 256 * (ch.0 as int) + (ch.1 as int),
                    0 <= ch.1 < 256,
            ;
        }
        Samp16(ch.0)
    }
}

impl FromSpecImpl<Samp24> for Samp16 {
    open spec fn obeys_from_spec() -> bool {
        true
    }

    open spec fn from_spec(ch: Samp24) -> Samp16 {
        Samp16::of(narrow24(ch@))
    }
}

impl From<Samp16> for Samp24 {
    fn from(ch: Samp16) -> (r: Samp24)
        ensures
            r@ == widen16(ch@),
    {
        let hi: i16 = i16::from(ch);
        let lo: u8 = ((hi >> 8u32) as u8) ^ 0b1000_0000u8;
        assert(lo as int == (hi >> 8u32) as int + 128) by (bit_vector)
            requires
                lo == ((hi >> 8u32) as u8) ^ 0b1000_0000u8,
        ;
        assert((hi >> 8u32) as int == (hi as int) / 256) by (bit_vector);
        let r = Samp24(hi, lo);
        proof {
            Samp24::lemma_view(r);
        }
        r
    }
}

impl FromSpecImpl<Samp16> for Samp24 {
    open spec fn obeys_from_spec() -> bool {
        true
    }

    open spec fn from_spec(ch: Samp16) -> Samp24 {
        Samp24::of(widen16(ch@))
    }
}


impl std::ops::Add<Samp16> for Samp16 {
    type Output = Samp16;

    fn add(self, rhs: Samp16) -> (r: Samp16)
        ensures
            r@ == samp16_add(self@, rhs@),
    {
        let r = self.saturating_add(rhs);
        proof {
            broadcast use Samp16::lemma_of, Samp16::lemma_view;
            assert(SAMP16_MIN <= clamp16(self@ + rhs@) <= SAMP16_MAX);
        }
        r
    }
}

impl AddSpecImpl<Samp16> for Samp16 {
    open spec fn obeys_add_spec() -> bool {
        true
    }

    open spec fn add_req(self, rhs: Samp16) -> bool {
        true
    }

    open spec fn add_spec(self, rhs: Samp16) -> Samp16 {
        Samp16::of(samp16_add(self@, rhs@))
    }
}

impl std::ops::Sub<Samp16> for Samp16 {
    type Output = Samp16;

    fn sub(self, rhs: Samp16) -> (r: Samp16)
        ensures
            r@ == samp16_sub(self@, rhs@),
    {
        let r = self.saturating_sub(rhs);
        proof {
            broadcast use Samp16::lemma_of, Samp16::lemma_view;
            assert(SAMP16_MIN <= clamp16(self@ - rhs@) <= SAMP16_MAX);
        }
        r
    }
}

impl SubSpecImpl<Samp16> for Samp16 {
    open spec fn obeys_sub_spec() -> bool {
        true
    }

    open spec fn sub_req(self, rhs: Samp16) -> bool {
        true
    }

    open spec fn sub_spec(self, rhs: Samp16) -> Samp16 {
        Samp16::of(samp16_sub(self@, rhs@))
    }
}

impl std::ops::Mul<Samp16> for Samp16 {
    type Output = Samp16;

    fn mul(self, rhs: Samp16) -> (r: Samp16)
        ensures
            r@ == samp16_mul(self@, rhs@),
    {
        let r = self.fixed_mul(rhs);
        proof {
            broadcast use Samp16::lemma_of, Samp16::lemma_view;
            assert(SAMP16_MIN <= samp16_mul(self@, rhs@) <= SAMP16_MAX);
        }
        r
    }
}

impl MulSpecImpl<Samp16> for Samp16 {
    open spec fn obeys_mul_spec() -> bool {
        true
    }

    open spec fn mul_req(self, rhs: Samp16) -> bool {
        true
    }

    open spec fn mul_spec(self, rhs: Samp16) -> Samp16 {
        Samp16::of(samp16_mul(self@, rhs@))
    }
}

impl std::ops::Neg for Samp16 {
    type Output = Samp16;

    fn neg(self) -> (r: Samp16)
        ensures
            r@ == samp16_neg(self@),
    {
        let r = self.complement();
        proof {
            broadcast use Samp16::lemma_of, Samp16::lemma_view;
            assert(SAMP16_MIN <= samp16_neg(self@) <= SAMP16_MAX);
        }
        r
    }
}

impl NegSpecImpl for Samp16 {
    open spec fn obeys_neg_spec() -> bool {
        true
    }

    open spec fn neg_req(self) -> bool {
        true
    }

    open spec fn neg_spec(self) -> Samp16 {
        Samp16::of(samp16_neg(self@))
    }
}

impl std::ops::Add<Samp24> for Samp24 {
    type Output = Samp24;

    fn add(self, rhs: Samp24) -> (r: Samp24)
        ensures
            r@ == samp24_add(self@, rhs@),
    {
        let r = self.saturating_add(rhs);
        proof {
            broadcast use Samp24::lemma_of, Samp24::lemma_view;
            assert(SAMP24_MIN <= clamp24(self@ + rhs@) <= SAMP24_MAX);
        }
        r
    }
}

impl AddSpecImpl<Samp24> for Samp24 {
    open spec fn obeys_add_spec() -> bool {
        true
    }

    open spec fn add_req(self, rhs: Samp24) -> bool {
        true
    }

    open spec fn add_spec(self, rhs: Samp24) -> Samp24 {
        Samp24::of(samp24_add(self@, rhs@))
    }
}

impl std::ops::Sub<Samp24> for Samp24 {
    type Output = Samp24;

    fn sub(self, rhs: Samp24) -> (r: Samp24)
        ensures
            r@ == samp24_sub(self@, rhs@),
    {
        let r = self.saturating_sub(rhs);
        proof {
            broadcast use Samp24::lemma_of, Samp24::lemma_view;
            assert(SAMP24_MIN <= clamp24(self@ - rhs@) <= SAMP24_MAX);
        }
        r
    }
}

impl SubSpecImpl<Samp24> for Samp24 {
    open spec fn obeys_sub_spec() -> bool {
        true
    }

    open spec fn sub_req(self, rhs: Samp24) -> bool {
        true
    }

    open spec fn sub_spec(self, rhs: Samp24) -> Samp24 {
        Samp24::of(samp24_sub(self@, rhs@))
    }
}

impl std::ops::Mul<Samp24> for Samp24 {
    type Output = Samp24;

    fn mul(self, rhs: Samp24) -> (r: Samp24)
        ensures
            r@ == samp24_mul(self@, rhs@),
    {
        let r = self.fixed_mul(rhs);
        proof {
            broadcast use Samp24::lemma_of, Samp24::lemma_view;
            assert(SAMP24_MIN <= samp24_mul(self@, rhs@) <= SAMP24_MAX);
        }
        r
    }
}

impl MulSpecImpl<Samp24> for Samp24 {
    open spec fn obeys_mul_spec() -> bool {
        true
    }

    open spec fn mul_req(self, rhs: Samp24) -> bool {
        true
    }

    open spec fn mul_spec(self, rhs: Samp24) -> Samp24 {
        Samp24::of(samp24_mul(self@, rhs@))
    }
}

impl std::ops::Neg for Samp24 {
    type Output = Samp24;

    fn neg(self) -> (r: Samp24)
        ensures
            r@ == samp24_neg(self@),
    {
        let r = self.complement();
        proof {
            broadcast use Samp24::lemma_of, Samp24::lemma_view;
            assert(SAMP24_MIN <= samp24_neg(self@) <= SAMP24_MAX);
        }
        r
    }
}

impl NegSpecImpl for Samp24 {
    open spec fn obeys_neg_spec() -> bool {
        true
    }

    open spec fn neg_req(self) -> bool {
        true
    }

    open spec fn neg_spec(self) -> Samp24 {
        Samp24::of(samp24_neg(self@))
    }
}


impl Channel for Samp16 {
    open spec fn value(&self) -> int {
        self@
    }

    open spec fn lo() -> int {
        SAMP16_MIN as int
    }

    open spec fn hi() -> int {
        SAMP16_MAX as int
    }

    open spec fn sum(a: int, b: int) -> int {
        samp16_add(a, b)
    }

    open spec fn diff(a: int, b: int) -> int {
        samp16_sub(a, b)
    }

    open spec fn prod(a: int, b: int) -> int {
        samp16_mul(a, b)
    }

    open spec fn negation(a: int) -> int {
        samp16_neg(a)
    }

    proof fn lemma_value(a: Samp16, b: Samp16) {
        Samp16::lemma_view(a);
        Samp16::lemma_view(b);
    }

    fn min_value() -> (r: Samp16) {
        Samp16(SAMP16_MIN)
    }

    fn mid_value() -> (r: Samp16) {
        Samp16(0)
    }

    fn max_value() -> (r: Samp16) {
        Samp16(SAMP16_MAX)
    }

    fn plus(self, rhs: Samp16) -> (r: Samp16) {
        let r = self.saturating_add(rhs);
        proof {
            broadcast use Samp16::lemma_of, Samp16::lemma_view;
            assert(SAMP16_MIN <= clamp16(self@ + rhs@) <= SAMP16_MAX);
        }
        r
    }

    fn minus(self, rhs: Samp16) -> (r: Samp16) {
        let r = self.saturating_sub(rhs);
        proof {
            broadcast use Samp16::lemma_of, Samp16::lemma_view;
            assert(SAMP16_MIN <= clamp16(self@ - rhs@) <= SAMP16_MAX);
        }
        r
    }

    fn times(self, rhs: Samp16) -> (r: Samp16) {
        let r = self.fixed_mul(rhs);
        proof {
            broadcast use Samp16::lemma_of, Samp16::lemma_view;
            assert(SAMP16_MIN <= samp16_mul(self@, rhs@) <= SAMP16_MAX);
        }
        r
    }

    fn negate(self) -> (r: Samp16) {
        let r = self.complement();
        proof {
            broadcast use Samp16::lemma_of, Samp16::lemma_view;
            assert(SAMP16_MIN <= samp16_neg(self@) <= SAMP16_MAX);
        }
        r
    }
}

impl Channel for Samp24 {
    open spec fn value(&self) -> int {
        self@
    }

    open spec fn lo() -> int {
        SAMP24_MIN as int
    }

    open spec fn hi() -> int {
        SAMP24_MAX as int
    }

    open spec fn sum(a: int, b: int) -> int {
        samp24_add(a, b)
    }

    open spec fn diff(a: int, b: int) -> int {
        samp24_sub(a, b)
    }

    open spec fn prod(a: int, b: int) -> int {
        samp24_mul(a, b)
    }

    open spec fn negation(a: int) -> int {
        samp24_neg(a)
    }

    proof fn lemma_value(a: Samp24, b: Samp24) {
        Samp24::lemma_view(a);
        Samp24::lemma_view(b);
    }

    fn min_value() -> (r: Samp24) {
        Samp24(-32768, 0)
    }

    fn mid_value() -> (r: Samp24) {
        Samp24(0, 0)
    }

    fn max_value() -> (r: Samp24) {
        Samp24(32767, 255)
    }

    fn plus(self, rhs: Samp24) -> (r: Samp24) {
        let r = self.saturating_add(rhs);
        proof {
            broadcast use Samp24::lemma_of, Samp24::lemma_view;
            assert(SAMP24_MIN <= clamp24(self@ + rhs@) <= SAMP24_MAX);
        }
        r
    }

    fn minus(self, rhs: Samp24) -> (r: Samp24) {
        let r = self.saturating_sub(rhs);
        proof {
            broadcast use Samp24::lemma_of, Samp24::lemma_view;
            assert(SAMP24_MIN <= clamp24(self@ - rhs@) <= SAMP24_MAX);
        }
        r
    }

    fn times(self, rhs: Samp24) -> (r: Samp24) {
        let r = self.fixed_mul(rhs);
        proof {
            broadcast use Samp24::lemma_of, Samp24::lemma_view;
            assert(SAMP24_MIN <= samp24_mul(self@, rhs@) <= SAMP24_MAX);
        }
        r
    }

    fn negate(self) -> (r: Samp24) {
        let r = self.complement();
        proof {
            broadcast use Samp24::lemma_of, Samp24::lemma_view;
            assert(SAMP24_MIN <= samp24_neg(self@) <= SAMP24_MAX);
        }
        r
    }
}

impl std::ops::AddAssign<Samp16> for Samp16 {
    fn add_assign(&mut self, rhs: Samp16)
        ensures
            *final(self) == Samp16::of(samp16_add(old(self)@, rhs@)),
    {
        *self = self.saturating_add(rhs);
    }
}

impl std::ops::SubAssign<Samp16> for Samp16 {
    fn sub_assign(&mut self, rhs: Samp16)
        ensures
            *final(self) == Samp16::of(samp16_sub(old(self)@, rhs@)),
    {
        *self = self.saturating_sub(rhs);
    }
}

impl std::ops::MulAssign<Samp16> for Samp16 {
    fn mul_assign(&mut self, rhs: Samp16)
        ensures
            *final(self) == Samp16::of(samp16_mul(old(self)@, rhs@)),
    {
        *self = self.fixed_mul(rhs);
    }
}

impl std::ops::AddAssign<Samp24> for Samp24 {
    fn add_assign(&mut self, rhs: Samp24)
        ensures
            *final(self) == Samp24::of(samp24_add(old(self)@, rhs@)),
    {
        *self = self.saturating_add(rhs);
    }
}

impl std::ops::SubAssign<Samp24> for Samp24 {
    fn sub_assign(&mut self, rhs: Samp24)
        ensures
            *final(self) == Samp24::of(samp24_sub(old(self)@, rhs@)),
    {
        *self = self.saturating_sub(rhs);
    }
}

impl std::ops::MulAssign<Samp24> for Samp24 {
    fn mul_assign(&mut self, rhs: Samp24)
        ensures
            *final(self) == Samp24::of(samp24_mul(old(self)@, rhs@)),
    {
        *self = self.fixed_mul(rhs);
    }
}

/// Converting a 16-bit channel to `i16` and back gives the same channel,
/// and creating one from an `i16` keeps that value.
pub proof fn law_samp16_roundtrip(s: Samp16, v: i16)
    ensures
        Samp16::of(s@) == s,
        Samp16::of(v as int)@ == v,
{
    Samp16::lemma_view(s);
}

/// Converting a 24-bit channel to `i32` and back gives the same channel,
/// and creating one from an `i32` keeps that value, saturated.
pub proof fn law_samp24_roundtrip(s: Samp24, v: i32)
    ensures
        Samp24::of(clamp24(s@)) == s,
        Samp24::of(clamp24(v as int))@ == clamp24(v as int),
{
    Samp24::lemma_view(s);
    Samp24::lemma_of(clamp24(v as int));
}

/// Widening a 16-bit channel to 24 bits and narrowing it back gives the
/// same channel; the minimum, the maximum and silence widen to the minimum,
/// the maximum and `128`.
pub proof fn law_widen_then_narrow(s: Samp16)
    ensures
        SAMP24_MIN <= widen16(s@) <= SAMP24_MAX,
        Samp16::of(narrow24(widen16(s@))) == s,
        widen16(SAMP16_MIN as int) == SAMP24_MIN,
        widen16(SAMP16_MAX as int) == SAMP24_MAX,
        widen16(0) == 128,
{
    Samp16::lemma_view(s);
    let v = s@;
    assert(v / 256 + 128 >= 0 && v / 256 + 128 < 256) by (nonlinear_arith)
        requires
            -32768 <= v <= 32767,
    ;
    assert((256 * v + (v / 256 + 128)) / 256 == v) by (nonlinear_arith)
        requires
            0 <= v / 256 + 128 < 256,
    ;
}

/// Narrowing keeps the minimum, silence and the maximum.
pub proof fn law_narrow_extremes()
    ensures
        narrow24(SAMP24_MIN as int) == SAMP16_MIN,
        narrow24(0) == 0,
        narrow24(SAMP24_MAX as int) == SAMP16_MAX,
{
}

/// Negation swaps the minimum and the maximum, stays in range, and undoes
/// itself.
pub proof fn law_negation(a: Samp16, b: Samp24)
    ensures
        samp16_neg(SAMP16_MAX as int) == SAMP16_MIN,
        samp16_neg(SAMP16_MIN as int) == SAMP16_MAX,
        SAMP16_MIN <= samp16_neg(a@) <= SAMP16_MAX,
        samp16_neg(samp16_neg(a@)) == a@,
        samp24_neg(SAMP24_MAX as int) == SAMP24_MIN,
        samp24_neg(SAMP24_MIN as int) == SAMP24_MAX,
        SAMP24_MIN <= samp24_neg(b@) <= SAMP24_MAX,
        samp24_neg(samp24_neg(b@)) == b@,
{
    Samp16::lemma_view(a);
    Samp24::lemma_view(b);
}

/// Sums and products do not depend on the order of the operands; silence
/// added to a sample leaves it unchanged, and a sample less itself is
/// silence.
pub proof fn law_sum_product(a: Samp16, b: Samp16, c: Samp24, d: Samp24)
    ensures
        samp16_add(a@, b@) == samp16_add(b@, a@),
        samp16_mul(a@, b@) == samp16_mul(b@, a@),
        samp16_add(a@, 0) == a@,
        samp16_sub(a@, a@) == 0,
        samp24_add(c@, d@) == samp24_add(d@, c@),
        samp24_mul(c@, d@) == samp24_mul(d@, c@),
        samp24_add(c@, 0) == c@,
        samp24_sub(c@, c@) == 0,
{
    Samp16::lemma_view(a);
    Samp24::lemma_view(c);
    assert(a@ * b@ == b@ * a@) by (nonlinear_arith);
    assert(c@ * d@ == d@ * c@) by (nonlinear_arith);
}

/// The maximum stands for one: multiplying by it leaves a sample unchanged,
/// and multiplying by silence gives silence.
pub proof fn law_max_is_one(a: Samp16, b: Samp24)
    ensures
        samp16_mul(a@, SAMP16_MAX as int) == a@,
        samp16_mul(a@, 0) == 0,
        samp24_mul(b@, SAMP24_MAX as int) == b@,
        samp24_mul(b@, 0) == 0,
{
    Samp16::lemma_view(a);
    Samp24::lemma_view(b);
    let x = a@;
    let y = b@;
    assert(x * 32767 / 32767 == x && (-(x * 32767)) / 32767 == -x) by (nonlinear_arith);
    assert(y * 8388607 / 8388607 == y && (-(y * 8388607)) / 8388607 == -y) by (nonlinear_arith);
    assert(x * 0 == 0 && y * 0 == 0) by (nonlinear_arith);
}

} // verus!
