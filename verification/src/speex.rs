//! The integer side of the Speex resampler: the ratio of the rates, the
//! size of the filter, and the position of each channel in its input.
//!
//! The filter coefficients and the samples themselves are floating point
//! and are handled by the caller; everything here decides *which* input
//! samples and *which* filter phase each output sample uses.
use crate::ratio::{greatest_common_divisor, reduced_den, reduced_num};
use vstd::arithmetic::div_mod::{lemma_fundamental_div_mod, lemma_fundamental_div_mod_converse};
use vstd::prelude::*;

verus! {

/// Success.
pub const RESAMPLER_ERR_SUCCESS: usize = 0;

/// The resampler has no filter to run.
pub const RESAMPLER_ERR_ALLOC_FAILED: usize = 1;

/// A rate or a ratio of zero was given.
pub const RESAMPLER_ERR_INVALID_ARG: usize = 3;

/// An intermediate value did not fit in 32 bits.
pub const RESAMPLER_ERR_OVERFLOW: usize = 5;

/// Whether `_muldiv(value, mul, div)` fits: the remainder of `value / div`
/// times `mul`, and the result `value * mul / div`, both fit in 32 bits.
pub open spec fn muldiv_fits(value: int, mul: int, div: int) -> bool {
    &&& (value % div) * mul <= u32::MAX
    &&& value * mul / div <= u32::MAX
}

/// Compute `value * mul / div` (rounded down) without a 64-bit
/// intermediate.  On success stores it in `result` and returns
/// `RESAMPLER_ERR_SUCCESS`; when it does not fit leaves `result` alone and
/// returns `RESAMPLER_ERR_OVERFLOW`.
pub fn _muldiv(result: &mut u32, value: u32, mul: u32, div: u32) -> (r: usize)
    requires
        mul != 0,
        div != 0,
    ensures
        muldiv_fits(value as int, mul as int, div as int) ==> r == RESAMPLER_ERR_SUCCESS
            && *final(result) as int == value as int * mul as int / div as int,
        !muldiv_fits(value as int, mul as int, div as int) ==> r == RESAMPLER_ERR_OVERFLOW
            && *final(result) == *old(result),
{
    let major: u32 = value / div;
    let remainder: u32 = value % div;
    let ghost v = value as int;
    let ghost m = mul as int;
    let ghost d = div as int;
    let ghost q = major as int;
    let ghost rem = remainder as int;
    proof {
        lemma_fundamental_div_mod(v, d);
        assert(v == q * d + rem) by (nonlinear_arith)
            requires
                v == d * (v / d) + (v % d),
                q == v / d,
                rem == v % d,
        ;
        // value * mul / div == major * mul + remainder * mul / div
        let t = rem * m;
        lemma_fundamental_div_mod(t, d);
        let tq = t / d;
        let tr = t % d;
        assert(v * m == (q * m + tq) * d + tr) by (nonlinear_arith)
            requires
                v == q * d + rem,
                t == rem * m,
                t == d * tq + tr,
        ;
        lemma_fundamental_div_mod_converse(v * m, d, q * m + tq, tr);
        assert(tq >= 0) by (nonlinear_arith)
            requires
                t >= 0,
                d > 0,
                tq == t / d,
        ;
        assert(rem <= (u32::MAX as int) / m <==> rem * m <= u32::MAX) by (nonlinear_arith)
            requires
                m > 0,
                rem >= 0,
        ;
        assert(q <= (u32::MAX as int) / m <==> q * m <= u32::MAX) by (nonlinear_arith)
            requires
                m > 0,
                q >= 0,
        ;
    }
    if remainder > 4294967295u32 / mul || major > 4294967295u32 / mul || major * mul
        > 4294967295u32 - remainder * mul / div {
        RESAMPLER_ERR_OVERFLOW
    } else {
        *result = remainder * mul / div + major * mul;
        RESAMPLER_ERR_SUCCESS
    }
}

/// Greatest common divisor by Euclid's algorithm.
pub fn gcd(a: u32, b: u32) -> (r: u32)
    ensures
        r as nat == greatest_common_divisor(a as nat, b as nat),
{
    let mut a = a;
    let mut b = b;
    let ghost g = greatest_common_divisor(a as nat, b as nat);
    while b != 0
        invariant
            greatest_common_divisor(a as nat, b as nat) == g,
        decreases b,
    {
        let temp = a;
        a = b;
        b = temp % b;
    }
    a
}

/// Filter length of the resampler's quality setting.
pub const BASE_LENGTH: u32 = 160;

/// Oversampling of the interpolated filter table of the quality setting.
pub const BASE_OVERSAMPLE: u32 = 16;

/// Samples held back per channel besides the filter.
pub const BUFFER_SIZE: u32 = 160;

/// Filter length before rounding: the base length, stretched by the ratio
/// when downsampling (left at the base length when that does not fit).
pub open spec fn stretched_len(num: int, den: int) -> int {
    if num > den && muldiv_fits(BASE_LENGTH as int, num, den) {
        BASE_LENGTH * num / den
    } else {
        BASE_LENGTH as int
    }
}

/// Filter length for the ratio `num / den`: a multiple of eight, rounded up
/// from the stretched length.
pub open spec fn plan_filt_len(num: int, den: int) -> int {
    if num > den {
        (stretched_len(num, den) - 1) / 8 * 8 + 8
    } else {
        BASE_LENGTH as int
    }
}

/// Oversampling for the ratio `num / den`: halved for each power of two,
/// up to sixteen, by which the input rate exceeds twice the output rate.
pub open spec fn plan_oversample(num: int, den: int) -> int {
    if num <= den {
        16
    } else if 16 * den < num {
        1
    } else if 8 * den < num {
        2
    } else if 4 * den < num {
        4
    } else if 2 * den < num {
        8
    } else {
        16
    }
}

/// Oversampling after halving it for each `j` in `1..x` with
/// `2^j * den < num`.
pub open spec fn oversample_after(num: int, den: int, x: int) -> int
    decreases x,
{
    if x <= 1 {
        16
    } else {
        let o = oversample_after(num, den, x - 1);
        let p: int = if x - 1 == 1 {
            2
        } else if x - 1 == 2 {
            4
        } else if x - 1 == 3 {
            8
        } else {
            16
        };
        if p * den < num {
            o / 2
        } else {
            o
        }
    }
}

/// Whether the filter for `num / den` is a full table of `den` phases
/// rather than an oversampled table that is interpolated.
pub open spec fn plan_use_direct(num: int, den: int) -> bool {
    let len = plan_filt_len(num, den);
    &&& len * den <= len * plan_oversample(num, den) + 8
    &&& 536870911int / den >= len
}

/// Number of filter coefficients for `num / den`.
pub open spec fn plan_table_len(num: int, den: int) -> int {
    let len = plan_filt_len(num, den);
    if plan_use_direct(num, den) {
        len * den
    } else {
        len * plan_oversample(num, den) + 8
    }
}

/// The filter for `num / den` can be sized in 32 bits.
pub open spec fn plan_fits(num: int, den: int) -> bool {
    let len = plan_filt_len(num, den);
    &&& 0 < num <= u32::MAX
    &&& 0 < den <= u32::MAX
    &&& num > den ==> 16 * den <= u32::MAX && stretched_len(num, den) <= u32::MAX - 7
    &&& len * den <= u32::MAX
    &&& len * plan_oversample(num, den) + 8 <= u32::MAX
    &&& len - 1 + BUFFER_SIZE <= u32::MAX
}

/// The filter is at least eight samples long, so a ratio whose filter fits
/// has a denominator below a quarter of the 32-bit range.
pub proof fn lemma_plan_len_bounds(num: int, den: int)
    requires
        plan_fits(num, den),
    ensures
        plan_filt_len(num, den) >= 8,
        8 * den <= u32::MAX,
{
    if num > den {
        let x = stretched_len(num, den);
        assert(x >= 1) by (nonlinear_arith)
            requires
                x == stretched_len(num, den),
                num > den,
                den > 0,
        ;
        assert((x - 1) / 8 * 8 + 8 >= 8) by (nonlinear_arith)
            requires
                x >= 1,
        ;
    }
    let len = plan_filt_len(num, den);
    assert(8 * den <= len * den) by (nonlinear_arith)
        requires
            len >= 8,
            den > 0,
    ;
}

/// Whether the filter for the ratio `num / den` can be sized in 32 bits;
/// a resampler can only be made for, or moved to, such a ratio.
pub fn filter_fits(num: u32, den: u32) -> (r: bool)
    ensures
        r == plan_fits(num as int, den as int),
{
    if num == 0 || den == 0 {
        return false;
    }
    let n: u64 = num as u64;
    let d: u64 = den as u64;
    let mut len: u64 = 160;
    let mut over: u64 = 16;
    if num > den {
        if 16 * d > 4294967295u64 {
            return false;
        }
        let mut x: u32 = BASE_LENGTH;
        let _ = _muldiv(&mut x, BASE_LENGTH, num, den);
        assert(x == stretched_len(num as int, den as int));
        if x as u64 > 4294967288u64 {
            return false;
        }
        assert(x >= 160) by (nonlinear_arith)
            requires
                x == stretched_len(num as int, den as int),
                num > den,
                den > 0,
        ;
        len = (x as u64 - 1) / 8 * 8 + 8;
        over = if 16 * d < n {
            1
        } else if 8 * d < n {
            2
        } else if 4 * d < n {
            4
        } else if 2 * d < n {
            8
        } else {
            16
        };
    }
    assert(len == plan_filt_len(num as int, den as int));
    assert(over == plan_oversample(num as int, den as int));
    assert(len * d <= 18446744073709551615u64) by (nonlinear_arith)
        requires
            len < 4294967296u64,
            d < 4294967296u64,
    ;
    len * d <= 4294967295u64 && len * over + 8 <= 4294967295u64 && len + 159 <= 4294967295u64
}

/// The larger of `a` and `b`.
pub open spec fn max_int(a: int, b: int) -> int {
    if a < b {
        b
    } else {
        a
    }
}

/// A channel's fraction `v`, in units of `1 / old_den`, moved to units of
/// `1 / den`, and kept below one input sample.
pub open spec fn rescale(v: int, den: int, old_den: int) -> int {
    let x = v * den / old_den;
    if x >= den {
        den - 1
    } else {
        x
    }
}

/// A channel's fraction `v` moved from units of `1 / old_den` to units of
/// `1 / den` where that fits in 32 bits, left as it is where it does not,
/// and kept below one input sample either way.
pub open spec fn rescale_or_keep(v: int, den: int, old_den: int) -> int {
    if muldiv_fits(v, den, old_den) {
        rescale(v, den, old_den)
    } else if v >= den {
        den - 1
    } else {
        v
    }
}

/// Position of a channel in its input, in units of `1 / den`.
pub open spec fn position(last_sample: int, samp_frac_num: int, den: int) -> int {
    last_sample * den + samp_frac_num
}

/// State of a multi-channel resampler: the rates, the filter's size, and
/// for each channel the position of the next output sample in the input.
#[derive(Debug)]
pub struct ResamplerState {
    /// Input sampling rate, in Hz.
    pub in_rate: u32,
    /// Output sampling rate, in Hz.
    pub out_rate: u32,
    /// Numerator of the reduced ratio of input to output samples.
    pub num_rate: u32,
    /// Denominator of the reduced ratio of input to output samples.
    pub den_rate: u32,
    /// Number of channels.
    pub nb_channels: u32,
    /// Filter length.
    pub filt_len: u32,
    /// Samples of history held for each channel.
    pub mem_alloc_size: u32,
    /// Samples held back per channel besides the filter.
    pub buffer_size: u32,
    /// Whole input samples that each output sample advances by.
    pub int_advance: u32,
    /// Fraction of an input sample, in units of `1 / den_rate`, that each
    /// output sample advances by.
    pub frac_advance: u32,
    /// Oversampling of the interpolated filter table.
    pub oversample: u32,
    /// Whether the filter has been built once.
    pub initialised: bool,
    /// Whether any audio has been processed.
    pub started: bool,
    /// For each channel, the input sample the next output starts at.
    pub last_sample: Vec<u32>,
    /// For each channel, the fraction of an input sample, in units of
    /// `1 / den_rate`, past `last_sample`.
    pub samp_frac_num: Vec<u32>,
    /// For each channel, input samples left over from a change of filter.
    pub magic_samples: Vec<u32>,
    /// Number of filter coefficients.
    pub sinc_table_length: u32,
    /// Whether the filter is a full table of phases (else interpolated).
    pub use_direct: bool,
    /// Stride of the input buffer.
    pub in_stride: u32,
    /// Stride of the output buffer.
    pub out_stride: u32,
}

impl ResamplerState {
    /// The per-channel tables have one entry per channel.
    pub open spec fn channels_wf(&self) -> bool {
        &&& self.last_sample@.len() == self.nb_channels
        &&& self.samp_frac_num@.len() == self.nb_channels
        &&& self.magic_samples@.len() == self.nb_channels
    }

    /// The filter is sized for the current ratio, which fits in 32 bits.
    pub open spec fn filter_planned(&self) -> bool {
        &&& self.num_rate > 0
        &&& self.den_rate > 0
        &&& plan_fits(self.num_rate as int, self.den_rate as int)
        &&& self.int_advance == self.num_rate / self.den_rate
        &&& self.frac_advance == self.num_rate % self.den_rate
        &&& self.buffer_size == BUFFER_SIZE
        &&& self.filt_len == plan_filt_len(self.num_rate as int, self.den_rate as int)
        &&& self.oversample == plan_oversample(self.num_rate as int, self.den_rate as int)
        &&& self.use_direct == plan_use_direct(self.num_rate as int, self.den_rate as int)
        &&& self.sinc_table_length >= plan_table_len(self.num_rate as int, self.den_rate as int)
        &&& self.mem_alloc_size >= self.filt_len - 1 + self.buffer_size
    }

    /// The filter is sized, and every channel's fraction is below one input
    /// sample.
    pub open spec fn wf(&self) -> bool {
        &&& self.channels_wf()
        &&& self.filter_planned()
        &&& forall|i: int|
            0 <= i < self.nb_channels ==> #[trigger] self.samp_frac_num@[i] < self.den_rate
    }

    /// Size the filter for the current ratio: the advance per output
    /// sample, the filter length, the oversampling, and whether the table
    /// is direct.  The table and the history only ever grow.
    fn update_filter(&mut self)
        requires
            old(self).den_rate > 0,
            plan_fits(old(self).num_rate as int, old(self).den_rate as int),
        ensures
            final(self).int_advance == final(self).num_rate / final(self).den_rate,
            final(self).frac_advance == final(self).num_rate % final(self).den_rate,
            final(self).buffer_size == BUFFER_SIZE,
            final(self).filt_len == plan_filt_len(
                final(self).num_rate as int,
                final(self).den_rate as int,
            ),
            final(self).oversample == plan_oversample(
                final(self).num_rate as int,
                final(self).den_rate as int,
            ),
            final(self).use_direct == plan_use_direct(
                final(self).num_rate as int,
                final(self).den_rate as int,
            ),
            final(self).sinc_table_length == if old(self).sinc_table_length < plan_table_len(
                final(self).num_rate as int,
                final(self).den_rate as int,
            ) {
                plan_table_len(final(self).num_rate as int, final(self).den_rate as int)
            } else {
                old(self).sinc_table_length as int
            },
            final(self).mem_alloc_size == if old(self).mem_alloc_size < final(self).filt_len - 1
                + BUFFER_SIZE {
                final(self).filt_len - 1 + BUFFER_SIZE
            } else {
                old(self).mem_alloc_size as int
            },
            final(self).num_rate == old(self).num_rate,
            final(self).den_rate == old(self).den_rate,
            final(self).in_rate == old(self).in_rate,
            final(self).out_rate == old(self).out_rate,
            final(self).nb_channels == old(self).nb_channels,
            final(self).initialised == old(self).initialised,
            final(self).started == old(self).started,
            final(self).last_sample == old(self).last_sample,
            final(self).samp_frac_num == old(self).samp_frac_num,
            final(self).magic_samples == old(self).magic_samples,
            final(self).in_stride == old(self).in_stride,
            final(self).out_stride == old(self).out_stride,
    {
        let num = self.num_rate;
        let den = self.den_rate;
        self.int_advance = num / den;
        self.frac_advance = num % den;
        self.oversample = BASE_OVERSAMPLE;
        self.filt_len = BASE_LENGTH;
        self.buffer_size = BUFFER_SIZE;
        if num > den {
            let pass = self.filt_len;
            let mut len = pass;
            let _ = _muldiv(&mut len, pass, num, den);
            assert(len == stretched_len(num as int, den as int));
            assert(len >= 160) by (nonlinear_arith)
                requires
                    len == stretched_len(num as int, den as int),
                    num > den,
                    den > 0,
            ;
            let lm1: u32 = len - 1;
            let masked: u32 = lm1 & !7u32;
            assert(masked == lm1 / 8 * 8) by (bit_vector)
                requires
                    masked == lm1 & !7u32,
            ;
            let rounded: u32 = masked + 8;
            self.filt_len = rounded;
            let mut over: u32 = BASE_OVERSAMPLE;
            let mut x: u32 = 1;
            while x < 5
                invariant
                    1 <= x <= 5,
                    16 * den <= u32::MAX,
                    num > den,
                    over as int == oversample_after(num as int, den as int, x as int),
                decreases 5 - x,
            {
                let p: u32 = if x == 1 {
                    2
                } else if x == 2 {
                    4
                } else if x == 3 {
                    8
                } else {
                    16
                };
                let o = over;
                if p * den < num {
                    over = o >> 1u32;
                    assert(o >> 1u32 == o / 2) by (bit_vector);
                }
                x = x + 1;
            }
            assert(oversample_after(num as int, den as int, 5) == plan_oversample(
                num as int,
                den as int,
            )) by {
                reveal_with_fuel(oversample_after, 5);
            }
            if over < 1 {
                over = 1;
            }
            self.oversample = over;
        }
        assert(self.filt_len == plan_filt_len(num as int, den as int));
        assert(self.oversample == plan_oversample(num as int, den as int));
        let len = self.filt_len;
        let over = self.oversample;
        let use_direct = len * den <= len * over + 8 && 536870911u32 / den >= len;
        self.use_direct = use_direct;
        let min_sinc_table_length: u32 = if !use_direct {
            len * over + 8
        } else {
            len * den
        };
        if self.sinc_table_length < min_sinc_table_length {
            self.sinc_table_length = min_sinc_table_length;
        }
        let min_alloc_size: u32 = len - 1 + self.buffer_size;
        if min_alloc_size > self.mem_alloc_size {
            self.mem_alloc_size = min_alloc_size;
        }
    }

    /// Two states have the same filter: its size, the advance per output
    /// sample, the table and the history.
    pub open spec fn same_filter(&self, other: &Self) -> bool {
        &&& self.filt_len == other.filt_len
        &&& self.mem_alloc_size == other.mem_alloc_size
        &&& self.buffer_size == other.buffer_size
        &&& self.int_advance == other.int_advance
        &&& self.frac_advance == other.frac_advance
        &&& self.oversample == other.oversample
        &&& self.sinc_table_length == other.sinc_table_length
        &&& self.use_direct == other.use_direct
    }

    /// The rates and ratio given are the ones already set.
    pub open spec fn rates_are(&self, ratio_num: u32, ratio_den: u32, in_rate: u32, out_rate: u32)
        -> bool {
        &&& self.in_rate == in_rate
        &&& self.out_rate == out_rate
        &&& self.num_rate == ratio_num
        &&& self.den_rate == ratio_den
    }

    /// What a change of rates keeps: the channels, the flags, the strides,
    /// and every channel's whole-sample position and leftover samples.
    pub open spec fn keeps_channels(&self, other: &Self) -> bool {
        &&& self.nb_channels == other.nb_channels
        &&& self.initialised == other.initialised
        &&& self.started == other.started
        &&& self.last_sample == other.last_sample
        &&& self.magic_samples == other.magic_samples
        &&& self.in_stride == other.in_stride
        &&& self.out_stride == other.out_stride
    }

    /// Two states have the same rates, filter, flags and strides; the
    /// channels' positions and leftover samples may differ.
    pub open spec fn same_but_fractions_and_positions(&self, other: &Self) -> bool {
        &&& self.nb_channels == other.nb_channels
        &&& self.initialised == other.initialised
        &&& self.started == other.started
        &&& self.in_stride == other.in_stride
        &&& self.out_stride == other.out_stride
        &&& self.in_rate == other.in_rate
        &&& self.out_rate == other.out_rate
        &&& self.num_rate == other.num_rate
        &&& self.den_rate == other.den_rate
        &&& self.filt_len == other.filt_len
        &&& self.mem_alloc_size == other.mem_alloc_size
        &&& self.buffer_size == other.buffer_size
        &&& self.int_advance == other.int_advance
        &&& self.frac_advance == other.frac_advance
        &&& self.oversample == other.oversample
        &&& self.sinc_table_length == other.sinc_table_length
        &&& self.use_direct == other.use_direct
    }

    /// Two states differ in the channels' fractions at most.
    pub open spec fn same_but_fractions(&self, other: &Self) -> bool {
        &&& self.keeps_channels(other)
        &&& self.in_rate == other.in_rate
        &&& self.out_rate == other.out_rate
        &&& self.num_rate == other.num_rate
        &&& self.den_rate == other.den_rate
        &&& self.filt_len == other.filt_len
        &&& self.mem_alloc_size == other.mem_alloc_size
        &&& self.buffer_size == other.buffer_size
        &&& self.int_advance == other.int_advance
        &&& self.frac_advance == other.frac_advance
        &&& self.oversample == other.oversample
        &&& self.sinc_table_length == other.sinc_table_length
        &&& self.use_direct == other.use_direct
    }

    /// Set (change) the input and output sampling rates and the resampling
    /// ratio `ratio_num / ratio_den` (reduced here).  Each channel's
    /// fraction is moved to the new denominator; when that does not fit in
    /// 32 bits the change stops there with `RESAMPLER_ERR_OVERFLOW`.  The
    /// filter is resized when it has been built before.
    pub fn set_rate_frac(&mut self, ratio_num: u32, ratio_den: u32, in_rate: u32, out_rate: u32)
        -> (r: usize)
        requires
            old(self).channels_wf(),
            old(self).initialised && ratio_num != 0 && ratio_den != 0 ==> plan_fits(
                reduced_num(ratio_num as nat, ratio_den as nat) as int,
                reduced_den(ratio_num as nat, ratio_den as nat) as int,
            ),
        ensures
            final(self).channels_wf(),
            ratio_num != 0 && ratio_den != 0 ==> final(self).in_rate == in_rate
                && final(self).out_rate == out_rate,
            ratio_num == 0 || ratio_den == 0 ==> r == RESAMPLER_ERR_INVALID_ARG && *final(self)
                == *old(self),
            ratio_num != 0 && ratio_den != 0 && old(self).rates_are(
                ratio_num,
                ratio_den,
                in_rate,
                out_rate,
            ) ==> r == RESAMPLER_ERR_SUCCESS && *final(self) == *old(self),
            ratio_num != 0 && ratio_den != 0 && !old(self).rates_are(
                ratio_num,
                ratio_den,
                in_rate,
                out_rate,
            ) ==> {
                let den = reduced_den(ratio_num as nat, ratio_den as nat) as int;
                let old_den = old(self).den_rate as int;
                let fr = old(self).samp_frac_num@;
                let nf = final(self).samp_frac_num@;
                &&& final(self).in_rate == in_rate
                &&& final(self).out_rate == out_rate
                &&& final(self).num_rate == reduced_num(ratio_num as nat, ratio_den as nat)
                &&& final(self).den_rate == den
                &&& final(self).keeps_channels(&*old(self))
                &&& r == RESAMPLER_ERR_SUCCESS || r == RESAMPLER_ERR_OVERFLOW
                &&& old_den == 0 ==> r == RESAMPLER_ERR_SUCCESS && nf == fr
                &&& old_den > 0 && r == RESAMPLER_ERR_SUCCESS ==> forall|i: int|
                    0 <= i < fr.len() ==> muldiv_fits(fr[i] as int, den, old_den) && #[trigger] nf[i]
                        == rescale(fr[i] as int, den, old_den)
                &&& r == RESAMPLER_ERR_OVERFLOW ==> old_den > 0 && exists|k: int|
                    0 <= k < fr.len() && !muldiv_fits(fr[k] as int, den, old_den) && (forall|i: int|
                        0 <= i < k ==> muldiv_fits(fr[i] as int, den, old_den) && #[trigger] nf[i]
                            == rescale(fr[i] as int, den, old_den)) && (forall|i: int|
                        k <= i < fr.len() ==> #[trigger] nf[i] == fr[i])
                &&& r == RESAMPLER_ERR_SUCCESS && old(self).initialised ==> final(self).filter_planned()
                &&& r == RESAMPLER_ERR_SUCCESS && old(self).initialised ==> final(self).sinc_table_length
                    == max_int(
                    old(self).sinc_table_length as int,
                    plan_table_len(final(self).num_rate as int, den),
                ) && final(self).mem_alloc_size == max_int(
                    old(self).mem_alloc_size as int,
                    final(self).filt_len - 1 + BUFFER_SIZE,
                )
                &&& r == RESAMPLER_ERR_SUCCESS && old(self).initialised && old_den > 0 ==> final(self).wf()
                &&& r == RESAMPLER_ERR_SUCCESS && !old(self).initialised ==> final(self).same_filter(&*old(self))
                &&& r == RESAMPLER_ERR_OVERFLOW ==> final(self).same_filter(&*old(self))
            },
    {
        if ratio_num == 0 || ratio_den == 0 {
            return RESAMPLER_ERR_INVALID_ARG;
        }
        if self.in_rate == in_rate && self.out_rate == out_rate && self.num_rate == ratio_num
            && self.den_rate == ratio_den {
            return RESAMPLER_ERR_SUCCESS;
        }
        let old_den = self.den_rate;
        self.in_rate = in_rate;
        self.out_rate = out_rate;
        let fact = gcd(ratio_num, ratio_den);
        proof {
            crate::ratio::lemma_gcd_positive(ratio_num as nat, ratio_den as nat);
            crate::ratio::lemma_gcd_divides(ratio_num as nat, ratio_den as nat);
            crate::ratio::lemma_divides_exact(fact as int, ratio_den as int);
        }
        self.num_rate = ratio_num / fact;
        self.den_rate = ratio_den / fact;
        let den = self.den_rate;
        assert(den > 0) by (nonlinear_arith)
            requires
                den == ratio_den / fact,
                (ratio_den / fact) * fact == ratio_den,
                ratio_den > 0,
        ;
        if old_den > 0 {
            let n = self.samp_frac_num.len();
            let ghost fr = self.samp_frac_num@;
            let ghost pre = *self;
            let mut i: usize = 0;
            #[verifier::loop_isolation(false)]
            while i < n
                invariant
                    self.same_but_fractions(&pre),
                    n == fr.len(),
                    self.samp_frac_num@.len() == n,
                    0 <= i <= n,
                    den > 0,
                    old_den > 0,
                    forall|j: int|
                        0 <= j < i ==> #[trigger] muldiv_fits(fr[j] as int, den as int, old_den as int),
                    forall|j: int|
                        0 <= j < i ==> #[trigger] self.samp_frac_num@[j] == rescale(
                            fr[j] as int,
                            den as int,
                            old_den as int,
                        ),
                    forall|j: int| i <= j < n ==> #[trigger] self.samp_frac_num@[j] == fr[j],
                decreases n - i,
            {
                let v = self.samp_frac_num[i];
                let mut out = v;
                let res = _muldiv(&mut out, v, den, old_den);
                if res != RESAMPLER_ERR_SUCCESS {
                    assert(!muldiv_fits(fr[i as int] as int, den as int, old_den as int));
                    return RESAMPLER_ERR_OVERFLOW;
                }
                assert(muldiv_fits(fr[i as int] as int, den as int, old_den as int));
                let out = if out >= den {
                    den - 1
                } else {
                    out
                };
                assert(out == rescale(fr[i as int] as int, den as int, old_den as int));
                self.samp_frac_num.set(i, out);
                i = i + 1;
            }
        }
        if self.initialised {
            self.update_filter();
        }
        RESAMPLER_ERR_SUCCESS
    }

    /// Create a new resampler for `nb_channels` channels with fractional
    /// input/output rates: the ratio `ratio_num / ratio_den` of input to
    /// output samples (reduced here), and the rates rounded to whole Hz.
    pub fn init_frac(nb_channels: u32, ratio_num: u32, ratio_den: u32, in_rate: u32, out_rate: u32)
        -> (st: ResamplerState)
        requires
            ratio_num != 0,
            ratio_den != 0,
            plan_fits(
                reduced_num(ratio_num as nat, ratio_den as nat) as int,
                reduced_den(ratio_num as nat, ratio_den as nat) as int,
            ),
        ensures
            st.wf(),
            st.initialised,
            !st.started,
            st.in_rate == in_rate,
            st.out_rate == out_rate,
            st.num_rate == reduced_num(ratio_num as nat, ratio_den as nat),
            st.den_rate == reduced_den(ratio_num as nat, ratio_den as nat),
            st.nb_channels == nb_channels,
            st.sinc_table_length == plan_table_len(st.num_rate as int, st.den_rate as int),
            st.mem_alloc_size == st.filt_len - 1 + st.buffer_size,
            st.in_stride == 1,
            st.out_stride == 1,
            forall|i: int|
                0 <= i < nb_channels ==> #[trigger] st.last_sample@[i] == 0
                    && st.samp_frac_num@[i] == 0 && st.magic_samples@[i] == 0,
    {
        let n = nb_channels as usize;
        let mut st = ResamplerState {
            in_rate: 0,
            out_rate: 0,
            num_rate: 0,
            den_rate: 0,
            nb_channels,
            filt_len: 0,
            mem_alloc_size: 0,
            buffer_size: BUFFER_SIZE,
            int_advance: 0,
            frac_advance: 0,
            oversample: 0,
            initialised: false,
            started: false,
            last_sample: vec![0u32; n],
            samp_frac_num: vec![0u32; n],
            magic_samples: vec![0u32; n],
            sinc_table_length: 0,
            use_direct: false,
            in_stride: 1,
            out_stride: 1,
        };
        assert(st.samp_frac_num@ =~= Seq::new(n as nat, |i: int| 0u32));
        assert(st.last_sample@ =~= Seq::new(n as nat, |i: int| 0u32));
        assert(st.magic_samples@ =~= Seq::new(n as nat, |i: int| 0u32));
        st.set_rate_frac(ratio_num, ratio_den, in_rate, out_rate);
        st.update_filter();
        st.initialised = true;
        st
    }

    /// Create a new resampler with whole-Hz input and output rates.
    #[verifier::spinoff_prover]
    pub fn new(nb_channels: u32, in_rate: u32, out_rate: u32) -> (st: ResamplerState)
        requires
            in_rate != 0,
            out_rate != 0,
            plan_fits(
                reduced_num(in_rate as nat, out_rate as nat) as int,
                reduced_den(in_rate as nat, out_rate as nat) as int,
            ),
        ensures
            st.wf(),
            st.initialised,
            st.in_rate == in_rate,
            st.out_rate == out_rate,
            st.num_rate == reduced_num(in_rate as nat, out_rate as nat),
            st.den_rate == reduced_den(in_rate as nat, out_rate as nat),
            st.nb_channels == nb_channels,
            !st.started,
            st.sinc_table_length == plan_table_len(st.num_rate as int, st.den_rate as int),
            st.mem_alloc_size == st.filt_len - 1 + st.buffer_size,
            st.in_stride == 1,
            st.out_stride == 1,
            forall|i: int|
                0 <= i < nb_channels ==> #[trigger] st.last_sample@[i] == 0
                    && st.samp_frac_num@[i] == 0 && st.magic_samples@[i] == 0,
    {
        Self::init_frac(nb_channels, in_rate, out_rate, in_rate, out_rate)
    }

    /// The current input and output sampling rates, in whole Hz.
    pub fn get_rate(&self) -> (r: (u32, u32))
        ensures
            r == (self.in_rate, self.out_rate),
    {
        (self.in_rate, self.out_rate)
    }

    /// The current resampling ratio, in lowest terms.
    pub fn get_ratio(&self) -> (r: (u32, u32))
        ensures
            r == (self.num_rate, self.den_rate),
    {
        (self.num_rate, self.den_rate)
    }

    /// The latency of the resampler in input samples: half the filter.
    pub fn get_input_latency(&self) -> (r: u32)
        ensures
            r == self.filt_len / 2,
    {
        self.filt_len / 2
    }

    /// The latency of the resampler in output samples: the input latency
    /// scaled by the ratio, rounded to nearest.
    pub fn get_output_latency(&self) -> (r: u32)
        requires
            self.filter_planned(),
        ensures
            r == ((self.filt_len / 2) * self.den_rate + self.num_rate / 2) / (self.num_rate as int),
    {
        let half: u32 = self.filt_len / 2;
        assert(half * self.den_rate <= 2147483647) by (nonlinear_arith)
            requires
                self.filt_len * self.den_rate <= u32::MAX,
                half == self.filt_len / 2,
        ;
        let num = self.num_rate;
        let h: u32 = num >> 1u32;
        assert(h == num / 2) by (bit_vector)
            requires
                h == num >> 1u32,
        ;
        (half * self.den_rate + h) / num
    }

    /// Start every channel half a filter into its input, so that the first
    /// output samples do not begin with the filter's leading silence.
    pub fn skip_zeros(&mut self)
        ensures
            final(self).last_sample@.len() == old(self).last_sample@.len(),
            forall|i: int|
                0 <= i < old(self).last_sample@.len() ==> #[trigger] final(self).last_sample@[i]
                    == old(self).filt_len / 2,
            final(self).samp_frac_num == old(self).samp_frac_num,
            final(self).magic_samples == old(self).magic_samples,
            final(self).same_but_fractions_and_positions(&*old(self)),
    {
        let half = self.filt_len / 2;
        let n = self.last_sample.len();
        let mut i: usize = 0;
        let ghost pre = *self;
        while i < n
            invariant
                n == pre.last_sample@.len(),
                self.last_sample@.len() == n,
                0 <= i <= n,
                half == pre.filt_len / 2,
                self.samp_frac_num == pre.samp_frac_num,
                self.magic_samples == pre.magic_samples,
                self.same_but_fractions_and_positions(&pre),
                forall|j: int| 0 <= j < i ==> #[trigger] self.last_sample@[j] == half,
            decreases n - i,
        {
            self.last_sample.set(i, half);
            i = i + 1;
        }
    }

    /// Reset every channel to the start of a new, unrelated stream.
    pub fn reset_mem(&mut self)
        ensures
            final(self).last_sample@.len() == old(self).last_sample@.len(),
            final(self).samp_frac_num@.len() == old(self).samp_frac_num@.len(),
            final(self).magic_samples@.len() == old(self).magic_samples@.len(),
            forall|i: int|
                0 <= i < old(self).last_sample@.len() ==> #[trigger] final(self).last_sample@[i]
                    == 0,
            forall|i: int|
                0 <= i < old(self).samp_frac_num@.len() ==> #[trigger] final(self).samp_frac_num@[i]
                    == 0,
            forall|i: int|
                0 <= i < old(self).magic_samples@.len() ==> #[trigger] final(self).magic_samples@[i]
                    == 0,
            final(self).same_but_fractions_and_positions(&*old(self)),
    {
        let ghost pre = *self;
        let n = self.last_sample.len();
        let mut i: usize = 0;
        while i < n
            invariant
                n == self.last_sample@.len(),
                0 <= i <= n,
                self.samp_frac_num == pre.samp_frac_num,
                self.magic_samples == pre.magic_samples,
                self.same_but_fractions_and_positions(&pre),
                forall|j: int| 0 <= j < i ==> #[trigger] self.last_sample@[j] == 0,
            decreases n - i,
        {
            self.last_sample.set(i, 0);
            i = i + 1;
        }
        let ghost mid = *self;
        let n = self.magic_samples.len();
        let mut i: usize = 0;
        while i < n
            invariant
                n == self.magic_samples@.len(),
                0 <= i <= n,
                self.samp_frac_num == pre.samp_frac_num,
                self.last_sample == mid.last_sample,
                self.same_but_fractions_and_positions(&pre),
                forall|j: int| 0 <= j < i ==> #[trigger] self.magic_samples@[j] == 0,
            decreases n - i,
        {
            self.magic_samples.set(i, 0);
            i = i + 1;
        }
        let ghost mid2 = *self;
        let n = self.samp_frac_num.len();
        let mut i: usize = 0;
        while i < n
            invariant
                n == self.samp_frac_num@.len(),
                0 <= i <= n,
                self.last_sample == mid.last_sample,
                self.magic_samples == mid2.magic_samples,
                self.same_but_fractions_and_positions(&pre),
                forall|j: int| 0 <= j < i ==> #[trigger] self.samp_frac_num@[j] == 0,
            decreases n - i,
        {
            self.samp_frac_num.set(i, 0);
            i = i + 1;
        }
    }

    /// Only channel `channel`'s position may differ between two states.
    pub open spec fn moves_only(&self, other: &Self, channel: int) -> bool {
        &&& self.same_but_fractions_and_positions(other)
        &&& self.magic_samples == other.magic_samples
        &&& self.last_sample@.len() == other.last_sample@.len()
        &&& self.samp_frac_num@.len() == other.samp_frac_num@.len()
        &&& forall|i: int|
            0 <= i < self.last_sample@.len() && i != channel ==> #[trigger] self.last_sample@[i]
                == other.last_sample@[i]
        &&& forall|i: int|
            0 <= i < self.samp_frac_num@.len() && i != channel ==> #[trigger] self.samp_frac_num@[i]
                == other.samp_frac_num@[i]
    }

    /// The position of channel `channel` in its input, in units of
    /// `1 / den_rate`.
    pub open spec fn pos(&self, channel: int) -> int {
        position(
            self.last_sample@[channel] as int,
            self.samp_frac_num@[channel] as int,
            self.den_rate as int,
        )
    }

    /// Plan the output samples of channel `channel` for an input block of
    /// `in_len` samples and room for `out_len` output samples.  Each output
    /// sample is placed `num_rate / den_rate` input samples after the one
    /// before; the plan stops at `out_len` samples or at the end of the
    /// input.  Each entry is the input sample the output starts at and the
    /// fraction past it, in units of `1 / den_rate`; the channel moves past
    /// the last one.
    pub fn schedule(&mut self, channel: usize, in_len: u32, out_len: u32) -> (taps: Vec<(u32, u32)>)
        requires
            old(self).wf(),
            channel < old(self).nb_channels,
            in_len as int + old(self).int_advance as int + 1 <= u32::MAX,
        ensures
            final(self).wf(),
            final(self).moves_only(&*old(self), channel as int),
            taps@.len() <= out_len,
            forall|k: int|
                #![trigger taps@[k]]
                0 <= k < taps@.len() ==> {
                    let p = old(self).pos(channel as int) + k * old(self).num_rate;
                    &&& taps@[k].0 == p / (old(self).den_rate as int)
                    &&& taps@[k].1 == p % (old(self).den_rate as int)
                    &&& taps@[k].0 < in_len
                },
            final(self).pos(channel as int) == old(self).pos(channel as int) + taps@.len()
                * old(self).num_rate,
            taps@.len() == out_len || final(self).last_sample@[channel as int] >= in_len,
    {
        let ghost pre = *self;
        let ghost p0 = pre.pos(channel as int);
        let den = self.den_rate;
        let int_advance = self.int_advance;
        let frac_advance = self.frac_advance;
        let ghost num = self.num_rate as int;
        let mut last_sample = self.last_sample[channel];
        let mut samp_frac_num = self.samp_frac_num[channel];
        let mut taps: Vec<(u32, u32)> = Vec::new();
        proof {
            lemma_fundamental_div_mod(num, den as int);
            lemma_plan_len_bounds(num, den as int);
        }
        while !(last_sample >= in_len || taps.len() >= out_len as usize)
            invariant
                den == pre.den_rate,
                den > 0,
                int_advance == pre.int_advance,
                frac_advance == pre.frac_advance,
                num == pre.num_rate,
                num == den * int_advance + frac_advance,
                frac_advance < den,
                samp_frac_num < den,
                8 * den <= u32::MAX,
                in_len as int + int_advance as int + 1 <= u32::MAX,
                taps@.len() <= out_len,
                last_sample < in_len || taps@.len() == 0 || last_sample <= in_len + int_advance,
                position(last_sample as int, samp_frac_num as int, den as int) == p0 + taps@.len()
                    * num,
                forall|k: int|
                    #![trigger taps@[k]]
                    0 <= k < taps@.len() ==> {
                        let p = p0 + k * num;
                        &&& taps@[k].0 == p / (den as int)
                        &&& taps@[k].1 == p % (den as int)
                        &&& taps@[k].0 < in_len
                    },
            decreases out_len as int - taps@.len(),
        {
            let ghost k = taps@.len() as int;
            let ghost l0 = last_sample as int;
            let ghost f0 = samp_frac_num as int;
            proof {
                lemma_fundamental_div_mod_converse(p0 + k * num, den as int, l0, f0);
            }
            taps.push((last_sample, samp_frac_num));
            last_sample = last_sample + int_advance;
            samp_frac_num = samp_frac_num + frac_advance;
            if samp_frac_num >= den {
                samp_frac_num = samp_frac_num - den;
                last_sample = last_sample + 1;
            }
            assert(position(last_sample as int, samp_frac_num as int, den as int) == position(
                l0,
                f0,
                den as int,
            ) + num) by (nonlinear_arith)
                requires
                    num == den * int_advance + frac_advance,
                    (last_sample == l0 + int_advance && samp_frac_num == f0 + frac_advance) || (
                    last_sample == l0 + int_advance + 1 && samp_frac_num == f0 + frac_advance
                        - den),
            ;
            assert(p0 + k * num + num == p0 + (k + 1) * num) by (nonlinear_arith);
        }
        self.last_sample.set(channel, last_sample);
        self.samp_frac_num.set(channel, samp_frac_num);
        taps
    }

    /// Account for a processed block of channel `channel`: of the `in_len`
    /// input samples offered, the channel consumed those before its
    /// position (all of them, when it moved past the end), and its position
    /// becomes relative to the next block.  Returns the number consumed.
    pub fn finish_block(&mut self, channel: usize, in_len: u32) -> (used: u32)
        requires
            old(self).channels_wf(),
            channel < old(self).nb_channels,
        ensures
            used == if old(self).last_sample@[channel as int] < in_len {
                old(self).last_sample@[channel as int]
            } else {
                in_len
            },
            final(self).last_sample@ == old(self).last_sample@.update(
                channel as int,
                (old(self).last_sample@[channel as int] - used) as u32,
            ),
            final(self).started,
            final(self).samp_frac_num == old(self).samp_frac_num,
            final(self).magic_samples == old(self).magic_samples,
            final(self).nb_channels == old(self).nb_channels,
            final(self).in_rate == old(self).in_rate,
            final(self).out_rate == old(self).out_rate,
            final(self).num_rate == old(self).num_rate,
            final(self).den_rate == old(self).den_rate,
            final(self).filt_len == old(self).filt_len,
            final(self).mem_alloc_size == old(self).mem_alloc_size,
            final(self).buffer_size == old(self).buffer_size,
            final(self).int_advance == old(self).int_advance,
            final(self).frac_advance == old(self).frac_advance,
            final(self).oversample == old(self).oversample,
            final(self).initialised == old(self).initialised,
            final(self).sinc_table_length == old(self).sinc_table_length,
            final(self).use_direct == old(self).use_direct,
            final(self).in_stride == old(self).in_stride,
            final(self).out_stride == old(self).out_stride,
    {
        self.started = true;
        let last = self.last_sample[channel];
        let used = if last < in_len {
            last
        } else {
            in_len
        };
        self.last_sample.set(channel, last - used);
        used
    }

    /// For an interpolated filter, the table offset and the interpolation
    /// fraction (in units of `1 / den_rate`) of the phase `samp_frac_num`.
    pub fn interp_phase(&self, samp_frac_num: u32) -> (r: (u32, u32))
        requires
            self.filter_planned(),
            samp_frac_num < self.den_rate,
        ensures
            r.0 == samp_frac_num * self.oversample / (self.den_rate as int),
            r.1 == samp_frac_num * self.oversample % (self.den_rate as int),
            r.1 < self.den_rate,
            r.0 <= self.oversample,
    {
        let den = self.den_rate;
        let over = self.oversample;
        proof {
            lemma_plan_len_bounds(self.num_rate as int, den as int);
        }
        assert(samp_frac_num * over <= 16 * den) by (nonlinear_arith)
            requires
                samp_frac_num < den,
                over <= 16,
        ;
        assert(samp_frac_num * over <= u32::MAX) by (nonlinear_arith)
            requires
                samp_frac_num * over <= 16 * den,
                self.num_rate > den ==> 16 * den <= u32::MAX,
                self.num_rate <= den ==> over == 16 && self.filt_len == 160 && self.filt_len * den
                    <= u32::MAX,
        ;
        let t: u32 = samp_frac_num * over;
        assert(t / den <= over) by (nonlinear_arith)
            requires
                t == samp_frac_num * over,
                samp_frac_num < den,
                den > 0,
        ;
        (t / den, t % den)
    }

    /// For a direct filter, where in the table the coefficients for the
    /// phase `samp_frac_num` start.
    pub fn direct_phase(&self, samp_frac_num: u32) -> (r: u32)
        requires
            self.filter_planned(),
            samp_frac_num < self.den_rate,
        ensures
            r == samp_frac_num * self.filt_len,
            self.use_direct ==> r + self.filt_len <= self.sinc_table_length,
    {
        let len = self.filt_len;
        assert(samp_frac_num * len + len <= self.den_rate * len) by (nonlinear_arith)
            requires
                samp_frac_num < self.den_rate,
        ;
        assert(self.den_rate * len <= u32::MAX) by (nonlinear_arith)
            requires
                self.filt_len * self.den_rate <= u32::MAX,
                len == self.filt_len,
        ;
        assert(len * self.den_rate == self.den_rate * len) by (nonlinear_arith);
        assert(self.use_direct ==> plan_table_len(self.num_rate as int, self.den_rate as int) == len
            * self.den_rate);
        samp_frac_num * len
    }
}

/// Moving a channel's fraction to a new denominator keeps where it is, up
/// to rounding down: the new fraction `f` satisfies
/// `f / den <= v / old_den < (f + 1) / den`, and stays below one sample.
pub proof fn law_rescale_keeps_position(v: int, den: int, old_den: int)
    requires
        0 <= v < old_den,
        den > 0,
    ensures
        0 <= rescale(v, den, old_den) < den,
        rescale(v, den, old_den) * old_den <= v * den,
        v * den < (rescale(v, den, old_den) + 1) * old_den,
{
    let x = v * den / old_den;
    lemma_fundamental_div_mod(v * den, old_den);
    assert(0 <= x < den) by (nonlinear_arith)
        requires
            0 <= v < old_den,
            den > 0,
            x == v * den / old_den,
            v * den == old_den * x + (v * den) % old_den,
            0 <= (v * den) % old_den < old_den,
    ;
    assert(x * old_den <= v * den < (x + 1) * old_den) by (nonlinear_arith)
        requires
            v * den == old_den * x + (v * den) % old_den,
            0 <= (v * den) % old_den < old_den,
    ;
}

/// One pass of the filter over a channel's input: the input samples
/// offered, where each output sample is taken, and how many input samples
/// the pass consumed.
#[derive(Debug)]
pub struct Block {
    /// Input samples offered to the pass.
    pub offered: u32,
    /// For each output sample, the input sample it starts at and the
    /// fraction past it, in units of `1 / den_rate`.
    pub taps: Vec<(u32, u32)>,
    /// Input samples consumed by the pass.
    pub used: u32,
}

/// What a call of the resampler on one channel does: a pass over samples
/// left over from a change of filter, if there are any, then passes over
/// chunks of the input.
#[derive(Debug)]
pub struct ProcessPlan {
    /// The pass over left-over samples, when the channel had some.
    pub magic: Option<Block>,
    /// The passes over the input, in order.
    pub blocks: Vec<Block>,
    /// Input samples consumed in all.
    pub in_used: u32,
    /// Output samples written in all.
    pub out_written: u32,
}

/// A pass that starts at position `p` (in units of `1 / den`) with room
/// for `room` output samples: its outputs are `num / den` input samples
/// apart and start before the end of the input offered; it stops when the
/// room is full or the input is passed, and consumes the input before its
/// end position.
pub open spec fn block_ok(b: Block, p: int, num: int, den: int, room: int) -> bool {
    let n = b.taps@.len() as int;
    let q = p + n * num;
    &&& n <= room
    &&& forall|k: int|
        #![trigger b.taps@[k]]
        0 <= k < n ==> {
            &&& b.taps@[k].0 == (p + k * num) / den
            &&& b.taps@[k].1 == (p + k * num) % den
            &&& b.taps@[k].0 < b.offered
        }
    &&& n == room || q / den >= b.offered
    &&& b.used == if q / den < b.offered {
        q / den
    } else {
        b.offered as int
    }
}

/// Output samples written by the passes `bs`.
pub open spec fn taps_total(bs: Seq<Block>) -> int
    decreases bs.len(),
{
    if bs.len() == 0 {
        0
    } else {
        taps_total(bs.drop_last()) + bs.last().taps@.len()
    }
}

/// Input samples consumed by the passes `bs`.
pub open spec fn used_total(bs: Seq<Block>) -> int
    decreases bs.len(),
{
    if bs.len() == 0 {
        0
    } else {
        used_total(bs.drop_last()) + bs.last().used
    }
}

/// The position after the passes `bs` that started at `p`: each output
/// moves it on by `num`, each consumed input sample moves its origin on by
/// `den`.
pub open spec fn pos_after(bs: Seq<Block>, p: int, num: int, den: int) -> int {
    p + taps_total(bs) * num - used_total(bs) * den
}

/// The passes `bs` are those of the chunk loop, started at position `p`
/// with `ilen` input and `olen` output samples to go: each pass is offered
/// the input left, at most `xlen` samples, and runs only while both input
/// and output are left.
pub open spec fn chain_ok(
    bs: Seq<Block>,
    p: int,
    num: int,
    den: int,
    ilen: int,
    olen: int,
    xlen: int,
) -> bool
    decreases bs.len(),
{
    if bs.len() == 0 {
        true
    } else {
        let pre = bs.drop_last();
        let b = bs.last();
        let il = ilen - used_total(pre);
        let ol = olen - taps_total(pre);
        &&& chain_ok(pre, p, num, den, ilen, olen, xlen)
        &&& il != 0
        &&& ol != 0
        &&& b.offered == if il > xlen {
            xlen
        } else {
            il
        }
        &&& block_ok(b, pos_after(pre, p, num, den), num, den, ol)
    }
}

/// The chunk loop over `bs` ran to its end: all input consumed or all
/// output room filled.
pub open spec fn loop_ok(
    bs: Seq<Block>,
    p: int,
    num: int,
    den: int,
    ilen: int,
    olen: int,
    xlen: int,
) -> bool {
    &&& chain_ok(bs, p, num, den, ilen, olen, xlen)
    &&& (used_total(bs) == ilen || taps_total(bs) == olen)
}

impl ResamplerState {
    /// Input samples one chunk of the chunk loop holds at most.
    pub open spec fn chunk_len(&self) -> int {
        self.mem_alloc_size - self.filt_len - 1
    }

    /// What a pass of the filter over channel `channel` changes: its
    /// position, and that audio has started; nothing else.
    pub open spec fn passed(&self, old: &Self, channel: int) -> bool {
        &&& self.nb_channels == old.nb_channels
        &&& self.initialised == old.initialised
        &&& self.started
        &&& self.in_stride == old.in_stride
        &&& self.out_stride == old.out_stride
        &&& self.in_rate == old.in_rate
        &&& self.out_rate == old.out_rate
        &&& self.num_rate == old.num_rate
        &&& self.den_rate == old.den_rate
        &&& self.filt_len == old.filt_len
        &&& self.mem_alloc_size == old.mem_alloc_size
        &&& self.buffer_size == old.buffer_size
        &&& self.int_advance == old.int_advance
        &&& self.frac_advance == old.frac_advance
        &&& self.oversample == old.oversample
        &&& self.sinc_table_length == old.sinc_table_length
        &&& self.use_direct == old.use_direct
        &&& self.last_sample@.len() == old.last_sample@.len()
        &&& self.samp_frac_num@.len() == old.samp_frac_num@.len()
        &&& forall|i: int|
            0 <= i < self.last_sample@.len() && i != channel ==> #[trigger] self.last_sample@[i]
                == old.last_sample@[i]
        &&& forall|i: int|
            0 <= i < self.samp_frac_num@.len() && i != channel ==> #[trigger] self.samp_frac_num@[i]
                == old.samp_frac_num@[i]
    }

    /// One pass of the filter over channel `channel` with `in_len` input
    /// samples offered and room for `out_len` output samples: plan the
    /// outputs, then move the channel's position back by the input samples
    /// consumed, so that it is relative to what is left.
    pub fn process_native(&mut self, channel: usize, in_len: u32, out_len: u32) -> (b: Block)
        requires
            old(self).wf(),
            channel < old(self).nb_channels,
            in_len as int + old(self).int_advance as int + 1 <= u32::MAX,
        ensures
            final(self).wf(),
            final(self).passed(&*old(self), channel as int),
            final(self).magic_samples == old(self).magic_samples,
            b.offered == in_len,
            block_ok(
                b,
                old(self).pos(channel as int),
                old(self).num_rate as int,
                old(self).den_rate as int,
                out_len as int,
            ),
            final(self).pos(channel as int) == old(self).pos(channel as int) + b.taps@.len()
                * old(self).num_rate - b.used * old(self).den_rate,
    {
        let ghost pre = *self;
        let ghost p0 = pre.pos(channel as int);
        let taps = self.schedule(channel, in_len, out_len);
        let ghost mid = *self;
        proof {
            lemma_position_split(
                mid.last_sample@[channel as int] as int,
                mid.samp_frac_num@[channel as int] as int,
                mid.den_rate as int,
            );
        }
        let used = self.finish_block(channel, in_len);
        assert(self.pos(channel as int) == mid.pos(channel as int) - used * mid.den_rate) by {
            let l = mid.last_sample@[channel as int] as int;
            let f = mid.samp_frac_num@[channel as int] as int;
            let d = mid.den_rate as int;
            let u = used as int;
            assert((l - u) * d + f == l * d + f - u * d) by (nonlinear_arith);
        }
        assert(self.samp_frac_num@[channel as int] < self.den_rate);
        assert forall|i: int| 0 <= i < self.nb_channels implies #[trigger] self.samp_frac_num@[i]
            < self.den_rate by {
            assert(mid.samp_frac_num@[i] < mid.den_rate);
        }
        Block { offered: in_len, taps, used }
    }
}

/// A position splits into its whole samples and its fraction.
proof fn lemma_position_split(last: int, frac: int, den: int)
    requires
        0 <= frac < den,
    ensures
        position(last, frac, den) / den == last,
        position(last, frac, den) % den == frac,
{
    lemma_fundamental_div_mod_converse(position(last, frac, den), den, last, frac);
}

/// What a call of the resampler on channel `channel`, with `in_len` input
/// samples and room for `out_len` output samples, did: the state went from
/// `old` to `new` and the call ran as `plan` says.  Samples left over from a
/// change of filter go first; the chunk loop runs only when none are left
/// after that.
pub open spec fn planned(
    old: ResamplerState,
    new: ResamplerState,
    channel: int,
    in_len: int,
    out_len: int,
    plan: ProcessPlan,
) -> bool {
    let num = old.num_rate as int;
    let den = old.den_rate as int;
    let p0 = old.pos(channel);
    let bs = plan.blocks@;
    &&& new.wf()
    &&& new.nb_channels == old.nb_channels
    &&& new.num_rate == old.num_rate
    &&& new.den_rate == old.den_rate
    &&& new.filt_len == old.filt_len
    &&& new.mem_alloc_size == old.mem_alloc_size
    &&& new.int_advance == old.int_advance
    &&& new.frac_advance == old.frac_advance
    &&& old.magic_samples@[channel] == 0 ==> {
        &&& plan.magic is None
        &&& plan.out_written == taps_total(bs)
        &&& new.magic_samples == old.magic_samples
        &&& loop_ok(bs, p0, num, den, in_len, out_len, old.chunk_len())
        &&& new.pos(channel) == pos_after(bs, p0, num, den)
    }
    &&& old.magic_samples@[channel] != 0 ==> plan.magic is Some
    &&& plan.magic matches Some(m) ==> {
        &&& m.offered == old.magic_samples@[channel]
        &&& block_ok(m, p0, num, den, out_len)
        &&& new.magic_samples@ == old.magic_samples@.update(channel, (m.offered - m.used) as u32)
        &&& plan.out_written == m.taps@.len() + taps_total(bs)
        &&& new.pos(channel) == pos_after(bs, pass_end(m, p0, num, den), num, den)
        &&& m.used < m.offered ==> bs.len() == 0
        &&& m.used == m.offered ==> loop_ok(
            bs,
            pass_end(m, p0, num, den),
            num,
            den,
            in_len,
            out_len - m.taps@.len(),
            old.chunk_len(),
        )
    }
    &&& plan.in_used == used_total(bs)
    &&& forall|i: int|
        0 <= i < old.nb_channels && i != channel ==> #[trigger] new.last_sample@[i]
            == old.last_sample@[i] && new.samp_frac_num@[i] == old.samp_frac_num@[i]
}

/// Where a pass that started at `p` leaves the channel: on by `num` for
/// each output, back by `den` for each input sample consumed.
pub open spec fn pass_end(b: Block, p: int, num: int, den: int) -> int {
    p + b.taps@.len() * num - b.used * den
}

impl ResamplerState {
    /// Plan a call of the resampler on channel `channel` with `in_len`
    /// input samples and room for `out_len` output samples.  Samples left
    /// over from a change of filter go first; only when none are left after
    /// that is the input run through the filter, in chunks of at most
    /// `chunk_len()` samples, while input and room are both left.
    #[verifier::spinoff_prover]
    pub fn plan_process(&mut self, channel: usize, in_len: u32, out_len: u32) -> (plan:
        ProcessPlan)
        requires
            old(self).wf(),
            channel < old(self).nb_channels,
            old(self).can_process(channel as int),
        ensures
            planned(*old(self), *final(self), channel as int, in_len as int, out_len as int, plan),
    {
        let ghost pre = *self;
        let ghost num = pre.num_rate as int;
        let ghost den = pre.den_rate as int;
        let ghost ch = channel as int;
        let xlen: u32 = self.mem_alloc_size - self.filt_len - 1;
        let mut ilen = in_len;
        let mut olen = out_len;
        let mut magic: Option<Block> = None;
        if self.magic_samples[channel] != 0 {
            let tmp = self.magic_samples[channel];
            let b = self.process_native(channel, tmp, olen);
            let left = tmp - b.used;
            self.magic_samples.set(channel, left);
            olen = olen - b.taps.len() as u32;
            magic = Some(b);
        }
        let ghost start = *self;
        assert(forall|i: int|
            0 <= i < pre.nb_channels && i != ch ==> #[trigger] start.last_sample@[i]
                == pre.last_sample@[i] && start.samp_frac_num@[i] == pre.samp_frac_num@[i]);
        let ghost p1 = start.pos(ch);
        let ghost olen1 = olen as int;
        let mut blocks: Vec<Block> = Vec::new();
        if self.magic_samples[channel] == 0 {
            while ilen != 0 && olen != 0
                invariant
                    self.wf(),
                    channel < self.nb_channels,
                    ch == channel as int,
                    num == pre.num_rate as int,
                    den == pre.den_rate as int,
                    num > 0,
                    den > 0,
                    self.nb_channels == pre.nb_channels,
                    self.num_rate == pre.num_rate,
                    self.den_rate == pre.den_rate,
                    self.filt_len == pre.filt_len,
                    self.mem_alloc_size == pre.mem_alloc_size,
                    self.int_advance == pre.int_advance,
                    self.frac_advance == pre.frac_advance,
                    self.magic_samples == start.magic_samples,
                    xlen == pre.chunk_len(),
                    xlen < self.mem_alloc_size,
                    self.mem_alloc_size as int + self.int_advance as int + 1 <= u32::MAX,
                    ilen == in_len - used_total(blocks@),
                    olen == olen1 - taps_total(blocks@),
                    ilen <= in_len,
                    olen <= olen1,
                    olen1 <= out_len,
                    chain_ok(blocks@, p1, num, den, in_len as int, olen1, xlen as int),
                    self.pos(ch) == pos_after(blocks@, p1, num, den),
                    forall|i: int|
                        0 <= i < self.nb_channels && i != ch ==> #[trigger] self.last_sample@[i]
                            == start.last_sample@[i] && self.samp_frac_num@[i]
                            == start.samp_frac_num@[i],
                decreases ilen as int + olen as int,
            {
                let ichunk = if ilen > xlen {
                    xlen
                } else {
                    ilen
                };
                let ghost before = blocks@;
                let ghost st0 = *self;
                let b = self.process_native(channel, ichunk, olen);
                proof {
                    lemma_pos_nonneg(st0.last_sample@[ch] as int, st0.samp_frac_num@[ch] as int, den);
                    lemma_block_progress(b, st0.pos(ch), num, den, olen as int);
                }
                ilen = ilen - b.used;
                olen = olen - b.taps.len() as u32;
                blocks.push(b);
                proof {
                    assert(blocks@.drop_last() =~= before);
                    assert(blocks@.last() == b);
                    let tt = taps_total(before);
                    let ut = used_total(before);
                    let n = b.taps@.len() as int;
                    let u = b.used as int;
                    assert(taps_total(blocks@) == tt + n);
                    assert(used_total(blocks@) == ut + u);
                    assert(p1 + (tt + n) * num - (ut + u) * den == p1 + tt * num - ut * den + n * num
                        - u * den) by (nonlinear_arith);
                    assert forall|i: int|
                        0 <= i < self.nb_channels && i != ch implies #[trigger] self.last_sample@[i]
                        == start.last_sample@[i] && self.samp_frac_num@[i]
                        == start.samp_frac_num@[i] by {
                        assert(self.last_sample@[i] == st0.last_sample@[i]);
                        assert(self.samp_frac_num@[i] == st0.samp_frac_num@[i]);
                    }
                }
            }
        }
        assert forall|i: int|
            0 <= i < pre.nb_channels && i != ch implies #[trigger] self.last_sample@[i]
            == pre.last_sample@[i] && self.samp_frac_num@[i] == pre.samp_frac_num@[i] by {
            assert(start.last_sample@[i] == pre.last_sample@[i]);
            assert(start.samp_frac_num@[i] == pre.samp_frac_num@[i]);
        }
        let in_used = in_len - ilen;
        let out_written = out_len - olen;
        ProcessPlan { magic, blocks, in_used, out_written }
    }
}

/// A position is never negative.
proof fn lemma_pos_nonneg(last: int, frac: int, den: int)
    requires
        last >= 0,
        frac >= 0,
        den > 0,
    ensures
        position(last, frac, den) >= 0,
{
    assert(last * den >= 0) by (nonlinear_arith)
        requires
            last >= 0,
            den > 0,
    ;
}

/// A pass with input offered and room left makes progress: it writes an
/// output sample or consumes input, and never more than it was offered.
proof fn lemma_block_progress(b: Block, p: int, num: int, den: int, room: int)
    requires
        block_ok(b, p, num, den, room),
        room > 0,
        b.offered > 0,
        p >= 0,
        num > 0,
        den > 0,
    ensures
        b.used <= b.offered,
        b.used >= 0,
        b.taps@.len() > 0 || b.used > 0,
{
    let n = b.taps@.len() as int;
    assert(p + n * num >= 0) by (nonlinear_arith)
        requires
            p >= 0,
            n >= 0,
            num > 0,
    ;
    assert((p + n * num) / den >= 0) by (nonlinear_arith)
        requires
            p + n * num >= 0,
            den > 0,
    ;
}

/// However the input is cut into chunks, output `k` of the chunk loop is
/// taken `k * num / den` input samples after where the loop started: the
/// `j`-th output of pass `i`, placed at its whole sample and fraction after
/// the input consumed by the passes before it, lies at `p + k * num` (in
/// units of `1 / den`), where `k` counts the outputs of the passes before.
pub proof fn law_chunking_keeps_spacing(
    bs: Seq<Block>,
    p: int,
    num: int,
    den: int,
    ilen: int,
    olen: int,
    xlen: int,
    i: int,
    j: int,
)
    requires
        chain_ok(bs, p, num, den, ilen, olen, xlen),
        den > 0,
        0 <= i < bs.len(),
        0 <= j < bs[i].taps@.len(),
    ensures
        used_total(bs.take(i)) * den + bs[i].taps@[j].0 * den + bs[i].taps@[j].1 == p + (
        taps_total(bs.take(i)) + j) * num,
    decreases bs.len(),
{
    if i == bs.len() - 1 {
        let pre = bs.drop_last();
        assert(bs.take(i) =~= pre);
        let q = pos_after(pre, p, num, den) + j * num;
        assert(bs[i].taps@[j].0 == q / den);
        assert(bs[i].taps@[j].1 == q % den);
        lemma_fundamental_div_mod(q, den);
        let t = taps_total(pre);
        let u = used_total(pre);
        assert(u * den + (q / den) * den + q % den == p + (t + j) * num) by (nonlinear_arith)
            requires
                q == p + t * num - u * den + j * num,
                q == den * (q / den) + q % den,
        ;
    } else {
        let pre = bs.drop_last();
        assert(pre.take(i) =~= bs.take(i));
        assert(pre[i] == bs[i]);
        law_chunking_keeps_spacing(pre, p, num, den, ilen, olen, xlen, i, j);
    }
}

impl ResamplerState {
    /// Move to the ratio `num / den` (given in lowest terms) of input to
    /// output samples.  Every channel's fraction is moved to the new
    /// denominator, left as it is where that does not fit in 32 bits, and
    /// kept below one input sample; then the filter is resized.
    pub fn set_ratio(&mut self, num: u32, den: u32)
        requires
            old(self).channels_wf(),
            old(self).den_rate > 0,
            plan_fits(num as int, den as int),
        ensures
            final(self).wf(),
            final(self).num_rate == num,
            final(self).den_rate == den,
            final(self).keeps_channels(&*old(self)),
            final(self).in_rate == old(self).in_rate,
            final(self).out_rate == old(self).out_rate,
            final(self).samp_frac_num@.len() == old(self).samp_frac_num@.len(),
            forall|i: int|
                0 <= i < old(self).samp_frac_num@.len() ==> #[trigger] final(self).samp_frac_num@[i]
                    == rescale_or_keep(
                    old(self).samp_frac_num@[i] as int,
                    den as int,
                    old(self).den_rate as int,
                ),
            final(self).sinc_table_length == max_int(
                old(self).sinc_table_length as int,
                plan_table_len(num as int, den as int),
            ),
            final(self).mem_alloc_size == max_int(
                old(self).mem_alloc_size as int,
                final(self).filt_len - 1 + BUFFER_SIZE,
            ),
    {
        let old_den = self.den_rate;
        let n = self.samp_frac_num.len();
        let ghost fr = self.samp_frac_num@;
        let ghost pre = *self;
        let mut i: usize = 0;
        while i < n
            invariant
                self.same_but_fractions(&pre),
                n == fr.len(),
                self.samp_frac_num@.len() == n,
                0 <= i <= n,
                den > 0,
                old_den == pre.den_rate,
                old_den > 0,
                forall|j: int|
                    0 <= j < i ==> #[trigger] self.samp_frac_num@[j] == rescale_or_keep(
                        fr[j] as int,
                        den as int,
                        old_den as int,
                    ),
                forall|j: int| i <= j < n ==> #[trigger] self.samp_frac_num@[j] == fr[j],
            decreases n - i,
        {
            let v = self.samp_frac_num[i];
            let mut out = v;
            let _ = _muldiv(&mut out, v, den, old_den);
            let out = if out >= den {
                den - 1
            } else {
                out
            };
            self.samp_frac_num.set(i, out);
            i = i + 1;
        }
        self.num_rate = num;
        self.den_rate = den;
        self.update_filter();
        assert forall|j: int| 0 <= j < self.nb_channels implies #[trigger] self.samp_frac_num@[j]
            < self.den_rate by {
            assert(self.samp_frac_num@[j] == rescale_or_keep(fr[j] as int, den as int, old_den as int));
        }
    }

    /// Whether channel `channel` can be run through the filter without its
    /// position leaving 32 bits: the history and the left-over samples,
    /// each with one output's advance, fit.
    pub open spec fn can_process(&self, channel: int) -> bool {
        &&& self.mem_alloc_size as int + self.int_advance as int + 1 <= u32::MAX
        &&& self.magic_samples@[channel] as int + self.int_advance as int + 1 <= u32::MAX
    }

    /// Test `can_process(channel)`.
    pub fn fits_process(&self, channel: usize) -> (r: bool)
        requires
            channel < self.magic_samples@.len(),
        ensures
            r == self.can_process(channel as int),
            r == (self.mem_alloc_size as int + self.int_advance as int + 1 <= u32::MAX
                && self.magic_samples@[channel as int] as int + self.int_advance as int + 1
                <= u32::MAX),
    {
        let adv = self.int_advance as u64;
        self.mem_alloc_size as u64 + adv + 1 <= 4294967295u64 && self.magic_samples[channel] as u64
            + adv + 1 <= 4294967295u64
    }
}

/// How a pass over the sample history follows a change of filter length.
#[derive(Debug, Clone, Copy, PartialEq, Eq, Structural)]
pub enum HistoryPass {
    /// The filter grew: move each channel's old history up, past its
    /// left-over samples, and clear what lies below.
    Shift,
    /// The filter grew: fit the old history and the left-over samples to
    /// the new length, starting the channels later where they fall short.
    Fit,
    /// The filter shrank: drop the ends of the old history, keeping the
    /// dropped samples as left-over samples.
    Trim,
}

/// One move of a channel chunk of the sample history.  Offsets are within
/// the chunk: `mem_alloc_size` samples long in the history written, and
/// `alloc_size` samples long in the copy of the history read.
#[derive(Debug, Clone, Copy, PartialEq, Eq, Structural)]
pub enum HistoryOp {
    /// Copy `len` samples of chunk `chunk` of the history as it was before
    /// the pass, from offset `src`, to offset `dst`.
    Copy { chunk: u32, dst: u32, src: u32, len: u32 },
    /// Clear `len` samples of chunk `chunk` from offset `start`.
    Clear { chunk: u32, start: u32, len: u32 },
}

/// The moves, left-over samples and positions of a pass over the history,
/// and whether it ran without leaving 32 bits or its chunks.
pub type HistoryRun = (Seq<u32>, Seq<u32>, Seq<HistoryOp>, bool);

/// `a` then `b`, `n` times over.
pub open spec fn repeat_pair(a: HistoryOp, b: HistoryOp, n: nat) -> Seq<HistoryOp>
    decreases n,
{
    if n == 0 {
        Seq::empty()
    } else {
        repeat_pair(a, b, (n - 1) as nat).push(a).push(b)
    }
}

/// Step `(c, m)` of a pass over the history: channel `m`'s left-over
/// samples, in chunk `c`, for a filter of `filt` taps that had `old` taps;
/// chunks hold `mem_alloc` samples and are read `alloc` samples apart.
pub open spec fn history_step(
    run: HistoryRun,
    pass: HistoryPass,
    c: int,
    m: int,
    filt: int,
    old: int,
    mem_alloc: int,
    alloc: int,
) -> HistoryRun {
    let (magic, last, ops, ok) = run;
    let mg = magic[m] as int;
    if !ok {
        run
    } else {
        match pass {
            HistoryPass::Shift => {
                let range = old - 1 + mg;
                if range <= u32::MAX && range <= mem_alloc && range <= alloc {
                    (
                        magic,
                        last,
                        ops.push(HistoryOp::Copy { chunk: c as u32, dst: mg as u32, src: 0, len: (old - 1) as u32 })
                            .push(HistoryOp::Clear { chunk: c as u32, start: 0, len: mg as u32 }),
                        true,
                    )
                } else {
                    (magic, last, ops, false)
                }
            },
            HistoryPass::Fit => {
                let olen = old + 2 * mg;
                if olen > u32::MAX {
                    (magic, last, ops, false)
                } else if filt > olen {
                    let nfl = filt - olen;
                    if olen - 1 <= alloc && forall|s: int|
                        0 <= s < last.len() ==> #[trigger] last[s] + nfl / 2 <= u32::MAX {
                        (
                            magic.update(m, 0),
                            Seq::new(last.len(), |s: int| (last[s] + nfl / 2) as u32),
                            ops + repeat_pair(
                                HistoryOp::Copy { chunk: c as u32, dst: nfl as u32, src: 0, len: (olen - 1) as u32 },
                                HistoryOp::Clear { chunk: c as u32, start: 0, len: nfl as u32 },
                                last.len(),
                            ),
                            true,
                        )
                    } else {
                        (magic, last, ops, false)
                    }
                } else {
                    let m2 = (olen - filt) / 2;
                    if filt - 1 + m2 <= mem_alloc && filt - 1 + 2 * m2 <= alloc {
                        (
                            magic.update(m, m2 as u32),
                            last,
                            ops.push(HistoryOp::Copy { chunk: c as u32, dst: 0, src: m2 as u32, len: (filt - 1 + m2) as u32 }),
                            true,
                        )
                    } else {
                        (magic, last, ops, false)
                    }
                }
            },
            HistoryPass::Trim => {
                let skip = (old - filt) / 2;
                let ubound = filt - 1 + skip + mg;
                if ubound <= mem_alloc && ubound + skip <= alloc {
                    (
                        magic.update(m, (mg + skip) as u32),
                        last,
                        ops.push(HistoryOp::Copy { chunk: c as u32, dst: 0, src: skip as u32, len: ubound as u32 }),
                        true,
                    )
                } else {
                    (magic, last, ops, false)
                }
            },
        }
    }
}

/// The first `t` steps of a pass over the history of `n` channels: for
/// each chunk, every channel's left-over samples in turn.
pub open spec fn history_run(
    start: HistoryRun,
    pass: HistoryPass,
    t: nat,
    n: nat,
    filt: int,
    old: int,
    mem_alloc: int,
    alloc: int,
) -> HistoryRun
    decreases t,
{
    if t == 0 || n == 0 {
        start
    } else {
        let k = t - 1;
        history_step(
            history_run(start, pass, k as nat, n, filt, old, mem_alloc, alloc),
            pass,
            k / n as int,
            k % n as int,
            filt,
            old,
            mem_alloc,
            alloc,
        )
    }
}

/// Once a pass over the history has stopped, it stays stopped.
proof fn lemma_history_stops(
    start: HistoryRun,
    pass: HistoryPass,
    t: nat,
    u: nat,
    n: nat,
    filt: int,
    old: int,
    mem_alloc: int,
    alloc: int,
)
    requires
        t <= u,
        !history_run(start, pass, t, n, filt, old, mem_alloc, alloc).3,
    ensures
        !history_run(start, pass, u, n, filt, old, mem_alloc, alloc).3,
    decreases u - t,
{
    if t < u {
        lemma_history_stops(start, pass, t, (u - 1) as nat, n, filt, old, mem_alloc, alloc);
    }
}

impl ResamplerState {
    /// The fields that a pass over the history leaves alone are the same.
    pub open spec fn same_but_history(&self, other: &Self) -> bool {
        &&& self.same_but_fractions_and_positions(other)
        &&& self.samp_frac_num == other.samp_frac_num
        &&& self.magic_samples@.len() == other.magic_samples@.len()
        &&& self.last_sample@.len() == other.last_sample@.len()
    }

    /// Plan a pass over the sample history of every channel that follows a
    /// change of filter length from `old_length` taps to `filt_len`: for
    /// each channel chunk, each channel's left-over samples in turn decide
    /// what moves, and the left-over samples and positions change as they
    /// go.  The history is read from a copy whose chunks are `alloc_size`
    /// samples apart.  Returns `None` where a count would leave 32 bits or
    /// a move would leave its chunk.
    pub fn plan_history(&mut self, pass: HistoryPass, old_length: u32, alloc_size: u32) -> (r:
        Option<Vec<HistoryOp>>)
        requires
            old(self).channels_wf(),
            old_length > 0,
            old(self).filt_len > 0,
            0 < alloc_size <= old(self).mem_alloc_size,
            pass == HistoryPass::Trim ==> old_length > old(self).filt_len,
        ensures
            final(self).same_but_history(&*old(self)),
            ({
                let n = old(self).nb_channels as nat;
                let run = history_run(
                    (old(self).magic_samples@, old(self).last_sample@, Seq::empty(), true),
                    pass,
                    n * n,
                    n,
                    old(self).filt_len as int,
                    old_length as int,
                    old(self).mem_alloc_size as int,
                    alloc_size as int,
                );
                &&& r is Some <==> run.3
                &&& r matches Some(ops) ==> ops@ == run.2 && final(self).magic_samples@ == run.0
                    && final(self).last_sample@ == run.1
            }),
    {
        let n = self.magic_samples.len();
        let filt = self.filt_len;
        let ma = self.mem_alloc_size;
        let ghost pre = *self;
        let ghost start: HistoryRun = (self.magic_samples@, self.last_sample@, Seq::empty(), true);
        let ghost nn = n as nat;
        let ghost fl = filt as int;
        let ghost od = old_length as int;
        let ghost mai = ma as int;
        let ghost al = alloc_size as int;
        let mut ops: Vec<HistoryOp> = Vec::new();
        let mut c: usize = 0;
        while c < n
            invariant
                0 <= c <= n,
                pre == *old(self),
                start == (pre.magic_samples@, pre.last_sample@, Seq::<HistoryOp>::empty(), true),
                nn == n as nat,
                fl == filt as int,
                od == old_length as int,
                mai == ma as int,
                al == alloc_size as int,
                n == pre.nb_channels,
                n == self.magic_samples@.len(),
                n == self.last_sample@.len(),
                self.same_but_history(&pre),
                filt == pre.filt_len,
                ma == pre.mem_alloc_size,
                filt > 0,
                old_length > 0,
                0 < alloc_size <= ma,
                pass == HistoryPass::Trim ==> old_length > filt,
                (self.magic_samples@, self.last_sample@, ops@, true) == history_run(
                    start,
                    pass,
                    (c * n) as nat,
                    nn,
                    fl,
                    od,
                    mai,
                    al,
                ),
            decreases n - c,
        {
            let mut m: usize = 0;
            while m < n
                invariant
                    0 <= c < n,
                    0 <= m <= n,
                    pre == *old(self),
                    start == (pre.magic_samples@, pre.last_sample@, Seq::<HistoryOp>::empty(), true),
                    nn == n as nat,
                    fl == filt as int,
                    od == old_length as int,
                    mai == ma as int,
                    al == alloc_size as int,
                    n == pre.nb_channels,
                    n == self.magic_samples@.len(),
                    n == self.last_sample@.len(),
                    self.same_but_history(&pre),
                    filt == pre.filt_len,
                    ma == pre.mem_alloc_size,
                    filt > 0,
                    old_length > 0,
                    0 < alloc_size <= ma,
                    pass == HistoryPass::Trim ==> old_length > filt,
                    (self.magic_samples@, self.last_sample@, ops@, true) == history_run(
                        start,
                        pass,
                        (c * n + m) as nat,
                        nn,
                        fl,
                        od,
                        mai,
                        al,
                    ),
                decreases n - m,
            {
                let ghost t = (c * n + m) as nat;
                let ghost before: HistoryRun = (self.magic_samples@, self.last_sample@, ops@, true);
                proof {
                    assert(c * n + m < n * n) by (nonlinear_arith)
                        requires
                            c < n,
                            m < n,
                    ;
                    lemma_fundamental_div_mod_converse((c * n + m) as int, n as int, c as int, m as int);
                    assert(history_run(start, pass, t + 1, nn, fl, od, mai, al) == history_step(
                        before,
                        pass,
                        c as int,
                        m as int,
                        fl,
                        od,
                        mai,
                        al,
                    ));
                }
                let mg = self.magic_samples[m];
                match pass {
                    HistoryPass::Shift => {
                        let range: u64 = old_length as u64 - 1 + mg as u64;
                        if range > 4294967295u64 || range > ma as u64 || range > alloc_size as u64 {
                            proof {
                                lemma_history_stops(start, pass, t + 1, nn * nn, nn, fl, od, mai, al);
                            }
                            return None;
                        }
                        ops.push(HistoryOp::Copy { chunk: c as u32, dst: mg, src: 0, len: old_length - 1 });
                        ops.push(HistoryOp::Clear { chunk: c as u32, start: 0, len: mg });
                        assert((self.magic_samples@, self.last_sample@, ops@, true) == history_step(before, pass, c as int, m as int, fl, od, mai, al));
                    },
                    HistoryPass::Fit => {
                        let olen: u64 = old_length as u64 + 2 * mg as u64;
                        if olen > 4294967295u64 {
                            proof {
                                lemma_history_stops(start, pass, t + 1, nn * nn, nn, fl, od, mai, al);
                            }
                            return None;
                        }
                        if filt as u64 > olen {
                            let nfl: u32 = filt - olen as u32;
                            let half: u32 = nfl / 2;
                            if olen - 1 > alloc_size as u64 {
                                proof {
                                    lemma_history_stops(start, pass, t + 1, nn * nn, nn, fl, od, mai, al);
                                }
                                return None;
                            }
                            let ghost last0 = self.last_sample@;
                            let ghost ops0 = ops@;
                            let copy = HistoryOp::Copy { chunk: c as u32, dst: nfl, src: 0, len: olen as u32 - 1 };
                            let clear = HistoryOp::Clear { chunk: c as u32, start: 0, len: nfl };
                            let mut s: usize = 0;
                            while s < n
                                invariant
                                    0 <= s <= n,
                                    0 <= c < n,
                                    0 <= m < n,
                                    n == pre.nb_channels,
                                    filt == pre.filt_len,
                                    ma == pre.mem_alloc_size,
                                    pre == *old(self),
                                    start == (pre.magic_samples@, pre.last_sample@, Seq::<HistoryOp>::empty(), true),
                                    nn == n as nat,
                                    fl == filt as int,
                                    od == old_length as int,
                                    mai == ma as int,
                                    al == alloc_size as int,
                                    t == (c * n + m) as nat,
                                    t < nn * nn,
                                    history_run(start, pass, t + 1, nn, fl, od, mai, al) == history_step(
                                        before,
                                        pass,
                                        c as int,
                                        m as int,
                                        fl,
                                        od,
                                        mai,
                                        al,
                                    ),
                                    before.0 == self.magic_samples@,
                                    before.1 == last0,
                                    before.2 == ops0,
                                    before.3,
                                    mg == before.0[m as int],
                                    olen == old_length as u64 + 2 * mg as u64,
                                    olen <= 4294967295u64,
                                    (filt as u64) > olen,
                                    nfl == filt - olen as u32,
                                    half == nfl / 2,
                                    olen - 1 <= alloc_size as u64,
                                    pass == HistoryPass::Fit,
                                    n == self.last_sample@.len(),
                                    n == self.magic_samples@.len(),
                                    n == last0.len(),
                                    self.same_but_history(&pre),
                                    self.magic_samples@ == before.0,
                                    ops@ == ops0 + repeat_pair(copy, clear, s as nat),
                                    forall|k: int|
                                        0 <= k < s ==> #[trigger] self.last_sample@[k] == last0[k] + half
                                            && last0[k] + half <= u32::MAX,
                                    forall|k: int| s <= k < n ==> #[trigger] self.last_sample@[k] == last0[k],
                                decreases n - s,
                            {
                                let v = self.last_sample[s];
                                assert(v == last0[s as int]);
                                if v as u64 + half as u64 > 4294967295u64 {
                                    proof {
                                        let nfli = fl - (od + 2 * (mg as int));
                                        assert(nfli == nfl as int);
                                        assert(last0[s as int] + nfli / 2 > u32::MAX);
                                        assert(!history_step(before, pass, c as int, m as int, fl, od, mai, al).3);
                                        lemma_history_stops(start, pass, t + 1, nn * nn, nn, fl, od, mai, al);
                                    }
                                    return None;
                                }
                                let ghost prev = self.last_sample@;
                                self.last_sample.set(s, v + half);
                                assert forall|k: int| 0 <= k < s + 1 implies #[trigger] self.last_sample@[k]
                                    == last0[k] + half && last0[k] + half <= u32::MAX by {
                                    if k < s {
                                        assert(prev[k] == last0[k] + half);
                                    }
                                }
                                ops.push(copy);
                                ops.push(clear);
                                s = s + 1;
                            }
                            self.magic_samples.set(m, 0);
                            proof {
                                assert(self.last_sample@ =~= Seq::new(last0.len(), |k: int| (last0[k] + nfl / 2) as u32));
                                let nfli = fl - (od + 2 * (mg as int));
                                assert(nfli == nfl as int);
                                assert forall|k: int| 0 <= k < last0.len() implies #[trigger] last0[k] + nfli / 2
                                    <= u32::MAX by {
                                    assert(self.last_sample@[k] == last0[k] + half);
                                }
                                assert(copy == HistoryOp::Copy { chunk: c as u32, dst: nfli as u32, src: 0, len: (od + 2 * (mg as int) - 1) as u32 });
                                assert(ops@ == ops0 + repeat_pair(copy, clear, last0.len()));
                            }
                            assert((self.magic_samples@, self.last_sample@, ops@, true) == history_step(before, pass, c as int, m as int, fl, od, mai, al));
                        } else {
                            let m2: u32 = ((olen - filt as u64) / 2) as u32;
                            if filt as u64 - 1 + m2 as u64 > ma as u64 || filt as u64 - 1 + 2 * m2 as u64
                                > alloc_size as u64 {
                                proof {
                                    lemma_history_stops(start, pass, t + 1, nn * nn, nn, fl, od, mai, al);
                                }
                                return None;
                            }
                            self.magic_samples.set(m, m2);
                            ops.push(HistoryOp::Copy { chunk: c as u32, dst: 0, src: m2, len: filt - 1 + m2 });
                            assert((self.magic_samples@, self.last_sample@, ops@, true) == history_step(before, pass, c as int, m as int, fl, od, mai, al));
                        }
                    },
                    HistoryPass::Trim => {
                        let skip: u32 = (old_length - filt) / 2;
                        let ubound: u64 = filt as u64 - 1 + skip as u64 + mg as u64;
                        if ubound > ma as u64 || ubound + skip as u64 > alloc_size as u64 {
                            proof {
                                lemma_history_stops(start, pass, t + 1, nn * nn, nn, fl, od, mai, al);
                            }
                            return None;
                        }
                        self.magic_samples.set(m, mg + skip);
                        ops.push(HistoryOp::Copy { chunk: c as u32, dst: 0, src: skip, len: ubound as u32 });
                        assert((self.magic_samples@, self.last_sample@, ops@, true) == history_step(before, pass, c as int, m as int, fl, od, mai, al));
                    },
                }
                m = m + 1;
            }
            assert((c + 1) * n == c * n + n) by (nonlinear_arith);
            c = c + 1;
        }
        assert(c * n == n * n);
        Some(ops)
    }
}

/// The chunk loop never consumes more input than it was given, nor writes
/// more output than there was room for.
pub proof fn law_chunking_stays_within(
    bs: Seq<Block>,
    p: int,
    num: int,
    den: int,
    ilen: int,
    olen: int,
    xlen: int,
)
    requires
        chain_ok(bs, p, num, den, ilen, olen, xlen),
        ilen >= 0,
        olen >= 0,
    ensures
        0 <= used_total(bs) <= ilen,
        0 <= taps_total(bs) <= olen,
    decreases bs.len(),
{
    if bs.len() > 0 {
        let pre = bs.drop_last();
        law_chunking_stays_within(pre, p, num, den, ilen, olen, xlen);
    }
}

/// The filter for `num / den` is a multiple of eight taps long: the base
/// length when upsampling, else the base length stretched by the ratio
/// (`160 * num / den` where that fits in 32 bits), rounded up to a multiple
/// of eight.
pub proof fn law_filter_sizes(num: int, den: int)
    requires
        num > 0,
        den > 0,
    ensures
        plan_filt_len(num, den) % 8 == 0,
        num <= den ==> plan_filt_len(num, den) == BASE_LENGTH,
        num > den ==> stretched_len(num, den) <= plan_filt_len(num, den) < stretched_len(num, den)
            + 8,
        num > den && muldiv_fits(BASE_LENGTH as int, num, den) ==> stretched_len(num, den)
            == BASE_LENGTH * num / den,
        plan_table_len(num, den) == if plan_use_direct(num, den) {
            plan_filt_len(num, den) * den
        } else {
            plan_filt_len(num, den) * plan_oversample(num, den) + 8
        },
{
    if num > den {
        let x = stretched_len(num, den);
        assert(x >= 1) by (nonlinear_arith)
            requires
                x == stretched_len(num, den),
                num > den,
                den > 0,
        ;
        assert((x - 1) / 8 * 8 + 8 >= x && (x - 1) / 8 * 8 + 8 < x + 8 && ((x - 1) / 8 * 8 + 8) % 8
            == 0) by (nonlinear_arith)
            requires
                x >= 1,
        ;
    }
}

/// A channel can be run through the filter exactly when its history and
/// its left-over samples, each with one output's advance, fit in 32 bits,
/// whatever the ratio.
pub proof fn law_can_process(st: ResamplerState, channel: int)
    ensures
        st.can_process(channel) <==> (st.mem_alloc_size as int + st.int_advance as int + 1
            <= u32::MAX && st.magic_samples@[channel] as int + st.int_advance as int + 1
            <= u32::MAX),
{
}

/// The early return of `set_rate_frac` is taken exactly when both rates and
/// both parts of the ratio are the ones given.
pub proof fn law_rates_are(st: ResamplerState, ratio_num: u32, ratio_den: u32, in_rate: u32, out_rate: u32)
    ensures
        st.rates_are(ratio_num, ratio_den, in_rate, out_rate) <==> (st.in_rate == in_rate
            && st.out_rate == out_rate && st.num_rate == ratio_num && st.den_rate == ratio_den),
{
}

/// The oversampling of a sized filter: sixteen when upsampling or when the
/// input rate is at most twice the output rate, halved for each of 2, 4, 8
/// and 16 times the output rate that the input rate exceeds (compared as
/// products, not truncated quotients).
pub proof fn law_oversample(st: ResamplerState)
    requires
        st.filter_planned(),
    ensures
        st.num_rate <= 2 * st.den_rate ==> st.oversample == 16,
        2 * st.den_rate < st.num_rate <= 4 * st.den_rate ==> st.oversample == 8,
        4 * st.den_rate < st.num_rate <= 8 * st.den_rate ==> st.oversample == 4,
        8 * st.den_rate < st.num_rate <= 16 * st.den_rate ==> st.oversample == 2,
        16 * st.den_rate < st.num_rate ==> st.oversample == 1,
        st.use_direct ==> st.sinc_table_length >= st.filt_len * st.den_rate,
        !st.use_direct ==> st.sinc_table_length >= st.filt_len * st.oversample + 8,
{
}

/// `a, b` repeated `n` times has `a` first and `b` second.
proof fn lemma_repeat_pair(a: HistoryOp, b: HistoryOp, n: nat)
    requires
        n > 0,
    ensures
        repeat_pair(a, b, n).len() == 2 * n,
        repeat_pair(a, b, n)[0] == a,
        repeat_pair(a, b, n)[1] == b,
    decreases n,
{
    reveal_with_fuel(repeat_pair, 2);
    if n > 1 {
        lemma_repeat_pair(a, b, (n - 1) as nat);
        let p = repeat_pair(a, b, (n - 1) as nat);
        assert(repeat_pair(a, b, n) == p.push(a).push(b));
        assert(p.push(a).push(b)[0] == p[0]);
        assert(p.push(a).push(b)[1] == p[1]);
    } else {
        assert(repeat_pair(a, b, 0) =~= Seq::empty());
        assert(repeat_pair(a, b, 1) =~= seq![a, b]);
    }
}

/// A step of a pass over the history that goes through moves the channel
/// chunk as follows, with `mg` the channel's left-over samples and `old`
/// and `filt` the old and new filter lengths:
/// - shifting, the old history of `old - 1` samples goes up by `mg`, and
///   the `mg` samples below are cleared;
/// - fitting, when the old history and the left-over samples
///   (`old - 1 + 2 * mg` samples) are shorter than the new filter, they are
///   copied to end where the new filter ends (`filt - 1`), the rest below is
///   cleared, the left-over samples are used up and every channel starts
///   half the difference later; when they are longer, the middle
///   `filt - 1 + m2` samples are kept, with `m2` half the excess, as the
///   left-over samples;
/// - trimming, half the shrinkage is skipped at the front, the history up
///   to the left-over samples kept, and the skipped samples become
///   left-over samples.
pub proof fn law_history_step(
    run: HistoryRun,
    pass: HistoryPass,
    c: int,
    m: int,
    filt: int,
    old: int,
    mem_alloc: int,
    alloc: int,
)
    requires
        run.3,
        0 <= m < run.0.len(),
        run.1.len() > 0,
        0 <= c <= u32::MAX,
        0 < old <= u32::MAX,
        0 < filt <= u32::MAX,
        0 <= mem_alloc <= u32::MAX,
        pass == HistoryPass::Trim ==> old > filt,
    ensures
        ({
            let r = history_step(run, pass, c, m, filt, old, mem_alloc, alloc);
            let mg = run.0[m] as int;
            let k = run.2.len() as int;
            r.3 ==> {
                &&& r.2.len() > k
                &&& r.2.subrange(0, k) == run.2
                &&& pass == HistoryPass::Shift ==> {
                    &&& r.2[k] == HistoryOp::Copy { chunk: c as u32, dst: mg as u32, src: 0, len: (old - 1) as u32 }
                    &&& r.2[k + 1] == HistoryOp::Clear { chunk: c as u32, start: 0, len: mg as u32 }
                    &&& r.0 == run.0 && r.1 == run.1
                }
                &&& pass == HistoryPass::Fit && filt > old + 2 * mg ==> (r.2[k] matches HistoryOp::Copy { chunk, dst, src, len } && {
                    &&& chunk == c
                    &&& src == 0
                    &&& len == old - 1 + 2 * mg
                    &&& dst + len == filt - 1
                    &&& r.2[k + 1] == HistoryOp::Clear { chunk: c as u32, start: 0, len: dst }
                    &&& r.0[m] == 0
                    &&& r.1.len() == run.1.len()
                    &&& forall|s: int| 0 <= s < run.1.len() ==> #[trigger] r.1[s] == run.1[s] + (filt - old - 2 * mg) / 2
                })
                &&& pass == HistoryPass::Fit && filt <= old + 2 * mg ==> {
                    &&& r.0[m] == (old + 2 * mg - filt) / 2
                    &&& r.2[k] == HistoryOp::Copy { chunk: c as u32, dst: 0, src: r.0[m], len: (filt - 1 + r.0[m]) as u32 }
                    &&& r.1 == run.1
                }
                &&& pass == HistoryPass::Trim ==> {
                    &&& r.0[m] == mg + (old - filt) / 2
                    &&& r.2[k] == HistoryOp::Copy {
                        chunk: c as u32,
                        dst: 0,
                        src: ((old - filt) / 2) as u32,
                        len: (filt - 1 + (old - filt) / 2 + mg) as u32,
                    }
                    &&& r.1 == run.1
                }
            }
        }),
{
    let r = history_step(run, pass, c, m, filt, old, mem_alloc, alloc);
    let mg = run.0[m] as int;
    let k = run.2.len() as int;
    if r.3 {
        match pass {
            HistoryPass::Fit => {
                if filt > old + 2 * mg {
                    let olen = old + 2 * mg;
                    let nfl = filt - olen;
                    let a = HistoryOp::Copy { chunk: c as u32, dst: nfl as u32, src: 0, len: (olen - 1) as u32 };
                    let b = HistoryOp::Clear { chunk: c as u32, start: 0, len: nfl as u32 };
                    lemma_repeat_pair(a, b, run.1.len());
                    assert(r.2 == run.2 + repeat_pair(a, b, run.1.len()));
                    assert(r.2[k] == a);
                    assert(r.2[k + 1] == b);
                    assert(r.2.subrange(0, k) =~= run.2);
                } else {
                    assert(r.2.subrange(0, k) =~= run.2);
                }
            },
            _ => {
                assert(r.2.subrange(0, k) =~= run.2);
            },
        }
    }
}

} // verus!
