//! A stream of audio whose source rate may change, resampled to a fixed
//! output rate: the rates, their ratio, and a resampler state for each
//! channel slot.  The samples themselves are floating point and are run
//! through the filter by the caller, as the plans returned here say.
use crate::ratio::{law_reduced_ratio, reduced_den, reduced_num, simplify};
use crate::speex::{
    max_int, plan_filt_len, plan_fits, plan_table_len, planned, rescale_or_keep, ProcessPlan,
    ResamplerState, BUFFER_SIZE,
};
use vstd::prelude::*;

verus! {

/// Channel slots of a stream: one resampler state for each.
pub const STREAM_SLOTS: usize = 8;

/// A resampler state of a stream slot: one channel, at the stream's ratio.
pub open spec fn slot_ok(st: ResamplerState, ratio: (u32, u32)) -> bool {
    &&& st.wf()
    &&& st.nb_channels == 1
    &&& st.num_rate == ratio.0
    &&& st.den_rate == ratio.1
}

/// A newly made resampler state of a stream slot: converting from `in_hz`
/// to `out_hz`, at the start of its input, with its filter and history
/// sized for the ratio alone.
pub open spec fn fresh_slot(st: ResamplerState, in_hz: u32, out_hz: u32) -> bool {
    &&& st.in_rate == in_hz
    &&& st.out_rate == out_hz
    &&& st.initialised
    &&& !st.started
    &&& st.last_sample@ == seq![0u32]
    &&& st.samp_frac_num@ == seq![0u32]
    &&& st.magic_samples@ == seq![0u32]
    &&& st.sinc_table_length == plan_table_len(st.num_rate as int, st.den_rate as int)
    &&& st.mem_alloc_size == st.filt_len - 1 + BUFFER_SIZE
    &&& st.in_stride == 1
    &&& st.out_stride == 1
}

/// Stream resampler.
#[derive(Debug)]
pub struct Stream<const CH: usize> {
    /// Target sample rate (constant).
    output_sample_rate: u32,
    /// Source sample rate (changeable).
    input_sample_rate: u32,
    /// Simplified ratio of input ÷ output samples.
    ratio: (u32, u32),
    /// Resampler state of each channel slot.
    channels: Vec<ResamplerState>,
    /// Input latency of the resampler.
    input_latency: u32,
}

impl<const CH: usize> Stream<CH> {
    /// The target sample rate, in hertz.
    pub closed spec fn out_hz(&self) -> u32 {
        self.output_sample_rate
    }

    /// The source sample rate, in hertz.
    pub closed spec fn in_hz(&self) -> u32 {
        self.input_sample_rate
    }

    /// The ratio of input to output samples, in lowest terms.
    pub closed spec fn reduced(&self) -> (u32, u32) {
        self.ratio
    }

    /// The resampler states of the channel slots.
    pub closed spec fn states(&self) -> Seq<ResamplerState> {
        self.channels@
    }

    /// The input latency, in input samples.
    pub closed spec fn latency(&self) -> u32 {
        self.input_latency
    }

    /// The rates are positive, the ratio is theirs in lowest terms, every
    /// slot runs at that ratio, and the latency is half the filter.
    pub open spec fn wf(&self) -> bool {
        &&& self.out_hz() > 0
        &&& self.in_hz() > 0
        &&& self.reduced().0 == reduced_num(self.in_hz() as nat, self.out_hz() as nat)
        &&& self.reduced().1 == reduced_den(self.in_hz() as nat, self.out_hz() as nat)
        &&& self.states().len() == STREAM_SLOTS
        &&& forall|i: int| 0 <= i < STREAM_SLOTS ==> slot_ok(#[trigger] self.states()[i], self.reduced())
        &&& self.latency() == plan_filt_len(self.reduced().0 as int, self.reduced().1 as int) / 2
    }

    /// Create a new stream from `in_hz` to `out_hz`.
    pub fn new(in_hz: u32, out_hz: u32) -> (r: Self)
        requires
            in_hz != 0,
            out_hz != 0,
            plan_fits(
                reduced_num(in_hz as nat, out_hz as nat) as int,
                reduced_den(in_hz as nat, out_hz as nat) as int,
            ),
        ensures
            r.wf(),
            r.in_hz() == in_hz,
            r.out_hz() == out_hz,
            forall|i: int|
                0 <= i < STREAM_SLOTS ==> fresh_slot(#[trigger] r.states()[i], in_hz, out_hz),
    {
        let ratio = simplify(in_hz, out_hz);
        proof {
            lemma_simplified(in_hz, out_hz, ratio);
        }
        let mut channels: Vec<ResamplerState> = Vec::new();
        let mut i: usize = 0;
        while i < STREAM_SLOTS
            invariant
                0 <= i <= STREAM_SLOTS,
                channels@.len() == i,
                ratio.0 == reduced_num(in_hz as nat, out_hz as nat),
                ratio.1 == reduced_den(in_hz as nat, out_hz as nat),
                ratio.0 != 0,
                ratio.1 != 0,
                reduced_num(ratio.0 as nat, ratio.1 as nat) == ratio.0,
                reduced_den(ratio.0 as nat, ratio.1 as nat) == ratio.1,
                plan_fits(
                    reduced_num(ratio.0 as nat, ratio.1 as nat) as int,
                    reduced_den(ratio.0 as nat, ratio.1 as nat) as int,
                ),
                forall|k: int| 0 <= k < i ==> slot_ok(#[trigger] channels@[k], ratio),
                forall|k: int| 0 <= k < i ==> fresh_slot(#[trigger] channels@[k], in_hz, out_hz),
            decreases STREAM_SLOTS - i,
        {
            let st = ResamplerState::init_frac(1, ratio.0, ratio.1, in_hz, out_hz);
            assert(st.last_sample@ =~= seq![0u32]);
            assert(st.samp_frac_num@ =~= seq![0u32]);
            assert(st.magic_samples@ =~= seq![0u32]);
            channels.push(st);
            i = i + 1;
        }
        let input_latency = channels[STREAM_SLOTS - 1].filt_len / 2;
        Stream {
            output_sample_rate: out_hz,
            input_sample_rate: in_hz,
            ratio,
            channels,
            input_latency,
        }
    }

    /// Get the target sample rate, in hertz.
    pub fn output_sample_rate(&self) -> (r: u32)
        ensures
            r == self.out_hz(),
    {
        self.output_sample_rate
    }

    /// Get the source sample rate, in hertz.
    pub fn input_sample_rate(&self) -> (r: u32)
        ensures
            r == self.in_hz(),
    {
        self.input_sample_rate
    }

    /// Get the ratio of input to output samples, in lowest terms.
    pub fn ratio(&self) -> (r: (u32, u32))
        ensures
            r == self.reduced(),
    {
        self.ratio
    }

    /// Get the input latency of the resampler, in input samples.
    pub fn input_latency(&self) -> (r: u32)
        ensures
            r == self.latency(),
    {
        self.input_latency
    }

    /// Get the resampler state of channel slot `i`.
    pub fn state(&self, i: usize) -> (r: &ResamplerState)
        requires
            i < self.states().len(),
        ensures
            *r == self.states()[i as int],
    {
        &self.channels[i]
    }

    /// Switch the source sample rate to `hz`.  When it changes, every slot
    /// moves to the new ratio (keeping its position, with its fraction in
    /// the new units) and the latency follows the new filter.
    pub fn source_hz(&mut self, hz: u32)
        requires
            old(self).wf(),
            hz != 0,
            plan_fits(
                reduced_num(hz as nat, old(self).out_hz() as nat) as int,
                reduced_den(hz as nat, old(self).out_hz() as nat) as int,
            ),
        ensures
            final(self).wf(),
            final(self).out_hz() == old(self).out_hz(),
            final(self).in_hz() == hz,
            hz == old(self).in_hz() ==> *final(self) == *old(self),
            hz != old(self).in_hz() ==> forall|i: int|
                0 <= i < STREAM_SLOTS ==> {
                    let o = old(self).states()[i];
                    let n = #[trigger] final(self).states()[i];
                    &&& n.keeps_channels(&o)
                    &&& n.in_rate == o.in_rate
                    &&& n.out_rate == o.out_rate
                    &&& n.sinc_table_length == max_int(
                        o.sinc_table_length as int,
                        plan_table_len(final(self).reduced().0 as int, final(self).reduced().1 as int),
                    )
                    &&& n.mem_alloc_size == max_int(
                        o.mem_alloc_size as int,
                        n.filt_len - 1 + BUFFER_SIZE,
                    )
                    &&& n.samp_frac_num@ == seq![
                        rescale_or_keep(
                            o.samp_frac_num@[0] as int,
                            final(self).reduced().1 as int,
                            old(self).reduced().1 as int,
                        ) as u32,
                    ]
                },
    {
        let out_hz = self.output_sample_rate;
        let ratio = simplify(hz, out_hz);
        proof {
            lemma_simplified(hz, out_hz, ratio);
        }
        if hz != self.input_sample_rate {
            let ghost pre = *self;
            let mut i: usize = 0;
            while i < STREAM_SLOTS
                invariant
                    0 <= i <= STREAM_SLOTS,
                    self.channels@.len() == STREAM_SLOTS,
                    self.output_sample_rate == pre.output_sample_rate,
                    self.input_sample_rate == pre.input_sample_rate,
                    self.ratio == pre.ratio,
                    self.input_latency == pre.input_latency,
                    pre.wf(),
                    ratio.0 == reduced_num(hz as nat, out_hz as nat),
                    ratio.1 == reduced_den(hz as nat, out_hz as nat),
                    out_hz == pre.output_sample_rate,
                    plan_fits(ratio.0 as int, ratio.1 as int),
                    forall|k: int| 0 <= k < i ==> slot_ok(#[trigger] self.channels@[k], ratio),
                    forall|k: int|
                        i <= k < STREAM_SLOTS ==> #[trigger] self.channels@[k] == pre.channels@[k],
                    forall|k: int|
                        0 <= k < i ==> {
                            let o = pre.channels@[k];
                            let n = #[trigger] self.channels@[k];
                            &&& n.keeps_channels(&o)
                            &&& n.in_rate == o.in_rate
                            &&& n.out_rate == o.out_rate
                            &&& n.sinc_table_length == max_int(
                                o.sinc_table_length as int,
                                plan_table_len(ratio.0 as int, ratio.1 as int),
                            )
                            &&& n.mem_alloc_size == max_int(
                                o.mem_alloc_size as int,
                                n.filt_len - 1 + BUFFER_SIZE,
                            )
                            &&& n.samp_frac_num@ == seq![
                                rescale_or_keep(
                                    o.samp_frac_num@[0] as int,
                                    ratio.1 as int,
                                    pre.ratio.1 as int,
                                ) as u32,
                            ]
                        },
                decreases STREAM_SLOTS - i,
            {
                assert(slot_ok(self.channels@[i as int], pre.ratio));
                self.channels[i].set_ratio(ratio.0, ratio.1);
                assert(self.channels@[i as int].samp_frac_num@ =~= seq![
                    rescale_or_keep(
                        pre.channels@[i as int].samp_frac_num@[0] as int,
                        ratio.1 as int,
                        pre.ratio.1 as int,
                    ) as u32,
                ]);
                i = i + 1;
            }
            self.input_latency = self.channels[STREAM_SLOTS - 1].filt_len / 2;
            self.ratio = ratio;
            self.input_sample_rate = hz;
        }
    }

    /// Plan the resampling of `input_samples` samples of every channel into
    /// room for `len` output frames (taken as a 32-bit count).  Returns
    /// `None`, and changes nothing, when a channel's position could leave
    /// 32 bits on the way; else one plan for each channel, in order.
    pub fn resample(&mut self, len: usize, input_samples: u32) -> (r: Option<Vec<ProcessPlan>>)
        requires
            old(self).wf(),
            CH <= STREAM_SLOTS,
        ensures
            r is None <==> exists|c: int|
                0 <= c < CH && !(#[trigger] old(self).states()[c]).can_process(0),
            r is None ==> *final(self) == *old(self),
            r matches Some(plans) ==> {
                &&& plans@.len() == CH
                &&& final(self).wf()
                &&& final(self).in_hz() == old(self).in_hz()
                &&& final(self).out_hz() == old(self).out_hz()
                &&& final(self).reduced() == old(self).reduced()
                &&& final(self).latency() == old(self).latency()
                &&& forall|c: int|
                    0 <= c < CH ==> planned(
                        old(self).states()[c],
                        final(self).states()[c],
                        0,
                        input_samples as int,
                        (len as u32) as int,
                        #[trigger] plans@[c],
                    )
                &&& forall|c: int|
                    CH <= c < STREAM_SLOTS ==> #[trigger] final(self).states()[c] == old(
                        self,
                    ).states()[c]
            },
    {
        let mut c: usize = 0;
        while c < CH
            invariant
                0 <= c <= CH,
                CH <= STREAM_SLOTS,
                self.wf(),
                forall|k: int| 0 <= k < c ==> (#[trigger] self.states()[k]).can_process(0),
            decreases CH - c,
        {
            assert(slot_ok(self.states()[c as int], self.reduced()));
            if !self.channels[c].fits_process(0) {
                return None;
            }
            c = c + 1;
        }
        #[verifier::truncate]
        let out_len: u32 = len as u32;
        let ghost pre = *self;
        let mut plans: Vec<ProcessPlan> = Vec::new();
        let mut c: usize = 0;
        while c < CH
            invariant
                0 <= c <= CH,
                CH <= STREAM_SLOTS,
                pre.wf(),
                out_len == len as u32,
                forall|k: int| 0 <= k < CH ==> (#[trigger] pre.states()[k]).can_process(0),
                self.output_sample_rate == pre.output_sample_rate,
                self.input_sample_rate == pre.input_sample_rate,
                self.ratio == pre.ratio,
                self.input_latency == pre.input_latency,
                self.channels@.len() == STREAM_SLOTS,
                plans@.len() == c,
                forall|k: int| 0 <= k < STREAM_SLOTS ==> slot_ok(#[trigger] self.channels@[k], pre.ratio),
                forall|k: int|
                    c <= k < STREAM_SLOTS ==> #[trigger] self.channels@[k] == pre.channels@[k],
                forall|k: int|
                    0 <= k < c ==> planned(
                        pre.channels@[k],
                        self.channels@[k],
                        0,
                        input_samples as int,
                        out_len as int,
                        #[trigger] plans@[k],
                    ),
            decreases CH - c,
        {
            assert(slot_ok(self.channels@[c as int], pre.ratio));
            let plan = self.channels[c].plan_process(0, input_samples, out_len);
            plans.push(plan);
            c = c + 1;
        }
        Some(plans)
    }
}

/// A simplified ratio is the reduced one, and reducing it again changes
/// nothing.
proof fn lemma_simplified(num: u32, den: u32, r: (u32, u32))
    requires
        num != 0,
        den != 0,
        r.0 * crate::ratio::greatest_common_divisor(num as nat, den as nat) == num,
        r.1 * crate::ratio::greatest_common_divisor(num as nat, den as nat) == den,
    ensures
        r.0 == reduced_num(num as nat, den as nat),
        r.1 == reduced_den(num as nat, den as nat),
        r.0 != 0,
        r.1 != 0,
        reduced_num(r.0 as nat, r.1 as nat) == r.0,
        reduced_den(r.0 as nat, r.1 as nat) == r.1,
{
    let g = crate::ratio::greatest_common_divisor(num as nat, den as nat);
    crate::ratio::lemma_gcd_positive(num as nat, den as nat);
    vstd::arithmetic::div_mod::lemma_fundamental_div_mod_converse(num as int, g as int, r.0 as int, 0);
    vstd::arithmetic::div_mod::lemma_fundamental_div_mod_converse(den as int, g as int, r.1 as int, 0);
    law_reduced_ratio(num as nat, den as nat);
}

} // verus!
