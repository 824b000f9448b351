use fon::speex::{
    _muldiv, filter_fits, HistoryOp, HistoryPass, gcd, ResamplerState, RESAMPLER_ERR_INVALID_ARG, RESAMPLER_ERR_OVERFLOW,
    RESAMPLER_ERR_SUCCESS,
};

#[test]
fn muldiv_exact() {
    let mut r: u32 = 0;
    assert_eq!(RESAMPLER_ERR_SUCCESS, _muldiv(&mut r, 10, 3, 4));
    assert_eq!(7, r);
    assert_eq!(RESAMPLER_ERR_SUCCESS, _muldiv(&mut r, 4_000_000_000, 1, 2));
    assert_eq!(2_000_000_000, r);
    // Needs more than 32 bits in between, but the result fits.
    assert_eq!(RESAMPLER_ERR_SUCCESS, _muldiv(&mut r, 3_000_000_000, 3, 4));
    assert_eq!(2_250_000_000, r);
}

#[test]
fn muldiv_overflow_leaves_result() {
    let mut r: u32 = 17;
    assert_eq!(RESAMPLER_ERR_OVERFLOW, _muldiv(&mut r, u32::MAX, 2, 1));
    assert_eq!(17, r);
    assert_eq!(RESAMPLER_ERR_OVERFLOW, _muldiv(&mut r, 999_999, 10_000, 1_000_000));
    assert_eq!(17, r);
}

#[test]
fn speex_gcd() {
    assert_eq!(300, gcd(48000, 44100));
    assert_eq!(4, gcd(4, 0));
    assert_eq!(4, gcd(0, 4));
}

#[test]
fn new_upsampling_interpolates() {
    let st = ResamplerState::new(2, 44100, 48000);
    assert_eq!((44100, 48000), st.get_rate());
    assert_eq!((147, 160), st.get_ratio());
    assert_eq!(160, st.filt_len);
    assert_eq!(16, st.oversample);
    assert!(!st.use_direct);
    assert_eq!(160 * 16 + 8, st.sinc_table_length);
    assert_eq!(159 + 160, st.mem_alloc_size);
    assert_eq!(0, st.int_advance);
    assert_eq!(147, st.frac_advance);
    assert_eq!(vec![0, 0], st.last_sample);
    assert_eq!(vec![0, 0], st.samp_frac_num);
    assert_eq!(vec![0, 0], st.magic_samples);
    assert!(st.initialised);
    assert!(!st.started);
}

#[test]
fn new_downsampling_stretches_filter() {
    let st = ResamplerState::new(1, 48000, 44100);
    assert_eq!((160, 147), st.get_ratio());
    // 160 * 160 / 147 = 174, rounded up to a multiple of eight.
    assert_eq!(176, st.filt_len);
    assert_eq!(16, st.oversample);
    assert!(!st.use_direct);
    assert_eq!(176 * 16 + 8, st.sinc_table_length);
    assert_eq!(1, st.int_advance);
    assert_eq!(13, st.frac_advance);
}

#[test]
fn new_halving_is_direct() {
    let st = ResamplerState::new(1, 96000, 48000);
    assert_eq!((2, 1), st.get_ratio());
    assert_eq!(320, st.filt_len);
    assert_eq!(16, st.oversample);
    assert!(st.use_direct);
    assert_eq!(320, st.sinc_table_length);
    assert_eq!(2, st.int_advance);
    assert_eq!(0, st.frac_advance);
}

#[test]
fn new_large_downsampling_lowers_oversample() {
    let st = ResamplerState::new(1, 20, 1);
    assert_eq!(3200, st.filt_len);
    assert_eq!(1, st.oversample);
    assert!(st.use_direct);
    let st = ResamplerState::new(1, 5, 1);
    assert_eq!(800, st.filt_len);
    assert_eq!(4, st.oversample);
}

#[test]
fn init_frac_reduces_ratio() {
    let st = ResamplerState::init_frac(3, 882, 960, 44100, 48000);
    assert_eq!((147, 160), st.get_ratio());
    assert_eq!((44100, 48000), st.get_rate());
    assert_eq!(3, st.nb_channels);
    assert_eq!(3, st.last_sample.len());
}

#[test]
fn latencies() {
    let st = ResamplerState::new(1, 44100, 48000);
    assert_eq!(80, st.get_input_latency());
    // (80 * 160 + 147 / 2) / 147
    assert_eq!(87, st.get_output_latency());
    let st = ResamplerState::new(1, 96000, 48000);
    assert_eq!(160, st.get_input_latency());
    assert_eq!(80, st.get_output_latency());
}

#[test]
fn set_rate_frac_rejects_zero() {
    let mut st = ResamplerState::new(1, 44100, 48000);
    assert_eq!(RESAMPLER_ERR_INVALID_ARG, st.set_rate_frac(0, 1, 44100, 48000));
    assert_eq!(RESAMPLER_ERR_INVALID_ARG, st.set_rate_frac(1, 0, 44100, 48000));
    assert_eq!((147, 160), st.get_ratio());
    assert_eq!((44100, 48000), st.get_rate());
}

#[test]
fn set_rate_frac_same_rates_changes_nothing() {
    let mut st = ResamplerState::new(1, 1, 2);
    st.schedule(0, 1, 1);
    assert_eq!(RESAMPLER_ERR_SUCCESS, st.set_rate_frac(1, 2, 1, 2));
    assert_eq!(vec![1], st.samp_frac_num);
    assert_eq!((1, 2), st.get_ratio());
}

#[test]
fn set_rate_frac_rescales_fraction() {
    let mut st = ResamplerState::new(1, 1, 2);
    let taps = st.schedule(0, 1, 1);
    assert_eq!(vec![(0, 0)], taps);
    assert_eq!(vec![1], st.samp_frac_num);
    // Half a sample in halves is one third-ish in thirds: 1 * 3 / 2 = 1.
    assert_eq!(RESAMPLER_ERR_SUCCESS, st.set_rate_frac(1, 3, 1, 3));
    assert_eq!((1, 3), st.get_ratio());
    assert_eq!(vec![1], st.samp_frac_num);
    assert_eq!(160, st.filt_len);
    assert!(st.use_direct);
    assert_eq!(480, st.sinc_table_length);
    assert_eq!(0, st.int_advance);
    assert_eq!(1, st.frac_advance);
}

#[test]
fn set_rate_frac_clamps_fraction() {
    let mut st = ResamplerState::new(1, 2, 3);
    st.schedule(0, 1, 1);
    assert_eq!(vec![2], st.samp_frac_num);
    // 2 * 1 / 3 = 0 in the new units.
    assert_eq!(RESAMPLER_ERR_SUCCESS, st.set_rate_frac(2, 1, 2, 1));
    assert_eq!(vec![0], st.samp_frac_num);
    assert_eq!(320, st.filt_len);
}

#[test]
fn set_rate_frac_overflow_stops() {
    let mut st = ResamplerState::init_frac(2, 999_999, 1_000_000, 999_999, 1_000_000);
    st.schedule(0, 1, 1);
    assert_eq!(vec![999_999, 0], st.samp_frac_num);
    assert_eq!(
        RESAMPLER_ERR_OVERFLOW,
        st.set_rate_frac(1, 10_000, 1, 10_000)
    );
    assert_eq!((1, 10_000), st.get_ratio());
    assert_eq!((1, 10_000), st.get_rate());
    assert_eq!(vec![999_999, 0], st.samp_frac_num);
}

#[test]
fn schedule_walks_input() {
    let mut st = ResamplerState::new(1, 1, 2);
    let taps = st.schedule(0, 3, 10);
    assert_eq!(vec![(0, 0), (0, 1), (1, 0), (1, 1), (2, 0), (2, 1)], taps);
    assert_eq!(vec![3], st.last_sample);
    assert_eq!(vec![0], st.samp_frac_num);
    assert_eq!(3, st.finish_block(0, 3));
    assert_eq!(vec![0], st.last_sample);
    assert!(st.started);
}

#[test]
fn schedule_stops_at_output_room() {
    let mut st = ResamplerState::new(2, 44100, 48000);
    let taps = st.schedule(1, 100, 3);
    assert_eq!(vec![(0, 0), (0, 147), (1, 134)], taps);
    assert_eq!(vec![0, 2], st.last_sample);
    assert_eq!(vec![0, 121], st.samp_frac_num);
    // Channel 0 has not moved.
    assert_eq!(0, st.finish_block(0, 100));
    assert_eq!(2, st.finish_block(1, 100));
    assert_eq!(vec![0, 0], st.last_sample);
    assert_eq!(vec![0, 121], st.samp_frac_num);
}

#[test]
fn schedule_downsampling_skips_input() {
    let mut st = ResamplerState::new(1, 96000, 48000);
    let taps = st.schedule(0, 5, 10);
    assert_eq!(vec![(0, 0), (2, 0), (4, 0)], taps);
    assert_eq!(vec![6], st.last_sample);
    // Moved past the end: the whole block is used and one sample is owed.
    assert_eq!(5, st.finish_block(0, 5));
    assert_eq!(vec![1], st.last_sample);
}

#[test]
fn skip_zeros_starts_half_a_filter_in() {
    let mut st = ResamplerState::new(3, 44100, 48000);
    st.skip_zeros();
    assert_eq!(vec![80, 80, 80], st.last_sample);
    let taps = st.schedule(0, 81, 2);
    assert_eq!(vec![(80, 0), (80, 147)], taps);
    assert_eq!(vec![81, 80, 80], st.last_sample);
}

#[test]
fn reset_mem_rewinds_channels() {
    let mut st = ResamplerState::new(2, 44100, 48000);
    st.skip_zeros();
    st.schedule(1, 200, 5);
    st.reset_mem();
    assert_eq!(vec![0, 0], st.last_sample);
    assert_eq!(vec![0, 0], st.samp_frac_num);
    assert_eq!(vec![0, 0], st.magic_samples);
    assert_eq!((147, 160), st.get_ratio());
}

#[test]
fn interp_phase_splits_fraction() {
    let st = ResamplerState::new(1, 44100, 48000);
    // 147 * 16 = 2352 = 14 * 160 + 112
    assert_eq!((14, 112), st.interp_phase(147));
    assert_eq!((0, 0), st.interp_phase(0));
    assert_eq!((15, 144), st.interp_phase(159));
}

#[test]
fn direct_phase_offsets_table() {
    let st = ResamplerState::new(1, 1, 2);
    assert_eq!(0, st.direct_phase(0));
    assert_eq!(160, st.direct_phase(1));
}

#[test]
fn process_native_plans_and_consumes() {
    let mut st = ResamplerState::new(1, 1, 2);
    let b = st.process_native(0, 3, 10);
    assert_eq!(3, b.offered);
    assert_eq!(vec![(0, 0), (0, 1), (1, 0), (1, 1), (2, 0), (2, 1)], b.taps);
    assert_eq!(3, b.used);
    assert_eq!(vec![0], st.last_sample);
    assert_eq!(vec![0], st.samp_frac_num);
    assert!(st.started);
}

#[test]
fn plan_process_single_chunk() {
    let mut st = ResamplerState::new(1, 1, 2);
    let plan = st.plan_process(0, 3, 10);
    assert!(plan.magic.is_none());
    assert_eq!(1, plan.blocks.len());
    assert_eq!(3, plan.blocks[0].offered);
    assert_eq!(6, plan.blocks[0].taps.len());
    assert_eq!(3, plan.in_used);
    assert_eq!(6, plan.out_written);
}

#[test]
fn plan_process_cuts_input_into_chunks() {
    let mut st = ResamplerState::new(1, 1, 2);
    // History of 319 samples, less the filter and one: 158 per chunk.
    let plan = st.plan_process(0, 200, 1000);
    assert_eq!(2, plan.blocks.len());
    assert_eq!(158, plan.blocks[0].offered);
    assert_eq!(316, plan.blocks[0].taps.len());
    assert_eq!(158, plan.blocks[0].used);
    assert_eq!(42, plan.blocks[1].offered);
    assert_eq!(84, plan.blocks[1].taps.len());
    assert_eq!(42, plan.blocks[1].used);
    // The second chunk starts where the first left off.
    assert_eq!((0, 0), plan.blocks[1].taps[0]);
    assert_eq!(200, plan.in_used);
    assert_eq!(400, plan.out_written);
}

#[test]
fn plan_process_stops_when_output_is_full() {
    let mut st = ResamplerState::new(1, 1, 2);
    let plan = st.plan_process(0, 10, 5);
    assert_eq!(1, plan.blocks.len());
    assert_eq!(vec![(0, 0), (0, 1), (1, 0), (1, 1), (2, 0)], plan.blocks[0].taps);
    assert_eq!(2, plan.in_used);
    assert_eq!(5, plan.out_written);
    assert_eq!(vec![0], st.last_sample);
    assert_eq!(vec![1], st.samp_frac_num);
}

#[test]
fn plan_process_drains_left_over_samples_first() {
    let mut st = ResamplerState::new(1, 1, 2);
    st.magic_samples[0] = 4;
    let plan = st.plan_process(0, 10, 100);
    let m = plan.magic.unwrap();
    assert_eq!(4, m.offered);
    assert_eq!(8, m.taps.len());
    assert_eq!(4, m.used);
    assert_eq!(vec![0], st.magic_samples);
    assert_eq!(1, plan.blocks.len());
    assert_eq!(20, plan.blocks[0].taps.len());
    assert_eq!(10, plan.in_used);
    assert_eq!(28, plan.out_written);
}

#[test]
fn plan_process_keeps_input_while_samples_are_left_over() {
    let mut st = ResamplerState::new(1, 1, 2);
    st.magic_samples[0] = 4;
    let plan = st.plan_process(0, 10, 3);
    let m = plan.magic.unwrap();
    assert_eq!(vec![(0, 0), (0, 1), (1, 0)], m.taps);
    assert_eq!(1, m.used);
    assert_eq!(vec![3], st.magic_samples);
    assert!(plan.blocks.is_empty());
    assert_eq!(0, plan.in_used);
    assert_eq!(3, plan.out_written);
    assert_eq!(vec![0], st.last_sample);
    assert_eq!(vec![1], st.samp_frac_num);
}

#[test]
fn chunked_outputs_are_evenly_spaced() {
    // Downsampling 3:2 over 400 samples in chunks; every output k sits at
    // k * 3 / 2 input samples from the start.
    let mut st = ResamplerState::new(1, 3, 2);
    let plan = st.plan_process(0, 400, 1000);
    assert!(plan.blocks.len() > 1);
    let mut k: u64 = 0;
    let mut consumed: u64 = 0;
    for b in &plan.blocks {
        for &(s, f) in &b.taps {
            assert_eq!(k * 3, (consumed + s as u64) * 2 + f as u64);
            k += 1;
        }
        consumed += b.used as u64;
    }
    assert_eq!(k, plan.out_written as u64);
}

#[test]
fn filter_fits_matches_sizes() {
    assert!(filter_fits(147, 160));
    assert!(filter_fits(160, 147));
    assert!(filter_fits(2, 1));
    assert!(!filter_fits(0, 1));
    assert!(!filter_fits(1, 0));
    // 160 taps of a denominator this large do not fit in 32 bits.
    assert!(!filter_fits(1, 30_000_000));
    assert!(filter_fits(1, 26_000_000));
    // Sixteen times the denominator must fit when downsampling.
    assert!(!filter_fits(u32::MAX, 300_000_000));
}

#[test]
fn history_shift_moves_each_chunk() {
    let mut st = ResamplerState::new(2, 1, 2);
    let ops = st.plan_history(HistoryPass::Shift, 100, 319).unwrap();
    assert_eq!(8, ops.len());
    assert_eq!(HistoryOp::Copy { chunk: 0, dst: 0, src: 0, len: 99 }, ops[0]);
    assert_eq!(HistoryOp::Clear { chunk: 0, start: 0, len: 0 }, ops[1]);
    assert_eq!(HistoryOp::Copy { chunk: 1, dst: 0, src: 0, len: 99 }, ops[4]);
    assert_eq!(vec![0, 0], st.magic_samples);
}

#[test]
fn history_fit_starts_channels_later() {
    let mut st = ResamplerState::new(2, 1, 2);
    let ops = st.plan_history(HistoryPass::Fit, 100, 319).unwrap();
    // Each of the four steps adds 30 to both positions, moving twice.
    assert_eq!(16, ops.len());
    assert_eq!(HistoryOp::Copy { chunk: 0, dst: 60, src: 0, len: 99 }, ops[0]);
    assert_eq!(HistoryOp::Clear { chunk: 0, start: 0, len: 60 }, ops[1]);
    assert_eq!(vec![120, 120], st.last_sample);
    assert_eq!(vec![0, 0], st.magic_samples);
}

#[test]
fn history_fit_uses_left_over_samples() {
    let mut st = ResamplerState::new(2, 1, 2);
    st.magic_samples[0] = 40;
    let ops = st.plan_history(HistoryPass::Fit, 100, 319).unwrap();
    assert_eq!(HistoryOp::Copy { chunk: 0, dst: 0, src: 10, len: 169 }, ops[0]);
    assert_eq!(vec![0, 0], st.magic_samples);
    assert_eq!(vec![80, 80], st.last_sample);
}

#[test]
fn history_trim_keeps_dropped_samples() {
    let mut st = ResamplerState::new(2, 1, 2);
    let ops = st.plan_history(HistoryPass::Trim, 200, 319).unwrap();
    assert_eq!(HistoryOp::Copy { chunk: 0, dst: 0, src: 20, len: 179 }, ops[0]);
    assert_eq!(HistoryOp::Copy { chunk: 1, dst: 0, src: 20, len: 199 }, ops[2]);
    assert_eq!(vec![40, 40], st.magic_samples);
}

#[test]
fn history_refuses_moves_out_of_the_chunk() {
    let mut st = ResamplerState::new(1, 1, 2);
    assert!(st.plan_history(HistoryPass::Shift, 400, 319).is_none());
}
