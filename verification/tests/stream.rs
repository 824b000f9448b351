use fon::speex::ResamplerState;
use fon::stream::{Stream, STREAM_SLOTS};

#[test]
fn new_stream_reduces_ratio() {
    let s = Stream::<2>::new(44100, 48000);
    assert_eq!(44100, s.input_sample_rate());
    assert_eq!(48000, s.output_sample_rate());
    assert_eq!((147, 160), s.ratio());
    assert_eq!(80, s.input_latency());
    for i in 0..STREAM_SLOTS {
        let st = s.state(i);
        assert_eq!(1, st.nb_channels);
        assert_eq!((147, 160), st.get_ratio());
        assert_eq!(vec![0], st.last_sample);
    }
}

#[test]
fn source_hz_same_rate_changes_nothing() {
    let mut s = Stream::<1>::new(44100, 48000);
    s.source_hz(44100);
    assert_eq!((147, 160), s.ratio());
    assert_eq!(44100, s.input_sample_rate());
}

#[test]
fn source_hz_moves_every_slot() {
    let mut s = Stream::<2>::new(44100, 48000);
    s.source_hz(96000);
    assert_eq!(96000, s.input_sample_rate());
    assert_eq!((2, 1), s.ratio());
    assert_eq!(160, s.input_latency());
    for i in 0..STREAM_SLOTS {
        assert_eq!((2, 1), s.state(i).get_ratio());
        assert_eq!(320, s.state(i).filt_len);
    }
}

#[test]
fn resample_plans_each_channel() {
    let mut s = Stream::<2>::new(1, 2);
    let plans = s.resample(10, 3).unwrap();
    assert_eq!(2, plans.len());
    for p in &plans {
        assert_eq!(6, p.out_written);
        assert_eq!(3, p.in_used);
    }
    // Slots past the stream's channels are left alone.
    assert_eq!(vec![0], s.state(2).last_sample);
}

#[test]
fn resample_refuses_positions_past_32_bits() {
    let mut s = Stream::<1>::new(u32::MAX - 1, 1);
    assert!(s.resample(4, 1).is_none());
}

#[test]
fn set_ratio_moves_fraction() {
    let mut st = ResamplerState::new(1, 1, 2);
    st.schedule(0, 1, 1);
    assert_eq!(vec![1], st.samp_frac_num);
    st.set_ratio(1, 3);
    assert_eq!((1, 3), st.get_ratio());
    assert_eq!(vec![1], st.samp_frac_num);
    assert_eq!(480, st.sinc_table_length);
}

#[test]
fn set_ratio_keeps_fraction_that_does_not_fit() {
    let mut st = ResamplerState::init_frac(1, 999_999, 1_000_000, 999_999, 1_000_000);
    st.schedule(0, 1, 1);
    assert_eq!(vec![999_999], st.samp_frac_num);
    st.set_ratio(1, 10_000);
    // Kept, then held below one input sample.
    assert_eq!(vec![9_999], st.samp_frac_num);
}

#[test]
fn fits_process_checks_positions() {
    let mut st = ResamplerState::new(1, 44100, 48000);
    assert!(st.fits_process(0));
    st.magic_samples[0] = u32::MAX;
    assert!(!st.fits_process(0));
}
