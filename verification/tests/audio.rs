use fon::audio::Audio;
use fon::chan::{Channel, Samp16, Samp24};
use fon::frame::Frame;
use fon::sink::Sink;

fn st(l: i16, r: i16) -> Frame<Samp16, 2> {
    Frame::<Samp16, 2>::new(Samp16::new(l), Samp16::new(r))
}

#[test]
fn new_audio_is_empty() {
    let a = Audio::<Samp16, 2>::new(48000);
    assert_eq!(48000, a.sample_rate());
    assert_eq!(0, a.len());
    assert!(a.is_empty());
    assert_eq!(None, a.get(0));
}

#[test]
fn with_silence_holds_silent_frames() {
    let a = Audio::<Samp24, 3>::with_silence(44100, 4);
    assert_eq!(44100, a.sample_rate());
    assert_eq!(4, a.len());
    assert!(!a.is_empty());
    for i in 0..4 {
        assert_eq!(Some(Frame::<Samp24, 3>::default()), a.get(i));
    }
    assert_eq!(None, a.get(4));
}

#[test]
fn with_frames_keeps_order() {
    let frames = vec![st(1, 2), st(3, 4), st(5, 6)];
    let a = Audio::<Samp16, 2>::with_frames(8000, frames.clone());
    assert_eq!(frames.as_slice(), a.as_slice());
    assert_eq!(Some(st(3, 4)), a.get(1));
    assert_eq!(frames, a.into_frames());
}

#[test]
fn get_mut_writes_one_frame() {
    let mut a = Audio::<Samp16, 2>::with_silence(8000, 2);
    *a.get_mut(1).unwrap() = st(7, -7);
    assert!(a.get_mut(2).is_none());
    assert_eq!(vec![st(0, 0), st(7, -7)], a.into_frames());
}

#[test]
fn silence_clears_frames() {
    let mut a = Audio::<Samp16, 2>::with_frames(8000, vec![st(1, 2), st(3, 4)]);
    a.silence();
    assert_eq!(8000, a.sample_rate());
    assert_eq!(vec![st(0, 0), st(0, 0)], a.into_frames());
}

#[test]
fn sink_writes_from_the_start() {
    let mut a = Audio::<Samp16, 2>::with_silence(48000, 3);
    {
        let mut s = a.sink();
        assert_eq!(48000, s.sample_rate());
        assert_eq!(3, s.len());
        assert!(!s.is_empty());
        assert_eq!(2, s.sink_with(&[st(1, 1), st(2, 2)]));
        // Only one frame of room is left.
        assert_eq!(1, s.sink_with(&[st(3, 3), st(4, 4)]));
        assert_eq!(0, s.sink_with(&[st(5, 5)]));
    }
    assert_eq!(vec![st(1, 1), st(2, 2), st(3, 3)], a.into_frames());
}

#[test]
fn sink_keeps_unwritten_frames() {
    let mut a = Audio::<Samp16, 2>::with_frames(48000, vec![st(9, 9), st(8, 8), st(7, 7)]);
    {
        let mut s = a.sink();
        assert_eq!(1, s.sink_with(&[st(1, 1)]));
    }
    assert_eq!(vec![st(1, 1), st(8, 8), st(7, 7)], a.into_frames());
}

#[test]
fn i16_buffer_roundtrip() {
    let samples: Vec<i16> = vec![1, -2, 300, -32768, 32767, 0];
    let a = Audio::<Samp16, 2>::with_i16_buffer(48000, samples.clone());
    assert_eq!(3, a.len());
    assert_eq!(Some(st(300, -32768)), a.get(1));
    assert_eq!(samples, a.as_i16_slice());
}

#[test]
fn u8_buffer_roundtrip() {
    // Each sample: the upper 16 bits little-endian, then the lowest byte.
    let bytes: Vec<u8> = vec![0x34, 0x12, 0x56, 0x00, 0x80, 0x00, 0xff, 0x7f, 0xff, 0xff, 0xff, 0xff];
    let a = Audio::<Samp24, 2>::with_u8_buffer(44100, bytes.clone());
    assert_eq!(2, a.len());
    let f0 = a.get(0).unwrap();
    assert_eq!(0x123456, f0.channels()[0].to_i32());
    assert_eq!(Samp24::min_value(), f0.channels()[1]);
    let f1 = a.get(1).unwrap();
    assert_eq!(Samp24::max_value(), f1.channels()[0]);
    assert_eq!(-1, f1.channels()[1].to_i32());
    assert_eq!(bytes, a.as_u8_slice());
}

#[test]
fn iter_walks_frames_in_order() {
    let a = Audio::<Samp16, 2>::with_frames(8000, vec![st(1, 2), st(3, 4), st(5, 6)]);
    let seen: Vec<Frame<Samp16, 2>> = a.iter().copied().collect();
    assert_eq!(vec![st(1, 2), st(3, 4), st(5, 6)], seen);
}

#[test]
fn empty_sink_takes_nothing() {
    let mut a = Audio::<Samp16, 2>::new(8000);
    let mut s = a.sink();
    assert!(s.is_empty());
    assert_eq!(0, s.len());
    assert_eq!(0, s.sink_with(&[st(1, 1)]));
}

#[test]
fn audio_into_vec_gives_frames() {
    let a = Audio::<Samp16, 2>::with_frames(8000, vec![st(1, 2), st(3, 4)]);
    let v: Vec<Frame<Samp16, 2>> = a.into();
    assert_eq!(vec![st(1, 2), st(3, 4)], v);
}

#[test]
fn as_mut_slice_writes_frames() {
    let mut a = Audio::<Samp16, 2>::with_silence(8000, 2);
    a.as_mut_slice()[1] = st(5, -5);
    assert_eq!(8000, a.sample_rate());
    assert_eq!(vec![st(0, 0), st(5, -5)], a.into_frames());
}
