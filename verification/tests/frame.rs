use fon::chan::{Channel, Samp16, Samp24};
use fon::frame::Frame;
use fon::pos::{
    Back, BackL, BackR, Center, Front, FrontL, FrontR, Left, Lfe, Mono, Right, SurroundL,
    SurroundR,
};

fn s16(v: i16) -> Samp16 {
    Samp16::new(v)
}

#[test]
fn stereo_frame_channels() {
    let f = Frame::<Samp16, 2>::new(s16(1), s16(-2));
    assert_eq!(&[s16(1), s16(-2)], f.channels());
    assert_eq!(s16(1), f[Left]);
    assert_eq!(s16(-2), f[Right]);
}

#[test]
fn default_frame_is_silence() {
    let f = Frame::<Samp24, 3>::default();
    assert_eq!(&[Samp24::mid_value(); 3], f.channels());
}

#[test]
fn frame_arith_is_per_channel_and_saturates() {
    let a = Frame::<Samp16, 2>::new(s16(24576), s16(-100));
    let b = Frame::<Samp16, 2>::new(s16(16384), s16(50));
    assert_eq!(Frame::<Samp16, 2>::new(s16(32767), s16(-50)), a + b);
    assert_eq!(Frame::<Samp16, 2>::new(s16(8192), s16(-150)), a - b);
    assert_eq!(Frame::<Samp16, 2>::new(s16(12288), s16(0)), a * b);
    assert_eq!(Frame::<Samp16, 2>::new(s16(-24577), s16(99)), -a);
}

#[test]
fn frame_mut_access() {
    let mut f = Frame::<Samp16, 2>::new(s16(0), s16(0));
    f[Right] = s16(7);
    *f.get_mut(0) = s16(3);
    assert_eq!(Frame::<Samp16, 2>::new(s16(3), s16(7)), f);
    f.channels_mut()[1] = s16(9);
    assert_eq!(s16(9), *f.get_ref(1));
}

#[test]
fn from_channels_copies() {
    let f = Frame::<Samp16, 3>::from_channels(&[s16(4), s16(5), s16(6)]);
    assert_eq!(Frame::<Samp16, 3>::new(s16(4), s16(5), s16(6)), f);
    assert_eq!(s16(6), f[Center]);
}

#[test]
fn mono_frame_position() {
    let f = Frame::<Samp16, 1>::new(s16(42));
    assert_eq!(s16(42), f[Mono]);
}

#[test]
fn surround_positions_follow_channel_order() {
    let f = Frame::<Samp16, 4>::new(s16(1), s16(2), s16(3), s16(4));
    assert_eq!(s16(1), f[FrontL]);
    assert_eq!(s16(2), f[FrontR]);
    assert_eq!(s16(3), f[SurroundL]);
    assert_eq!(s16(4), f[SurroundR]);

    let f = Frame::<Samp16, 5>::new(s16(1), s16(2), s16(3), s16(4), s16(5));
    assert_eq!(s16(1), f[FrontL]);
    assert_eq!(s16(2), f[FrontR]);
    assert_eq!(s16(3), f[Front]);
    assert_eq!(s16(4), f[SurroundL]);
    assert_eq!(s16(5), f[SurroundR]);

    let f = Frame::<Samp16, 6>::new(s16(1), s16(2), s16(3), s16(4), s16(5), s16(6));
    assert_eq!(s16(3), f[Front]);
    assert_eq!(s16(4), f[Lfe]);
    assert_eq!(s16(5), f[SurroundL]);
    assert_eq!(s16(6), f[SurroundR]);

    let f = Frame::<Samp16, 7>::new(s16(1), s16(2), s16(3), s16(4), s16(5), s16(6), s16(7));
    assert_eq!(s16(4), f[Lfe]);
    assert_eq!(s16(5), f[Back]);
    assert_eq!(s16(6), f[Left]);
    assert_eq!(s16(7), f[Right]);

    let f = Frame::<Samp16, 8>::new(
        s16(1),
        s16(2),
        s16(3),
        s16(4),
        s16(5),
        s16(6),
        s16(7),
        s16(8),
    );
    assert_eq!(s16(5), f[BackL]);
    assert_eq!(s16(6), f[BackR]);
    assert_eq!(s16(7), f[Left]);
    assert_eq!(s16(8), f[Right]);
}

#[test]
fn surround_3_to_other_layouts() {
    let third = s16(10922);
    let two_thirds = s16(21845);
    let f = Frame::<Samp16, 3>::new(s16(3000), s16(-3000), s16(6000));
    assert_eq!(Frame::<Samp16, 1>::new(s16(1999)), f.to::<1>(third, two_thirds));
    assert_eq!(Frame::<Samp16, 2>::new(s16(3999), s16(-1)), f.to::<2>(third, two_thirds));
    assert_eq!(
        Frame::<Samp16, 4>::new(s16(3999), s16(-1), s16(3999), s16(-1)),
        f.to::<4>(third, two_thirds)
    );
    assert_eq!(f, f.to::<3>(third, two_thirds));
    assert_eq!(
        Frame::<Samp16, 6>::new(s16(3000), s16(-3000), s16(6000), s16(0), s16(0), s16(0)),
        f.to::<6>(third, two_thirds)
    );
}
