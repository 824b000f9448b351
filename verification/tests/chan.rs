use fon::chan::{Channel, Samp16, Samp24};

#[test]
fn ch16_roundtrip() {
    assert_eq!(-32768, i16::from(Samp16::min_value()));
    assert_eq!(0, i16::from(Samp16::mid_value()));
    assert_eq!(32767, i16::from(Samp16::max_value()));

    assert_eq!(Samp16::min_value(), Samp16::new(i16::from(Samp16::min_value())));
    assert_eq!(Samp16::mid_value(), Samp16::new(i16::from(Samp16::mid_value())));
    assert_eq!(Samp16::max_value(), Samp16::new(i16::from(Samp16::max_value())));
}

#[test]
fn ch24_roundtrip() {
    assert_eq!(-8388608, i32::from(Samp24::min_value()));
    assert_eq!(0, i32::from(Samp24::mid_value()));
    assert_eq!(8388607, i32::from(Samp24::max_value()));

    assert_eq!(Samp24::min_value(), Samp24::new(i32::from(Samp24::min_value())));
    assert_eq!(Samp24::mid_value(), Samp24::new(i32::from(Samp24::mid_value())));
    assert_eq!(Samp24::max_value(), Samp24::new(i32::from(Samp24::max_value())));
}

#[test]
fn ch16_to_ch24() {
    assert_eq!(Samp24::min_value(), Samp24::from(Samp16::min_value()));
    assert_eq!(Samp24::new(128), Samp24::from(Samp16::mid_value()));
    assert_eq!(Samp24::max_value(), Samp24::from(Samp16::max_value()));
}

#[test]
fn ch24_to_ch16() {
    assert_eq!(Samp16::min_value(), Samp16::from(Samp24::min_value()));
    assert_eq!(Samp16::mid_value(), Samp16::from(Samp24::mid_value()));
    assert_eq!(Samp16::max_value(), Samp16::from(Samp24::max_value()));
}

#[test]
fn ch16_arith() {
    // Test addition
    assert_eq!(Samp16::new(-1), Samp16::new(-32768) + Samp16::new(32767));
    assert_eq!(Samp16::new(8192), Samp16::new(-8192) + Samp16::new(16384));
    assert_eq!(Samp16::max_value(), Samp16::mid_value() + Samp16::max_value());
    assert_eq!(Samp16::min_value(), Samp16::new(-16384) + Samp16::new(-16384));
    // Test subtraction
    assert_eq!(Samp16::new(0), Samp16::new(-32768) - Samp16::new(-32768));
    assert_eq!(Samp16::new(0), Samp16::new(32767) - Samp16::new(32767));
    assert_eq!(Samp16::new(-32767), Samp16::new(0) - Samp16::new(32767));
    // Test multiplication
    assert_eq!(Samp16::new(0), Samp16::new(0) * Samp16::new(32767));
    assert_eq!(Samp16::new(32767), Samp16::new(32767) * Samp16::new(32767));
    assert_eq!(Samp16::new(-32768), Samp16::new(32767) * Samp16::new(-32768));
    assert_eq!(Samp16::new(-32768), Samp16::new(-32768) * Samp16::new(32767));
    assert_eq!(Samp16::new(32767), Samp16::new(-32768) * Samp16::new(-32768));
    assert_eq!(Samp16::new(-16384), Samp16::new(32767) * Samp16::new(-16384));
    // Test negation
    assert_eq!(Samp16::min_value(), -Samp16::max_value());
    assert_eq!(Samp16::max_value(), -Samp16::min_value());
    assert_eq!(Samp16::new(-1), -Samp16::new(0));
    assert_eq!(Samp16::new(0), -Samp16::new(-1));
}

#[test]
fn ch24_arith() {
    // Test addition
    assert_eq!(Samp24::new(-1), Samp24::new(-8388608) + Samp24::new(8388607));
    assert_eq!(Samp24::new(2097152), Samp24::new(-2097152) + Samp24::new(4194304));
    assert_eq!(Samp24::max_value(), Samp24::mid_value() + Samp24::max_value());
    assert_eq!(Samp24::min_value(), Samp24::new(-4194304) + Samp24::new(-4194304));
    // Test subtraction
    assert_eq!(Samp24::new(0), Samp24::new(-8388608) - Samp24::new(-8388608));
    assert_eq!(Samp24::new(0), Samp24::new(8388607) - Samp24::new(8388607));
    assert_eq!(Samp24::new(-8388607), Samp24::new(0) - Samp24::new(8388607));
    // Test multiplication
    assert_eq!(Samp24::new(0), Samp24::new(0) * Samp24::new(8388607));
    assert_eq!(Samp24::new(8388607), Samp24::new(8388607) * Samp24::new(8388607));
    assert_eq!(Samp24::new(-8388608), Samp24::new(8388607) * Samp24::new(-8388608));
    assert_eq!(Samp24::new(-8388608), Samp24::new(-8388608) * Samp24::new(8388607));
    assert_eq!(Samp24::new(8388607), Samp24::new(-8388608) * Samp24::new(-8388608));
    assert_eq!(Samp24::new(-4194304), Samp24::new(8388607) * Samp24::new(-4194304));
    // Test negation
    assert_eq!(Samp24::min_value(), -Samp24::max_value());
    assert_eq!(Samp24::max_value(), -Samp24::min_value());
    assert_eq!(Samp24::new(-1), -Samp24::new(0));
    assert_eq!(Samp24::new(0), -Samp24::new(-1));
}

#[test]
fn ch16_saturation() {
    assert_eq!(Samp16::max_value(), Samp16::new(24576) + Samp16::new(16384));
    assert_eq!(Samp16::min_value(), Samp16::new(-16384) + Samp16::new(-24576));
    assert_eq!(Samp16::min_value(), Samp16::new(-16384) - Samp16::new(24576));
}

#[test]
fn ch24_saturation() {
    assert_eq!(Samp24::max_value(), Samp24::new(6291456) + Samp24::new(4194304));
    assert_eq!(Samp24::min_value(), Samp24::new(-4194304) + Samp24::new(-6291456));
    assert_eq!(Samp24::min_value(), Samp24::new(-4194304) - Samp24::new(6291456));
}

#[test]
fn ch24_new_saturates() {
    assert_eq!(Samp24::max_value(), Samp24::new(i32::MAX));
    assert_eq!(Samp24::min_value(), Samp24::new(i32::MIN));
    assert_eq!(-8388608, Samp24::new(-9000000).to_i32());
    assert_eq!(-300, Samp24::new(-300).to_i32());
    assert_eq!(300, Samp24::new(300).to_i32());
}

#[test]
fn widen_narrow_roundtrip() {
    for v in [-32768i16, -32767, -257, -256, -255, -1, 0, 1, 255, 256, 257, 12345, 32766, 32767] {
        let s = Samp16::new(v);
        let w = Samp24::from(s);
        assert_eq!(i32::from(w), 256 * v as i32 + (v as i32).div_euclid(256) + 128);
        assert_eq!(s, Samp16::from(w));
    }
    assert_eq!(Samp16::new(-2), Samp16::from(Samp24::new(-300)));
    assert_eq!(Samp16::new(1), Samp16::from(Samp24::new(300)));
}

#[test]
fn negation_is_involution() {
    for v in [-32768i16, -1, 0, 1, 32767] {
        assert_eq!(Samp16::new(v), -(-Samp16::new(v)));
    }
    for v in [-8388608i32, -1, 0, 1, 8388607] {
        assert_eq!(Samp24::new(v), -(-Samp24::new(v)));
    }
}

#[test]
fn mul_truncates_toward_zero() {
    // 100 * 100 / 32767 = 0.305...; -100 * 100 / 32767 = -0.305...
    assert_eq!(Samp16::new(0), Samp16::new(100) * Samp16::new(100));
    assert_eq!(Samp16::new(0), Samp16::new(-100) * Samp16::new(100));
    assert_eq!(Samp16::new(-1), Samp16::new(-200) * Samp16::new(200));
    assert_eq!(Samp24::new(-1), Samp24::new(-4000) * Samp24::new(4000));
}

#[test]
fn assign_ops() {
    let mut a = Samp16::new(30000);
    a += Samp16::new(30000);
    assert_eq!(Samp16::max_value(), a);
    a -= Samp16::new(32767);
    assert_eq!(Samp16::new(0), a);
    let mut b = Samp24::new(8388607);
    b *= Samp24::new(-4194304);
    assert_eq!(Samp24::new(-4194304), b);
    b += Samp24::new(4194304);
    assert_eq!(Samp24::new(0), b);
    b -= Samp24::new(8388607);
    assert_eq!(Samp24::new(-8388607), b);
    let mut c = Samp16::new(-32768);
    c *= Samp16::new(-32768);
    assert_eq!(Samp16::new(32767), c);
}

#[test]
fn lerp_between_samples() {
    let a = Samp16::new(-1000);
    let b = Samp16::new(1000);
    assert_eq!(a, a.lerp(b, Samp16::mid_value()));
    assert_eq!(b, a.lerp(b, Samp16::max_value()));
    assert_eq!(Samp16::new(-1), a.lerp(b, Samp16::new(16383)));
    let c = Samp24::new(0);
    let d = Samp24::new(8388607);
    assert_eq!(Samp24::new(4194303), c.lerp(d, Samp24::new(4194303)));
}

#[test]
fn default_is_silence() {
    assert_eq!(Samp16::mid_value(), Samp16::default());
    assert_eq!(Samp24::mid_value(), Samp24::default());
}

#[test]
fn samples_order_by_value() {
    assert!(Samp16::new(-5) < Samp16::new(3));
    assert!(Samp24::new(-256) < Samp24::new(-255));
    assert!(Samp24::new(255) < Samp24::new(256));
    assert!(Samp24::min_value() < Samp24::max_value());
}
