use fon::ratio::{gcd, simplify};

#[test]
fn gcd_of_rates() {
    assert_eq!(300, gcd(44100, 48000));
    assert_eq!(300, gcd(48000, 44100));
    assert_eq!(6, gcd(12, 18));
    assert_eq!(1, gcd(7, 13));
}

#[test]
fn gcd_with_zero() {
    assert_eq!(5, gcd(0, 5));
    assert_eq!(5, gcd(5, 0));
    assert_eq!(0, gcd(0, 0));
}

#[test]
fn simplify_rates() {
    assert_eq!((147, 160), simplify(44100, 48000));
    assert_eq!((160, 147), simplify(48000, 44100));
    assert_eq!((2, 1), simplify(96000, 48000));
    assert_eq!((1, 1), simplify(48000, 48000));
    assert_eq!((7, 13), simplify(7, 13));
}

#[test]
fn simplified_ratio_is_in_lowest_terms() {
    let (n, d) = simplify(44100, 48000);
    assert_eq!(1, gcd(n, d));
    assert_eq!(44100 * d, 48000 * n);
}
