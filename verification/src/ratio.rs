//! Greatest common divisors and reduced ratios of sample rates.
use vstd::arithmetic::div_mod::{lemma_fundamental_div_mod, lemma_fundamental_div_mod_converse};
use vstd::prelude::*;

verus! {

/// Euclid's greatest common divisor; `greatest_common_divisor(a, 0) == a`.
pub open spec fn greatest_common_divisor(a: nat, b: nat) -> nat
    decreases b,
{
    if b == 0 {
        a
    } else {
        greatest_common_divisor(b, a % b)
    }
}

/// Numerator of `num / den` in lowest terms.
pub open spec fn reduced_num(num: nat, den: nat) -> nat {
    num / greatest_common_divisor(num, den)
}

/// Denominator of `num / den` in lowest terms.
pub open spec fn reduced_den(num: nat, den: nat) -> nat {
    den / greatest_common_divisor(num, den)
}

/// `d` divides `a`.
pub open spec fn divides(d: int, a: int) -> bool {
    exists|k: int| a == #[trigger] (k * d)
}

/// The greatest common divisor does not depend on the order of its
/// arguments.
pub proof fn lemma_gcd_symmetric(a: nat, b: nat)
    ensures
        greatest_common_divisor(a, b) == greatest_common_divisor(b, a),
{
    if a == b {
    } else if a < b {
        if a == 0 {
            assert(greatest_common_divisor(b, 0) == b);
            assert(b % b == 0) by (nonlinear_arith)
                requires
                    b > 0,
            ;
            assert(greatest_common_divisor(0, b) == greatest_common_divisor(b, 0));
        } else {
            assert(a % b == a) by (nonlinear_arith)
                requires
                    a < b,
            ;
        }
    } else {
        if b == 0 {
            assert(a % a == 0) by (nonlinear_arith)
                requires
                    a > 0,
            ;
            assert(greatest_common_divisor(0, a) == greatest_common_divisor(a, 0));
        } else {
            assert(b % a == b) by (nonlinear_arith)
                requires
                    b < a,
            ;
        }
    }
}

/// One step of the swapping form of Euclid's algorithm keeps the greatest
/// common divisor: `greatest_common_divisor(b % a, a) == greatest_common_divisor(a, b)` for `a != 0`.
pub proof fn lemma_gcd_step(a: nat, b: nat)
    requires
        a != 0,
    ensures
        greatest_common_divisor(b % a, a) == greatest_common_divisor(a, b),
{
    lemma_gcd_symmetric(b % a, a);
    lemma_gcd_symmetric(b, a);
}

/// The greatest common divisor divides both arguments, and every common
/// divisor of both divides it.
pub proof fn lemma_gcd_divides(a: nat, b: nat)
    ensures
        divides(greatest_common_divisor(a, b) as int, a as int),
        divides(greatest_common_divisor(a, b) as int, b as int),
        forall|d: int|
            #![trigger divides(d, a as int), divides(d, b as int)]
            divides(d, a as int) && divides(d, b as int) ==> divides(d, greatest_common_divisor(a, b) as int),
    decreases b,
{
    let g = greatest_common_divisor(a, b) as int;
    if b == 0 {
        assert(a as int == 1 * g);
        assert(b as int == 0 * g);
    } else {
        let q = (a / b) as int;
        let r = (a % b) as int;
        lemma_fundamental_div_mod(a as int, b as int);
        assert(a as int == b * q + r);
        lemma_gcd_divides(b, a % b);
        let k1 = choose|k: int| b as int == #[trigger] (k * g);
        let k2 = choose|k: int| r == #[trigger] (k * g);
        assert(a as int == (k1 * q + k2) * g) by (nonlinear_arith)
            requires
                a as int == b * q + r,
                b as int == k1 * g,
                r == k2 * g,
        ;
        assert(divides(g, a as int));
        assert forall|d: int|
            #![trigger divides(d, a as int), divides(d, b as int)]
            divides(d, a as int) && divides(d, b as int) implies divides(d, g) by {
            let m1 = choose|k: int| a as int == #[trigger] (k * d);
            let m2 = choose|k: int| b as int == #[trigger] (k * d);
            assert(r == (m1 - m2 * q) * d) by (nonlinear_arith)
                requires
                    a as int == b * q + r,
                    a as int == m1 * d,
                    b as int == m2 * d,
            ;
            assert(divides(d, r));
            assert(divides(d, b as int) && divides(d, r));
        }
    }
}

/// The greatest common divisor of two numbers is positive unless both are
/// zero, and it is no larger than either positive one.
pub proof fn lemma_gcd_positive(a: nat, b: nat)
    requires
        a != 0 || b != 0,
    ensures
        greatest_common_divisor(a, b) > 0,
        a != 0 ==> greatest_common_divisor(a, b) <= a,
        b != 0 ==> greatest_common_divisor(a, b) <= b,
    decreases b,
{
    if b == 0 {
    } else {
        lemma_gcd_positive(b, a % b);
        lemma_gcd_divides(a, b);
        let g = greatest_common_divisor(a, b) as int;
        if a != 0 {
            let k = choose|k: int| a as int == #[trigger] (k * g);
            assert(g <= a) by (nonlinear_arith)
                requires
                    a as int == k * g,
                    g > 0,
                    a > 0,
            ;
        }
        let k = choose|k: int| b as int == #[trigger] (k * g);
        assert(g <= b) by (nonlinear_arith)
            requires
                b as int == k * g,
                g > 0,
                b > 0,
        ;
    }
}

/// Division of `a` by one of its divisors `d` leaves no remainder.
pub proof fn lemma_divides_exact(d: int, a: int)
    requires
        d > 0,
        divides(d, a),
    ensures
        a % d == 0,
        (a / d) * d == a,
{
    let k = choose|k: int| a == #[trigger] (k * d);
    lemma_fundamental_div_mod_converse(a, d, k, 0);
}

/// Calculate the greatest common divisor of two 32-bit integers.
pub fn gcd(a: u32, b: u32) -> (r: u32)
    ensures
        r as nat == greatest_common_divisor(a as nat, b as nat),
{
    let mut a = a;
    let mut b = b;
    if b == 0 {
        return a;
    }
    let ghost g = greatest_common_divisor(a as nat, b as nat);
    while a != 0
        invariant
            greatest_common_divisor(a as nat, b as nat) == g,
            b != 0 || a != 0,
        decreases a,
    {
        proof {
            lemma_gcd_step(a as nat, b as nat);
        }
        std::mem::swap(&mut a, &mut b);
        a = a % b;
    }
    proof {
        lemma_gcd_symmetric(0, b as nat);
    }
    b
}

/// Simplify a ratio (fraction with non-zero numerator and denominator) by
/// dividing both by their greatest common divisor.
pub fn simplify(num: u32, den: u32) -> (r: (u32, u32))
    requires
        num != 0,
        den != 0,
    ensures
        r.0 * greatest_common_divisor(num as nat, den as nat) == num,
        r.1 * greatest_common_divisor(num as nat, den as nat) == den,
{
    let factor = gcd(num, den);
    proof {
        lemma_gcd_positive(num as nat, den as nat);
        lemma_gcd_divides(num as nat, den as nat);
        lemma_divides_exact(factor as int, num as int);
        lemma_divides_exact(factor as int, den as int);
    }
    (num / factor, den / factor)
}

/// A simplified ratio is in lowest terms and equals the ratio it was made
/// from: both parts are positive, their only common divisor is one, and
/// `r.0 / r.1 == num / den`.
pub proof fn law_simplify_lowest_terms(num: u32, den: u32, r: (u32, u32))
    requires
        num != 0,
        den != 0,
        r.0 * greatest_common_divisor(num as nat, den as nat) == num,
        r.1 * greatest_common_divisor(num as nat, den as nat) == den,
    ensures
        r.0 > 0,
        r.1 > 0,
        r.0 * den == r.1 * num,
        forall|d: int|
            #![trigger divides(d, r.0 as int), divides(d, r.1 as int)]
            d > 0 && divides(d, r.0 as int) && divides(d, r.1 as int) ==> d == 1,
{
    let g = greatest_common_divisor(num as nat, den as nat) as int;
    lemma_gcd_positive(num as nat, den as nat);
    lemma_gcd_divides(num as nat, den as nat);
    let x = r.0 as int;
    let y = r.1 as int;
    assert(x > 0 && y > 0) by (nonlinear_arith)
        requires
            x * g == num,
            y * g == den,
            g > 0,
            num > 0,
            den > 0,
            x >= 0,
            y >= 0,
    ;
    assert(x * den == y * num) by (nonlinear_arith)
        requires
            x * g == num,
            y * g == den,
    ;
    assert forall|d: int|
        #![trigger divides(d, r.0 as int), divides(d, r.1 as int)]
        d > 0 && divides(d, r.0 as int) && divides(d, r.1 as int) implies d == 1 by {
        let m1 = choose|k: int| x == #[trigger] (k * d);
        let m2 = choose|k: int| y == #[trigger] (k * d);
        assert(num as int == m1 * (d * g)) by (nonlinear_arith)
            requires
                x * g == num,
                x == m1 * d,
        ;
        assert(den as int == m2 * (d * g)) by (nonlinear_arith)
            requires
                y * g == den,
                y == m2 * d,
        ;
        assert(divides(d * g, num as int));
        assert(divides(d * g, den as int));
        let m = choose|k: int| g == #[trigger] (k * (d * g));
        assert(d == 1) by (nonlinear_arith)
            requires
                g == m * (d * g),
                g > 0,
                d > 0,
        ;
    }
}

/// The reduced ratio of two positive numbers is the ratio they form, in
/// lowest terms: both parts are positive, the ratio is kept, and the
/// greatest common divisor of the parts is one.
pub proof fn law_reduced_ratio(num: nat, den: nat)
    requires
        num > 0,
        den > 0,
    ensures
        reduced_num(num, den) > 0,
        reduced_den(num, den) > 0,
        reduced_num(num, den) * den == reduced_den(num, den) * num,
        greatest_common_divisor(reduced_num(num, den), reduced_den(num, den)) == 1,
{
    let g = greatest_common_divisor(num, den);
    lemma_gcd_positive(num, den);
    lemma_gcd_divides(num, den);
    lemma_divides_exact(g as int, num as int);
    lemma_divides_exact(g as int, den as int);
    let x = reduced_num(num, den);
    let y = reduced_den(num, den);
    assert(x * g == num && y * g == den);
    assert(x > 0 && y > 0) by (nonlinear_arith)
        requires
            x * g == num,
            y * g == den,
            num > 0,
            den > 0,
    ;
    assert(x * den == y * num) by (nonlinear_arith)
        requires
            x * g == num,
            y * g == den,
    ;
    let h = greatest_common_divisor(x, y);
    lemma_gcd_positive(x, y);
    lemma_gcd_divides(x, y);
    let m1 = choose|k: int| x == #[trigger] (k * h);
    let m2 = choose|k: int| y == #[trigger] (k * h);
    assert(num as int == m1 * (h as int * g as int)) by (nonlinear_arith)
        requires
            x * g == num,
            x == m1 * h,
    ;
    assert(den as int == m2 * (h as int * g as int)) by (nonlinear_arith)
        requires
            y * g == den,
            y == m2 * h,
    ;
    let hg = (h * g) as int;
    assert(divides(hg, num as int));
    assert(divides(hg, den as int));
    assert(divides(hg, g as int));
    let m = choose|k: int| g as int == #[trigger] (k * hg);
    assert(h == 1) by (nonlinear_arith)
        requires
            g as int == m * hg,
            hg == h * g,
            g > 0,
            h > 0,
    ;
}

} // verus!
