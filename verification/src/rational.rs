//! Rational-number helpers of the VapourSynth API headers: multiplying,
//! reducing and adding fractions held as a numerator and a denominator.
use vstd::prelude::*;
use vstd::arithmetic::div_mod::{
    lemma_fundamental_div_mod, lemma_fundamental_div_mod_converse, lemma_mod_multiples_basic,
};

verus! {

/// Greatest common divisor by Euclid's algorithm (`gcd(a, 0) == a`).
pub open spec fn gcd(a: nat, b: nat) -> nat
    decreases b,
{
    if b == 0 {
        a
    } else {
        gcd(b, a % b)
    }
}

/// Absolute value of an integer.
pub open spec fn abs(x: int) -> nat {
    if x < 0 {
        (-x) as nat
    } else {
        x as nat
    }
}

/// `x` divided exactly by `g`, keeping the sign of `x` (truncating division).
pub open spec fn div_keep_sign(x: int, g: nat) -> int {
    if x < 0 {
        -((abs(x) / g) as int)
    } else {
        (x / (g as int))
    }
}

/// A fraction with a non-zero denominator is reduced when its numerator and
/// denominator have no common divisor other than one.
pub open spec fn is_reduced(num: int, den: int) -> bool {
    gcd(abs(num), abs(den)) == 1
}

/// The fraction `num / den` reduced by the greatest common divisor of its parts.
pub open spec fn reduced(num: int, den: int) -> (int, int) {
    let g = gcd(abs(num), abs(den));
    (div_keep_sign(num, g), div_keep_sign(den, g))
}

/// The greatest common divisor is positive unless both arguments are zero, and
/// it divides both arguments.
pub proof fn lemma_gcd_divides(a: nat, b: nat)
    requires
        a > 0 || b > 0,
    ensures
        gcd(a, b) > 0,
        a % gcd(a, b) == 0,
        b % gcd(a, b) == 0,
    decreases b,
{
    if b == 0 {
        lemma_mod_multiples_basic(1, a as int);
        lemma_mod_multiples_basic(0, a as int);
    } else {
        let r = a % b;
        lemma_gcd_divides(b, r);
        let g = gcd(b, r);
        let q = a / b;
        lemma_fundamental_div_mod(a as int, b as int);
        lemma_fundamental_div_mod(b as int, g as int);
        lemma_fundamental_div_mod(r as int, g as int);
        let kb = b / g;
        let kr = r / g;
        assert(a == q * b + r);
        assert(b == g * kb);
        assert(r == g * kr);
        assert(a == (q * kb + kr) * g) by (nonlinear_arith)
            requires
                a == q * b + r,
                b == g * kb,
                r == g * kr,
        ;
        assert(q * kb + kr >= 0) by (nonlinear_arith)
            requires
                q >= 0,
                kb >= 0,
                kr >= 0,
        ;
        lemma_mod_multiples_basic((q * kb + kr) as int, g as int);
    }
}

/// `(k * x) % (k * y) == k * (x % y)` for positive `k` and `y`.
proof fn lemma_mod_scale(k: nat, x: nat, y: nat)
    requires
        k > 0,
        y > 0,
    ensures
        (k * x) % (k * y) == k * (x % y),
{
    lemma_fundamental_div_mod(x as int, y as int);
    let q = x / y;
    let r = x % y;
    assert(k * x == q * (k * y) + k * r) by (nonlinear_arith)
        requires
            x == y * q + r,
    ;
    assert(0 <= k * r < k * y) by (nonlinear_arith)
        requires
            0 <= r < y,
            k > 0,
    ;
    lemma_fundamental_div_mod_converse((k * x) as int, (k * y) as int, q as int, (k * r) as int);
}

/// Scaling both arguments scales the greatest common divisor.
pub proof fn lemma_gcd_scale(k: nat, x: nat, y: nat)
    ensures
        gcd(k * x, k * y) == k * gcd(x, y),
    decreases y,
{
    if y == 0 {
        assert(k * y == 0);
    } else if k == 0 {
        assert(k * x == 0);
        assert(k * y == 0);
        assert(k * gcd(x, y) == 0);
    } else {
        assert(k * y > 0) by (nonlinear_arith)
            requires
                k > 0,
                y > 0,
        ;
        lemma_mod_scale(k, x, y);
        lemma_gcd_scale(k, y, x % y);
    }
}

/// Dividing both arguments by their greatest common divisor leaves a pair
/// whose greatest common divisor is one.
pub proof fn lemma_gcd_quotients_coprime(a: nat, b: nat)
    requires
        a > 0 || b > 0,
    ensures
        gcd(a / gcd(a, b), b / gcd(a, b)) == 1,
{
    lemma_gcd_divides(a, b);
    let g = gcd(a, b);
    lemma_fundamental_div_mod(a as int, g as int);
    lemma_fundamental_div_mod(b as int, g as int);
    let x = a / g;
    let y = b / g;
    assert(a == g * x);
    assert(b == g * y);
    lemma_gcd_scale(g, x, y);
    assert(g * gcd(x, y) == g * 1);
    assert(gcd(x, y) == 1) by (nonlinear_arith)
        requires
            g * gcd(x, y) == g * 1,
            g > 0,
    ;
}

/// Greatest common divisor of two unsigned numbers by Euclid's algorithm.
fn gcd_u64(a0: u64, b0: u64) -> (g: u64)
    ensures
        g == gcd(a0 as nat, b0 as nat),
{
    let mut a = a0;
    let mut b = b0;
    while b != 0
        invariant
            gcd(a as nat, b as nat) == gcd(a0 as nat, b0 as nat),
        decreases b,
    {
        let t = a;
        a = b;
        b = t % b;
    }
    a
}

/// Absolute value of an `i64`, as a `u64`.
fn abs_u64(x: i64) -> (r: u64)
    ensures
        r == abs(x as int),
{
    if x == i64::MIN {
        0x8000_0000_0000_0000u64
    } else if x < 0 {
        (-x) as u64
    } else {
        x as u64
    }
}

/// Divides `x` by `g` where `g` divides `x` exactly.
fn div_exact(x: i64, g: u64) -> (r: i64)
    requires
        g > 0,
        abs(x as int) % (g as nat) == 0,
    ensures
        r == div_keep_sign(x as int, g as nat),
{
    let q = abs_u64(x) / g;
    proof {
        lemma_fundamental_div_mod(abs(x as int) as int, g as int);
        assert(q * g <= abs(x as int)) by (nonlinear_arith)
            requires
                abs(x as int) == g * q + 0,
        ;
        assert(q <= abs(x as int)) by (nonlinear_arith)
            requires
                q * g <= abs(x as int),
                g >= 1,
                q >= 0,
        ;
    }
    if x < 0 {
        if q == 0x8000_0000_0000_0000u64 {
            i64::MIN
        } else {
            -(q as i64)
        }
    } else {
        q as i64
    }
}

/// The fraction `n / d` reduced: both parts divided by the greatest common
/// divisor of their magnitudes, the signs kept.
fn reduce_pair(n: i64, d: i64) -> (r: (i64, i64))
    requires
        d != 0,
    ensures
        (r.0 as int, r.1 as int) == reduced(n as int, d as int),
        is_reduced(r.0 as int, r.1 as int),
        r.0 * d == n * r.1,
{
    let an = abs_u64(n);
    let ad = abs_u64(d);
    let g = gcd_u64(an, ad);
    proof {
        lemma_gcd_divides(an as nat, ad as nat);
        lemma_gcd_quotients_coprime(an as nat, ad as nat);
        lemma_fundamental_div_mod(an as int, g as int);
        lemma_fundamental_div_mod(ad as int, g as int);
    }
    let rn = div_exact(n, g);
    let rd = div_exact(d, g);
    proof {
        let qn = an as nat / g as nat;
        let qd = ad as nat / g as nat;
        assert(abs(rn as int) == qn);
        assert(abs(rd as int) == qd);
        assert(an == g * qn);
        assert(ad == g * qd);
        assert(rn * d == n * rd) by (nonlinear_arith)
            requires
                (n < 0 ==> rn == -qn) && (n >= 0 ==> rn == qn),
                (d < 0 ==> rd == -qd) && (d >= 0 ==> rd == qd),
                (n < 0 ==> an == -n) && (n >= 0 ==> an == n),
                (d < 0 ==> ad == -d) && (d >= 0 ==> ad == d),
                an == g * qn,
                ad == g * qd,
        ;
    }
    (rn, rd)
}

/// The inputs on which the header's reduction, Euclid's algorithm on signed
/// numbers followed by negating the divisor, overflows: a remainder of
/// `i64::MIN` by `-1`, or a greatest common divisor of 2^63 to negate.
pub open spec fn reduction_overflows(n: int, d: int) -> bool {
    ||| (n == i64::MIN && d == -1)
    ||| (n == -1 && d == i64::MIN)
    ||| (d == i64::MIN && (n == 0 || n == i64::MIN))
}

/// Multiplies the fraction `num / den` by `mul / div` and reduces the result.
///
/// A zero denominator marks an unknown value: the fraction is then left as
/// it is. The sign of the denominator is kept, as VapourSynth does.
pub fn muldivRational(num: &mut i64, den: &mut i64, mul: i64, div: i64)
    requires
        *old(den) != 0 ==> div != 0,
        *old(den) != 0 ==> i64::MIN <= *old(num) * mul <= i64::MAX,
        *old(den) != 0 ==> i64::MIN <= *old(den) * div <= i64::MAX,
        *old(den) != 0 ==> !reduction_overflows(*old(num) * mul, *old(den) * div),
    ensures
        *old(den) == 0 ==> *final(num) == *old(num) && *final(den) == 0,
        *old(den) != 0 ==> (*final(num) as int, *final(den) as int) == reduced(
            *old(num) * mul,
            *old(den) * div,
        ),
        *old(den) != 0 ==> is_reduced(*final(num) as int, *final(den) as int),
        *old(den) != 0 ==> *final(num) * (*old(den) * div) == (*old(num) * mul) * *final(den),
{
    if *den == 0 {
        return ;
    }
    let n = *num * mul;
    let d = *den * div;
    proof {
        let od = *den;
        assert(d != 0) by (nonlinear_arith)
            requires
                d == od * div,
                od != 0,
                div != 0,
        ;
    }
    let (rn, rd) = reduce_pair(n, d);
    *num = rn;
    *den = rd;
}

} // verus!

verus! {

/// Reduces the fraction `num / den` by the greatest common divisor of its parts.
///
/// A zero denominator leaves the fraction as it is.
pub fn reduceRational(num: &mut i64, den: &mut i64)
    requires
        *old(den) != 0 ==> !reduction_overflows(*old(num) as int, *old(den) as int),
    ensures
        *old(den) == 0 ==> *final(num) == *old(num) && *final(den) == 0,
        *old(den) != 0 ==> (*final(num) as int, *final(den) as int) == reduced(
            *old(num) as int,
            *old(den) as int,
        ),
        *old(den) != 0 ==> is_reduced(*final(num) as int, *final(den) as int),
        *old(den) != 0 ==> *final(num) * *old(den) == *old(num) * *final(den),
{
    muldivRational(num, den, 1, 1);
}

/// Adds `addnum / addden` to the fraction `num / den` and reduces the result.
///
/// A zero denominator leaves the fraction as it is. When both denominators
/// are equal the numerators are added over that denominator; otherwise the
/// sum is taken over the product of the denominators. Either way the sum is
/// then reduced.
pub fn addRational(num: &mut i64, den: &mut i64, addnum: i64, addden: i64)
    requires
        *old(den) != 0 ==> addden != 0,
        *old(den) != 0 && *old(den) == addden ==> i64::MIN <= *old(num) + addnum <= i64::MAX,
        *old(den) != 0 && *old(den) != addden ==> i64::MIN <= *old(num) * addden + addnum
            * *old(den) <= i64::MAX,
        *old(den) != 0 && *old(den) != addden ==> i64::MIN <= *old(num) * addden <= i64::MAX,
        *old(den) != 0 && *old(den) != addden ==> i64::MIN <= addnum * *old(den) <= i64::MAX,
        *old(den) != 0 && *old(den) != addden ==> i64::MIN <= *old(den) * addden <= i64::MAX,
        *old(den) != 0 && *old(den) != addden ==> !reduction_overflows(
            *old(num) * addden + addnum * *old(den),
            *old(den) * addden,
        ),
    ensures
        *old(den) == 0 ==> *final(num) == *old(num) && *final(den) == 0,
        *old(den) != 0 && *old(den) == addden ==> (*final(num) as int, *final(den) as int)
            == reduced(*old(num) + addnum, *old(den) as int),
        *old(den) != 0 && *old(den) != addden ==> (*final(num) as int, *final(den) as int)
            == reduced(*old(num) * addden + addnum * *old(den), *old(den) * addden),
        *old(den) != 0 ==> is_reduced(*final(num) as int, *final(den) as int),
        *old(den) != 0 ==> *final(num) * (*old(den) * addden) == (*old(num) * addden + addnum
            * *old(den)) * *final(den),
{
    if *den == 0 {
        return ;
    }
    if *den == addden {
        let ghost n0 = *num;
        let ghost d0 = *den;
        let sum = *num + addnum;
        let (rn, rd) = reduce_pair(sum, *den);
        *num = rn;
        *den = rd;
        proof {
            assert(rn * (d0 * addden) == (n0 * addden + addnum * d0) * rd) by (nonlinear_arith)
                requires
                    rn * d0 == sum * rd,
                    sum == n0 + addnum,
                    d0 == addden,
            ;
        }
    } else {
        let original_den = *den;
        let scaled_addnum = addnum * original_den;
        let scaled_num = *num * addden;
        *num = scaled_num + scaled_addnum;
        *den = original_den * addden;
        assert(*den != 0) by (nonlinear_arith)
            requires
                *den == original_den * addden,
                original_den != 0,
                addden != 0,
        ;
        reduceRational(num, den);
    }
}

} // verus!
