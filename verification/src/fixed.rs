//! Fixed-point arithmetic for the simulation.
//!
//! Every quantity of the game is an integer in a fixed unit, so that one step
//! of the simulation is exact:
//!
//! | quantity      | unit                          |
//! |---------------|-------------------------------|
//! | time          | millisecond                   |
//! | position      | millionth of a map unit       |
//! | velocity      | thousandth of a map unit / s  |
//! | gravity       | map unit / s / s              |
//! | damping       | halvings of the velocity / s  |
//!
//! A velocity times a time is a position and a gravity times a time is a
//! velocity, without any division. Sums and products that leave the range of
//! `i64` stop at its ends.
//!
//! Damping halves a velocity once for each whole halving that has passed,
//! exactly; only the part of a halving beyond the whole ones is taken by a
//! factor with 32 fractional bits.
use vstd::prelude::*;
use vstd::arithmetic::div_mod::{
    lemma_basic_div, lemma_div_is_ordered_by_denominator, lemma_div_multiples_vanish_quotient,
};
use vstd::arithmetic::power2::{
    lemma2_to64, lemma_pow2_adds, lemma_pow2_pos, lemma_pow2_strictly_increases, pow2,
};
use vstd::bits::lemma_u64_shr_is_div;

verus! {

/// A pair of coordinates: a position, a velocity or a gravity, by its use.
#[derive(Clone, Copy, Debug, PartialEq, Eq, Structural)]
pub struct Vec2 {
    pub x: i64,
    pub y: i64,
}

/// The number one as a factor with 32 fractional bits.
pub const ONE: u64 = 0x1_0000_0000;

/// The factor by which one thousandth of a halving shrinks a velocity: the
/// thousandth root of one half with 32 fractional bits, rounded down.
pub const HALVING_STEP: u64 = 4291991283;

/// The value of `i64` nearest to `v`.
pub open spec fn clamp64(v: int) -> i64 {
    if v < i64::MIN {
        i64::MIN
    } else if v > i64::MAX {
        i64::MAX
    } else {
        v as i64
    }
}

/// The product of two factors with 32 fractional bits, rounded down.
pub open spec fn fx_mul(a: nat, b: nat) -> nat {
    (a * b / 0x1_0000_0000) as nat
}

/// `base` to the power `n` as a factor with 32 fractional bits, by squaring:
/// an even power is the square of the half power, an odd one is `base` times
/// the power below it, each product rounded down.
pub open spec fn fx_pow(base: nat, n: nat) -> nat
    decreases n,
{
    if n == 0 {
        0x1_0000_0000
    } else if n % 2 == 0 {
        fx_mul(fx_pow(base, n / 2), fx_pow(base, n / 2))
    } else {
        fx_mul(base, fx_pow(base, (n - 1) as nat))
    }
}

/// `v` times `factor`, a factor with 32 fractional bits, rounded toward zero.
pub open spec fn scaled(v: int, factor: nat) -> int {
    if v >= 0 {
        v * factor / 0x1_0000_0000
    } else {
        -((-v) * factor / 0x1_0000_0000)
    }
}

/// The whole halvings that `damp` halvings per second make in `delta`
/// milliseconds.
pub open spec fn whole_halvings(damp: u32, delta: u32) -> nat {
    ((damp * delta) / 1000) as nat
}

/// The thousandths of a halving that are left beyond the whole ones.
pub open spec fn part_halving(damp: u32, delta: u32) -> nat {
    ((damp * delta) % 1000) as nat
}

/// The factor that `damp` halvings per second leave of a velocity after
/// `delta` milliseconds: one half for each whole halving, and for the part
/// of a halving beyond them that power of `HALVING_STEP`.
pub open spec fn retention(damp: u32, delta: u32) -> nat {
    fx_pow(HALVING_STEP as nat, part_halving(damp, delta)) / pow2(whole_halvings(damp, delta))
}

/// `v` halved `k` times, rounded toward zero.
pub open spec fn halved(v: int, k: nat) -> int {
    if v >= 0 {
        v / (pow2(k) as int)
    } else {
        -((-v) / (pow2(k) as int))
    }
}

/// A product of two factors that are at most one is at most each of them.
pub proof fn lemma_fx_mul_bound(a: nat, b: nat)
    requires
        a <= 0x1_0000_0000,
        b <= 0x1_0000_0000,
    ensures
        fx_mul(a, b) <= a,
        fx_mul(a, b) <= b,
{
    assert(a * b <= a * 0x1_0000_0000) by (nonlinear_arith)
        requires
            b <= 0x1_0000_0000,
    ;
    assert(a * b <= 0x1_0000_0000 * b) by (nonlinear_arith)
        requires
            a <= 0x1_0000_0000,
    ;
    assert(0 <= a * b) by (nonlinear_arith);
}

/// A power of a factor that is at most one is at most one, and the power zero
/// is one.
pub proof fn lemma_fx_pow_bound(base: nat, n: nat)
    requires
        base <= 0x1_0000_0000,
    ensures
        fx_pow(base, n) <= 0x1_0000_0000,
        n == 0 ==> fx_pow(base, n) == 0x1_0000_0000,
    decreases n,
{
    if n == 0 {
    } else if n % 2 == 0 {
        lemma_fx_pow_bound(base, n / 2);
        lemma_fx_mul_bound(fx_pow(base, n / 2), fx_pow(base, n / 2));
    } else {
        lemma_fx_pow_bound(base, (n - 1) as nat);
        lemma_fx_mul_bound(base, fx_pow(base, (n - 1) as nat));
    }
}

/// Scaling by one changes nothing; scaling by a factor that is at most one
/// keeps the sign and does not grow the size.
pub proof fn lemma_scaled_bound(v: int, factor: nat)
    requires
        factor <= 0x1_0000_0000,
    ensures
        factor == 0x1_0000_0000 ==> scaled(v, factor) == v,
        v >= 0 ==> 0 <= scaled(v, factor) <= v,
        v <= 0 ==> v <= scaled(v, factor) <= 0,
{
    if v >= 0 {
        assert(0 <= v * factor <= v * 0x1_0000_0000) by (nonlinear_arith)
            requires
                v >= 0,
                factor <= 0x1_0000_0000,
        ;
    } else {
        assert(0 <= (-v) * factor <= (-v) * 0x1_0000_0000) by (nonlinear_arith)
            requires
                v < 0,
                factor <= 0x1_0000_0000,
        ;
    }
}

/// The factor left by damping is at most one, and it is one where no
/// halving has passed at all.
pub proof fn lemma_retention_bound(damp: u32, delta: u32)
    ensures
        retention(damp, delta) <= 0x1_0000_0000,
        damp * delta == 0 ==> retention(damp, delta) == 0x1_0000_0000,
{
    let part = fx_pow(HALVING_STEP as nat, part_halving(damp, delta));
    let k = whole_halvings(damp, delta);
    lemma_fx_pow_bound(HALVING_STEP as nat, part_halving(damp, delta));
    lemma_pow2_pos(k);
    lemma2_to64();
    lemma_div_is_ordered_by_denominator(part as int, 1, pow2(k) as int);
}

/// Whole halvings are exact: where `damp` halvings per second make just
/// `k` halvings in `delta` milliseconds, the factor left is one divided by
/// two to the `k`, which is two to the `32 - k` of the 32 fractional bits
/// up to `k = 32` and nothing beyond; and a velocity scaled by it is that
/// velocity halved `k` times.
pub proof fn lemma_whole_halvings(damp: u32, delta: u32, k: nat, v: int)
    requires
        damp * delta == 1000 * k,
    ensures
        retention(damp, delta) == 0x1_0000_0000int / (pow2(k) as int),
        k <= 32 ==> retention(damp, delta) == pow2((32 - k) as nat),
        k > 32 ==> retention(damp, delta) == 0,
        k <= 32 ==> scaled(v, retention(damp, delta)) == halved(v, k),
        k > 32 ==> scaled(v, retention(damp, delta)) == 0,
{
    assert(whole_halvings(damp, delta) == k && part_halving(damp, delta) == 0);
    lemma2_to64();
    lemma_pow2_pos(k);
    if k <= 32 {
        let rest = (32 - k) as nat;
        lemma_pow2_adds(rest, k);
        lemma_pow2_pos(rest);
        let a = pow2(rest) as int;
        let b = pow2(k) as int;
        assert(a * b == 0x1_0000_0000);
        assert(0x1_0000_0000int / b == a) by (nonlinear_arith)
            requires
                a * b == 0x1_0000_0000,
                b > 0,
                a > 0,
        ;
        if v >= 0 {
            lemma_div_multiples_vanish_quotient(a, v, b);
            assert(v * a == a * v) by (nonlinear_arith);
        } else {
            lemma_div_multiples_vanish_quotient(a, -v, b);
            assert((-v) * a == a * (-v)) by (nonlinear_arith);
        }
    } else {
        lemma_pow2_strictly_increases(32, k);
        lemma_basic_div(0x1_0000_0000, pow2(k) as int);
        assert(v * 0 == 0 && (-v) * 0 == 0) by (nonlinear_arith);
    }
}

/// Brings a wide integer back into `i64`.
pub fn saturate(v: i128) -> (r: i64)
    ensures
        r == clamp64(v as int),
{
    if v < i64::MIN as i128 {
        i64::MIN
    } else if v > i64::MAX as i128 {
        i64::MAX
    } else {
        v as i64
    }
}

/// `base` after `delta` milliseconds of change at `rate` per millisecond,
/// stopping at the ends of `i64`.
pub fn advance(base: i64, rate: i64, delta: u32) -> (r: i64)
    ensures
        r == clamp64(base + rate * delta),
{
    assert(-0x8000_0000_0000_0000 * 0x1_0000_0000 <= rate * delta <= 0x8000_0000_0000_0000
        * 0x1_0000_0000) by (nonlinear_arith)
        requires
            -0x8000_0000_0000_0000 <= rate <= 0x8000_0000_0000_0000,
            0 <= delta <= 0x1_0000_0000,
    ;
    saturate(base as i128 + rate as i128 * delta as i128)
}

/// The product of two factors that are at most one.
fn fx_mul_exec(a: u64, b: u64) -> (r: u64)
    requires
        a <= ONE,
        b <= ONE,
    ensures
        r == fx_mul(a as nat, b as nat),
{
    proof {
        lemma_fx_mul_bound(a as nat, b as nat);
    }
    assert(0 <= a * b <= 0x1_0000_0000 * 0x1_0000_0000) by (nonlinear_arith)
        requires
            0 <= a <= 0x1_0000_0000,
            0 <= b <= 0x1_0000_0000,
    ;
    let wide: u128 = a as u128 * b as u128;
    (wide / 0x1_0000_0000u128) as u64
}

/// `base` to the power `n`, for a factor `base` that is at most one.
pub fn fx_pow_exec(base: u64, n: u64) -> (r: u64)
    requires
        base <= ONE,
    ensures
        r == fx_pow(base as nat, n as nat),
        r <= ONE,
    decreases n,
{
    proof {
        lemma_fx_pow_bound(base as nat, n as nat);
    }
    if n == 0 {
        ONE
    } else if n % 2 == 0 {
        proof {
            lemma_fx_pow_bound(base as nat, (n / 2) as nat);
        }
        let half: u64 = fx_pow_exec(base, n / 2);
        fx_mul_exec(half, half)
    } else {
        proof {
            lemma_fx_pow_bound(base as nat, (n - 1) as nat);
        }
        let below: u64 = fx_pow_exec(base, n - 1);
        fx_mul_exec(base, below)
    }
}

/// `v` scaled by `factor`, a factor that is at most one.
pub fn scale(v: i64, factor: u64) -> (r: i64)
    requires
        factor <= ONE,
    ensures
        r == scaled(v as int, factor as nat),
{
    proof {
        lemma_scaled_bound(v as int, factor as nat);
    }
    if v >= 0 {
        assert(0 <= v * factor <= 0x8000_0000_0000_0000 * 0x1_0000_0000) by (nonlinear_arith)
            requires
                0 <= v <= 0x8000_0000_0000_0000,
                0 <= factor <= 0x1_0000_0000,
        ;
        let wide: u128 = v as u128 * factor as u128;
        (wide / 0x1_0000_0000u128) as i64
    } else {
        let size: u128 = (-(v as i128)) as u128;
        assert(0 <= size * factor <= 0x8000_0000_0000_0000 * 0x1_0000_0000) by (nonlinear_arith)
            requires
                0 <= size <= 0x8000_0000_0000_0000,
                0 <= factor <= 0x1_0000_0000,
        ;
        let wide: u128 = size * factor as u128;
        let part: u128 = wide / 0x1_0000_0000u128;
        (-(part as i128)) as i64
    }
}

/// The factor that `damp` halvings per second leave after `delta`
/// milliseconds. Where just whole halvings have passed, it is one divided
/// by two for each of them.
pub fn retention_exec(damp: u32, delta: u32) -> (r: u64)
    ensures
        r == retention(damp, delta),
        r <= ONE,
        damp == 0 || delta == 0 ==> r == ONE,
        part_halving(damp, delta) == 0 ==> r == ONE as nat / pow2(whole_halvings(damp, delta)),
        part_halving(damp, delta) == 0 && whole_halvings(damp, delta) <= 32 ==> r == pow2(
            (32 - whole_halvings(damp, delta)) as nat,
        ),
{
    assert(0 <= damp * delta <= 0xffff_ffff * 0xffff_ffff) by (nonlinear_arith)
        requires
            0 <= damp <= 0xffff_ffff,
            0 <= delta <= 0xffff_ffff,
    ;
    assert(damp == 0 || delta == 0 ==> damp * delta == 0) by (nonlinear_arith);
    let steps: u64 = damp as u64 * delta as u64;
    let whole: u64 = steps / 1000;
    let part: u64 = steps % 1000;
    let left: u64 = fx_pow_exec(HALVING_STEP, part);
    proof {
        lemma_retention_bound(damp, delta);
        lemma2_to64();
        if part == 0 {
            lemma_whole_halvings(damp, delta, whole as nat, 0);
        }
    }
    if whole >= 33 {
        proof {
            lemma_pow2_strictly_increases(32, whole as nat);
            lemma_basic_div(left as int, pow2(whole as nat) as int);
        }
        0
    } else {
        proof {
            lemma_u64_shr_is_div(left, whole);
        }
        left >> whole
    }
}

} // verus!
