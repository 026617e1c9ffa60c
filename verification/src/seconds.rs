//! The seconds that a number of frames lasts at a frame rate, in hundredths,
//! as the quotient of the two counts is printed with two decimals when it is
//! computed in `f64`: each count is rounded to the nearest `f64`, their
//! quotient is rounded to the nearest `f64`, and the exact value of that
//! quotient is rounded to hundredths, ties to even. All of it is done here
//! in integers.
use vstd::arithmetic::div_mod::lemma_fundamental_div_mod;
use vstd::arithmetic::power2::{
    lemma2_to64, lemma2_to64_rest, lemma_pow2_adds, lemma_pow2_pos, lemma_pow2_strictly_increases,
    lemma_pow2_unfold, pow2,
};
use vstd::prelude::*;

verus! {

/// The number of binary digits of `n` (none for 0).
pub open spec fn bit_len(n: nat) -> nat
    decreases n,
{
    if n == 0 {
        0
    } else {
        1 + bit_len(n / 2)
    }
}

/// `a / b` rounded to the nearest integer, ties to the even one.
pub open spec fn div_half_even(a: nat, b: nat) -> nat {
    let q = a / b;
    let r = a % b;
    if 2 * r > b || (2 * r == b && q % 2 == 1) {
        q + 1
    } else {
        q
    }
}

/// The `f64` nearest to `n >= 1`, as a significand `m` with
/// `2^52 <= m < 2^53` and an exponent `e`, standing for `m * 2^e`: `n`
/// rounded to 53 significant bits, ties to even.
pub open spec fn f64_of(n: nat) -> (nat, int) {
    let len = bit_len(n);
    if len <= 53 {
        (n * pow2((53 - len) as nat), len - 53)
    } else {
        let t = (len - 53) as nat;
        let m = div_half_even(n, pow2(t));
        if m == pow2(53) {
            (pow2(52), t as int + 1)
        } else {
            (m, t as int)
        }
    }
}

/// The `f64` nearest to `a / b`, for two `f64`s written as [`f64_of`]
/// writes them: the quotient of the significands, scaled into
/// `[2^52, 2^53)`, rounded to an integer, ties to even.
pub open spec fn f64_quotient(a: (nat, int), b: (nat, int)) -> (nat, int) {
    let s: nat = if a.0 >= b.0 {
        52
    } else {
        53
    };
    let m = div_half_even(a.0 * pow2(s), b.0);
    let e = a.1 - b.1 - s;
    if m == pow2(53) {
        (pow2(52), e + 1)
    } else {
        (m, e)
    }
}

/// The exact value of `m * 2^e` in hundredths, rounded to an integer, ties
/// to even.
pub open spec fn f64_hundredths(x: (nat, int)) -> nat {
    if x.1 >= 0 {
        100 * x.0 * pow2(x.1 as nat)
    } else {
        div_half_even(100 * x.0, pow2((-x.1) as nat))
    }
}

/// The seconds that `frames` last at `fps` frames per second (`fps > 0`),
/// in hundredths, as the `f64` quotient is printed with two decimals.
pub open spec fn seconds_hundredths(frames: nat, fps: nat) -> nat {
    if frames == 0 {
        0
    } else {
        f64_hundredths(f64_quotient(f64_of(frames), f64_of(fps)))
    }
}

/// A positive `n` lies between `2^(bit_len(n) - 1)` and `2^bit_len(n)`.
proof fn lemma_bit_len_bounds(n: nat)
    requires
        n >= 1,
    ensures
        bit_len(n) >= 1,
        pow2((bit_len(n) - 1) as nat) <= n < pow2(bit_len(n)),
    decreases n,
{
    if n == 1 {
        assert(bit_len(0) == 0);
        assert(bit_len(1) == 1);
        lemma2_to64();
    } else {
        lemma_bit_len_bounds(n / 2);
        let b = bit_len(n / 2);
        lemma_pow2_unfold(b + 1);
        lemma_pow2_unfold(b);
    }
}

/// A number below `2^k` has at most `k` binary digits.
proof fn lemma_bit_len_at_most(n: nat, k: nat)
    requires
        n < pow2(k),
    ensures
        bit_len(n) <= k,
{
    if n >= 1 {
        lemma_bit_len_bounds(n);
        if bit_len(n) - 1 > k {
            lemma_pow2_strictly_increases(k, (bit_len(n) - 1) as nat);
        }
    }
}

/// Every power of two below `2^128` fits in a `u128`.
proof fn lemma_pow2_fits_u128(j: nat)
    requires
        j < 128,
    ensures
        pow2(j) <= u128::MAX,
{
    lemma2_to64();
    lemma_pow2_adds(64, 64);
    lemma_pow2_strictly_increases(j, 128);
}

/// `lo <= num / d < hi` when `lo * d <= num < hi * d`.
proof fn lemma_quotient_between(num: nat, d: nat, lo: nat, hi: nat)
    requires
        d > 0,
        lo * d <= num,
        num < hi * d,
    ensures
        lo <= num / d < hi,
{
    lemma_fundamental_div_mod(num as int, d as int);
    let q = num / d;
    let r = num % d;
    assert(lo <= q) by (nonlinear_arith)
        requires
            num == d * q + r,
            0 <= r < d,
            lo * d <= num,
            d > 0,
    ;
    assert(q < hi) by (nonlinear_arith)
        requires
            num == d * q + r,
            0 <= r,
            num < hi * d,
            d > 0,
    ;
}

/// The number of binary digits of `n`.
fn bit_length(n: u64) -> (r: u64)
    ensures
        r == bit_len(n as nat),
        r <= 64,
{
    proof {
        lemma2_to64();
        lemma_bit_len_at_most(n as nat, 64);
    }
    let mut v: u64 = n;
    let mut len: u64 = 0;
    while v > 0
        invariant
            len + bit_len(v as nat) == bit_len(n as nat),
            bit_len(n as nat) <= 64,
        decreases v,
    {
        assert(bit_len(v as nat) == 1 + bit_len((v / 2) as nat));
        v = v / 2;
        len = len + 1;
    }
    len
}

/// `2^k`.
fn pow2_u128(k: u64) -> (r: u128)
    requires
        k < 128,
    ensures
        r == pow2(k as nat),
{
    proof {
        lemma2_to64();
    }
    let mut p: u128 = 1;
    let mut i: u64 = 0;
    while i < k
        invariant
            i <= k,
            k < 128,
            p == pow2(i as nat),
        decreases k - i,
    {
        proof {
            lemma_pow2_unfold((i + 1) as nat);
            lemma_pow2_fits_u128((i + 1) as nat);
        }
        p = p * 2;
        i = i + 1;
    }
    p
}

/// `a / b` rounded to the nearest integer, ties to the even one.
fn div_half_even_u128(a: u128, b: u128) -> (r: u128)
    requires
        b > 0,
    ensures
        r == div_half_even(a as nat, b as nat),
{
    let q = a / b;
    let r = a % b;
    if r > b - r || (r == b - r && q % 2 == 1) {
        proof {
            lemma_fundamental_div_mod(a as int, b as int);
            assert(b >= 2);
            assert(2 * q <= a) by (nonlinear_arith)
                requires
                    a == b * q + r,
                    r >= 0,
                    b >= 2,
                    q >= 0,
            ;
        }
        q + 1
    } else {
        q
    }
}

/// The `f64` nearest to `n`, as [`f64_of`] writes it.
fn f64_of_u64(n: u64) -> (r: (u128, i64))
    requires
        n >= 1,
    ensures
        (r.0 as nat, r.1 as int) == f64_of(n as nat),
        pow2(52) <= r.0 < pow2(53),
        -52 <= r.1 <= 12,
{
    let len = bit_length(n);
    proof {
        lemma_bit_len_bounds(n as nat);
        lemma2_to64();
        lemma2_to64_rest();
    }
    if len <= 53 {
        let k = 53 - len;
        let p = pow2_u128(k);
        proof {
            lemma_pow2_adds(len as nat, k as nat);
            lemma_pow2_adds((len - 1) as nat, k as nat);
            lemma_pow2_pos(k as nat);
            let lo = pow2((len - 1) as nat);
            let hi = pow2(len as nat);
            assert(lo * p <= n * p && n * p < hi * p) by (nonlinear_arith)
                requires
                    lo <= n,
                    n < hi,
                    p > 0,
            ;
        }
        let m = n as u128 * p;
        (m, len as i64 - 53)
    } else {
        let t = len - 53;
        let p = pow2_u128(t);
        proof {
            lemma_pow2_adds(52, t as nat);
            lemma_pow2_adds(53, t as nat);
            lemma_pow2_pos(t as nat);
            assert((len - 1) as nat == 52 + t);
            assert(len as nat == 53 + t);
            lemma_quotient_between(n as nat, p as nat, pow2(52), pow2(53));
        }
        let m = div_half_even_u128(n as u128, p);
        if m == 9007199254740992 {
            (4503599627370496, t as i64 + 1)
        } else {
            (m, t as i64)
        }
    }
}

/// The `f64` nearest to `a / b`, as [`f64_quotient`] writes it.
fn f64_quotient_u128(a: (u128, i64), b: (u128, i64)) -> (r: (u128, i64))
    requires
        pow2(52) <= a.0 < pow2(53),
        pow2(52) <= b.0 < pow2(53),
        -52 <= a.1 <= 12,
        -52 <= b.1 <= 12,
    ensures
        (r.0 as nat, r.1 as int) == f64_quotient((a.0 as nat, a.1 as int), (b.0 as nat, b.1 as int)),
        pow2(52) <= r.0 < pow2(53),
        -117 <= r.1 <= 13,
{
    proof {
        lemma2_to64_rest();
    }
    let (ma, ea) = a;
    let (mb, eb) = b;
    let wide: bool = ma >= mb;
    let num: u128 = if wide {
        ma * 4503599627370496
    } else {
        ma * 9007199254740992
    };
    let s: i64 = if wide {
        52
    } else {
        53
    };
    proof {
        let lo = pow2(52);
        let hi = pow2(53);
        if wide {
            assert(lo * mb <= num && num < hi * mb) by (nonlinear_arith)
                requires
                    num == ma * lo,
                    mb <= ma < hi,
                    lo <= mb,
                    hi == 2 * lo,
            ;
        } else {
            assert(lo * mb <= num && num < hi * mb) by (nonlinear_arith)
                requires
                    num == ma * hi,
                    lo <= ma < mb < hi,
                    hi == 2 * lo,
            ;
        }
        lemma_quotient_between(num as nat, mb as nat, lo, hi);
    }
    let m = div_half_even_u128(num, mb);
    let e = ea - eb - s;
    if m == 9007199254740992 {
        (4503599627370496, e + 1)
    } else {
        (m, e)
    }
}

/// The exact value of `m * 2^e` in hundredths, as [`f64_hundredths`]
/// rounds it.
fn f64_hundredths_u128(x: (u128, i64)) -> (r: u128)
    requires
        pow2(52) <= x.0 < pow2(53),
        -117 <= x.1 <= 13,
    ensures
        r == f64_hundredths((x.0 as nat, x.1 as int)),
{
    proof {
        lemma2_to64();
        lemma2_to64_rest();
    }
    let (m, e) = x;
    if e >= 0 {
        let p = pow2_u128(e as u64);
        proof {
            if e < 13 {
                lemma_pow2_strictly_increases(e as nat, 13);
            }
            assert(pow2(13) == 8192);
            assert(100 * m * p <= 100 * 9007199254740992 * 8192) by (nonlinear_arith)
                requires
                    m < 9007199254740992,
                    p <= 8192,
            ;
        }
        100 * m * p
    } else {
        let p = pow2_u128((-e) as u64);
        proof {
            lemma_pow2_pos((-e) as nat);
        }
        div_half_even_u128(100 * m, p)
    }
}

/// The seconds that `frames` last at `fps` frames per second, in
/// hundredths, as the `f64` quotient is printed with two decimals.
pub fn hundredths_of_seconds(frames: usize, fps: usize) -> (r: u128)
    requires
        fps > 0,
    ensures
        r == seconds_hundredths(frames as nat, fps as nat),
{
    if frames == 0 {
        0
    } else {
        let a = f64_of_u64(frames as u64);
        let b = f64_of_u64(fps as u64);
        let q = f64_quotient_u128(a, b);
        f64_hundredths_u128(q)
    }
}

} // verus!
