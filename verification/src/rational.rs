//! Exact stream-time arithmetic.
//!
//! Containers describe time with rationals: a time base is a number of seconds
//! per tick, a frame rate a number of frames per second. Everything here is
//! integer arithmetic on nanoseconds, so that two players fed the same stream
//! agree to the last digit.

use vstd::arithmetic::div_mod::lemma_fundamental_div_mod;
use vstd::arithmetic::div_mod::lemma_fundamental_div_mod_converse_div;
use vstd::prelude::*;

verus! {

/// Nanoseconds in one second.
pub const NANOS_PER_SEC: u64 = 1_000_000_000;

/// No stream time lies further from zero than this many nanoseconds: the
/// largest timestamp under the largest time base.
pub const MAX_STREAM_NANOS: i128 = 0x1000_0000_0000_0000_0000_0000_0000_0000;

/// The longest period a frame rate can have, in nanoseconds: the largest
/// denominator over the smallest numerator.
pub const MAX_PERIOD_NANOS: u64 = 2_147_483_648_000_000_000;

/// The integer nearest to `n / d`, for a positive `d`. A quotient that lies
/// exactly halfway between two integers goes to the larger one.
pub open spec fn div_nearest(n: int, d: int) -> int
    recommends
        d > 0,
{
    (2 * n + d) / (2 * d)
}

/// `div_nearest(n, d)` is within half a unit of the exact quotient: it is the
/// one integer `q` with `n/d - 1/2 < q <= n/d + 1/2`.
pub proof fn lemma_div_nearest_is_nearest(n: int, d: int)
    requires
        d > 0,
    ensures
        2 * n - d < 2 * d * div_nearest(n, d) <= 2 * n + d,
{
    let t = 2 * n + d;
    let m = 2 * d;
    lemma_fundamental_div_mod(t, m);
    assert(0 <= t % m < m) by (nonlinear_arith)
        requires
            m > 0,
    ;
    assert(m * (t / m) == 2 * d * div_nearest(n, d)) by (nonlinear_arith)
        requires
            m == 2 * d,
            t / m == div_nearest(n, d),
    ;
}

/// Rounding never takes a quotient beyond its numerator, nor across zero.
pub proof fn lemma_div_nearest_bounded(n: int, d: int)
    requires
        d > 0,
    ensures
        n >= 0 ==> 0 <= div_nearest(n, d) <= n,
        n <= 0 ==> n <= div_nearest(n, d) <= 0,
{
    let q = div_nearest(n, d);
    lemma_div_nearest_is_nearest(n, d);
    if n >= 0 {
        assert(0 <= q <= n) by (nonlinear_arith)
            requires
                2 * n - d < 2 * d * q <= 2 * n + d,
                d >= 1,
                n >= 0,
        ;
    } else {
        assert(n <= q <= 0) by (nonlinear_arith)
            requires
                2 * n - d < 2 * d * q <= 2 * n + d,
                d >= 1,
                n < 0,
        ;
    }
}

/// A quotient of an exact multiple is exact: `div_nearest(q * d, d) == q`.
pub proof fn lemma_div_nearest_exact(q: int, d: int)
    requires
        d > 0,
    ensures
        div_nearest(q * d, d) == q,
{
    let m = 2 * d;
    assert(2 * (q * d) + d == q * m + d) by (nonlinear_arith)
        requires
            m == 2 * d,
    ;
    lemma_fundamental_div_mod_converse_div(2 * (q * d) + d, m, q, d);
}

/// Computes `div_nearest(n, d)` without leaving `i128`.
fn div_nearest_exec(n: i128, d: i128) -> (q: i128)
    requires
        0 < d <= 0x8000_0000,
        -MAX_STREAM_NANOS <= n <= MAX_STREAM_NANOS,
    ensures
        q == div_nearest(n as int, d as int),
{
    let t: i128 = 2 * n + d;
    let m: i128 = 2 * d;
    if t >= 0 {
        t / m
    } else {
        // Rust rounds a negative quotient toward zero; the nearest-integer
        // quotient is the floor, so divide the mirrored value rounding up.
        let u: i128 = (m - 1) - t;
        let up: i128 = u / m;
        proof {
            lemma_fundamental_div_mod(u as int, m as int);
            let r = (u as int) % (m as int);
            assert(0 <= r < m) by (nonlinear_arith)
                requires
                    r == (u as int) % (m as int),
                    m > 0,
            ;
            assert(t == (-up) * m + (m - 1 - r)) by (nonlinear_arith)
                requires
                    u == m * up + r,
                    u == (m - 1) - t,
            ;
            lemma_fundamental_div_mod_converse_div(t as int, m as int, -(up as int), m - 1 - r);
        }
        -up
    }
}

/// A ratio of two machine integers, as containers store time bases and frame
/// rates. Any pair can be held; what a pair means is asked of the methods.
#[derive(Clone, Copy, Debug, PartialEq, Eq, Structural)]
pub struct Rational {
    pub num: i32,
    pub den: i32,
}

impl Rational {
    /// The ratio has a value: its denominator is not zero.
    pub open spec fn is_defined(self) -> bool {
        self.den != 0
    }

    /// Read as a rate (events per second), the ratio has a period: it is
    /// positive, or it is infinite, in which case the period is zero.
    pub open spec fn has_period(self) -> bool {
        (self.num > 0 && self.den >= 0) || (self.num < 0 && self.den <= 0)
    }

    /// The period of the rate in nanoseconds, `den / num` seconds rounded to
    /// the nearest nanosecond.
    pub open spec fn period_nanos_spec(self) -> int
        recommends
            self.has_period(),
    {
        if self.num > 0 {
            div_nearest(self.den * 1_000_000_000, self.num as int)
        } else {
            div_nearest(-self.den * 1_000_000_000, -self.num)
        }
    }

    /// Read as a time base (seconds per tick), the stream time of `ticks` in
    /// nanoseconds, rounded to the nearest nanosecond.
    pub open spec fn nanos_of_ticks(self, ticks: int) -> int
        recommends
            self.is_defined(),
    {
        if self.den > 0 {
            div_nearest(ticks * self.num * 1_000_000_000, self.den as int)
        } else {
            div_nearest(-(ticks * self.num * 1_000_000_000), -self.den)
        }
    }

    /// The ratio `num / den`, kept as it is given.
    pub fn new(num: i32, den: i32) -> (r: Rational)
        ensures
            r.num == num,
            r.den == den,
    {
        Rational { num, den }
    }

    /// The time between two events at this rate, or `None` where the rate is
    /// zero, negative or `0/0`.
    pub fn period_nanos(&self) -> (period: Option<u64>)
        ensures
            period is Some <==> self.has_period(),
            period matches Some(p) ==> p == self.period_nanos_spec() && p <= MAX_PERIOD_NANOS,
    {
        let num: i128 = self.num as i128;
        let den: i128 = self.den as i128;
        if num > 0 && den >= 0 {
            Some(Self::positive_period(den, num))
        } else if num < 0 && den <= 0 {
            Some(Self::positive_period(-den, -num))
        } else {
            None
        }
    }

    fn positive_period(den: i128, num: i128) -> (p: u64)
        requires
            0 <= den <= 0x8000_0000,
            0 < num <= 0x8000_0000,
        ensures
            p == div_nearest(den * 1_000_000_000, num as int),
            p <= MAX_PERIOD_NANOS,
    {
        let scaled: i128 = den * 1_000_000_000;
        let q: i128 = div_nearest_exec(scaled, num);
        proof {
            lemma_div_nearest_bounded(scaled as int, num as int);
        }
        q as u64
    }

    /// The stream time of `ticks` under this time base, in nanoseconds, or
    /// `None` where the time base has no value.
    pub fn ticks_to_nanos(&self, ticks: i64) -> (nanos: Option<i128>)
        ensures
            nanos is Some <==> self.is_defined(),
            nanos matches Some(t) ==> t == self.nanos_of_ticks(ticks as int),
            nanos matches Some(t) ==> -MAX_STREAM_NANOS <= t <= MAX_STREAM_NANOS,
    {
        if self.den == 0 {
            return None;
        }
        let t: i128 = ticks as i128;
        let n: i128 = self.num as i128;
        assert(-0x4000_0000_0000_0000_0000_0000 <= t * n <= 0x4000_0000_0000_0000_0000_0000)
            by (nonlinear_arith)
            requires
                -0x8000_0000_0000_0000 <= t <= 0x8000_0000_0000_0000,
                -0x8000_0000 <= n <= 0x8000_0000,
        ;
        let product: i128 = t * n;
        let scaled: i128 = product * 1_000_000_000;
        let den: i128 = self.den as i128;
        if den > 0 {
            proof {
                lemma_div_nearest_bounded(scaled as int, den as int);
            }
            Some(div_nearest_exec(scaled, den))
        } else {
            proof {
                lemma_div_nearest_bounded(-(scaled as int), -(den as int));
            }
            Some(div_nearest_exec(-scaled, -den))
        }
    }
}

} // verus!
