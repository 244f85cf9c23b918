//! Line rates in readable units.
//!
//! A rate that is no whole number of its unit is shown with one decimal. The
//! quotient is taken in double precision, as a 53-bit significand, and then
//! rounded to tenths; both steps round to nearest, ties to even.

use vstd::prelude::*;

use crate::number::{decimal, decimal_text};
use crate::text::{cat2, cat4, Text};

verus! {

/// The quotient rounded to the nearest whole number, ties to the even one.
pub open spec fn nearest_even(n: nat, d: nat) -> nat {
    let q = n / d;
    let r = n % d;
    if 2 * r < d || (2 * r == d && q % 2 == 0) {
        q
    } else {
        q + 1
    }
}

/// The spacing of 53-bit significands around `n`: the least power of two that
/// brings `n` below 2^53.
pub open spec fn spacing(n: nat) -> nat
    decreases n,
{
    if n < 0x20000000000000 {
        1
    } else {
        2 * spacing(n / 2)
    }
}

/// A whole number rounded to a 53-bit significand.
pub open spec fn to_double(n: nat) -> nat {
    nearest_even(n, spacing(n)) * spacing(n)
}

/// The power of two that lifts `n / d` to at least 2^52.
pub open spec fn lift(n: nat, d: nat) -> nat
    decreases
            if n >= 0x10000000000000 * d {
                0
            } else {
                0x10000000000000 * d - n
            },
    when n > 0
{
    if n >= 0x10000000000000 * d {
        1
    } else {
        2 * lift(2 * n, d)
    }
}

/// `n / unit` in double precision, rounded to tenths and counted in tenths.
pub open spec fn tenths(n: nat, unit: nat) -> nat {
    let k = to_double(n);
    let p = lift(k, unit);
    nearest_even(nearest_even(k * p, unit) * 10, p)
}

/// A count of tenths with its decimal point.
pub open spec fn tenths_text(t: nat) -> Text {
    decimal_text(t / 10) + "."@ + decimal_text(t % 10)
}

/// A rate in kilobits per second, in the largest unit it reaches.
pub open spec fn rate_text(kbps: nat) -> Text {
    if kbps == 0 {
        "0"@
    } else if kbps % 1_000_000 == 0 {
        decimal_text(kbps / 1_000_000) + " Gbps"@
    } else if kbps >= 1_000_000 {
        tenths_text(tenths(kbps, 1_000_000)) + " Gbps"@
    } else if kbps % 1000 == 0 {
        decimal_text(kbps / 1000) + " Mbps"@
    } else if kbps >= 1000 {
        tenths_text(tenths(kbps, 1000)) + " Mbps"@
    } else {
        decimal_text(kbps) + " kbps"@
    }
}

fn round_even(n: u128, d: u128) -> (r: u128)
    requires
        0 < d <= 0x4000_0000_0000_0000_0000_0000_0000_0000,
        n < u128::MAX,
    ensures
        r == nearest_even(n as nat, d as nat),
        r <= n / d + 1,
{
    let q: u128 = n / d;
    let rem: u128 = n % d;
    proof {
        assert(n / d <= n) by (nonlinear_arith)
            requires
                d > 0,
        ;
        assert(n % d < d) by (nonlinear_arith)
            requires
                d > 0,
        ;
    }
    if 2 * rem < d || (2 * rem == d && q % 2 == 0) {
        q
    } else {
        q + 1
    }
}

proof fn spacing_bound(n: nat)
    requires
        n < 0x1_0000_0000_0000_0000,
    ensures
        1 <= spacing(n) <= 2048,
        n < 0x20000000000000 * spacing(n),
{
    reveal_with_fuel(spacing, 13);
}

fn double_spacing(n: u64) -> (r: u128)
    ensures
        r == spacing(n as nat),
        1 <= r <= 2048,
        n < 0x20000000000000 * r,
{
    let mut rest: u64 = n;
    let mut p: u128 = 1;
    proof {
        spacing_bound(n as nat);
    }
    while rest >= 0x20000000000000
        invariant
            spacing(n as nat) == p * spacing(rest as nat),
            1 <= p,
            spacing(n as nat) <= 2048,
        decreases rest,
    {
        proof {
            spacing_bound(rest as nat);
            let s = spacing((rest / 2) as nat) as int;
            spacing_bound((rest / 2) as nat);
            assert(p * (2 * s) == (2 * p) * s) by (nonlinear_arith);
            assert(2 * p <= (2 * p) * s) by (nonlinear_arith)
                requires
                    1 <= s,
                    1 <= p,
            ;
        }
        rest = rest / 2;
        p = 2 * p;
    }
    proof {
        assert(p * 1 == p) by (nonlinear_arith);
    }
    p
}

/// The number of tenths in `n / unit`.
fn count_tenths(n: u64, unit: u64) -> (r: u64)
    requires
        1000 <= unit <= 1_000_000,
        unit <= n,
    ensures
        r == tenths(n as nat, unit as nat),
{
    let s: u128 = double_spacing(n);
    let m: u128 = round_even(n as u128, s);
    proof {
        assert(n as u128 / s < 0x20000000000000) by (nonlinear_arith)
            requires
                n < 0x20000000000000 * s,
                s >= 1,
        ;
        assert(m * s <= 0x20000000000000 * 2048) by (nonlinear_arith)
            requires
                m <= 0x20000000000000,
                1 <= s <= 2048,
        ;
        assert(m * s >= 1) by {
            rounding_keeps_positive(n as nat, s as nat);
        }
    }
    let k: u128 = m * s;
    let d: u128 = unit as u128;
    let mut num: u128 = k;
    let mut p: u128 = 1;
    proof {
        assert(num == p * k) by (nonlinear_arith)
            requires
                num == k,
                p == 1,
        ;
        assert(lift(k as nat, d as nat) == p * lift(num as nat, d as nat)) by (nonlinear_arith)
            requires
                num == k,
                p == 1,
        ;
    }
    while num < 0x10000000000000 * d
        invariant
            1 <= k <= 0x20000000000000 * 2048,
            1000 <= d <= 1_000_000,
            1 <= p <= num,
            num == p * k,
            num <= 0x20000000000000 * 1_000_000,
            lift(k as nat, d as nat) == p * lift(num as nat, d as nat),
        decreases
                if num < 0x10000000000000 * d {
                    0x10000000000000 * d - num
                } else {
                    0
                },
    {
        proof {
            let l = lift((2 * num) as nat, d as nat) as int;
            assert(p * (2 * l) == (2 * p) * l) by (nonlinear_arith);
            assert((2 * p) * k == 2 * num) by (nonlinear_arith)
                requires
                    num == p * k,
            ;
        }
        num = 2 * num;
        p = 2 * p;
    }
    proof {
        assert(p * 1 == p) by (nonlinear_arith);
        assert(k * p == num) by (nonlinear_arith)
            requires
                num == p * k,
        ;
        assert(num / d <= num) by (nonlinear_arith)
            requires
                d >= 1,
        ;
    }
    let q: u128 = round_even(num, d);
    let x: u128 = q * 10;
    proof {
        assert(x / p <= x) by (nonlinear_arith)
            requires
                p >= 1,
        ;
    }
    let t: u128 = round_even(x, p);
    proof {
        tenths_fit(k as nat, d as nat, p as nat, num as nat, q as nat);
    }
    t as u64
}

/// Rounding a positive whole number to a significand leaves it positive.
proof fn rounding_keeps_positive(n: nat, s: nat)
    requires
        n >= 1,
        s == spacing(n),
        n < 0x1_0000_0000_0000_0000,
    ensures
        nearest_even(n, s) * s >= 1,
{
    spacing_bound(n);
    if n < 0x20000000000000 {
        assert(s == 1);
        assert(n / 1 == n && n % 1 == 0);
    } else {
        assert(n / s >= 1) by (nonlinear_arith)
            requires
                n >= 0x20000000000000,
                1 <= s <= 2048,
        ;
    }
    let m = nearest_even(n, s);
    assert(m * s >= 1) by (nonlinear_arith)
        requires
            m >= 1,
            s >= 1,
    ;
}

/// The tenths of a quotient of at most 2^64 fit a machine word.
proof fn tenths_fit(k: nat, d: nat, p: nat, num: nat, q: nat)
    requires
        k <= 0x20000000000000 * 2048,
        d >= 1000,
        p >= 1,
        num == p * k,
        q == nearest_even(num, d),
    ensures
        nearest_even(q * 10, p) <= u64::MAX,
{
    assert(1000 * (num / d) <= num) by (nonlinear_arith)
        requires
            d >= 1000,
    ;
    let top = (k + 1000) / 100 + 1;
    assert(1000 * q <= num + 1000);
    assert(q * 10 <= p * top) by (nonlinear_arith)
        requires
            1000 * q <= num + 1000,
            num == p * k,
            p >= 1,
            100 * top >= k + 1000,
    ;
    assert((q * 10) / p <= top) by (nonlinear_arith)
        requires
            q * 10 <= p * top,
            p >= 1,
    ;
}

/// Writes a rate in the largest unit it reaches.
pub fn humanize_kbps(kbps: u64) -> (r: String)
    ensures
        r@ == rate_text(kbps as nat),
{
    if kbps == 0 {
        return "0".to_owned();
    }
    if kbps % 1_000_000 == 0 {
        let n = decimal(kbps / 1_000_000);
        cat2(n.as_str(), " Gbps")
    } else if kbps >= 1_000_000 {
        let t = count_tenths(kbps, 1_000_000);
        let whole = decimal(t / 10);
        let part = decimal(t % 10);
        cat4(whole.as_str(), ".", part.as_str(), " Gbps")
    } else if kbps % 1000 == 0 {
        let n = decimal(kbps / 1000);
        cat2(n.as_str(), " Mbps")
    } else if kbps >= 1000 {
        let t = count_tenths(kbps, 1000);
        let whole = decimal(t / 10);
        let part = decimal(t % 10);
        cat4(whole.as_str(), ".", part.as_str(), " Mbps")
    } else {
        let n = decimal(kbps);
        cat2(n.as_str(), " kbps")
    }
}

// ===== Laws ==============================================================

/// Rounding moves a quotient by no more than a half, and a tie goes to the even side.
pub proof fn rounding_goes_to_the_nearest(n: nat, d: nat)
    requires
        d > 0,
    ensures
        2 * (nearest_even(n, d) * d) <= 2 * n + d,
        2 * n <= 2 * (nearest_even(n, d) * d) + d,
        2 * (nearest_even(n, d) * d) == 2 * n + d || 2 * n == 2 * (nearest_even(n, d) * d) + d
            ==> nearest_even(n, d) % 2 == 0,
{
    let q = n / d;
    let r = n % d;
    assert(n == d * q + r && r < d) by (nonlinear_arith)
        requires
            q == n / d,
            r == n % d,
            d > 0,
    ;
    assert((q + 1) * d == d * q + d && q * d == d * q) by (nonlinear_arith);
}

/// A count below 2^53 is a double already, and is taken as it is.
pub proof fn small_counts_are_exact(n: nat)
    ensures
        n < 0x20000000000000 ==> to_double(n) == n,
{
    if n < 0x20000000000000 {
        assert(spacing(n) == 1);
        assert(nearest_even(n, 1) == n);
    }
}

proof fn lifted_far_enough(n: nat, d: nat)
    requires
        n > 0,
        d > 0,
    ensures
        lift(n, d) >= 1,
        n * lift(n, d) >= 0x10000000000000 * d,
    decreases
            if n >= 0x10000000000000 * d {
                0
            } else {
                0x10000000000000 * d - n
            },
{
    if n < 0x10000000000000 * d {
        lifted_far_enough(2 * n, d);
        let p = lift(2 * n, d);
        assert((2 * n) * p == n * (2 * p)) by (nonlinear_arith);
    } else {
        assert(lift(n, d) == 1);
        assert(n * 1 == n);
    }
}

/// The tenths of a rate are those nearest to it: they differ from it by about a half of a
/// tenth at most, and a rate that is a whole number of tenths has just these.
pub proof fn tenths_are_the_nearest(n: nat, unit: nat, whole: nat)
    requires
        0 < n < 0x20000000000000,
        unit >= 1000,
    ensures
        100 * (tenths(n, unit) * unit) <= 1000 * n + 51 * unit,
        1000 * n <= 100 * (tenths(n, unit) * unit) + 51 * unit,
        10 * n == whole * unit ==> tenths(n, unit) == whole,
{
    small_counts_are_exact(n);
    let p = lift(n, unit);
    lifted_far_enough(n, unit);
    let q = nearest_even(n * p, unit);
    let t = nearest_even(q * 10, p);
    rounding_goes_to_the_nearest(n * p, unit);
    rounding_goes_to_the_nearest(q * 10, p);
    assert(p >= 500) by (nonlinear_arith)
        requires
            n * p >= 0x10000000000000 * unit,
            0 < n < 0x20000000000000,
            unit >= 1000,
    ;
    let far = (q * unit) as int - (n * p) as int;
    let off = (t * p) as int - (q * 10) as int;
    assert(-unit <= 2 * far <= unit);
    assert(-p <= 2 * off <= p);
    let gap = (t * unit) as int - (10 * n) as int;
    assert(gap * p == off * unit + 10 * far) by (nonlinear_arith)
        requires
            far == (q * unit) as int - (n * p) as int,
            off == (t * p) as int - (q * 10) as int,
            gap == (t * unit) as int - (10 * n) as int,
    ;
    assert(2 * (off * unit) <= p * unit && -(p * unit) <= 2 * (off * unit)) by (nonlinear_arith)
        requires
            -p <= 2 * off <= p,
    ;
    assert(100 * gap <= 51 * unit) by (nonlinear_arith)
        requires
            2 * (gap * p) <= p * unit + 10 * unit,
            p >= 500,
            unit >= 1000,
    ;
    assert(-(51 * unit) <= 100 * gap) by (nonlinear_arith)
        requires
            -(p * unit + 10 * unit) <= 2 * (gap * p),
            p >= 500,
            unit >= 1000,
    ;
    if 10 * n == whole * unit {
        let apart = t as int - whole as int;
        assert(gap == apart * unit) by (nonlinear_arith)
            requires
                gap == (t * unit) as int - (10 * n) as int,
                10 * n == whole * unit,
                apart == t as int - whole as int,
        ;
        assert(apart == 0) by (nonlinear_arith)
            requires
                gap == apart * unit,
                100 * gap <= 51 * unit,
                -(51 * unit) <= 100 * gap,
                unit >= 1000,
        ;
    }
}

/// A rate is written in the largest unit it reaches: whole numbers of gigabits and
/// megabits plainly, others in tenths, and what is below a megabit in kilobits.
pub proof fn rates_are_written_in_their_unit(n: nat)
    ensures
        rate_text(0) == "0"@,
        n > 0 ==> rate_text(1_000_000 * n) == decimal_text(n) + " Gbps"@,
        0 < n < 1000 ==> rate_text(1000 * n) == decimal_text(n) + " Mbps"@,
        0 < n < 1000 ==> rate_text(n) == decimal_text(n) + " kbps"@,
        n > 1_000_000 && n % 1_000_000 != 0 ==> rate_text(n) == decimal_text(
            tenths(n, 1_000_000) / 10,
        ) + "."@ + decimal_text(tenths(n, 1_000_000) % 10) + " Gbps"@,
        1000 < n < 1_000_000 && n % 1000 != 0 ==> rate_text(n) == decimal_text(
            tenths(n, 1000) / 10,
        ) + "."@ + decimal_text(tenths(n, 1000) % 10) + " Mbps"@,
{
}

} // verus!
