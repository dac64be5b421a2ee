//! Times in words: nanoseconds as seconds with some digits behind the point.

use vstd::arithmetic::div_mod::lemma_fundamental_div_mod;
use vstd::prelude::*;

use crate::text::{cat3, cat4, decimal, number};

verus! {

/// The nanoseconds of a second.
pub const SECOND: u128 = 1_000_000_000;

/// The parts that a second is divided in: two to the power of 82, the finest that a binary
/// fraction of a nanosecond or more is held in.
pub const PARTS: u128 = 0x4_0000_0000_0000_0000_0000;

/// A number with 53 bits is held as it is.
pub const HELD: u128 = 0x20_0000_0000_0000;

/// The quotient to the nearest whole number; of two that are equally near, to the even one.
pub open spec fn nearest(a: int, b: int) -> int {
    let whole = a / b;
    let rest = a % b;
    if 2 * rest > b || (2 * rest == b && whole % 2 == 1) {
        whole + 1
    } else {
        whole
    }
}

/// The power of two that a number is held to with 53 bits.
pub open spec fn grain(n: int) -> int
    decreases n,
{
    if n < HELD {
        1
    } else {
        2 * grain(n / 2)
    }
}

/// The fraction of a second that so many nanoseconds are, in parts: the nearest that 53 bits hold.
pub open spec fn fraction(nanos: int) -> int {
    let step = grain(nanos * PARTS / SECOND as int);
    nearest(nanos * PARTS, SECOND * step) * step
}

/// A time in parts of a second: its seconds and its fraction, together the nearest that 53 bits
/// hold.
pub open spec fn parts(nanos: u64) -> int {
    let sum = (nanos / 1_000_000_000) * PARTS + fraction((nanos % 1_000_000_000) as int);
    nearest(sum, grain(sum)) * grain(sum)
}

/// A time as seconds with two digits behind the point.
pub open spec fn seconds_text(nanos: u64) -> Seq<char> {
    let hundredths = nearest(parts(nanos) * 100, PARTS as int);
    decimal((hundredths / 100) as nat) + "."@ + decimal(((hundredths % 100) / 10) as nat) + decimal(
        (hundredths % 10) as nat,
    )
}

/// A time as seconds with one digit behind the point.
pub open spec fn tenths_text(nanos: u64) -> Seq<char> {
    let tenths = nearest(parts(nanos) * 10, PARTS as int);
    decimal((tenths / 10) as nat) + "."@ + decimal((tenths % 10) as nat)
}

fn quotient(a: u128, b: u128) -> (res: u128)
    requires
        b > 0,
        a < u128::MAX,
    ensures
        res == nearest(a as int, b as int),
        res * b <= a + b,
{
    let whole: u128 = a / b;
    let rest: u128 = a % b;
    proof {
        lemma_fundamental_div_mod(a as int, b as int);
        assert((whole + 1) * b == whole * b + b) by (nonlinear_arith);
        assert(b * whole == whole * b) by (nonlinear_arith);
        assert(whole <= a) by (nonlinear_arith)
            requires
                whole * b <= a,
                b >= 1,
                whole >= 0,
        ;
    }
    if rest > b - rest || (rest == b - rest && whole % 2 == 1) {
        whole + 1
    } else {
        whole
    }
}

fn grain_of(n: u128) -> (res: u128)
    ensures
        res == grain(n as int),
        res >= 1,
        res <= n || res == 1,
{
    let mut left: u128 = n;
    let mut step: u128 = 1;
    while left >= HELD
        invariant
            step >= 1,
            step <= n || step == 1,
            step * left <= n,
            grain(n as int) == step * grain(left as int),
        decreases left,
    {
        proof {
            assert(2 * step <= n) by (nonlinear_arith)
                requires
                    step * left <= n,
                    left >= 2,
                    step >= 1,
            ;
            assert((2 * step) * (left / 2) <= step * left) by (nonlinear_arith)
                requires
                    step >= 1,
            ;
            assert(step * (2 * grain((left / 2) as int)) == (2 * step) * grain((left / 2) as int))
                by (nonlinear_arith);
        }
        step = 2 * step;
        left = left / 2;
    }
    assert(grain(left as int) == 1);
    step
}

/// The most parts that a time can be.
const MOST_PARTS: u128 = 0x80_0000_0000_0000_0000_0000_0000_0000;

fn parts_of(nanos: u64) -> (res: u128)
    ensures
        res == parts(nanos),
        res <= MOST_PARTS,
{
    let seconds: u128 = nanos as u128 / SECOND;
    let rest: u128 = nanos as u128 % SECOND;
    let exact: u128 = rest * PARTS;
    let fine: u128 = grain_of(exact / SECOND);
    let held: u128 = quotient(exact, SECOND * fine);
    proof {
        assert(held * fine <= exact + SECOND * fine) by (nonlinear_arith)
            requires
                held * (SECOND * fine) <= exact + SECOND * fine,
                SECOND >= 1,
                held * fine >= 0,
        ;
        assert(held * fine <= 2 * PARTS + 1) by (nonlinear_arith)
            requires
                held * (SECOND * fine) <= exact + SECOND * fine,
                exact <= SECOND * PARTS,
                fine <= PARTS + 1,
                SECOND >= 1,
        ;
    }
    let sum: u128 = seconds * PARTS + held * fine;
    assert(held * fine == fraction(rest as int));
    let coarse: u128 = grain_of(sum);
    let whole: u128 = quotient(sum, coarse);
    whole * coarse
}

/// A time as seconds with two digits behind the point.
pub fn format_seconds(nanos: u64) -> (res: String)
    ensures
        res@ == seconds_text(nanos),
{
    let hundredths: u128 = quotient(parts_of(nanos) * 100, PARTS);
    cat4(
        number((hundredths / 100) as u64).as_str(),
        ".",
        number(((hundredths % 100) / 10) as u64).as_str(),
        number((hundredths % 10) as u64).as_str(),
    )
}

/// A time as seconds with one digit behind the point.
pub fn format_tenths(nanos: u64) -> (res: String)
    ensures
        res@ == tenths_text(nanos),
{
    let tenths: u128 = quotient(parts_of(nanos) * 10, PARTS);
    cat3(number((tenths / 10) as u64).as_str(), ".", number((tenths % 10) as u64).as_str())
}

/// Rounding goes to the nearest whole number, and from the middle to the even one.
pub proof fn law_rounding(a: int, b: int)
    requires
        b > 0,
    ensures
        -b <= 2 * (nearest(a, b) * b - a) <= b,
        2 * (nearest(a, b) * b - a) == b || 2 * (nearest(a, b) * b - a) == -b ==> nearest(a, b) % 2
            == 0,
{
    let whole = a / b;
    let rest = a % b;
    assert(a == b * whole + rest && 0 <= rest < b) by (nonlinear_arith)
        requires
            b > 0,
            whole == a / b,
            rest == a % b,
    ;
    assert(whole * b == b * whole) by (nonlinear_arith);
    assert((whole + 1) * b == b * whole + b) by (nonlinear_arith);
}

} // verus!
