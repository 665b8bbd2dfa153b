//! Fixed-point arithmetic for money-like quantities.
//!
//! A quantity is stored as a `u64` counting millionths of a unit
//! (`SCALE` per whole unit). Products and quotients of two fixed-point
//! numbers are computed in 128 bits and saturate at `u64::MAX`.

use vstd::prelude::*;

verus! {

/// Fixed-point values per whole unit: 1.0 is represented as `SCALE`.
pub const SCALE: u64 = 1_000_000;

/// The lowest price the simulator ever produces: 0.01 units.
pub const MIN_PRICE: u64 = 10_000;

/// Every freshly registered player starts with 1000.0 units of fiat.
pub const STARTING_BALANCE: u64 = 1_000_000_000;

/// Saturation at the top of the `u64` range, as a mathematical function.
pub open spec fn cap(x: int) -> int {
    if x > u64::MAX as int {
        u64::MAX as int
    } else {
        x
    }
}

/// The fixed-point product `a * b`, i.e. `(a * b) / SCALE`, saturated.
pub open spec fn mul_fp_spec(a: int, b: int) -> int {
    cap((a * b) / (SCALE as int))
}

/// The fixed-point quotient `a / b`, i.e. `(a * SCALE) / b`, saturated.
pub open spec fn div_fp_spec(a: int, b: int) -> int
    recommends
        b > 0,
{
    cap((a * (SCALE as int)) / b)
}

/// The saturated sum `a + b`.
pub open spec fn add_sat_spec(a: int, b: int) -> int {
    cap(a + b)
}

/// Multiplies two fixed-point quantities: `r` is `a * b / SCALE`,
/// saturated at `u64::MAX`.
pub fn mul_fp(a: u64, b: u64) -> (r: u64)
    ensures
        r as int == mul_fp_spec(a as int, b as int),
{
    proof {
        assert((a as int) * (b as int) <= (u64::MAX as int) * (u64::MAX as int))
            by (nonlinear_arith)
            requires
                0 <= a as int <= u64::MAX as int,
                0 <= b as int <= u64::MAX as int,
        ;
    }
    let p: u128 = (a as u128) * (b as u128) / (SCALE as u128);
    if p > u64::MAX as u128 {
        u64::MAX
    } else {
        p as u64
    }
}

/// Divides two fixed-point quantities: `r` is `a * SCALE / b`,
/// saturated at `u64::MAX`.
pub fn div_fp(a: u64, b: u64) -> (r: u64)
    requires
        b > 0,
    ensures
        r as int == div_fp_spec(a as int, b as int),
{
    proof {
        assert((a as int) * (SCALE as int) <= (u64::MAX as int) * (SCALE as int))
            by (nonlinear_arith)
            requires
                0 <= a as int <= u64::MAX as int,
        ;
    }
    let p: u128 = (a as u128) * (SCALE as u128) / (b as u128);
    if p > u64::MAX as u128 {
        u64::MAX
    } else {
        p as u64
    }
}

/// Adds two quantities, saturating at `u64::MAX`.
pub fn add_sat(a: u64, b: u64) -> (r: u64)
    ensures
        r as int == add_sat_spec(a as int, b as int),
{
    let s: u128 = (a as u128) + (b as u128);
    if s > u64::MAX as u128 {
        u64::MAX
    } else {
        s as u64
    }
}

/// The larger of two quantities.
pub fn max_u64(a: u64, b: u64) -> (r: u64)
    ensures
        r == if a >= b { a } else { b },
{
    if a >= b {
        a
    } else {
        b
    }
}

/// Splits a fiat balance into whole units and cents, truncating any
/// fraction of a cent, for two-decimal display.
pub fn balance_parts(micro: u64) -> (r: (u64, u64))
    ensures
        r.0 == micro / SCALE,
        r.1 == (micro / 10_000) % 100,
        r.1 < 100,
{
    (micro / SCALE, (micro / 10_000) % 100)
}

} // verus!
