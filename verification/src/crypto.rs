//! Price simulation and valuation.
//!
//! Prices, fiat amounts and asset quantities are fixed-point `u64`
//! values (see [`crate::fixed`]). Asset identifiers are byte strings
//! and are compared case-insensitively (ASCII).

use vstd::prelude::*;

use crate::fixed::{
    cap, div_fp, div_fp_spec, max_u64, mul_fp, mul_fp_spec, MIN_PRICE, SCALE,
};

verus! {

/// ASCII lower-casing of one byte.
pub open spec fn lower_byte(b: u8) -> u8 {
    if 65 <= b <= 90 {
        (b + 32) as u8
    } else {
        b
    }
}

/// ASCII lower-casing of a byte string.
pub open spec fn lower_seq(s: Seq<u8>) -> Seq<u8> {
    s.map_values(|b: u8| lower_byte(b))
}

/// The byte string `"sol"`.
pub open spec fn sol_id() -> Seq<u8> {
    seq![115u8, 111u8, 108u8]
}

/// The byte string `"eth"`.
pub open spec fn eth_id() -> Seq<u8> {
    seq![101u8, 116u8, 104u8]
}

/// The fixed base price used to size a wager: 150.0 for `"sol"`,
/// 2000.0 for `"eth"`, and 1.0 for anything else.
pub open spec fn base_price_spec(c: Seq<u8>) -> u64 {
    if lower_seq(c) == sol_id() {
        150_000_000u64
    } else if lower_seq(c) == eth_id() {
        2_000_000_000u64
    } else {
        SCALE
    }
}

/// Whether an asset identifier is one of the supported ones.
pub open spec fn is_supported(c: Seq<u8>) -> bool {
    lower_seq(c) == sol_id() || lower_seq(c) == eth_id()
}

/// ASCII-lower-cases an asset identifier.
pub fn to_lower(c: &Vec<u8>) -> (r: Vec<u8>)
    ensures
        r@ == lower_seq(c@),
{
    let mut out: Vec<u8> = Vec::new();
    let mut i: usize = 0;
    while i < c.len()
        invariant
            i <= c.len(),
            out@ == lower_seq(c@).take(i as int),
        decreases c.len() - i,
    {
        let b = c[i];
        if 65 <= b && b <= 90 {
            out.push(b + 32);
        } else {
            out.push(b);
        }
        proof {
            assert(out@ =~= lower_seq(c@).take(i as int + 1));
        }
        i = i + 1;
    }
    proof {
        assert(out@ =~= lower_seq(c@));
    }
    out
}

/// Gets the base price of a cryptocurrency, matching the identifier
/// case-insensitively.
pub fn get_base_price(crypto: &Vec<u8>) -> (r: u64)
    ensures
        r == base_price_spec(crypto@),
        r >= SCALE,
{
    let lower = to_lower(crypto);
    if lower.len() == 3 {
        if lower[0] == 115 && lower[1] == 111 && lower[2] == 108 {
            proof {
                assert(lower_seq(crypto@) =~= sol_id());
            }
            return 150_000_000;
        }
        if lower[0] == 101 && lower[1] == 116 && lower[2] == 104 {
            proof {
                assert(lower_seq(crypto@) =~= eth_id());
            }
            return 2_000_000_000;
        }
    }
    proof {
        assert(lower_seq(crypto@) != sol_id());
        assert(lower_seq(crypto@) != eth_id());
    }
    SCALE
}

/// Decides whether an asset identifier is a supported one
/// (case-insensitively `"sol"` or `"eth"`).
pub fn is_supported_crypto(crypto: &Vec<u8>) -> (r: bool)
    ensures
        r == is_supported(crypto@),
{
    let lower = to_lower(crypto);
    if lower.len() == 3 {
        if lower[0] == 115 && lower[1] == 111 && lower[2] == 108 {
            proof {
                assert(lower_seq(crypto@) =~= sol_id());
            }
            return true;
        }
        if lower[0] == 101 && lower[1] == 116 && lower[2] == 104 {
            proof {
                assert(lower_seq(crypto@) =~= eth_id());
            }
            return true;
        }
    }
    proof {
        assert(lower_seq(crypto@) != sol_id());
        assert(lower_seq(crypto@) != eth_id());
    }
    false
}

/// Converts fiat to an asset quantity at the given price. Fails
/// exactly when the price is zero (the non-positive case); otherwise
/// the quantity is `usd / price_per_crypto` in fixed point.
pub fn usd_to_crypto(usd: u64, crypto: &Vec<u8>, price_per_crypto: u64) -> (r: Option<u64>)
    ensures
        (r is None) <==> price_per_crypto == 0,
        price_per_crypto > 0 ==> r == Some(
            (div_fp_spec(usd as int, price_per_crypto as int) as u64),
        ),
{
    let _ = crypto;
    if price_per_crypto == 0 {
        return None;
    }
    Some(div_fp(usd, price_per_crypto))
}

/// Converts an asset quantity back to fiat: `crypto_amount * price`
/// in fixed point; never fails.
pub fn crypto_to_usd(crypto_amount: u64, price_per_crypto: u64) -> (r: u64)
    ensures
        r as int == mul_fp_spec(crypto_amount as int, price_per_crypto as int),
{
    mul_fp(crypto_amount, price_per_crypto)
}

/// The time-based payout multiplier after a whole number of seconds:
/// `1.0 + elapsed_seconds * 0.01` in fixed point, saturated.
pub fn multiplier(elapsed_seconds: u64) -> (r: u64)
    ensures
        r as int == cap(SCALE as int + elapsed_seconds as int * 10_000),
        r >= SCALE,
{
    let m: u128 = (SCALE as u128) + (elapsed_seconds as u128) * 10_000;
    if m > u64::MAX as u128 {
        u64::MAX
    } else {
        m as u64
    }
}

/// The time-based payout multiplier after a number of milliseconds:
/// `1.0 + elapsed_ms * 0.00001` in fixed point, saturated. Agrees
/// with [`multiplier`] on whole seconds.
pub fn multiplier_ms(elapsed_ms: u64) -> (r: u64)
    ensures
        r as int == cap(SCALE as int + elapsed_ms as int * 10),
        r >= SCALE,
{
    let m: u128 = (SCALE as u128) + (elapsed_ms as u128) * 10;
    if m > u64::MAX as u128 {
        u64::MAX
    } else {
        m as u64
    }
}

/// The current fiat worth of an open position before flooring:
/// `wagered_qty * multiplier * price`, composed in fixed point.
pub open spec fn position_value_spec(qty: int, mult: int, price: int) -> int {
    mul_fp_spec(mul_fp_spec(qty, mult), price)
}

/// The current fiat worth of an open position, never below the
/// supplied floor when one is given.
pub fn mark_to_market(wagered_qty: u64, mult: u64, price: u64, floor_fiat: Option<u64>) -> (r:
    u64)
    ensures
        r as int == match floor_fiat {
            Some(f) => vstd::math::max(
                position_value_spec(wagered_qty as int, mult as int, price as int),
                f as int,
            ),
            None => position_value_spec(wagered_qty as int, mult as int, price as int),
        },
        floor_fiat matches Some(f) ==> r >= f,
{
    let v = mul_fp(mul_fp(wagered_qty, mult), price);
    match floor_fiat {
        Some(f) => max_u64(v, f),
        None => v,
    }
}

/// Relies on `rand::Rng::gen_range` (through `rand::thread_rng`):
/// a uniform sample from `lo..hi`, which always lies in that
/// half-open range and panics only on an empty range.
#[verifier::external_body]
fn rand_range(lo: u64, hi: u64) -> (r: u64)
    requires
        lo < hi,
    ensures
        lo <= r < hi,
{
    rand::Rng::gen_range(&mut rand::thread_rng(), lo..hi)
}

/// Relies on `rand::Rng::gen::<bool>` (through `rand::thread_rng`):
/// a random draw of either truth value.
#[verifier::external_body]
fn rand_bool() -> (r: bool) {
    rand::Rng::gen::<bool>(&mut rand::thread_rng())
}

/// One simulation step as a mathematical function: the price scaled
/// by `1 + change` (a fixed-point fraction), saturated, and floored
/// at [`MIN_PRICE`].
pub open spec fn step_price_spec(current: int, change: int) -> int {
    vstd::math::max(MIN_PRICE as int, cap(current * (SCALE as int + change) / (SCALE as int)))
}

/// Applies a total fractional change to a price and floors the result
/// at [`MIN_PRICE`]: `max(MIN_PRICE, current * (1 + change))` in fixed
/// point, saturated.
pub fn apply_change(current: u64, total_change: i64) -> (r: u64)
    requires
        -(SCALE as int) < total_change as int <= SCALE as int,
    ensures
        r as int == step_price_spec(current as int, total_change as int),
        r >= MIN_PRICE,
{
    let factor_i: i64 = (SCALE as i64) + total_change;
    let factor: u128 = factor_i as u128;
    proof {
        assert(factor as int == SCALE as int + total_change as int);
        assert((current as int) * (factor as int) <= (u64::MAX as int) * (2 * SCALE as int))
            by (nonlinear_arith)
            requires
                0 <= current as int <= u64::MAX as int,
                0 <= factor as int <= 2 * SCALE as int,
        ;
    }
    let p: u128 = (current as u128) * factor / (SCALE as u128);
    let q: u64 = if p > u64::MAX as u128 {
        u64::MAX
    } else {
        p as u64
    };
    if q < MIN_PRICE {
        MIN_PRICE
    } else {
        q
    }
}

/// Advances a price one simulation step. The move is the sum of a
/// base move of up to two percent either way, a rare larger move, a
/// very rare extreme move, and a slight upward trend bias; the result
/// is floored at [`MIN_PRICE`]. Each call draws fresh randomness and
/// keeps no state: the result is some price explained by a bounded
/// total fractional change, and never below [`MIN_PRICE`].
pub fn simulate_price(current_price: u64) -> (r: u64)
    ensures
        r >= MIN_PRICE,
        exists|t: int|
            -260_000 <= t <= 260_000 && r as int == #[trigger] step_price_spec(
                current_price as int,
                t,
            ),
{
    // Base volatility: a move in [-2%, +2%) of the current price.
    let u0 = rand_range(0, SCALE);
    let base_change: i64 = ((u0 as i64) - (SCALE as i64) / 2) * 4 / 100;

    // Rare larger move: with probability 10%, an extra [3%, 8%) step
    // in a random direction.
    let rare_event: i64 = if rand_range(0, SCALE) < 100_000 {
        let mag = rand_range(30_000, 80_000) as i64;
        if rand_bool() {
            mag
        } else {
            -mag
        }
    } else {
        0
    };

    // Very rare extreme move: with probability 1%, an extra [8%, 15%)
    // step in a random direction.
    let black_swan: i64 = if rand_range(0, SCALE) < 10_000 {
        let mag = rand_range(80_000, 150_000) as i64;
        if rand_bool() {
            mag
        } else {
            -mag
        }
    } else {
        0
    };

    // Trend bias: a move in [-0.48%, +0.52%) of one percent, i.e. a
    // slight expected upward drift.
    let u3 = rand_range(0, SCALE);
    let trend: i64 = ((u3 as i64) - 480_000) / 100;

    let total_change: i64 = base_change + rare_event + black_swan + trend;
    let r = apply_change(current_price, total_change);
    proof {
        let t = total_change as int;
        assert(-260_000 <= t <= 260_000);
        assert(r as int == step_price_spec(current_price as int, t));
    }
    r
}

/// Round trip of the valuation: converting fiat to an asset quantity
/// at a positive price and back again never gains value, and loses
/// less than one price-step of fixed-point truncation — scaled up by
/// `SCALE`, the fiat recovered is within `price + SCALE` of the fiat
/// put in. (Amounts so large that the intermediate product saturates
/// are left out.)
pub proof fn lemma_round_trip(f: u64, p: u64)
    requires
        p > 0,
        (f as int) * (SCALE as int) <= u64::MAX as int,
    ensures
        mul_fp_spec(div_fp_spec(f as int, p as int), p as int) <= f as int,
        (f as int) * (SCALE as int) < mul_fp_spec(div_fp_spec(f as int, p as int), p as int) * (
        SCALE as int) + p as int + SCALE as int,
{
    let fi = f as int;
    let pi = p as int;
    let s = SCALE as int;
    let q = (fi * s) / pi;
    vstd::arithmetic::div_mod::lemma_fundamental_div_mod(fi * s, pi);
    vstd::arithmetic::div_mod::lemma_mod_bound(fi * s, pi);
    assert(fi * s == pi * q + (fi * s) % pi);
    assert(0 <= q) by {
        vstd::arithmetic::div_mod::lemma_div_is_ordered(0, fi * s, pi);
    }
    assert(q * pi <= fi * s) by (nonlinear_arith)
        requires
            fi * s == pi * q + (fi * s) % pi,
            0 <= (fi * s) % pi,
    ;
    assert(div_fp_spec(fi, pi) == q);
    let r0 = (q * pi) / s;
    vstd::arithmetic::div_mod::lemma_fundamental_div_mod(q * pi, s);
    vstd::arithmetic::div_mod::lemma_mod_bound(q * pi, s);
    vstd::arithmetic::div_mod::lemma_div_is_ordered(q * pi, fi * s, s);
    vstd::arithmetic::div_mod::lemma_div_multiples_vanish(fi, s);
    assert((fi * s) / s == fi) by {
        assert(fi * s == s * fi) by (nonlinear_arith);
    }
    assert(r0 <= fi);
    assert(mul_fp_spec(q, pi) == r0);
    // fi * s == pi * q + rem1 < q * pi + pi == r0 * s + rem2 + pi
    //        < r0 * s + s + pi.
    assert(pi * q == q * pi) by (nonlinear_arith);
    assert(fi * s < q * pi + pi);
    assert(q * pi == s * r0 + (q * pi) % s);
    assert(s * r0 == r0 * s) by (nonlinear_arith);
    assert(fi * s < r0 * s + s + pi);
}

} // verus!
