//! Oracle price ingestion: nonce replay protection, staleness and price-band
//! checks, and the time-weighted-average accumulator.
//!
//! The TWAP is a sliding-window approximation: elapsed seconds are credited
//! to the previous price, and once the accumulated time exceeds the window
//! both accumulators are rescaled proportionally so the time sum is clamped
//! back to the window.  The rescale is a deliberate approximation with known
//! drift under irregular publish intervals; its exact arithmetic is part of
//! the contract.

use vstd::arithmetic::div_mod::lemma_multiply_divide_le;
use vstd::arithmetic::mul::{lemma_mul_inequality, lemma_mul_is_distributive_add_other_way};
use vstd::prelude::*;

use crate::errors::CoffeeError;
use crate::market::Market;
use crate::math::{abs_i64_to_u64, min_u64};
use crate::PROGRAM_VERSION;

verus! {

/// The price-band cap applied to every publication, in basis points.
pub const PRICE_BAND_CAP_BPS: u128 = 2500;

/// A new price is inside the band when its relative distance from the
/// previous price, in basis points and rounded down, is at most the cap.  A
/// zero previous price disables the check.
pub open spec fn price_band_ok(prev: u64, next: u64, max_delta_bps: u128) -> bool {
    prev == 0 || {
        let delta = if next >= prev {
            next - prev
        } else {
            prev - next
        };
        delta * 10000 / (prev as int) <= max_delta_bps
    }
}

/// Checks the price band: accepts exactly when `price_band_ok` holds.
pub fn is_price_band_ok(prev: u64, next: u64, max_delta_bps: u128) -> (r: Result<(), CoffeeError>)
    ensures
        r == if price_band_ok(prev, next, max_delta_bps) {
            Ok::<(), CoffeeError>(())
        } else {
            Err::<(), CoffeeError>(CoffeeError::OraclePriceBandExceeded)
        },
{
    if prev == 0 {
        return Ok(());
    }
    let prev_u: u128 = prev as u128;
    let next_u: u128 = next as u128;
    let delta: u128 = if next_u >= prev_u {
        next_u - prev_u
    } else {
        prev_u - next_u
    };
    let delta_bps: u128 = (delta * 10000) / prev_u;
    if delta_bps <= max_delta_bps {
        Ok(())
    } else {
        Err(CoffeeError::OraclePriceBandExceeded)
    }
}

/// One step of the TWAP accumulator at time `now_ts`, before the new price
/// is recorded.  A first-ever update only sets the timestamp; a zero or
/// negative elapsed time contributes nothing; otherwise the previous price
/// is credited for the elapsed seconds, capped at the window, and the
/// accumulators are rescaled whenever the time sum would exceed the window.
pub open spec fn twap_step(m: Market, now_ts: i64) -> Result<Market, CoffeeError> {
    if m.last_oracle_update_ts == 0 {
        Ok(Market { last_oracle_update_ts: now_ts, ..m })
    } else if now_ts - m.last_oracle_update_ts > i64::MAX || now_ts - m.last_oracle_update_ts
        < i64::MIN {
        Err(CoffeeError::MathOverflow)
    } else if now_ts - m.last_oracle_update_ts <= 0 {
        Ok(Market { last_oracle_update_ts: now_ts, ..m })
    } else {
        let dt = now_ts - m.last_oracle_update_ts;
        let add = if dt <= m.twap_window_sec {
            dt
        } else {
            m.twap_window_sec as int
        };
        let acc1 = m.twap_acc + m.last_price_per_kg * add;
        let time1 = m.twap_time_acc + add;
        if acc1 > u128::MAX {
            Err(CoffeeError::MathOverflow)
        } else if time1 > u64::MAX {
            Err(CoffeeError::MathOverflow)
        } else if time1 > m.twap_window_sec {
            if acc1 * m.twap_window_sec > u128::MAX {
                Err(CoffeeError::MathOverflow)
            } else {
                Ok(
                    Market {
                        twap_acc: ((acc1 * m.twap_window_sec) / time1) as u128,
                        twap_time_acc: m.twap_window_sec,
                        last_oracle_update_ts: now_ts,
                        ..m
                    },
                )
            }
        } else {
            Ok(
                Market {
                    twap_acc: acc1 as u128,
                    twap_time_acc: time1 as u64,
                    last_oracle_update_ts: now_ts,
                    ..m
                },
            )
        }
    }
}

/// An update at the very timestamp of the previous one changes nothing: the
/// TWAP accumulation is idempotent under zero elapsed time.
pub proof fn lemma_twap_zero_elapsed(m: Market)
    ensures
        twap_step(m, m.last_oracle_update_ts) == Ok::<Market, CoffeeError>(m),
{
}

/// The TWAP step keeps the market well-formed: the time sum stays within the
/// window and the price-seconds sum within the time sum times the largest
/// price.
pub proof fn lemma_twap_step_preserves_wf(m: Market, now_ts: i64)
    requires
        m.wf(),
        twap_step(m, now_ts) is Ok,
    ensures
        twap_step(m, now_ts)->Ok_0.wf(),
{
    if m.last_oracle_update_ts == 0 || now_ts - m.last_oracle_update_ts <= 0 {
    } else {
        let dt = now_ts - m.last_oracle_update_ts;
        let add = if dt <= m.twap_window_sec {
            dt
        } else {
            m.twap_window_sec as int
        };
        let p = m.last_price_per_kg as int;
        let top = u64::MAX as int;
        let acc1 = m.twap_acc + p * add;
        let time1 = m.twap_time_acc + add;
        lemma_mul_inequality(p, top, add);
        lemma_mul_is_distributive_add_other_way(top, m.twap_time_acc as int, add);
        assert(acc1 <= time1 * top) by {
            assert(m.twap_time_acc * top + top * add == (m.twap_time_acc + add) * top)
                by (nonlinear_arith);
        }
        if time1 > m.twap_window_sec {
            let w = m.twap_window_sec as int;
            assert(acc1 * w <= (time1 * top) * w) by (nonlinear_arith)
                requires
                    acc1 <= time1 * top,
                    w >= 0,
            ;
            assert((time1 * top) * w == time1 * (top * w)) by (nonlinear_arith);
            lemma_multiply_divide_le(acc1 * w, time1, top * w);
            assert((acc1 * w) / time1 <= top * w);
            lemma_mul_inequality(m.twap_window_sec as int, m.twap_window_sec as int, top);
        }
    }
}

/// Advances the TWAP accumulators exactly as `twap_step` says, leaving the
/// market untouched when the step reports an overflow.
pub fn update_twap(market: &mut Market, now_ts: i64) -> (r: Result<(), CoffeeError>)
    ensures
        r is Ok ==> twap_step(*old(market), now_ts) == Ok::<Market, CoffeeError>(*final(market)),
        r matches Err(e) ==> twap_step(*old(market), now_ts) == Err::<Market, CoffeeError>(e)
            && *final(market) == *old(market),
{
    if market.last_oracle_update_ts == 0 {
        market.last_oracle_update_ts = now_ts;
        return Ok(());
    }
    let dt_i64: i64 = match now_ts.checked_sub(market.last_oracle_update_ts) {
        Some(d) => d,
        None => {
            return Err(CoffeeError::MathOverflow);
        },
    };
    if dt_i64 <= 0 {
        market.last_oracle_update_ts = now_ts;
        return Ok(());
    }
    let add: u64 = min_u64(dt_i64 as u64, market.twap_window_sec);
    proof {
        lemma_mul_inequality(market.last_price_per_kg as int, u64::MAX as int, add as int);
        lemma_mul_inequality(u64::MAX as int, u64::MAX as int, add as int);
        lemma_mul_inequality(add as int, u64::MAX as int, u64::MAX as int);
    }
    let add_val: u128 = (market.last_price_per_kg as u128) * (add as u128);
    let acc1: u128 = match market.twap_acc.checked_add(add_val) {
        Some(v) => v,
        None => {
            return Err(CoffeeError::MathOverflow);
        },
    };
    let time1: u64 = match market.twap_time_acc.checked_add(add) {
        Some(v) => v,
        None => {
            return Err(CoffeeError::MathOverflow);
        },
    };
    if time1 > market.twap_window_sec {
        let scaled: u128 = match acc1.checked_mul(market.twap_window_sec as u128) {
            Some(v) => v,
            None => {
                return Err(CoffeeError::MathOverflow);
            },
        };
        market.twap_acc = scaled / (time1 as u128);
        market.twap_time_acc = market.twap_window_sec;
    } else {
        market.twap_acc = acc1;
        market.twap_time_acc = time1;
    }
    market.last_oracle_update_ts = now_ts;
    Ok(())
}

/// A publication is stale when a prior update exists, a maximum age is
/// configured, and the elapsed wall-clock distance exceeds that age.
pub open spec fn oracle_stale(m: Market, now_ts: i64) -> bool {
    m.last_oracle_update_ts > 0 && m.max_oracle_age_sec > 0 && vstd::math::abs(
        now_ts - m.last_oracle_update_ts,
    ) > m.max_oracle_age_sec
}

/// Every guard a publication must pass, given that the record version and
/// the publisher's authorization already held.
pub open spec fn publish_accepted(m: Market, price_per_kg: u64, nonce: u64, now_ts: i64) -> bool {
    &&& nonce > m.last_price_nonce
    &&& price_per_kg > 0
    &&& !oracle_stale(m, now_ts)
    &&& (m.prev_price_per_kg > 0 ==> price_band_ok(m.prev_price_per_kg, price_per_kg,
    PRICE_BAND_CAP_BPS))
    &&& twap_step(m, now_ts) is Ok
}

/// Ingests one publisher-submitted price at time `now_ts`.
///
/// `oracle_authorized` is the identity collaborator's verdict on whether
/// the signer holds the oracle-publisher role for this market; a false
/// verdict is refused as unauthorized.
/// The nonce must strictly exceed the last accepted one; the price must be
/// positive, fresh and inside the band against the previous price.  The
/// TWAP accumulators are advanced with the *previous* price before the new
/// one is recorded.  On any rejection the market is left untouched, and the
/// error says which guard failed, in the order the guards are checked.
pub fn publish_price(
    market: &mut Market,
    price_per_kg: u64,
    nonce: u64,
    oracle_authorized: bool,
    now_ts: i64,
) -> (r: Result<(), CoffeeError>)
    ensures
        r is Err ==> *final(market) == *old(market),
        old(market).program_version != PROGRAM_VERSION ==> r == Err::<(), CoffeeError>(
            CoffeeError::VersionMismatch,
        ),
        old(market).program_version == PROGRAM_VERSION && !oracle_authorized ==> r == Err::<
            (),
            CoffeeError,
        >(CoffeeError::Unauthorized),
        old(market).program_version == PROGRAM_VERSION && oracle_authorized ==> {
            let m0 = *old(market);
            &&& nonce <= m0.last_price_nonce ==> r == Err::<(), CoffeeError>(
                CoffeeError::ReplayOrStaleNonce,
            )
            &&& nonce > m0.last_price_nonce && price_per_kg == 0 ==> r == Err::<(), CoffeeError>(
                CoffeeError::ZeroPrice,
            )
            &&& nonce > m0.last_price_nonce && price_per_kg > 0 && oracle_stale(m0, now_ts) ==> r
                == Err::<(), CoffeeError>(CoffeeError::OracleStale)
            &&& nonce > m0.last_price_nonce && price_per_kg > 0 && !oracle_stale(m0, now_ts)
                && m0.prev_price_per_kg > 0 && !price_band_ok(
                m0.prev_price_per_kg,
                price_per_kg,
                PRICE_BAND_CAP_BPS,
            ) ==> r == Err::<(), CoffeeError>(CoffeeError::OraclePriceBandExceeded)
            &&& nonce > m0.last_price_nonce && price_per_kg > 0 && !oracle_stale(m0, now_ts) && (
            m0.prev_price_per_kg > 0 ==> price_band_ok(
                m0.prev_price_per_kg,
                price_per_kg,
                PRICE_BAND_CAP_BPS,
            )) && twap_step(m0, now_ts) is Err ==> r == Err::<(), CoffeeError>(
                twap_step(m0, now_ts)->Err_0,
            )
            &&& publish_accepted(m0, price_per_kg, nonce, now_ts) ==> r is Ok
        },
        r is Ok ==> *final(market) == (Market {
            prev_price_per_kg: old(market).last_price_per_kg,
            last_price_per_kg: price_per_kg,
            last_oracle_update_ts: now_ts,
            last_price_nonce: nonce,
            ..twap_step(*old(market), now_ts)->Ok_0
        }),
        r is Ok && old(market).last_oracle_update_ts == now_ts ==> final(market).twap_acc == old(
            market,
        ).twap_acc && final(market).twap_time_acc == old(market).twap_time_acc,
        r is Ok && old(market).wf() ==> final(market).wf(),
{
    if market.program_version != PROGRAM_VERSION {
        return Err(CoffeeError::VersionMismatch);
    }
    if !oracle_authorized {
        return Err(CoffeeError::Unauthorized);
    }
    if nonce <= market.last_price_nonce {
        return Err(CoffeeError::ReplayOrStaleNonce);
    }
    if price_per_kg == 0 {
        return Err(CoffeeError::ZeroPrice);
    }
    if market.last_oracle_update_ts > 0 && market.max_oracle_age_sec > 0 {
        let last: i64 = market.last_oracle_update_ts;
        let age_u64: u64 = if now_ts >= last {
            abs_i64_to_u64(now_ts - last)
        } else {
            ((last as i128) - (now_ts as i128)) as u64
        };
        if age_u64 > market.max_oracle_age_sec {
            return Err(CoffeeError::OracleStale);
        }
    }
    if market.prev_price_per_kg > 0 {
        match is_price_band_ok(market.prev_price_per_kg, price_per_kg, PRICE_BAND_CAP_BPS) {
            Ok(()) => {},
            Err(e) => {
                return Err(e);
            },
        }
    }
    proof {
        if old(market).wf() && twap_step(*old(market), now_ts) is Ok {
            lemma_twap_step_preserves_wf(*old(market), now_ts);
        }
    }
    match update_twap(market, now_ts) {
        Ok(()) => {},
        Err(e) => {
            return Err(e);
        },
    }
    market.prev_price_per_kg = market.last_price_per_kg;
    market.last_price_per_kg = price_per_kg;
    market.last_oracle_update_ts = now_ts;
    market.last_price_nonce = nonce;
    Ok(())
}

} // verus!
