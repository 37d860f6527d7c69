//! Mark-to-market valuation, margin-call arming, and the one-way
//! liquidation flag.  Liquidation is a flag, not a fund seizure: settlement
//! logic downstream must consult it.

use vstd::prelude::*;

use crate::errors::CoffeeError;
use crate::deal::Deal;
use crate::market::{effective_price, effective_price_spec, Market};
use crate::math::bps_mul_u128;
use crate::PROGRAM_VERSION;

verus! {

/// What a mark-to-market pass did.
#[derive(Clone, Copy, Debug, PartialEq, Eq, Structural)]
pub enum MtmOutcome {
    /// Both vaults meet the maintenance requirement; nothing changed.
    Adequate,
    /// A side fell short and no call was active: one was armed at `ts` with
    /// the market's default grace period.
    MarginCalled { ts: i64, grace_sec: u64 },
    /// A side fell short but the active call's grace has not expired.
    InGrace,
    /// A side fell short after the grace expired: the deal was flagged.
    Liquidated { ts: i64 },
}

/// The maintenance requirement at `price`: current notional times the
/// maintenance rate, in basis points and rounded down.
pub open spec fn maintenance_requirement(m: Market, d: Deal, price: u64) -> int {
    (price * d.quantity_kg * m.maintenance_margin_bps) / 10000
}

/// Explicitly (re)arms a margin call with a caller-chosen grace period,
/// overriding any automatic arming.  Administrator-only; rejected once the
/// deal is settled.
pub fn margin_call(
    market: &Market,
    deal: &mut Deal,
    authority: u64,
    grace_sec: u64,
    now_ts: i64,
) -> (r: Result<(), CoffeeError>)
    ensures
        r is Err ==> *final(deal) == *old(deal),
        market.program_version != PROGRAM_VERSION ==> r == Err::<(), CoffeeError>(
            CoffeeError::VersionMismatch,
        ),
        market.program_version == PROGRAM_VERSION && authority != market.authority ==> r == Err::<
            (),
            CoffeeError,
        >(CoffeeError::Unauthorized),
        market.program_version == PROGRAM_VERSION && authority == market.authority && old(
            deal,
        ).settled ==> r == Err::<(), CoffeeError>(CoffeeError::DealAlreadySettled),
        market.program_version == PROGRAM_VERSION && authority == market.authority && !old(
            deal,
        ).settled ==> r is Ok,
        r is Ok ==> *final(deal) == (Deal {
            margin_call_ts: now_ts,
            margin_call_grace_sec: grace_sec,
            ..*old(deal)
        }),
{
    if market.program_version != PROGRAM_VERSION {
        return Err(CoffeeError::VersionMismatch);
    }
    if authority != market.authority {
        return Err(CoffeeError::Unauthorized);
    }
    if deal.settled {
        return Err(CoffeeError::DealAlreadySettled);
    }
    deal.margin_call_ts = now_ts;
    deal.margin_call_grace_sec = grace_sec;
    Ok(())
}

/// Marks the deal to market against the effective price.
///
/// If either vault is below the maintenance requirement: with no call
/// active, one is armed with the market's default grace; with one active
/// whose grace has expired, the deal is flagged liquidated; otherwise the
/// call simply stays in grace.  The comparison `now >= call_ts + grace` is
/// taken over unbounded integers.
pub fn mark_to_market(
    market: &Market,
    deal: &mut Deal,
    farmer_vault: u64,
    buyer_vault: u64,
    now_ts: i64,
) -> (r: Result<MtmOutcome, CoffeeError>)
    requires
        market.wf(),
    ensures
        r is Err ==> *final(deal) == *old(deal),
        market.program_version != PROGRAM_VERSION ==> r == Err::<MtmOutcome, CoffeeError>(
            CoffeeError::VersionMismatch,
        ),
        market.program_version == PROGRAM_VERSION && old(deal).settled ==> r == Err::<
            MtmOutcome,
            CoffeeError,
        >(CoffeeError::DealAlreadySettled),
        market.program_version == PROGRAM_VERSION && !old(deal).settled && effective_price_spec(
            *market,
        ) is Err ==> r == Err::<MtmOutcome, CoffeeError>(CoffeeError::ZeroPrice),
        market.program_version == PROGRAM_VERSION && !old(deal).settled ==> (effective_price_spec(
            *market,
        ) matches Ok(price) ==> {
            let d0 = *old(deal);
            let maint = maintenance_requirement(*market, d0, price);
            &&& price * d0.quantity_kg * market.maintenance_margin_bps > u128::MAX ==> r == Err::<
                MtmOutcome,
                CoffeeError,
            >(CoffeeError::MathOverflow)
            &&& price * d0.quantity_kg * market.maintenance_margin_bps <= u128::MAX && maint
                > u64::MAX ==> r == Err::<MtmOutcome, CoffeeError>(CoffeeError::MathOverflow)
            &&& price * d0.quantity_kg * market.maintenance_margin_bps <= u128::MAX && maint
                <= u64::MAX ==> {
                let short = farmer_vault < maint || buyer_vault < maint;
                &&& !short ==> r == Ok::<MtmOutcome, CoffeeError>(MtmOutcome::Adequate)
                    && *final(deal) == d0
                &&& short && d0.margin_call_ts == 0 ==> r == Ok::<MtmOutcome, CoffeeError>(
                    MtmOutcome::MarginCalled {
                        ts: now_ts,
                        grace_sec: market.default_margin_call_grace_sec,
                    },
                ) && *final(deal) == (Deal {
                    margin_call_ts: now_ts,
                    margin_call_grace_sec: market.default_margin_call_grace_sec,
                    ..d0
                })
                &&& short && d0.margin_call_ts != 0 && now_ts >= d0.margin_call_ts
                    + d0.margin_call_grace_sec ==> r == Ok::<MtmOutcome, CoffeeError>(
                    MtmOutcome::Liquidated { ts: now_ts },
                ) && *final(deal) == (Deal { liquidated: true, ..d0 })
                &&& short && d0.margin_call_ts != 0 && now_ts < d0.margin_call_ts
                    + d0.margin_call_grace_sec ==> r == Ok::<MtmOutcome, CoffeeError>(
                    MtmOutcome::InGrace,
                ) && *final(deal) == d0
            }
        }),
{
    if market.program_version != PROGRAM_VERSION {
        return Err(CoffeeError::VersionMismatch);
    }
    if deal.settled {
        return Err(CoffeeError::DealAlreadySettled);
    }
    let price: u64 = match effective_price(market) {
        Ok(p) => p,
        Err(e) => {
            return Err(e);
        },
    };
    proof {
        vstd::arithmetic::mul::lemma_mul_upper_bound(
            price as int,
            u64::MAX as int,
            deal.quantity_kg as int,
            u64::MAX as int,
        );
    }
    let notional_now: u128 = (price as u128) * (deal.quantity_kg as u128);
    let maint128: u128 = match bps_mul_u128(notional_now, market.maintenance_margin_bps) {
        Ok(v) => v,
        Err(e) => {
            return Err(e);
        },
    };
    if maint128 > u64::MAX as u128 {
        return Err(CoffeeError::MathOverflow);
    }
    let maint: u64 = maint128 as u64;
    let farmer_ok: bool = farmer_vault >= maint;
    let buyer_ok: bool = buyer_vault >= maint;
    if !(farmer_ok && buyer_ok) {
        if deal.margin_call_ts == 0 {
            deal.margin_call_ts = now_ts;
            deal.margin_call_grace_sec = market.default_margin_call_grace_sec;
            return Ok(
                MtmOutcome::MarginCalled {
                    ts: now_ts,
                    grace_sec: market.default_margin_call_grace_sec,
                },
            );
        }
        let grace_end: i128 = (deal.margin_call_ts as i128) + (deal.margin_call_grace_sec as i128);
        if (now_ts as i128) >= grace_end {
            deal.liquidated = true;
            return Ok(MtmOutcome::Liquidated { ts: now_ts });
        }
        return Ok(MtmOutcome::InGrace);
    }
    Ok(MtmOutcome::Adequate)
}

} // verus!
