//! The market record: one per harvest/contract series, created once by an
//! administrator, mutated only by price publication and role rotation.

use vstd::prelude::*;

use crate::errors::CoffeeError;
use crate::{MIN_TWAP_WINDOW, PROGRAM_VERSION};

verus! {

/// How the effective settlement price is selected.
pub enum PriceMode {
    /// The last published spot price.
    LastPrice,
    /// The time-weighted average over the configured window.
    TWAP,
}

impl PriceMode {
    /// The code stored in `Market::price_mode`.
    pub open spec fn code(self) -> u8 {
        match self {
            PriceMode::LastPrice => 0,
            PriceMode::TWAP => 1,
        }
    }

    /// The code stored in `Market::price_mode`.
    pub fn to_u8(self) -> (r: u8)
        ensures
            r == self.code(),
    {
        match self {
            PriceMode::LastPrice => 0,
            PriceMode::TWAP => 1,
        }
    }
}

/// One contract series: identities, risk and fee parameters, and the oracle
/// price state including the TWAP accumulator.  Principals and asset mints
/// are carried as opaque 64-bit identifiers; resolving them against the
/// hosting ledger is the caller's concern.
#[derive(Clone, Copy, Debug, PartialEq, Eq, Structural)]
pub struct Market {
    pub version: u8,
    pub authority: u64,
    pub verifier: u64,
    pub oracle_publisher: u64,
    /// Pending oracle-publisher rotation; zero means none is pending.
    pub pending_oracle: u64,
    pub pending_oracle_effective_ts: i64,
    pub cft_mint: u64,
    pub quote_mint: u64,
    pub insurance_treasury: u64,
    pub settlement_ts: i64,
    pub contract_size_kg: u64,
    pub initial_margin_bps: u16,
    pub maintenance_margin_bps: u16,
    pub fee_bps: u16,
    pub farmer_fee_bps: u16,
    pub buyer_fee_bps: u16,
    pub insurance_bps: u16,
    pub default_margin_call_grace_sec: u64,
    pub max_notional_per_deal: u64,
    pub max_qty_per_deal: u64,
    pub last_price_per_kg: u64,
    pub prev_price_per_kg: u64,
    pub last_price_nonce: u64,
    pub last_oracle_update_ts: i64,
    pub max_oracle_age_sec: u64,
    /// Sum of price times seconds over the sliding window.
    pub twap_acc: u128,
    /// Sum of seconds over the sliding window.
    pub twap_time_acc: u64,
    pub twap_window_sec: u64,
    pub price_mode: u8,
    pub paused: bool,
    pub min_transfer_amount: u64,
    pub insurance_treasury_authority: u64,
    pub program_version: u8,
}

impl Market {
    /// Well-formedness: the parameter ordering and window floor demanded at
    /// creation, and the accumulator bounds that the TWAP update rule keeps
    /// (the time sum never exceeds the window, and the price-seconds sum
    /// never exceeds the time sum times the largest possible price).
    pub open spec fn wf(self) -> bool {
        &&& self.initial_margin_bps >= self.maintenance_margin_bps
        &&& self.twap_window_sec >= MIN_TWAP_WINDOW
        &&& self.twap_time_acc <= self.twap_window_sec
        &&& self.twap_acc <= self.twap_time_acc * u64::MAX
    }

    /// Runtime check of `wf`, for callers outside verified code.
    pub fn is_well_formed(&self) -> (r: bool)
        ensures
            r == self.wf(),
    {
        proof {
            vstd::arithmetic::mul::lemma_mul_upper_bound(
                self.twap_time_acc as int,
                u64::MAX as int,
                u64::MAX as int,
                u64::MAX as int,
            );
        }
        self.initial_margin_bps >= self.maintenance_margin_bps && self.twap_window_sec
            >= MIN_TWAP_WINDOW && self.twap_time_acc <= self.twap_window_sec && self.twap_acc
            <= (self.twap_time_acc as u128) * (u64::MAX as u128)
    }
}

/// Rejects a market record whose stored schema version disagrees with this
/// engine.
pub fn version_guard_market(market: &Market) -> (r: Result<(), CoffeeError>)
    ensures
        r == if market.program_version == PROGRAM_VERSION {
            Ok::<(), CoffeeError>(())
        } else {
            Err::<(), CoffeeError>(CoffeeError::VersionMismatch)
        },
{
    if market.program_version == PROGRAM_VERSION {
        Ok(())
    } else {
        Err(CoffeeError::VersionMismatch)
    }
}

/// The effective settlement price that `price_mode` selects: mode 1 is the
/// TWAP average (undefined while the time sum is zero), every other mode is
/// the last spot price; a zero price is never returned, only reported as
/// unavailable.
pub open spec fn effective_price_spec(m: Market) -> Result<u64, CoffeeError> {
    if m.price_mode == 1 {
        if m.twap_time_acc == 0 {
            Err(CoffeeError::ZeroPrice)
        } else {
            if m.twap_acc / (m.twap_time_acc as u128) == 0 {
                Err(CoffeeError::ZeroPrice)
            } else {
                Ok((m.twap_acc / (m.twap_time_acc as u128)) as u64)
            }
        }
    } else {
        if m.last_price_per_kg == 0 {
            Err(CoffeeError::ZeroPrice)
        } else {
            Ok(m.last_price_per_kg)
        }
    }
}

/// Under well-formedness the TWAP average fits in 64 bits, so the stored
/// accumulator ratio is returned exactly.
pub proof fn lemma_twap_average_fits(m: Market)
    requires
        m.wf(),
        m.twap_time_acc > 0,
    ensures
        m.twap_acc / (m.twap_time_acc as u128) <= u64::MAX,
{
    assert(m.twap_acc / (m.twap_time_acc as u128) <= u64::MAX) by (nonlinear_arith)
        requires
            m.twap_acc <= m.twap_time_acc * u64::MAX,
            m.twap_time_acc > 0,
    ;
}

/// Selects the effective settlement price as `effective_price_spec` says.
pub fn effective_price(market: &Market) -> (r: Result<u64, CoffeeError>)
    requires
        market.wf(),
    ensures
        r == effective_price_spec(*market),
{
    if market.price_mode == 1 {
        if market.twap_time_acc == 0 {
            Err(CoffeeError::ZeroPrice)
        } else {
            proof {
                lemma_twap_average_fits(*market);
            }
            let avg: u128 = market.twap_acc / (market.twap_time_acc as u128);
            if avg == 0 {
                Err(CoffeeError::ZeroPrice)
            } else {
                Ok(avg as u64)
            }
        }
    } else {
        if market.last_price_per_kg == 0 {
            Err(CoffeeError::ZeroPrice)
        } else {
            Ok(market.last_price_per_kg)
        }
    }
}

/// Creates a market record for one contract series.  The administrator's
/// parameter choices are validated here; account provisioning around the
/// record belongs to the hosting runtime.
#[allow(clippy::too_many_arguments)]
pub fn create_market(
    authority: u64,
    verifier: u64,
    oracle_publisher: u64,
    cft_mint: u64,
    quote_mint: u64,
    insurance_treasury: u64,
    settlement_ts: i64,
    contract_size_kg: u64,
    initial_margin_bps: u16,
    maintenance_margin_bps: u16,
    fee_bps: u16,
    farmer_fee_bps: u16,
    buyer_fee_bps: u16,
    max_notional_per_deal: u64,
    max_qty_per_deal: u64,
    max_oracle_age_sec: u64,
    twap_window_sec: u64,
    insurance_bps: u16,
    min_transfer_amount: u64,
) -> (r: Result<Market, CoffeeError>)
    ensures
        initial_margin_bps < maintenance_margin_bps ==> r == Err::<Market, CoffeeError>(
            CoffeeError::BadMarginParams,
        ),
        initial_margin_bps >= maintenance_margin_bps && contract_size_kg == 0 ==> r == Err::<
            Market,
            CoffeeError,
        >(CoffeeError::ZeroQty),
        initial_margin_bps >= maintenance_margin_bps && contract_size_kg > 0 && twap_window_sec
            < MIN_TWAP_WINDOW ==> r == Err::<Market, CoffeeError>(CoffeeError::InvalidTwapWindow),
        initial_margin_bps >= maintenance_margin_bps && contract_size_kg > 0 && twap_window_sec
            >= MIN_TWAP_WINDOW ==> r == Ok::<Market, CoffeeError>(
            (Market {
                version: PROGRAM_VERSION,
                authority,
                verifier,
                oracle_publisher,
                pending_oracle: 0,
                pending_oracle_effective_ts: 0,
                cft_mint,
                quote_mint,
                insurance_treasury,
                settlement_ts,
                contract_size_kg,
                initial_margin_bps,
                maintenance_margin_bps,
                fee_bps,
                farmer_fee_bps,
                buyer_fee_bps,
                insurance_bps,
                default_margin_call_grace_sec: 0,
                max_notional_per_deal,
                max_qty_per_deal,
                last_price_per_kg: 0,
                prev_price_per_kg: 0,
                last_price_nonce: 0,
                last_oracle_update_ts: 0,
                max_oracle_age_sec,
                twap_acc: 0,
                twap_time_acc: 0,
                twap_window_sec,
                price_mode: 0,
                paused: false,
                min_transfer_amount,
                insurance_treasury_authority: 0,
                program_version: PROGRAM_VERSION,
            }),
        ),
        r matches Ok(m) ==> m.wf(),
{
    if initial_margin_bps < maintenance_margin_bps {
        return Err(CoffeeError::BadMarginParams);
    }
    if contract_size_kg == 0 {
        return Err(CoffeeError::ZeroQty);
    }
    if twap_window_sec < MIN_TWAP_WINDOW {
        return Err(CoffeeError::InvalidTwapWindow);
    }
    Ok(
        Market {
            version: PROGRAM_VERSION,
            authority,
            verifier,
            oracle_publisher,
            pending_oracle: 0,
            pending_oracle_effective_ts: 0,
            cft_mint,
            quote_mint,
            insurance_treasury,
            settlement_ts,
            contract_size_kg,
            initial_margin_bps,
            maintenance_margin_bps,
            fee_bps,
            farmer_fee_bps,
            buyer_fee_bps,
            insurance_bps,
            default_margin_call_grace_sec: 0,
            max_notional_per_deal,
            max_qty_per_deal,
            last_price_per_kg: 0,
            prev_price_per_kg: 0,
            last_price_nonce: 0,
            last_oracle_update_ts: 0,
            max_oracle_age_sec,
            twap_acc: 0,
            twap_time_acc: 0,
            twap_window_sec,
            price_mode: PriceMode::LastPrice.to_u8(),
            paused: false,
            min_transfer_amount,
            insurance_treasury_authority: 0,
            program_version: PROGRAM_VERSION,
        },
    )
}

} // verus!
