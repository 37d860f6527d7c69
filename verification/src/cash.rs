//! Cash settlement at or after expiry: the fee waterfall on the agreed
//! notional, the signed PnL payout from the losing vault, and the residual
//! sweep of both vaults, all against running vault balances so no transfer
//! ever exceeds what its source still holds.

use vstd::prelude::*;

use crate::deal::Deal;
use crate::errors::CoffeeError;
use crate::market::{effective_price, effective_price_spec, Market};
use crate::math::{bps_mul_u128, bps_of_u64, min64, min_u64, signed_mul_diff, SignRole};
use crate::PROGRAM_VERSION;

verus! {

/// Every amount a cash settlement moves, each with a fixed route, plus the
/// vault balances left after all of them.
#[derive(Clone, Copy, Debug, PartialEq, Eq, Structural)]
pub struct CashSettlement {
    /// The effective settlement price used.
    pub price: u64,
    /// Farmer vault to fee treasury: the farmer's fee cut plus the protocol
    /// remainder, capped at the vault.
    pub fee_from_farmer: u64,
    /// Buyer vault to fee treasury: the buyer's fee cut, capped.
    pub fee_from_buyer: u64,
    /// Buyer vault to insurance treasury: first slice of the insurance cut.
    pub insurance_from_buyer: u64,
    /// Farmer vault to insurance treasury: the remainder of the insurance
    /// cut, capped.
    pub insurance_from_farmer: u64,
    /// Farmer vault to the buyer's receive account: the buyer's winnings,
    /// capped at what the farmer vault still holds.
    pub pnl_to_buyer: u64,
    /// Buyer vault to the farmer's receive account: the farmer's winnings,
    /// capped likewise.
    pub pnl_to_farmer: u64,
    /// Farmer vault swept to the farmer's receive account when the rest of
    /// the balance is above the dust threshold.
    pub residual_to_farmer: u64,
    /// Buyer vault swept to the buyer's receive account likewise.
    pub residual_to_buyer: u64,
    /// What stays in the farmer vault (only ever dust).
    pub farmer_vault_after: u64,
    /// What stays in the buyer vault (only ever dust).
    pub buyer_vault_after: u64,
}

/// The whole cash settlement as one transition: the guards in the order
/// they are checked, then the fee waterfall, the PnL payout and the
/// residual sweep over running balances.  `f0`, `b0` and `ins0` are the
/// farmer vault, buyer vault and insurance treasury balances at entry.
pub open spec fn settle_cash_spec(
    m: Market,
    d: Deal,
    f0: u64,
    b0: u64,
    ins0: u64,
    now_ts: i64,
) -> Result<CashSettlement, CoffeeError> {
    if m.program_version != PROGRAM_VERSION {
        Err(CoffeeError::VersionMismatch)
    } else if !d.settlement_open() {
        Err(CoffeeError::DealAlreadySettled)
    } else if !(now_ts >= m.settlement_ts || now_ts >= d.deadline_ts) {
        Err(CoffeeError::NotYetSettleTime)
    } else if effective_price_spec(m) is Err {
        Err(effective_price_spec(m)->Err_0)
    } else {
        let price = effective_price_spec(m)->Ok_0;
        let pnl_long = (price - d.agreed_price_per_kg) * d.quantity_kg;
        if pnl_long < i128::MIN || pnl_long > i128::MAX {
            Err(CoffeeError::MathOverflow)
        } else if d.agreed_price_per_kg * d.quantity_kg * m.fee_bps > u128::MAX {
            Err(CoffeeError::MathOverflow)
        } else {
            let fee_total = (d.agreed_price_per_kg * d.quantity_kg * m.fee_bps) / 10000;
            if fee_total > u64::MAX {
                Err(CoffeeError::MathOverflow)
            } else if (fee_total * m.farmer_fee_bps) / 10000 > u64::MAX {
                Err(CoffeeError::MathOverflow)
            } else if (fee_total * m.buyer_fee_bps) / 10000 > u64::MAX {
                Err(CoffeeError::MathOverflow)
            } else if (fee_total * m.insurance_bps) / 10000 > u64::MAX {
                Err(CoffeeError::MathOverflow)
            } else {
                let farmer_cut = ((fee_total * m.farmer_fee_bps) / 10000) as u64;
                let buyer_cut = ((fee_total * m.buyer_fee_bps) / 10000) as u64;
                let insurance_cut = ((fee_total * m.insurance_bps) / 10000) as u64;
                if farmer_cut + buyer_cut + insurance_cut > fee_total {
                    Err(CoffeeError::MathOverflow)
                } else {
                    let protocol_cut = (fee_total - farmer_cut - buyer_cut - insurance_cut) as u64;
                    let farmer_fee = min64(farmer_cut, f0);
                    let buyer_fee = min64(buyer_cut, b0);
                    let ppf = if farmer_fee + protocol_cut > u64::MAX {
                        u64::MAX
                    } else {
                        (farmer_fee + protocol_cut) as u64
                    };
                    let fee_from_farmer = min64(ppf, f0);
                    let f1 = (f0 - fee_from_farmer) as u64;
                    let fee_from_buyer = buyer_fee;
                    let b1 = (b0 - fee_from_buyer) as u64;
                    let insurance_from_buyer = min64(insurance_cut, b1);
                    let b2 = (b1 - insurance_from_buyer) as u64;
                    let remaining_insurance = (insurance_cut - insurance_from_buyer) as u64;
                    let insurance_from_farmer = min64(remaining_insurance, f1);
                    let f2 = (f1 - insurance_from_farmer) as u64;
                    if pnl_long > 0 {
                        if pnl_long > u64::MAX {
                            Err(CoffeeError::MathOverflow)
                        } else {
                            let pnl = pnl_long as u64;
                            let pay = min64(pnl, f2);
                            if pay < pnl && ins0 > 0 {
                                Err(CoffeeError::Unauthorized)
                            } else {
                                Ok(
                                    cash_residual_sweep(
                                        m,
                                        price,
                                        fee_from_farmer,
                                        fee_from_buyer,
                                        insurance_from_buyer,
                                        insurance_from_farmer,
                                        pay,
                                        0,
                                        (f2 - pay) as u64,
                                        b2,
                                    ),
                                )
                            }
                        }
                    } else if pnl_long < 0 {
                        if pnl_long < -u64::MAX {
                            Err(CoffeeError::MathOverflow)
                        } else {
                            let pnl = (-pnl_long) as u64;
                            let pay = min64(pnl, b2);
                            if pay < pnl && ins0 > 0 {
                                Err(CoffeeError::Unauthorized)
                            } else {
                                Ok(
                                    cash_residual_sweep(
                                        m,
                                        price,
                                        fee_from_farmer,
                                        fee_from_buyer,
                                        insurance_from_buyer,
                                        insurance_from_farmer,
                                        0,
                                        pay,
                                        f2,
                                        (b2 - pay) as u64,
                                    ),
                                )
                            }
                        }
                    } else {
                        Ok(
                            cash_residual_sweep(
                                m,
                                price,
                                fee_from_farmer,
                                fee_from_buyer,
                                insurance_from_buyer,
                                insurance_from_farmer,
                                0,
                                0,
                                f2,
                                b2,
                            ),
                        )
                    }
                }
            }
        }
    }
}

/// The final step of a cash settlement: whatever stays in a vault above the
/// market's dust threshold is swept to that side's receive account.
pub open spec fn cash_residual_sweep(
    m: Market,
    price: u64,
    fee_from_farmer: u64,
    fee_from_buyer: u64,
    insurance_from_buyer: u64,
    insurance_from_farmer: u64,
    pnl_to_buyer: u64,
    pnl_to_farmer: u64,
    f: u64,
    b: u64,
) -> CashSettlement {
    CashSettlement {
        price,
        fee_from_farmer,
        fee_from_buyer,
        insurance_from_buyer,
        insurance_from_farmer,
        pnl_to_buyer,
        pnl_to_farmer,
        residual_to_farmer: if f > m.min_transfer_amount {
            f
        } else {
            0
        },
        residual_to_buyer: if b > m.min_transfer_amount {
            b
        } else {
            0
        },
        farmer_vault_after: if f > m.min_transfer_amount {
            0
        } else {
            f
        },
        buyer_vault_after: if b > m.min_transfer_amount {
            0
        } else {
            b
        },
    }
}

/// Conservation: everything a cash settlement pays out of a vault, plus
/// what stays in it, is exactly that vault's balance at entry — so the sum
/// of all transfers never exceeds the two vaults' pre-settlement sum, and
/// no value is created.
pub proof fn lemma_cash_settlement_conserves(
    m: Market,
    d: Deal,
    f0: u64,
    b0: u64,
    ins0: u64,
    now_ts: i64,
)
    requires
        settle_cash_spec(m, d, f0, b0, ins0, now_ts) is Ok,
    ensures
        ({
            let o = settle_cash_spec(m, d, f0, b0, ins0, now_ts)->Ok_0;
            &&& o.fee_from_farmer + o.insurance_from_farmer + o.pnl_to_buyer + o.residual_to_farmer
                + o.farmer_vault_after == f0
            &&& o.fee_from_buyer + o.insurance_from_buyer + o.pnl_to_farmer + o.residual_to_buyer
                + o.buyer_vault_after == b0
            &&& o.fee_from_farmer + o.insurance_from_farmer + o.pnl_to_buyer + o.residual_to_farmer
                + o.fee_from_buyer + o.insurance_from_buyer + o.pnl_to_farmer + o.residual_to_buyer
                <= f0 + b0
        }),
{
}

/// Settles a deal in cash, exactly as `settle_cash_spec` says.
///
/// Gated on the deal being unsettled with no settlement in flight and on
/// the market's settlement time or the deal's deadline having come.  On
/// success the deal reaches its terminal state and the returned record
/// lists every transfer the caller must execute; on any rejection the deal
/// is untouched.  A PnL shortfall against a funded insurance treasury is
/// rejected as unauthorized rather than drawn.
pub fn settle_cash(
    market: &Market,
    deal: &mut Deal,
    farmer_vault: u64,
    buyer_vault: u64,
    insurance_balance: u64,
    now_ts: i64,
) -> (r: Result<CashSettlement, CoffeeError>)
    requires
        market.wf(),
    ensures
        r is Err ==> *final(deal) == *old(deal),
        r matches Err(e) ==> settle_cash_spec(
            *market,
            *old(deal),
            farmer_vault,
            buyer_vault,
            insurance_balance,
            now_ts,
        ) == Err::<CashSettlement, CoffeeError>(e),
        r matches Ok(o) ==> settle_cash_spec(
            *market,
            *old(deal),
            farmer_vault,
            buyer_vault,
            insurance_balance,
            now_ts,
        ) == Ok::<CashSettlement, CoffeeError>(o),
        r is Ok ==> *final(deal) == (Deal { settled: true, settling: false, ..*old(deal) }),
        r matches Ok(o) ==> o.fee_from_farmer + o.insurance_from_farmer + o.pnl_to_buyer
            + o.residual_to_farmer + o.farmer_vault_after == farmer_vault,
        r matches Ok(o) ==> o.fee_from_buyer + o.insurance_from_buyer + o.pnl_to_farmer
            + o.residual_to_buyer + o.buyer_vault_after == buyer_vault,
{
    if market.program_version != PROGRAM_VERSION {
        return Err(CoffeeError::VersionMismatch);
    }
    if deal.settled || deal.settling {
        return Err(CoffeeError::DealAlreadySettled);
    }
    if !(now_ts >= market.settlement_ts || now_ts >= deal.deadline_ts) {
        return Err(CoffeeError::NotYetSettleTime);
    }
    let price: u64 = match effective_price(market) {
        Ok(p) => p,
        Err(e) => {
            return Err(e);
        },
    };
    let pnl_long: i128 = match signed_mul_diff(
        deal.agreed_price_per_kg,
        price,
        deal.quantity_kg,
        SignRole::Long,
    ) {
        Some(v) => v,
        None => {
            return Err(CoffeeError::MathOverflow);
        },
    };
    proof {
        vstd::arithmetic::mul::lemma_mul_upper_bound(
            deal.agreed_price_per_kg as int,
            u64::MAX as int,
            deal.quantity_kg as int,
            u64::MAX as int,
        );
    }
    let notional: u128 = (deal.agreed_price_per_kg as u128) * (deal.quantity_kg as u128);
    let fee_total128: u128 = match bps_mul_u128(notional, market.fee_bps) {
        Ok(v) => v,
        Err(e) => {
            return Err(e);
        },
    };
    if fee_total128 > u64::MAX as u128 {
        return Err(CoffeeError::MathOverflow);
    }
    let fee_total: u64 = fee_total128 as u64;
    let farmer_cut: u64 = match bps_of_u64(fee_total, market.farmer_fee_bps) {
        Ok(v) => v,
        Err(e) => {
            return Err(e);
        },
    };
    let buyer_cut: u64 = match bps_of_u64(fee_total, market.buyer_fee_bps) {
        Ok(v) => v,
        Err(e) => {
            return Err(e);
        },
    };
    let insurance_cut: u64 = match bps_of_u64(fee_total, market.insurance_bps) {
        Ok(v) => v,
        Err(e) => {
            return Err(e);
        },
    };
    let after_farmer: u64 = match fee_total.checked_sub(farmer_cut) {
        Some(v) => v,
        None => {
            return Err(CoffeeError::MathOverflow);
        },
    };
    let after_buyer: u64 = match after_farmer.checked_sub(buyer_cut) {
        Some(v) => v,
        None => {
            return Err(CoffeeError::MathOverflow);
        },
    };
    let protocol_cut: u64 = match after_buyer.checked_sub(insurance_cut) {
        Some(v) => v,
        None => {
            return Err(CoffeeError::MathOverflow);
        },
    };

    let farmer_fee: u64 = min_u64(farmer_cut, farmer_vault);
    let buyer_fee: u64 = min_u64(buyer_cut, buyer_vault);
    let ppf: u64 = farmer_fee.saturating_add(protocol_cut);
    let fee_from_farmer: u64 = min_u64(ppf, farmer_vault);
    let f1: u64 = farmer_vault - fee_from_farmer;
    let fee_from_buyer: u64 = buyer_fee;
    let b1: u64 = buyer_vault - fee_from_buyer;
    let insurance_from_buyer: u64 = min_u64(insurance_cut, b1);
    let b2: u64 = b1 - insurance_from_buyer;
    let remaining_insurance: u64 = insurance_cut - insurance_from_buyer;
    let insurance_from_farmer: u64 = min_u64(remaining_insurance, f1);
    let f2: u64 = f1 - insurance_from_farmer;

    let outcome: CashSettlement;
    if pnl_long > 0 {
        if pnl_long > u64::MAX as i128 {
            return Err(CoffeeError::MathOverflow);
        }
        let pnl: u64 = pnl_long as u64;
        let pay: u64 = min_u64(pnl, f2);
        if pay < pnl && insurance_balance > 0 {
            return Err(CoffeeError::Unauthorized);
        }
        outcome = finish_cash(market, price, fee_from_farmer, fee_from_buyer,
            insurance_from_buyer, insurance_from_farmer, pay, 0, f2 - pay, b2);
    } else if pnl_long < 0 {
        if pnl_long < -(u64::MAX as i128) {
            return Err(CoffeeError::MathOverflow);
        }
        let pnl: u64 = (-pnl_long) as u64;
        let pay: u64 = min_u64(pnl, b2);
        if pay < pnl && insurance_balance > 0 {
            return Err(CoffeeError::Unauthorized);
        }
        outcome = finish_cash(market, price, fee_from_farmer, fee_from_buyer,
            insurance_from_buyer, insurance_from_farmer, 0, pay, f2, b2 - pay);
    } else {
        outcome = finish_cash(market, price, fee_from_farmer, fee_from_buyer,
            insurance_from_buyer, insurance_from_farmer, 0, 0, f2, b2);
    }
    deal.start_settling();
    deal.mark_settled();
    Ok(outcome)
}

/// Builds the settlement record with the residual sweep applied, exactly as
/// `cash_residual_sweep` says.
#[allow(clippy::too_many_arguments)]
fn finish_cash(
    market: &Market,
    price: u64,
    fee_from_farmer: u64,
    fee_from_buyer: u64,
    insurance_from_buyer: u64,
    insurance_from_farmer: u64,
    pnl_to_buyer: u64,
    pnl_to_farmer: u64,
    f: u64,
    b: u64,
) -> (r: CashSettlement)
    ensures
        r == cash_residual_sweep(
            *market,
            price,
            fee_from_farmer,
            fee_from_buyer,
            insurance_from_buyer,
            insurance_from_farmer,
            pnl_to_buyer,
            pnl_to_farmer,
            f,
            b,
        ),
{
    let residual_to_farmer: u64 = if f > market.min_transfer_amount {
        f
    } else {
        0
    };
    let farmer_vault_after: u64 = if f > market.min_transfer_amount {
        0
    } else {
        f
    };
    let residual_to_buyer: u64 = if b > market.min_transfer_amount {
        b
    } else {
        0
    };
    let buyer_vault_after: u64 = if b > market.min_transfer_amount {
        0
    } else {
        b
    };
    CashSettlement {
        price,
        fee_from_farmer,
        fee_from_buyer,
        insurance_from_buyer,
        insurance_from_farmer,
        pnl_to_buyer,
        pnl_to_farmer,
        residual_to_farmer,
        residual_to_buyer,
        farmer_vault_after,
        buyer_vault_after,
    }
}

} // verus!
