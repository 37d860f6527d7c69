use coffee_futures::cash::settle_cash;
use coffee_futures::deal::{cancel_deal, close_deal, open_deal, Deal};
use coffee_futures::errors::CoffeeError;
use coffee_futures::margin::{margin_call, mark_to_market, MtmOutcome};
use coffee_futures::market::Market;

fn fee_market() -> Market {
    Market {
        version: 1,
        authority: 11,
        verifier: 12,
        oracle_publisher: 13,
        pending_oracle: 0,
        pending_oracle_effective_ts: 0,
        cft_mint: 21,
        quote_mint: 22,
        insurance_treasury: 23,
        settlement_ts: 0,
        contract_size_kg: 1,
        initial_margin_bps: 500,
        maintenance_margin_bps: 300,
        fee_bps: 100,
        farmer_fee_bps: 2000,
        buyer_fee_bps: 2000,
        insurance_bps: 1000,
        default_margin_call_grace_sec: 600,
        max_notional_per_deal: u64::MAX,
        max_qty_per_deal: u64::MAX,
        last_price_per_kg: 120,
        prev_price_per_kg: 0,
        last_price_nonce: 0,
        last_oracle_update_ts: 0,
        max_oracle_age_sec: 0,
        twap_acc: 0,
        twap_time_acc: 0,
        twap_window_sec: 60,
        price_mode: 0,
        paused: false,
        min_transfer_amount: 10,
        insurance_treasury_authority: 0,
        program_version: 1,
    }
}

fn open_test_deal(m: &Market, agreed: u64, qty: u64) -> Deal {
    let (deal, margin_each) = open_deal(
        m,
        1,
        101,
        102,
        agreed,
        qty,
        false,
        10_000,
        &vec![],
        &vec![],
        None,
        None,
        None,
    )
    .unwrap();
    // initial margin: notional * initial_margin_bps / 10000
    assert_eq!(
        margin_each as u128,
        (agreed as u128) * (qty as u128) * 500 / 10_000
    );
    deal
}

#[test]
fn cash_settlement_fee_waterfall_exact() {
    let m = fee_market();
    let mut d = open_test_deal(&m, 100, 1000);
    // notional 100_000, fee 1%: 1000; cuts 200/200/100; protocol 500
    // price 120 vs agreed 100 over 1000 kg: buyer wins 20_000
    let o = settle_cash(&m, &mut d, 30_000, 5_000, 0, 1).unwrap();
    assert_eq!(o.price, 120);
    assert_eq!(o.fee_from_farmer, 700); // farmer cut 200 + protocol 500
    assert_eq!(o.fee_from_buyer, 200);
    assert_eq!(o.insurance_from_buyer, 100);
    assert_eq!(o.insurance_from_farmer, 0);
    assert_eq!(o.pnl_to_buyer, 20_000);
    assert_eq!(o.pnl_to_farmer, 0);
    assert_eq!(o.residual_to_farmer, 9_300);
    assert_eq!(o.residual_to_buyer, 4_700);
    assert_eq!(o.farmer_vault_after, 0);
    assert_eq!(o.buyer_vault_after, 0);
    assert!(d.settled);
    assert!(!d.settling);
}

#[test]
fn cash_settlement_conserves_value() {
    let m = fee_market();
    let mut d = open_test_deal(&m, 100, 1000);
    let f0 = 7_321u64;
    let b0 = 25_000u64;
    let o = settle_cash(&m, &mut d, f0, b0, 0, 1).unwrap();
    // every outflow of a vault plus what stays equals that vault's start
    assert_eq!(
        o.fee_from_farmer + o.insurance_from_farmer + o.pnl_to_buyer + o.residual_to_farmer
            + o.farmer_vault_after,
        f0
    );
    assert_eq!(
        o.fee_from_buyer + o.insurance_from_buyer + o.pnl_to_farmer + o.residual_to_buyer
            + o.buyer_vault_after,
        b0
    );
}

#[test]
fn cash_settlement_farmer_wins_from_buyer_vault() {
    let mut m = fee_market();
    m.last_price_per_kg = 90; // below agreed 100: farmer wins 10 * 1000
    let mut d = open_test_deal(&m, 100, 1000);
    let o = settle_cash(&m, &mut d, 6_000, 30_000, 0, 1).unwrap();
    assert_eq!(o.pnl_to_buyer, 0);
    assert_eq!(o.pnl_to_farmer, 10_000);
}

#[test]
fn cash_settlement_shortfall_against_funded_insurance_is_rejected() {
    let m = fee_market();
    // buyer wins 20_000 but the farmer vault cannot cover it
    let mut d = open_test_deal(&m, 100, 1000);
    let before = d;
    assert_eq!(
        settle_cash(&m, &mut d, 500, 5_000, 50, 1),
        Err(CoffeeError::Unauthorized)
    );
    assert_eq!(d, before);
    // with an empty insurance treasury the capped payout goes through
    let o = settle_cash(&m, &mut d, 500, 5_000, 0, 1).unwrap();
    assert_eq!(o.fee_from_farmer, 500); // capped at the vault
    assert_eq!(o.pnl_to_buyer, 0); // nothing left to pay
    assert!(d.settled);
}

#[test]
fn cash_settlement_gates() {
    let m = fee_market();
    let mut d = open_test_deal(&m, 100, 1000);
    // neither settlement time nor deadline reached
    let mut early = fee_market();
    early.settlement_ts = 50_000;
    assert_eq!(
        settle_cash(&early, &mut d, 1, 1, 0, 100),
        Err(CoffeeError::NotYetSettleTime)
    );
    // past the deal deadline the fallback applies even before settlement_ts
    assert!(settle_cash(&early, &mut d, 1, 1, 0, 10_000).is_ok());
    // no usable price
    let mut priceless = fee_market();
    priceless.last_price_per_kg = 0;
    let mut d2 = open_test_deal(&m, 100, 1000);
    assert_eq!(
        settle_cash(&priceless, &mut d2, 1, 1, 0, 1),
        Err(CoffeeError::ZeroPrice)
    );
    // wrong schema version
    let mut stale = fee_market();
    stale.program_version = 9;
    assert_eq!(
        settle_cash(&stale, &mut d2, 1, 1, 0, 1),
        Err(CoffeeError::VersionMismatch)
    );
}

#[test]
fn settled_deal_refuses_every_lifecycle_operation() {
    let m = fee_market();
    let mut d = open_test_deal(&m, 100, 1000);
    assert_eq!(close_deal(&m, &d), Err(CoffeeError::DealNotSettled));
    assert!(settle_cash(&m, &mut d, 100, 100, 0, 1).is_ok());
    assert!(d.settled);
    // once settled, settlement, cancellation and margin operations all fail
    assert_eq!(
        settle_cash(&m, &mut d, 100, 100, 0, 1),
        Err(CoffeeError::DealAlreadySettled)
    );
    assert_eq!(
        cancel_deal(&m, &mut d, 100, 100, 1),
        Err(CoffeeError::DealAlreadySettled)
    );
    assert_eq!(
        margin_call(&m, &mut d, 11, 60, 1),
        Err(CoffeeError::DealAlreadySettled)
    );
    assert_eq!(
        mark_to_market(&m, &mut d, 100, 100, 1),
        Err(CoffeeError::DealAlreadySettled)
    );
    // and closing succeeds exactly now
    assert_eq!(close_deal(&m, &d), Ok(()));
}

#[test]
fn mark_to_market_arms_then_liquidates() {
    let m = fee_market();
    let mut d = open_test_deal(&m, 100, 1000);
    // maintenance: 120 * 1000 * 300 / 10000 = 3600
    // both vaults adequate: nothing happens
    assert_eq!(
        mark_to_market(&m, &mut d, 4_000, 4_000, 50),
        Ok(MtmOutcome::Adequate)
    );
    assert_eq!(d.margin_call_ts, 0);
    // farmer short: a call is armed with the default grace
    assert_eq!(
        mark_to_market(&m, &mut d, 3_599, 4_000, 50),
        Ok(MtmOutcome::MarginCalled {
            ts: 50,
            grace_sec: 600
        })
    );
    assert_eq!(d.margin_call_ts, 50);
    assert_eq!(d.margin_call_grace_sec, 600);
    // still short inside the grace window: no transition
    assert_eq!(
        mark_to_market(&m, &mut d, 3_599, 4_000, 649),
        Ok(MtmOutcome::InGrace)
    );
    assert!(!d.liquidated);
    // short at the end of grace: flagged
    assert_eq!(
        mark_to_market(&m, &mut d, 3_599, 4_000, 650),
        Ok(MtmOutcome::Liquidated { ts: 650 })
    );
    assert!(d.liquidated);
}

#[test]
fn margin_call_is_administrator_only() {
    let m = fee_market();
    let mut d = open_test_deal(&m, 100, 1000);
    assert_eq!(
        margin_call(&m, &mut d, 99, 120, 40),
        Err(CoffeeError::Unauthorized)
    );
    assert_eq!(margin_call(&m, &mut d, 11, 120, 40), Ok(()));
    assert_eq!(d.margin_call_ts, 40);
    assert_eq!(d.margin_call_grace_sec, 120);
}
