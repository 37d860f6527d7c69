use coffee_futures::cft::init_cft_mint;
use coffee_futures::deal::{
    assert_is_counterparty, cancel_deal, open_deal, top_up_margin, Counterparty,
};
use coffee_futures::errors::CoffeeError;
use coffee_futures::market::{create_market, Market};
use coffee_futures::math::{abs_i64_to_u64, bps_mul_u128, bps_of_u64, signed_mul_diff, SignRole};
use coffee_futures::rotation::{activate_rotate_oracle, propose_rotate_oracle};

fn series_market() -> Market {
    create_market(
        11, 12, 13, 21, 22, 23, 2_000, 100, 500, 300, 100, 2_000, 2_000, 1_000_000, 5_000, 3_600,
        60, 1_000, 10,
    )
    .unwrap()
}

#[test]
fn create_market_validates_parameters() {
    // initial margin below maintenance margin
    assert_eq!(
        create_market(1, 2, 3, 4, 5, 6, 0, 100, 200, 300, 0, 0, 0, 0, 0, 0, 60, 0, 0),
        Err(CoffeeError::BadMarginParams)
    );
    // zero contract size
    assert_eq!(
        create_market(1, 2, 3, 4, 5, 6, 0, 0, 300, 300, 0, 0, 0, 0, 0, 0, 60, 0, 0),
        Err(CoffeeError::ZeroQty)
    );
    // window below the floor of one second
    assert_eq!(
        create_market(1, 2, 3, 4, 5, 6, 0, 100, 300, 300, 0, 0, 0, 0, 0, 0, 0, 0, 0),
        Err(CoffeeError::InvalidTwapWindow)
    );
    let m = series_market();
    assert_eq!(m.authority, 11);
    assert_eq!(m.oracle_publisher, 13);
    assert_eq!(m.last_price_nonce, 0);
    assert_eq!(m.price_mode, 0);
    assert!(!m.paused);
}

#[test]
fn open_deal_sets_record_and_margin() {
    let m = series_market();
    let (d, margin) = open_deal(
        &m,
        77,
        101,
        102,
        100,
        1_000,
        false,
        9_000,
        &vec![5, 6],
        &vec![40, 60],
        None,
        Some(55),
        Some(250),
    )
    .unwrap();
    // margin: 100 * 1000 * 500 / 10000
    assert_eq!(margin, 5_000);
    assert_eq!(d.market, 77);
    assert_eq!(d.farmer, 101);
    assert_eq!(d.buyer, 102);
    assert_eq!(d.initial_margin_each, 5_000);
    assert!(d.farmer_deposited && d.buyer_deposited);
    assert!(!d.settled && !d.settling && !d.liquidated);
    assert_eq!(d.asset_count, 2);
    assert_eq!(d.assets, [5, 6, 0, 0]);
    assert_eq!(d.asset_qty, [40, 60, 0, 0]);
    assert_eq!(d.referrer, 55);
    assert_eq!(d.fee_split_bps, 250);
    assert_eq!(d.merkle_root, [0u8; 32]);
    assert_eq!(d.delivered_kg_total, 0);
}

#[test]
fn open_deal_rejects_bad_input() {
    let m = series_market();
    let ok_assets: Vec<u64> = vec![];
    assert_eq!(
        open_deal(&m, 1, 101, 102, 0, 10, false, 0, &ok_assets, &ok_assets, None, None, None)
            .unwrap_err(),
        CoffeeError::ZeroPrice
    );
    assert_eq!(
        open_deal(&m, 1, 101, 102, 10, 0, false, 0, &ok_assets, &ok_assets, None, None, None)
            .unwrap_err(),
        CoffeeError::ZeroQty
    );
    assert_eq!(
        open_deal(&m, 1, 101, 102, 10, 10, false, 0, &vec![1], &ok_assets, None, None, None)
            .unwrap_err(),
        CoffeeError::InvalidAssetBasket
    );
    assert_eq!(
        open_deal(
            &m,
            1,
            101,
            102,
            10,
            10,
            false,
            0,
            &vec![1, 2, 3, 4, 5],
            &vec![1, 2, 3, 4, 5],
            None,
            None,
            None
        )
        .unwrap_err(),
        CoffeeError::TooManyAssets
    );
    // per-deal caps: quantity above 5_000, notional above 1_000_000
    assert_eq!(
        open_deal(&m, 1, 101, 102, 10, 5_001, false, 0, &ok_assets, &ok_assets, None, None, None)
            .unwrap_err(),
        CoffeeError::DealQtyExceedsLimit
    );
    assert_eq!(
        open_deal(&m, 1, 101, 102, 300, 5_000, false, 0, &ok_assets, &ok_assets, None, None, None)
            .unwrap_err(),
        CoffeeError::DealNotionalExceedsLimit
    );
    let mut paused = series_market();
    paused.paused = true;
    assert_eq!(
        open_deal(&paused, 1, 101, 102, 10, 10, false, 0, &ok_assets, &ok_assets, None, None, None)
            .unwrap_err(),
        CoffeeError::MarketPaused
    );
}

#[test]
fn basket_at_full_capacity_is_accepted() {
    let m = series_market();
    let (d, _) = open_deal(
        &m,
        1,
        101,
        102,
        100,
        1_000,
        true,
        9_000,
        &vec![31, 32, 33, 34],
        &vec![1, 2, 3, 4],
        None,
        None,
        None,
    )
    .unwrap();
    assert_eq!(d.asset_count, 4);
    assert_eq!(d.assets, [31, 32, 33, 34]);
    assert_eq!(d.asset_qty, [1, 2, 3, 4]);
}

#[test]
fn top_up_goes_to_the_right_vault() {
    let m = series_market();
    let (d, _) = open_deal(
        &m,
        1,
        101,
        102,
        100,
        1_000,
        false,
        9_000,
        &vec![],
        &vec![],
        None,
        None,
        None,
    )
    .unwrap();
    assert_eq!(top_up_margin(&m, &d, 101, 500), Ok(Counterparty::Farmer));
    assert_eq!(top_up_margin(&m, &d, 102, 500), Ok(Counterparty::Buyer));
    assert_eq!(
        top_up_margin(&m, &d, 101, 0),
        Err(CoffeeError::ZeroAmount)
    );
    assert_eq!(
        top_up_margin(&m, &d, 999, 500),
        Err(CoffeeError::InvalidCounterparty)
    );
    assert_eq!(assert_is_counterparty(&d, 102), Ok(()));
    assert_eq!(
        assert_is_counterparty(&d, 999),
        Err(CoffeeError::InvalidCounterparty)
    );
}

#[test]
fn cancel_only_before_both_deposits_and_deadline() {
    let m = series_market();
    let (mut d, _) = open_deal(
        &m,
        1,
        101,
        102,
        100,
        1_000,
        false,
        9_000,
        &vec![],
        &vec![],
        None,
        None,
        None,
    )
    .unwrap();
    // an opened deal has both margins recorded, so it cannot be canceled
    assert_eq!(
        cancel_deal(&m, &mut d, 100, 100, 1),
        Err(CoffeeError::CannotCancelAfterBothDeposited)
    );
    // a deal waiting on one side can, before its deadline
    d.buyer_deposited = false;
    assert_eq!(
        cancel_deal(&m, &mut d, 100, 100, 9_000),
        Err(CoffeeError::DeadlinePassed)
    );
    assert!(!d.settled);
    let o = cancel_deal(&m, &mut d, 300, 400, 8_999).unwrap();
    assert_eq!(o.refund_farmer, 300);
    assert_eq!(o.refund_buyer, 400);
    assert!(d.settled);
}

#[test]
fn rotation_is_timelocked_and_single_shot() {
    let mut m = series_market();
    // only the administrator may propose
    assert_eq!(
        propose_rotate_oracle(&mut m, 99, 40, 5_000),
        Err(CoffeeError::Unauthorized)
    );
    assert_eq!(propose_rotate_oracle(&mut m, 11, 40, 5_000), Ok(()));
    assert_eq!(m.pending_oracle, 40);
    // before the activation time it fails
    assert_eq!(
        activate_rotate_oracle(&mut m, 4_999),
        Err(CoffeeError::RotationNotEffectiveYet)
    );
    assert_eq!(m.oracle_publisher, 13);
    // at the activation time it succeeds exactly once
    assert_eq!(activate_rotate_oracle(&mut m, 5_000), Ok(()));
    assert_eq!(m.oracle_publisher, 40);
    assert_eq!(m.pending_oracle, 0);
    assert_eq!(m.pending_oracle_effective_ts, 0);
    assert_eq!(
        activate_rotate_oracle(&mut m, 6_000),
        Err(CoffeeError::NoPendingRotation)
    );
    // a fresh proposal overwrites and rearms
    assert_eq!(propose_rotate_oracle(&mut m, 11, 41, 0), Ok(()));
    assert_eq!(activate_rotate_oracle(&mut m, 0), Ok(()));
    assert_eq!(m.oracle_publisher, 41);
}

#[test]
fn mint_initialization_checks() {
    assert_eq!(init_cft_mint(3, 3, true, true), Ok(()));
    assert_eq!(
        init_cft_mint(3, 3, false, true),
        Err(CoffeeError::AccountNotRentExempt)
    );
    assert_eq!(
        init_cft_mint(3, 3, true, false),
        Err(CoffeeError::AccountNotRentExempt)
    );
    assert_eq!(
        init_cft_mint(3, 6, true, true),
        Err(CoffeeError::MintDecimalsMismatch)
    );
}

#[test]
fn basis_point_helpers_compute_exact_slices() {
    assert_eq!(bps_mul_u128(100_000, 100), Ok(1_000));
    assert_eq!(bps_mul_u128(0, 10_000), Ok(0));
    assert_eq!(bps_mul_u128(u128::MAX, 2), Err(CoffeeError::MathOverflow));
    assert_eq!(bps_of_u64(10_000, 2_500), Ok(2_500));
    assert_eq!(bps_of_u64(33, 3_333), Ok(10));
    // a rate above 10000 bps can push the slice out of 64 bits
    assert_eq!(bps_of_u64(u64::MAX, 20_000), Err(CoffeeError::MathOverflow));
    assert_eq!(signed_mul_diff(100, 120, 50, SignRole::Long), Some(1_000));
    assert_eq!(signed_mul_diff(100, 120, 50, SignRole::Short), Some(-1_000));
    assert_eq!(signed_mul_diff(120, 100, 50, SignRole::Long), Some(-1_000));
    assert_eq!(
        signed_mul_diff(u64::MAX, 0, u64::MAX, SignRole::Long),
        None
    );
    assert_eq!(abs_i64_to_u64(-5), 5);
    assert_eq!(abs_i64_to_u64(7), 7);
}
