use coffee_futures::deal::{open_deal, Deal};
use coffee_futures::errors::CoffeeError;
use coffee_futures::market::Market;
use coffee_futures::merkle::verify_merkle_proof;
use coffee_futures::physical::verify_and_settle_physical;

fn delivery_market() -> Market {
    Market {
        version: 1,
        authority: 11,
        verifier: 12,
        oracle_publisher: 13,
        pending_oracle: 0,
        pending_oracle_effective_ts: 0,
        cft_mint: 21,
        quote_mint: 22,
        insurance_treasury: 23,
        settlement_ts: 0,
        contract_size_kg: 1,
        initial_margin_bps: 500,
        maintenance_margin_bps: 300,
        fee_bps: 100,
        farmer_fee_bps: 2000,
        buyer_fee_bps: 2000,
        insurance_bps: 1000,
        default_margin_call_grace_sec: 600,
        max_notional_per_deal: u64::MAX,
        max_qty_per_deal: u64::MAX,
        last_price_per_kg: 100,
        prev_price_per_kg: 0,
        last_price_nonce: 0,
        last_oracle_update_ts: 0,
        max_oracle_age_sec: 0,
        twap_acc: 0,
        twap_time_acc: 0,
        twap_window_sec: 60,
        price_mode: 0,
        paused: false,
        min_transfer_amount: 10,
        insurance_treasury_authority: 0,
        program_version: 1,
    }
}

fn physical_deal(m: &Market, assets: Vec<u64>, root: Option<[u8; 32]>) -> Deal {
    let qty = assets.len();
    let (deal, _) = open_deal(
        m,
        1,
        101,
        102,
        50,
        1_000,
        true,
        10_000,
        &assets,
        &vec![1; qty],
        root,
        None,
        None,
    )
    .unwrap();
    deal
}

fn keccak_pair(a: &[u8; 32], b: &[u8; 32]) -> [u8; 32] {
    let combined = if a <= b {
        [&a[..], &b[..]].concat()
    } else {
        [&b[..], &a[..]].concat()
    };
    solana_program::keccak::hash(&combined).0
}

#[test]
fn delivery_tranches_accumulate_and_complete() {
    let m = delivery_market();
    let mut d = physical_deal(&m, vec![], None);
    // quantity 1000 at agreed price 50
    let o = verify_and_settle_physical(&m, &mut d, 400, &vec![], None, true, 5_000, 90_000)
        .unwrap();
    assert!(!o.completed);
    assert_eq!(o.payout_to_farmer, 20_000);
    assert_eq!(o.total_delivered, 400);
    assert_eq!(o.minted_cft, 0);
    assert_eq!(o.residual_to_farmer, 0);
    assert_eq!(o.residual_to_buyer, 0);
    assert_eq!(d.delivered_kg_total, 400);
    assert!(!d.settled);
    assert!(!d.settling);

    // delivering exactly the remaining quantity completes the deal
    let o2 = verify_and_settle_physical(&m, &mut d, 600, &vec![], None, true, 5_000, 70_000)
        .unwrap();
    assert!(o2.completed);
    assert_eq!(o2.payout_to_farmer, 30_000);
    assert_eq!(o2.total_delivered, 1_000);
    assert_eq!(o2.residual_to_farmer, 5_000);
    assert_eq!(o2.residual_to_buyer, 40_000);
    assert_eq!(o2.farmer_vault_after, 0);
    assert_eq!(o2.buyer_vault_after, 0);
    assert!(d.settled);
    assert!(!d.settling);
}

#[test]
fn over_delivery_by_one_unit_is_rejected() {
    let m = delivery_market();
    let mut d = physical_deal(&m, vec![], None);
    assert!(
        verify_and_settle_physical(&m, &mut d, 400, &vec![], None, true, 0, 50_000).is_ok()
    );
    let before = d;
    // one unit past the remaining 600 fails and changes nothing
    assert_eq!(
        verify_and_settle_physical(&m, &mut d, 601, &vec![], None, true, 0, 50_000),
        Err(CoffeeError::OverDelivery)
    );
    assert_eq!(d.delivered_kg_total, 400);
    assert_eq!(d, before);
    // exactly the remaining 600 succeeds and completes
    let o = verify_and_settle_physical(&m, &mut d, 600, &vec![], None, true, 0, 50_000).unwrap();
    assert!(o.completed);
    assert!(d.settled);
}

#[test]
fn delivery_certificate_is_minted_when_basket_holds_it() {
    let m = delivery_market();
    // basket includes the market's certificate mint (21)
    let mut d = physical_deal(&m, vec![7, 21], None);
    let o = verify_and_settle_physical(&m, &mut d, 250, &vec![], None, true, 0, 50_000).unwrap();
    assert_eq!(o.minted_cft, 250);
    // a basket without it mints nothing
    let mut d2 = physical_deal(&m, vec![7, 8], None);
    let o2 = verify_and_settle_physical(&m, &mut d2, 250, &vec![], None, true, 0, 50_000).unwrap();
    assert_eq!(o2.minted_cft, 0);
}

#[test]
fn merkle_gated_delivery_demands_valid_proof() {
    let m = delivery_market();
    let leaf: [u8; 32] = [1u8; 32];
    let sibling: [u8; 32] = [2u8; 32];
    let root = keccak_pair(&leaf, &sibling);
    let mut d = physical_deal(&m, vec![], Some(root));

    // no leaf at all
    assert_eq!(
        verify_and_settle_physical(&m, &mut d, 100, &vec![sibling], None, true, 0, 50_000),
        Err(CoffeeError::MerkleProofMissing)
    );
    // a corrupted proof byte fails verification
    let mut bad = sibling;
    bad[0] ^= 1;
    assert_eq!(
        verify_and_settle_physical(&m, &mut d, 100, &vec![bad], Some(leaf), true, 0, 50_000),
        Err(CoffeeError::MerkleProofInvalid)
    );
    assert_eq!(d.delivered_kg_total, 0);
    // the genuine pair passes
    let o = verify_and_settle_physical(
        &m,
        &mut d,
        100,
        &vec![sibling],
        Some(leaf),
        true,
        0,
        50_000,
    )
    .unwrap();
    assert_eq!(o.total_delivered, 100);
}

#[test]
fn delivery_guards_fire_in_order() {
    let m = delivery_market();
    let mut d = physical_deal(&m, vec![], None);
    let mut paused = delivery_market();
    paused.paused = true;
    assert_eq!(
        verify_and_settle_physical(&paused, &mut d, 100, &vec![], None, true, 0, 0),
        Err(CoffeeError::MarketPaused)
    );
    let long_proof: Vec<[u8; 32]> = vec![[0u8; 32]; 17];
    assert_eq!(
        verify_and_settle_physical(&m, &mut d, 100, &long_proof, None, true, 0, 0),
        Err(CoffeeError::ProofTooLarge)
    );
    assert_eq!(
        verify_and_settle_physical(&m, &mut d, 0, &vec![], None, true, 0, 0),
        Err(CoffeeError::ZeroQty)
    );
    assert_eq!(
        verify_and_settle_physical(&m, &mut d, 100, &vec![], None, false, 0, 0),
        Err(CoffeeError::Unauthorized)
    );
}

#[test]
fn longest_accepted_proof_and_zero_root() {
    let m = delivery_market();
    // an all-zero root means no gating at all: no leaf is demanded
    let mut d = physical_deal(&m, vec![], Some([0u8; 32]));
    let proof16: Vec<[u8; 32]> = vec![[4u8; 32]; 16];
    let o = verify_and_settle_physical(&m, &mut d, 100, &proof16, None, true, 0, 50_000)
        .unwrap();
    assert_eq!(o.total_delivered, 100);
}

#[test]
fn merkle_fold_matches_external_hash() {
    // a two-level tree: the library's fold agrees with hashes computed
    // directly against the chain's keccak, and is order-insensitive per pair
    let leaf: [u8; 32] = [9u8; 32];
    let p0: [u8; 32] = [3u8; 32];
    let p1: [u8; 32] = [200u8; 32];
    let root = keccak_pair(&keccak_pair(&leaf, &p0), &p1);
    assert_eq!(verify_merkle_proof(leaf, &vec![p0, p1], root), Ok(true));
    // flipping any single proof byte breaks it
    for i in 0..32 {
        let mut bad = p0;
        bad[i] ^= 0x10;
        assert_eq!(verify_merkle_proof(leaf, &vec![bad, p1], root), Ok(false));
    }
    // an empty proof verifies exactly the root itself
    assert_eq!(verify_merkle_proof(root, &vec![], root), Ok(true));
    assert_eq!(verify_merkle_proof(leaf, &vec![], root), Ok(false));
}
