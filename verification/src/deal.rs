//! The deal record: one bilateral forward contract between a farmer (short)
//! and a buyer (long), opened under a market, mutated by margin events and
//! settlement, and terminated by the monotonic `settled` flag.

use vstd::prelude::*;

use crate::errors::CoffeeError;
use crate::market::Market;
use crate::{MAX_ASSETS, PROGRAM_VERSION};

verus! {

broadcast use vstd::array::group_array_axioms;

/// One bilateral forward contract.  Identities are opaque 64-bit ids; the
/// all-zero Merkle root means delivery proofs are not gated.
#[derive(Clone, Copy, Debug, PartialEq, Eq)]
pub struct Deal {
    pub version: u8,
    /// Foreign key of the market this deal was opened under.
    pub market: u64,
    pub farmer: u64,
    pub buyer: u64,
    pub agreed_price_per_kg: u64,
    pub quantity_kg: u64,
    pub initial_margin_each: u64,
    pub physical_delivery: bool,
    pub delivered_kg_total: u64,
    pub liquidated: bool,
    /// Terminal flag; never reset once set.
    pub settled: bool,
    /// Reentrancy guard: true only while a settlement operation is in
    /// flight.  An operation that observes it refuses to enter.
    pub settling: bool,
    pub farmer_deposited: bool,
    pub buyer_deposited: bool,
    pub deadline_ts: i64,
    pub margin_call_ts: i64,
    pub margin_call_grace_sec: u64,
    /// Optional referrer id; zero means none.
    pub referrer: u64,
    pub fee_split_bps: u16,
    pub asset_count: u8,
    pub assets: [u64; MAX_ASSETS],
    pub asset_qty: [u64; MAX_ASSETS],
    pub merkle_root: [u8; 32],
}

/// The root value that disables Merkle gating: 32 zero bytes.
pub open spec fn empty_root() -> Seq<u8> {
    Seq::new(32, |i: int| 0u8)
}

impl Deal {
    /// Well-formedness: the delivered total never exceeds the quantity and
    /// the basket length never exceeds its fixed capacity.
    pub open spec fn wf(self) -> bool {
        &&& self.delivered_kg_total <= self.quantity_kg
        &&& self.asset_count <= MAX_ASSETS
    }

    /// Runtime check of `wf`, for callers outside verified code.
    pub fn is_well_formed(&self) -> (r: bool)
        ensures
            r == self.wf(),
    {
        self.delivered_kg_total <= self.quantity_kg && (self.asset_count as usize) <= MAX_ASSETS
    }

    /// A settlement operation may enter only from the idle, unsettled state.
    pub open spec fn settlement_open(self) -> bool {
        !self.settled && !self.settling
    }

    /// The terminal transition: settled, guard cleared.
    pub fn mark_settled(&mut self)
        ensures
            *final(self) == (Deal { settled: true, settling: false, ..*old(self) }),
    {
        self.settled = true;
        self.settling = false;
    }

    /// Arms the reentrancy guard.
    pub fn start_settling(&mut self)
        ensures
            *final(self) == (Deal { settling: true, ..*old(self) }),
    {
        self.settling = true;
    }
}

/// Accepts exactly the two named counterparties of the deal.
pub fn assert_is_counterparty(deal: &Deal, signer: u64) -> (r: Result<(), CoffeeError>)
    ensures
        r == if signer == deal.farmer || signer == deal.buyer {
            Ok::<(), CoffeeError>(())
        } else {
            Err::<(), CoffeeError>(CoffeeError::InvalidCounterparty)
        },
{
    if signer == deal.farmer || signer == deal.buyer {
        Ok(())
    } else {
        Err(CoffeeError::InvalidCounterparty)
    }
}

/// The guards a new deal must pass, in the order they are checked, and the
/// two points where the initial-margin arithmetic can leave its range.
pub open spec fn open_deal_checks(
    m: Market,
    agreed_price_per_kg: u64,
    quantity_kg: u64,
    n_assets: nat,
    n_qty: nat,
) -> Result<(), CoffeeError> {
    if m.program_version != PROGRAM_VERSION {
        Err(CoffeeError::VersionMismatch)
    } else if m.paused {
        Err(CoffeeError::MarketPaused)
    } else if agreed_price_per_kg == 0 {
        Err(CoffeeError::ZeroPrice)
    } else if quantity_kg == 0 {
        Err(CoffeeError::ZeroQty)
    } else if n_assets != n_qty {
        Err(CoffeeError::InvalidAssetBasket)
    } else if n_assets > MAX_ASSETS {
        Err(CoffeeError::TooManyAssets)
    } else if quantity_kg > m.max_qty_per_deal {
        Err(CoffeeError::DealQtyExceedsLimit)
    } else if agreed_price_per_kg * quantity_kg > m.max_notional_per_deal {
        Err(CoffeeError::DealNotionalExceedsLimit)
    } else if agreed_price_per_kg * quantity_kg * m.initial_margin_bps > u128::MAX {
        Err(CoffeeError::MathOverflow)
    } else if (agreed_price_per_kg * quantity_kg * m.initial_margin_bps) / 10000 > u64::MAX {
        Err(CoffeeError::MathOverflow)
    } else {
        Ok(())
    }
}

/// The initial margin each side posts: the notional times the initial
/// margin rate, in basis points and rounded down.
pub open spec fn initial_margin_of(m: Market, agreed_price_per_kg: u64, quantity_kg: u64) -> int {
    (agreed_price_per_kg * quantity_kg * m.initial_margin_bps) / 10000
}

/// Opens a bilateral deal under `market`.  On success the returned record
/// has both margins recorded as deposited and the second component says how
/// much each side must have moved into its vault; the caller performs those
/// two transfers atomically with persisting the record.
#[allow(clippy::too_many_arguments)]
pub fn open_deal(
    market: &Market,
    market_key: u64,
    farmer: u64,
    buyer: u64,
    agreed_price_per_kg: u64,
    quantity_kg: u64,
    physical_delivery: bool,
    deadline_ts: i64,
    assets: &Vec<u64>,
    asset_qty: &Vec<u64>,
    merkle_root: Option<[u8; 32]>,
    referrer: Option<u64>,
    fee_split_bps: Option<u16>,
) -> (r: Result<(Deal, u64), CoffeeError>)
    ensures
        open_deal_checks(*market, agreed_price_per_kg, quantity_kg, assets@.len(), asset_qty@.len())
            matches Err(e) ==> r == Err::<(Deal, u64), CoffeeError>(e),
        open_deal_checks(*market, agreed_price_per_kg, quantity_kg, assets@.len(), asset_qty@.len())
            is Ok ==> r is Ok,
        r matches Ok((d, margin_each)) ==> {
            &&& margin_each == initial_margin_of(*market, agreed_price_per_kg, quantity_kg)
            &&& d.version == PROGRAM_VERSION
            &&& d.market == market_key
            &&& d.farmer == farmer
            &&& d.buyer == buyer
            &&& d.agreed_price_per_kg == agreed_price_per_kg
            &&& d.quantity_kg == quantity_kg
            &&& d.initial_margin_each == margin_each
            &&& d.physical_delivery == physical_delivery
            &&& d.delivered_kg_total == 0
            &&& !d.liquidated
            &&& !d.settled
            &&& !d.settling
            &&& d.farmer_deposited
            &&& d.buyer_deposited
            &&& d.deadline_ts == deadline_ts
            &&& d.margin_call_ts == 0
            &&& d.margin_call_grace_sec == 0
            &&& d.referrer == referrer.unwrap_or(0)
            &&& d.fee_split_bps == fee_split_bps.unwrap_or(0)
            &&& d.asset_count == assets@.len()
            &&& forall|j: int|
                0 <= j < assets@.len() ==> d.assets@[j] == assets@[j] && d.asset_qty@[j]
                    == asset_qty@[j]
            &&& forall|j: int|
                assets@.len() <= j < MAX_ASSETS ==> d.assets@[j] == 0 && d.asset_qty@[j] == 0
            &&& d.merkle_root@ == (match merkle_root {
                Some(root) => root@,
                None => empty_root(),
            })
            &&& d.wf()
        },
{
    if market.program_version != PROGRAM_VERSION {
        return Err(CoffeeError::VersionMismatch);
    }
    if market.paused {
        return Err(CoffeeError::MarketPaused);
    }
    if agreed_price_per_kg == 0 {
        return Err(CoffeeError::ZeroPrice);
    }
    if quantity_kg == 0 {
        return Err(CoffeeError::ZeroQty);
    }
    if assets.len() != asset_qty.len() {
        return Err(CoffeeError::InvalidAssetBasket);
    }
    if assets.len() > MAX_ASSETS {
        return Err(CoffeeError::TooManyAssets);
    }
    if quantity_kg > market.max_qty_per_deal {
        return Err(CoffeeError::DealQtyExceedsLimit);
    }
    proof {
        vstd::arithmetic::mul::lemma_mul_upper_bound(
            agreed_price_per_kg as int,
            u64::MAX as int,
            quantity_kg as int,
            u64::MAX as int,
        );
    }
    let notional: u128 = (agreed_price_per_kg as u128) * (quantity_kg as u128);
    if notional > market.max_notional_per_deal as u128 {
        return Err(CoffeeError::DealNotionalExceedsLimit);
    }
    let req_margin: u128 = match crate::math::bps_mul_u128(notional, market.initial_margin_bps) {
        Ok(v) => v,
        Err(e) => {
            return Err(e);
        },
    };
    if req_margin > u64::MAX as u128 {
        return Err(CoffeeError::MathOverflow);
    }
    let req_margin_u64: u64 = req_margin as u64;

    let mut basket_assets: [u64; MAX_ASSETS] = [0u64; MAX_ASSETS];
    let mut basket_qty: [u64; MAX_ASSETS] = [0u64; MAX_ASSETS];
    let mut i: usize = 0;
    while i < assets.len()
        invariant
            0 <= i <= assets@.len(),
            assets@.len() == asset_qty@.len(),
            assets@.len() <= MAX_ASSETS,
            forall|j: int|
                0 <= j < i ==> basket_assets@[j] == assets@[j] && basket_qty@[j] == asset_qty@[j],
            forall|j: int| i <= j < MAX_ASSETS ==> basket_assets@[j] == 0 && basket_qty@[j] == 0,
        decreases assets@.len() - i,
    {
        basket_assets[i] = assets[i];
        basket_qty[i] = asset_qty[i];
        i += 1;
    }

    let root: [u8; 32] = match merkle_root {
        Some(root) => root,
        None => [0u8; 32],
    };
    proof {
        if merkle_root is None {
            assert(root@ =~= empty_root());
        }
    }

    let deal = Deal {
        version: PROGRAM_VERSION,
        market: market_key,
        farmer,
        buyer,
        agreed_price_per_kg,
        quantity_kg,
        initial_margin_each: req_margin_u64,
        physical_delivery,
        delivered_kg_total: 0,
        liquidated: false,
        settled: false,
        settling: false,
        farmer_deposited: true,
        buyer_deposited: true,
        deadline_ts,
        margin_call_ts: 0,
        margin_call_grace_sec: 0,
        referrer: match referrer {
            Some(x) => x,
            None => 0,
        },
        fee_split_bps: match fee_split_bps {
            Some(x) => x,
            None => 0,
        },
        asset_count: assets.len() as u8,
        assets: basket_assets,
        asset_qty: basket_qty,
        merkle_root: root,
    };
    Ok((deal, req_margin_u64))
}

/// Which side of a deal a counterparty stands on.
#[derive(Clone, Copy, Debug, PartialEq, Eq, Structural)]
pub enum Counterparty {
    Farmer,
    Buyer,
}

/// Validates a margin top-up by either counterparty and says which side's
/// vault the caller must credit with `amount`.
pub fn top_up_margin(market: &Market, deal: &Deal, who: u64, amount: u64) -> (r: Result<
    Counterparty,
    CoffeeError,
>)
    ensures
        market.program_version != PROGRAM_VERSION ==> r == Err::<Counterparty, CoffeeError>(
            CoffeeError::VersionMismatch,
        ),
        market.program_version == PROGRAM_VERSION && amount == 0 ==> r == Err::<
            Counterparty,
            CoffeeError,
        >(CoffeeError::ZeroAmount),
        market.program_version == PROGRAM_VERSION && amount > 0 && who != deal.farmer && who
            != deal.buyer ==> r == Err::<Counterparty, CoffeeError>(CoffeeError::InvalidCounterparty),
        market.program_version == PROGRAM_VERSION && amount > 0 && who == deal.farmer ==> r == Ok::<
            Counterparty,
            CoffeeError,
        >(Counterparty::Farmer),
        market.program_version == PROGRAM_VERSION && amount > 0 && who != deal.farmer && who
            == deal.buyer ==> r == Ok::<Counterparty, CoffeeError>(Counterparty::Buyer),
{
    match crate::market::version_guard_market(market) {
        Ok(()) => {},
        Err(e) => {
            return Err(e);
        },
    }
    if amount == 0 {
        return Err(CoffeeError::ZeroAmount);
    }
    match assert_is_counterparty(deal, who) {
        Ok(()) => {},
        Err(e) => {
            return Err(e);
        },
    }
    if who == deal.farmer {
        Ok(Counterparty::Farmer)
    } else {
        Ok(Counterparty::Buyer)
    }
}

/// The refunds a cancellation sends back: each side's whole vault balance.
#[derive(Clone, Copy, Debug, PartialEq, Eq, Structural)]
pub struct CancelOutcome {
    /// Farmer vault balance returned to the farmer's receive account.
    pub refund_farmer: u64,
    /// Buyer vault balance returned to the buyer's receive account.
    pub refund_buyer: u64,
}

/// Cancels an unsettled deal: allowed only while at most one side has
/// deposited and the deadline has not passed.  Both vaults are refunded in
/// full and the deal moves to its terminal state.
pub fn cancel_deal(
    market: &Market,
    deal: &mut Deal,
    farmer_vault: u64,
    buyer_vault: u64,
    now_ts: i64,
) -> (r: Result<CancelOutcome, CoffeeError>)
    ensures
        r is Err ==> *final(deal) == *old(deal),
        market.program_version != PROGRAM_VERSION ==> r == Err::<CancelOutcome, CoffeeError>(
            CoffeeError::VersionMismatch,
        ),
        market.program_version == PROGRAM_VERSION && !old(deal).settlement_open() ==> r == Err::<
            CancelOutcome,
            CoffeeError,
        >(CoffeeError::DealAlreadySettled),
        market.program_version == PROGRAM_VERSION && old(deal).settlement_open() && old(
            deal,
        ).farmer_deposited && old(deal).buyer_deposited ==> r == Err::<CancelOutcome, CoffeeError>(
            CoffeeError::CannotCancelAfterBothDeposited,
        ),
        market.program_version == PROGRAM_VERSION && old(deal).settlement_open() && !(old(
            deal,
        ).farmer_deposited && old(deal).buyer_deposited) && now_ts >= old(deal).deadline_ts ==> r
            == Err::<CancelOutcome, CoffeeError>(CoffeeError::DeadlinePassed),
        market.program_version == PROGRAM_VERSION && old(deal).settlement_open() && !(old(
            deal,
        ).farmer_deposited && old(deal).buyer_deposited) && now_ts < old(deal).deadline_ts ==> r
            == Ok::<CancelOutcome, CoffeeError>(
            CancelOutcome { refund_farmer: farmer_vault, refund_buyer: buyer_vault },
        ),
        r is Ok ==> *final(deal) == (Deal { settled: true, settling: false, ..*old(deal) }),
{
    if market.program_version != PROGRAM_VERSION {
        return Err(CoffeeError::VersionMismatch);
    }
    if deal.settled || deal.settling {
        return Err(CoffeeError::DealAlreadySettled);
    }
    if deal.farmer_deposited && deal.buyer_deposited {
        return Err(CoffeeError::CannotCancelAfterBothDeposited);
    }
    if now_ts >= deal.deadline_ts {
        return Err(CoffeeError::DeadlinePassed);
    }
    deal.mark_settled();
    Ok(CancelOutcome { refund_farmer: farmer_vault, refund_buyer: buyer_vault })
}

/// Closing is the storage-reclamation step; it is allowed exactly when the
/// deal has reached its terminal settled state.
pub fn close_deal(market: &Market, deal: &Deal) -> (r: Result<(), CoffeeError>)
    ensures
        r == if market.program_version != PROGRAM_VERSION {
            Err::<(), CoffeeError>(CoffeeError::VersionMismatch)
        } else if !deal.settled {
            Err::<(), CoffeeError>(CoffeeError::DealNotSettled)
        } else {
            Ok::<(), CoffeeError>(())
        },
{
    match crate::market::version_guard_market(market) {
        Ok(()) => {},
        Err(e) => {
            return Err(e);
        },
    }
    if !deal.settled {
        return Err(CoffeeError::DealNotSettled);
    }
    Ok(())
}

} // verus!
