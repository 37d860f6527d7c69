//! Partial physical delivery: Merkle-gated proof-of-delivery, certificate
//! minting, per-tranche payout to the farmer, and the residual sweep on
//! exact completion.  Multi-call delivery is the expected pattern: the deal
//! stays open until the delivered total reaches the quantity.

use vstd::prelude::*;

use crate::deal::{empty_root, Deal};
use crate::errors::CoffeeError;
use crate::market::Market;
use crate::math::min_u64;
use crate::merkle::{eq_32, merkle_fold, verify_merkle_proof};
use crate::{MAX_PROOF_HASHES, PROGRAM_VERSION};

verus! {

/// Everything one delivery tranche moves, plus the deal's new delivered
/// total and whether this tranche completed the deal.
#[derive(Clone, Copy, Debug, PartialEq, Eq, Structural)]
pub struct PhysicalSettlement {
    /// Delivery-certificate units to mint to the buyer: the delivered
    /// quantity when the basket includes the market's certificate mint,
    /// zero otherwise.
    pub minted_cft: u64,
    /// Buyer vault to the farmer's receive account: agreed price times the
    /// delivered quantity, capped at the buyer vault.
    pub payout_to_farmer: u64,
    /// Farmer vault swept home on completion when above the dust threshold.
    pub residual_to_farmer: u64,
    /// Buyer vault swept home on completion likewise.
    pub residual_to_buyer: u64,
    /// What stays in the farmer vault.
    pub farmer_vault_after: u64,
    /// What stays in the buyer vault.
    pub buyer_vault_after: u64,
    /// The deal's delivered total after this tranche.
    pub total_delivered: u64,
    /// True exactly when the delivered total reached the deal quantity.
    pub completed: bool,
}

/// Whether the deal's basket includes the market's certificate mint.
pub open spec fn basket_has_cft(m: Market, d: Deal) -> bool {
    exists|j: int| 0 <= j < d.asset_count && d.assets@[j] == m.cft_mint
}

/// One delivery tranche as a transition: the guards in the order they are
/// checked, the Merkle gate, the over-delivery bound, then the payout and,
/// on exact completion, the residual sweep.  `f0` and `b0` are the farmer
/// and buyer vault balances at entry.
pub open spec fn settle_physical_spec(
    m: Market,
    d: Deal,
    delivered_kg: u64,
    proof_hashes: Seq<Seq<u8>>,
    leaf: Option<[u8; 32]>,
    verifier_authorized: bool,
    f0: u64,
    b0: u64,
) -> Result<PhysicalSettlement, CoffeeError> {
    if m.program_version != PROGRAM_VERSION {
        Err(CoffeeError::VersionMismatch)
    } else if m.paused {
        Err(CoffeeError::MarketPaused)
    } else if proof_hashes.len() > MAX_PROOF_HASHES {
        Err(CoffeeError::ProofTooLarge)
    } else if !d.settlement_open() {
        Err(CoffeeError::DealAlreadySettled)
    } else if delivered_kg == 0 {
        Err(CoffeeError::ZeroQty)
    } else if !verifier_authorized {
        Err(CoffeeError::Unauthorized)
    } else if d.merkle_root@ != empty_root() && leaf is None {
        Err(CoffeeError::MerkleProofMissing)
    } else if d.merkle_root@ != empty_root() && merkle_fold(leaf->0@, proof_hashes)
        != d.merkle_root@ {
        Err(CoffeeError::MerkleProofInvalid)
    } else if d.delivered_kg_total + delivered_kg > u64::MAX {
        Err(CoffeeError::MathOverflow)
    } else if d.delivered_kg_total + delivered_kg > d.quantity_kg {
        Err(CoffeeError::OverDelivery)
    } else if d.agreed_price_per_kg * delivered_kg > u64::MAX {
        Err(CoffeeError::MathOverflow)
    } else {
        let new_total = (d.delivered_kg_total + delivered_kg) as u64;
        let minted = if basket_has_cft(m, d) {
            delivered_kg
        } else {
            0
        };
        let pay = (d.agreed_price_per_kg * delivered_kg) as u64;
        let pay_amt = crate::math::min64(pay, b0);
        let b1 = (b0 - pay_amt) as u64;
        if new_total == d.quantity_kg {
            Ok(
                PhysicalSettlement {
                    minted_cft: minted,
                    payout_to_farmer: pay_amt,
                    residual_to_farmer: if f0 > m.min_transfer_amount {
                        f0
                    } else {
                        0
                    },
                    residual_to_buyer: if b1 > m.min_transfer_amount {
                        b1
                    } else {
                        0
                    },
                    farmer_vault_after: if f0 > m.min_transfer_amount {
                        0
                    } else {
                        f0
                    },
                    buyer_vault_after: if b1 > m.min_transfer_amount {
                        0
                    } else {
                        b1
                    },
                    total_delivered: new_total,
                    completed: true,
                },
            )
        } else {
            Ok(
                PhysicalSettlement {
                    minted_cft: minted,
                    payout_to_farmer: pay_amt,
                    residual_to_farmer: 0,
                    residual_to_buyer: 0,
                    farmer_vault_after: f0,
                    buyer_vault_after: b1,
                    total_delivered: new_total,
                    completed: false,
                },
            )
        }
    }
}

/// Verifies one delivery tranche and advances the deal, exactly as
/// `settle_physical_spec` says.
///
/// `verifier_authorized` is the identity collaborator's verdict on whether
/// the signer holds the verifier role for this market.
/// Delivering exactly the remaining quantity completes the deal: both
/// vaults' above-dust balances are swept home and the deal reaches its
/// terminal state.  One unit more is rejected as over-delivery with the
/// deal untouched.  On a partial tranche the reentrancy guard is left
/// cleared and the deal stays open.
pub fn verify_and_settle_physical(
    market: &Market,
    deal: &mut Deal,
    delivered_kg: u64,
    proof_hashes: &Vec<[u8; 32]>,
    leaf: Option<[u8; 32]>,
    verifier_authorized: bool,
    farmer_vault: u64,
    buyer_vault: u64,
) -> (r: Result<PhysicalSettlement, CoffeeError>)
    requires
        old(deal).wf(),
    ensures
        r is Err ==> *final(deal) == *old(deal),
        r matches Err(e) ==> settle_physical_spec(
            *market,
            *old(deal),
            delivered_kg,
            proof_hashes@.map_values(|h: [u8; 32]| h@),
            leaf,
            verifier_authorized,
            farmer_vault,
            buyer_vault,
        ) == Err::<PhysicalSettlement, CoffeeError>(e),
        r matches Ok(o) ==> settle_physical_spec(
            *market,
            *old(deal),
            delivered_kg,
            proof_hashes@.map_values(|h: [u8; 32]| h@),
            leaf,
            verifier_authorized,
            farmer_vault,
            buyer_vault,
        ) == Ok::<PhysicalSettlement, CoffeeError>(o),
        r matches Ok(o) ==> *final(deal) == (Deal {
            delivered_kg_total: o.total_delivered,
            settled: o.completed,
            settling: false,
            ..*old(deal)
        }),
        r is Ok ==> final(deal).wf(),
        r matches Ok(o) ==> o.payout_to_farmer + o.residual_to_buyer + o.buyer_vault_after
            == buyer_vault && o.residual_to_farmer + o.farmer_vault_after == farmer_vault,
{
    if market.program_version != PROGRAM_VERSION {
        return Err(CoffeeError::VersionMismatch);
    }
    if market.paused {
        return Err(CoffeeError::MarketPaused);
    }
    if proof_hashes.len() > MAX_PROOF_HASHES {
        return Err(CoffeeError::ProofTooLarge);
    }
    if deal.settled || deal.settling {
        return Err(CoffeeError::DealAlreadySettled);
    }
    if delivered_kg == 0 {
        return Err(CoffeeError::ZeroQty);
    }
    if !verifier_authorized {
        return Err(CoffeeError::Unauthorized);
    }
    let zero_root: [u8; 32] = [0u8; 32];
    proof {
        assert(zero_root@ =~= empty_root());
    }
    if !eq_32(&deal.merkle_root, &zero_root) {
        let leaf_val: [u8; 32] = match leaf {
            Some(l) => l,
            None => {
                return Err(CoffeeError::MerkleProofMissing);
            },
        };
        let ok: bool = match verify_merkle_proof(leaf_val, proof_hashes, deal.merkle_root) {
            Ok(b) => b,
            Err(e) => {
                return Err(e);
            },
        };
        if !ok {
            return Err(CoffeeError::MerkleProofInvalid);
        }
    }
    let new_total: u64 = match deal.delivered_kg_total.checked_add(delivered_kg) {
        Some(v) => v,
        None => {
            return Err(CoffeeError::MathOverflow);
        },
    };
    if new_total > deal.quantity_kg {
        return Err(CoffeeError::OverDelivery);
    }

    let mut has_cft: bool = false;
    let mut i: usize = 0;
    let n: usize = deal.asset_count as usize;
    while i < n
        invariant
            0 <= i <= n,
            n == deal.asset_count,
            deal.asset_count <= crate::MAX_ASSETS,
            has_cft == exists|j: int| 0 <= j < i && deal.assets@[j] == market.cft_mint,
        decreases n - i,
    {
        if deal.assets[i] == market.cft_mint {
            has_cft = true;
        }
        i += 1;
    }
    let minted: u64 = if has_cft {
        delivered_kg
    } else {
        0
    };

    proof {
        vstd::arithmetic::mul::lemma_mul_upper_bound(
            deal.agreed_price_per_kg as int,
            u64::MAX as int,
            delivered_kg as int,
            u64::MAX as int,
        );
    }
    let pay128: u128 = (deal.agreed_price_per_kg as u128) * (delivered_kg as u128);
    if pay128 > u64::MAX as u128 {
        return Err(CoffeeError::MathOverflow);
    }
    let pay: u64 = pay128 as u64;
    let pay_amt: u64 = min_u64(pay, buyer_vault);
    let b1: u64 = buyer_vault - pay_amt;

    deal.start_settling();
    deal.delivered_kg_total = new_total;
    let completed: bool = new_total == deal.quantity_kg;
    let outcome: PhysicalSettlement;
    if completed {
        deal.mark_settled();
        outcome = PhysicalSettlement {
            minted_cft: minted,
            payout_to_farmer: pay_amt,
            residual_to_farmer: if farmer_vault > market.min_transfer_amount {
                farmer_vault
            } else {
                0
            },
            residual_to_buyer: if b1 > market.min_transfer_amount {
                b1
            } else {
                0
            },
            farmer_vault_after: if farmer_vault > market.min_transfer_amount {
                0
            } else {
                farmer_vault
            },
            buyer_vault_after: if b1 > market.min_transfer_amount {
                0
            } else {
                b1
            },
            total_delivered: new_total,
            completed: true,
        };
    } else {
        deal.settling = false;
        outcome = PhysicalSettlement {
            minted_cft: minted,
            payout_to_farmer: pay_amt,
            residual_to_farmer: 0,
            residual_to_buyer: 0,
            farmer_vault_after: farmer_vault,
            buyer_vault_after: b1,
            total_delivered: new_total,
            completed: false,
        };
    }
    Ok(outcome)
}

} // verus!
