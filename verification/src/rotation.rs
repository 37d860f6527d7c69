//! Timelocked two-phase rotation of the oracle-publisher role: an
//! administrator proposes a new principal with an earliest-activation
//! timestamp; anyone may activate once that time has come, which swaps the
//! role and clears the pending state.  There is no rollback; proposing
//! again overwrites the prior proposal.

use vstd::prelude::*;

use crate::errors::CoffeeError;
use crate::market::Market;
use crate::PROGRAM_VERSION;

verus! {

/// What activation does to a market: refused without a pending principal or
/// before the activation time, otherwise the role is swapped and the
/// pending fields are cleared.
pub open spec fn activate_rotation_spec(m: Market, now_ts: i64) -> Result<Market, CoffeeError> {
    if m.program_version != PROGRAM_VERSION {
        Err(CoffeeError::VersionMismatch)
    } else if m.pending_oracle == 0 {
        Err(CoffeeError::NoPendingRotation)
    } else if now_ts < m.pending_oracle_effective_ts {
        Err(CoffeeError::RotationNotEffectiveYet)
    } else {
        Ok(
            Market {
                oracle_publisher: m.pending_oracle,
                pending_oracle: 0,
                pending_oracle_effective_ts: 0,
                ..m
            },
        )
    }
}

/// Records a pending oracle-publisher rotation.  Administrator-only.
pub fn propose_rotate_oracle(
    market: &mut Market,
    authority: u64,
    new_oracle: u64,
    effective_after_ts: i64,
) -> (r: Result<(), CoffeeError>)
    ensures
        r is Err ==> *final(market) == *old(market),
        old(market).program_version != PROGRAM_VERSION ==> r == Err::<(), CoffeeError>(
            CoffeeError::VersionMismatch,
        ),
        old(market).program_version == PROGRAM_VERSION && authority != old(market).authority ==> r
            == Err::<(), CoffeeError>(CoffeeError::Unauthorized),
        old(market).program_version == PROGRAM_VERSION && authority == old(market).authority ==> r
            is Ok,
        r is Ok ==> *final(market) == (Market {
            pending_oracle: new_oracle,
            pending_oracle_effective_ts: effective_after_ts,
            ..*old(market)
        }),
{
    if market.program_version != PROGRAM_VERSION {
        return Err(CoffeeError::VersionMismatch);
    }
    if authority != market.authority {
        return Err(CoffeeError::Unauthorized);
    }
    market.pending_oracle = new_oracle;
    market.pending_oracle_effective_ts = effective_after_ts;
    Ok(())
}

/// Activates a pending rotation once its earliest-activation time has come,
/// exactly as `activate_rotation_spec` says.
pub fn activate_rotate_oracle(market: &mut Market, now_ts: i64) -> (r: Result<(), CoffeeError>)
    ensures
        r is Ok ==> activate_rotation_spec(*old(market), now_ts) == Ok::<Market, CoffeeError>(
            *final(market),
        ),
        r matches Err(e) ==> activate_rotation_spec(*old(market), now_ts) == Err::<
            Market,
            CoffeeError,
        >(e) && *final(market) == *old(market),
{
    if market.program_version != PROGRAM_VERSION {
        return Err(CoffeeError::VersionMismatch);
    }
    if market.pending_oracle == 0 {
        return Err(CoffeeError::NoPendingRotation);
    }
    if now_ts < market.pending_oracle_effective_ts {
        return Err(CoffeeError::RotationNotEffectiveYet);
    }
    market.oracle_publisher = market.pending_oracle;
    market.pending_oracle = 0;
    market.pending_oracle_effective_ts = 0;
    Ok(())
}

/// Activation succeeds at most once per proposal: after one success the
/// pending state is cleared, so a second activation at any time fails with
/// the no-pending-rotation kind until a new proposal is recorded.
pub proof fn lemma_activate_exactly_once(m: Market, now1: i64, now2: i64)
    requires
        activate_rotation_spec(m, now1) is Ok,
    ensures
        activate_rotation_spec(activate_rotation_spec(m, now1)->Ok_0, now2) == Err::<
            Market,
            CoffeeError,
        >(CoffeeError::NoPendingRotation),
{
}

} // verus!
