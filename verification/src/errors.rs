use vstd::prelude::*;

verus! {

/// Stable error kinds surfaced by the clearing engine.  Every failing check
/// aborts its whole operation with one of these, so callers can tell, say, a
/// stale oracle from an over-delivery.
#[derive(Clone, Copy, Debug, PartialEq, Eq, Structural)]
pub enum CoffeeError {
    /// An overflow or underflow in a checked multiply, add or subtract.
    MathOverflow,
    /// A price of zero was offered, or no usable price is available.
    ZeroPrice,
    /// A quantity of zero was offered.
    ZeroQty,
    /// An amount of zero was offered.
    ZeroAmount,
    /// Initial margin rate below the maintenance margin rate.
    BadMarginParams,
    /// The signer does not hold the role the operation demands.
    Unauthorized,
    /// The market is paused.
    MarketPaused,
    /// Neither the market's settlement time nor the deal's deadline has come.
    NotYetSettleTime,
    /// The operation does not match the deal's settlement type.
    WrongSettlementType,
    /// The deal has already reached its terminal settled state.
    DealAlreadySettled,
    /// The deal has not been settled yet.
    DealNotSettled,
    /// The delivery would push the delivered total past the deal quantity.
    OverDelivery,
    /// The mint's decimals differ from the requested decimals.
    MintDecimalsMismatch,
    /// The signer is neither the farmer nor the buyer of the deal.
    InvalidCounterparty,
    /// The asset and quantity arrays of the basket differ in length.
    InvalidAssetBasket,
    /// The basket holds more assets than the fixed capacity.
    TooManyAssets,
    /// The deal demands a Merkle proof and no leaf was supplied.
    MerkleProofMissing,
    /// The supplied leaf and proof do not hash to the stored root.
    MerkleProofInvalid,
    /// Both sides have deposited margin, so the deal cannot be canceled.
    CannotCancelAfterBothDeposited,
    /// The deal's deadline has passed.
    DeadlinePassed,
    /// The previous oracle update is older than the configured tolerance.
    OracleStale,
    /// The offered price moves too far from the previous price.
    OraclePriceBandExceeded,
    /// The publication nonce does not exceed the last accepted nonce.
    ReplayOrStaleNonce,
    /// The Merkle proof holds more hashes than the fixed cap.
    ProofTooLarge,
    /// The deal quantity exceeds the market's per-deal cap.
    DealQtyExceedsLimit,
    /// The deal notional exceeds the market's per-deal cap.
    DealNotionalExceedsLimit,
    /// The stored record's schema version disagrees with this engine.
    VersionMismatch,
    /// An account lacks the rent-exempt balance the runtime demands.
    AccountNotRentExempt,
    /// The TWAP window is below the smallest accepted window.
    InvalidTwapWindow,
    /// The rotation's activation timestamp has not been reached.
    RotationNotEffectiveYet,
    /// No rotation is pending.
    NoPendingRotation,
}

} // verus!
