//! Validation for initializing the delivery-certificate (CFT) mint.  The
//! mint and its authority account are provisioned by the hosting runtime,
//! which reports their rent status; only the checks live here.

use vstd::prelude::*;

use crate::errors::CoffeeError;

verus! {

/// Accepts the certificate-mint initialization: both accounts must be
/// rent-exempt as the runtime reports them, and the mint's decimals must
/// match the requested decimals.
pub fn init_cft_mint(
    decimals: u8,
    mint_decimals: u8,
    mint_rent_exempt: bool,
    mint_auth_rent_exempt: bool,
) -> (r: Result<(), CoffeeError>)
    ensures
        !mint_rent_exempt ==> r == Err::<(), CoffeeError>(CoffeeError::AccountNotRentExempt),
        mint_rent_exempt && !mint_auth_rent_exempt ==> r == Err::<(), CoffeeError>(
            CoffeeError::AccountNotRentExempt,
        ),
        mint_rent_exempt && mint_auth_rent_exempt && decimals != mint_decimals ==> r == Err::<
            (),
            CoffeeError,
        >(CoffeeError::MintDecimalsMismatch),
        mint_rent_exempt && mint_auth_rent_exempt && decimals == mint_decimals ==> r is Ok,
{
    if !mint_rent_exempt {
        return Err(CoffeeError::AccountNotRentExempt);
    }
    if !mint_auth_rent_exempt {
        return Err(CoffeeError::AccountNotRentExempt);
    }
    if decimals != mint_decimals {
        return Err(CoffeeError::MintDecimalsMismatch);
    }
    Ok(())
}

} // verus!
