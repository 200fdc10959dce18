use crate::address::Address;
use crate::errors::Errors;
use vstd::prelude::*;

verus! {

/// Accepts the signer exactly when it is the identity that the operation is
/// reserved for.
pub fn require_signer(expected_identity: &Address, actual_signer: &Address) -> (checked: Result<
    (),
    Errors,
>)
    ensures
        checked == (if *expected_identity == *actual_signer {
            Ok::<(), Errors>(())
        } else {
            Err(Errors::Unauthorized)
        }),
{
    if *expected_identity == *actual_signer {
        Ok(())
    } else {
        Err(Errors::Unauthorized)
    }
}

/// Accepts the supplied address exactly when it is the expected one.
pub fn require_address_match(expected: &Address, supplied: &Address) -> (checked: Result<
    (),
    Errors,
>)
    ensures
        checked == (if *expected == *supplied {
            Ok::<(), Errors>(())
        } else {
            Err(Errors::AddressMismatch)
        }),
{
    if *expected == *supplied {
        Ok(())
    } else {
        Err(Errors::AddressMismatch)
    }
}

} // verus!
