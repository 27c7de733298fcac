use vstd::prelude::*;

verus! {

/// Who dispatched a call.
#[derive(Clone, Copy, Debug, PartialEq, Eq)]
pub enum Origin<AccountId> {
    /// The chain itself, with the highest privilege.
    Root,
    /// An extrinsic signed by the given account.
    Signed(AccountId),
    /// Nobody: an unsigned extrinsic or an inherent.
    Unsigned,
}

/// Why a dispatch failed.
#[derive(Clone, Copy, Debug, PartialEq, Eq, Structural)]
pub enum DispatchError {
    /// The origin is not the one the call requires.
    BadOrigin,
}

/// Succeeds exactly when the origin is `Unsigned`, the origin of inherents.
pub fn ensure_none<AccountId>(origin: &Origin<AccountId>) -> (r: Result<(), DispatchError>)
    ensures
        r is Ok <==> origin is Unsigned,
        r is Err ==> r == Err::<(), DispatchError>(DispatchError::BadOrigin),
{
    match origin {
        Origin::Unsigned => Ok(()),
        _ => Err(DispatchError::BadOrigin),
    }
}

} // verus!
