//! Origins and dispatch results of a call into the runtime.

use vstd::prelude::*;

use crate::weight::Weight;

verus! {

/// An account on chain (32 bytes, as `AccountId32`).
pub type AccountId = [u8; 32];

/// Identifier of an asset; pools are identified by their LP asset.
pub type CurrencyId = u32;

/// Amount of an asset.
pub type Balance = u128;

/// Block height.
pub type BlockNumber = u32;

/// Who dispatched a call.
#[derive(Clone, Copy, Debug, PartialEq, Eq)]
pub enum Origin {
    Root,
    Signed(AccountId),
    Unsigned,
}

/// Reason of failure coming from a pallet: its index in the runtime and the
/// encoded variant of its error.
#[derive(Clone, Copy, Debug, PartialEq, Eq)]
pub struct ModuleError {
    pub index: u8,
    pub error: [u8; 4],
}

/// Arithmetic failures.
#[derive(Clone, Copy, Debug, PartialEq, Eq, Structural)]
pub enum ArithmeticError {
    Underflow,
    Overflow,
    DivisionByZero,
}

/// Reason why a dispatch call failed.
#[derive(Clone, Copy, Debug, PartialEq, Eq)]
pub enum DispatchError {
    Other,
    CannotLookup,
    BadOrigin,
    Module(ModuleError),
    ConsumerRemaining,
    NoProviders,
    TooManyConsumers,
    Token,
    Arithmetic(ArithmeticError),
    Transactional,
    Exhausted,
    Corruption,
    Unavailable,
}

/// Whether the sender pays the fee of a call.
#[derive(Clone, Copy, Debug, PartialEq, Eq, Structural)]
pub enum Pays {
    Yes,
    No,
}

/// Information known once a call has run.
#[derive(Clone, Copy, Debug, PartialEq, Eq, Structural)]
pub struct PostDispatchInfo {
    pub actual_weight: Option<Weight>,
    pub pays_fee: Pays,
}

/// A failed call together with its post-dispatch information.
#[derive(Clone, Copy, Debug, PartialEq, Eq)]
pub struct DispatchErrorWithPostInfo {
    pub post_info: PostDispatchInfo,
    pub error: DispatchError,
}

/// The post-dispatch information used when a call says nothing more.
pub open spec fn default_post_info() -> PostDispatchInfo {
    PostDispatchInfo { actual_weight: None, pays_fee: Pays::Yes }
}

impl DispatchErrorWithPostInfo {
    /// `error` with the default post-dispatch information.
    pub open spec fn spec_from_error(error: DispatchError) -> DispatchErrorWithPostInfo {
        DispatchErrorWithPostInfo { post_info: default_post_info(), error }
    }

    /// Attaches the default post-dispatch information to an error.
    pub fn from_error(error: DispatchError) -> (r: DispatchErrorWithPostInfo)
        ensures
            r == Self::spec_from_error(error),
    {
        DispatchErrorWithPostInfo {
            post_info: PostDispatchInfo { actual_weight: None, pays_fee: Pays::Yes },
            error,
        }
    }
}

/// The account that signed `origin`, if any.
pub open spec fn spec_ensure_signed(origin: Origin) -> Result<AccountId, DispatchError> {
    match origin {
        Origin::Signed(who) => Ok(who),
        _ => Err(DispatchError::BadOrigin),
    }
}

/// Checks that `origin` is a signed account and returns it; any other origin
/// is refused with `BadOrigin`.
pub fn ensure_signed(origin: Origin) -> (r: Result<AccountId, DispatchError>)
    ensures
        r == spec_ensure_signed(origin),
        origin matches Origin::Signed(who) ==> r == Ok::<AccountId, DispatchError>(who),
        !(origin is Signed) ==> r == Err::<AccountId, DispatchError>(DispatchError::BadOrigin),
{
    match origin {
        Origin::Signed(who) => Ok(who),
        _ => Err(DispatchError::BadOrigin),
    }
}

} // verus!
