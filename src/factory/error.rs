//! Why a factory operation was refused.

use vstd::prelude::*;

verus! {

/// A field of a market that must not be empty.
#[derive(Debug, Clone, Copy, PartialEq, Eq)]
pub enum RequiredField {
    Question,
    YesTokenName,
    YesTokenSymbol,
    NoTokenName,
    NoTokenSymbol,
}

/// The reasons a factory operation is refused; a refused operation changes nothing.
#[derive(Debug, Clone, PartialEq, Eq)]
pub enum ContractError {
    /// Only the owner may perform this operation.
    Unauthorized {},
    /// A protocol fee above the ceiling.
    InvalidFee(String),
    /// A market duration outside the allowed bounds.
    InvalidDuration { min: u64, max: u64 },
    /// A required field of the market was left empty.
    EmptyField { field: RequiredField },
    /// No coin of the fee's denomination was attached.
    NoXionPayment {},
    /// The attached fee differs from the creation fee.
    InvalidFeeAmount {},
    /// The creation result names no created contract.
    NoContractAddress {},
    /// The creation call failed.
    InstantiateFailed {},
    /// No provisioning awaits a continuation with this tag.
    UnknownReplyId { id: u64 },
    /// A market with this address is registered already.
    PollAlreadyExists {},
    /// No market has this position in the registry.
    IndexOutOfBounds {},
}

} // verus!
