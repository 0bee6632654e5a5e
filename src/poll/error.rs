//! Why a market operation was refused.

use vstd::prelude::*;

verus! {

/// The reasons a market operation is refused; a refused operation changes nothing.
#[derive(Debug, Clone, PartialEq, Eq)]
pub enum ContractError {
    /// The caller may not perform this operation.
    Unauthorized {},
    /// The requested market duration is longer than allowed.
    InvalidDuration { max: u64 },
    /// No coin of the market's denomination was attached.
    NoXionPayment {},
    /// The attached coin does not match the declared stake amount.
    InvalidPaymentAmount {},
    /// Withdrawals open only once the market is resolved.
    PollNotResolved {},
    /// The market was resolved already.
    PollAlreadyResolved {},
    /// The market's end time has passed.
    PollEnded {},
    /// The market's end time has not been reached yet.
    PollStillActive {},
    /// The dilution amount does not fit in 128 bits.
    FailedInnerCall {},
    /// The epoch lies after the market's current epoch.
    EpochNotStarted {},
    /// The epoch's end time has not passed yet.
    EpochNotEnded {},
    /// Every staker of the epoch has been paid already.
    EpochAlreadyDistributed {},
    /// The caller holds no stake that is still to be withdrawn.
    NoStakesToWithdraw {},
    /// No epoch of the schedule has this number.
    EpochNotFound {},
}

} // verus!
