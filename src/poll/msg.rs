//! What a market is created with, and what its queries answer.

use crate::poll::state::Stake;
use vstd::prelude::*;

verus! {

/// The parameters a market is created with.
#[derive(Debug, Clone, PartialEq, Eq)]
pub struct InstantiateMsg {
    pub capy_core: String,
    pub poll_creator: String,
    pub yes_token: String,
    pub no_token: String,
    pub duration: u64,
    pub denom: String,
}

} // verus!

verus! {

/// A mint of `amount` units of the outcome token `token` to `recipient`.
#[derive(Debug, Clone, PartialEq, Eq)]
pub struct MintMsg {
    pub token: String,
    pub recipient: String,
    pub amount: u128,
}

/// A transfer of `amount` of the native coin `denom` to `to_address`.
#[derive(Debug, Clone, PartialEq, Eq)]
pub struct BankSend {
    pub to_address: String,
    pub denom: String,
    pub amount: u128,
}

} // verus!

verus! {

/// The queries a market answers.
#[derive(Debug, Clone, PartialEq, Eq)]
pub enum QueryMsg {
    GetPollInfo {},
    GetEpochInfo { epoch_number: u64 },
    GetUserStakesForEpoch { user: String, epoch_number: u64 },
    GetTotalStaked {},
}

/// An epoch's schedule, budget and progress.
#[derive(Debug, Clone, PartialEq, Eq)]
pub struct EpochInfoResponse {
    pub start_time: u64,
    pub end_time: u64,
    pub total_distribution: u128,
    pub is_distributed: bool,
    pub num_stakers: u64,
}

/// The stakes a user placed in an epoch, in the order placed.
#[derive(Debug, Clone, PartialEq, Eq)]
pub struct UserStakesResponse {
    pub stakes: Vec<Stake>,
}

/// A market's public configuration.
#[derive(Debug, Clone, PartialEq, Eq)]
pub struct PollInfo {
    pub end_timestamp: u64,
    pub yes_token: String,
    pub no_token: String,
    pub total_staked: u128,
    pub is_resolved: bool,
    pub winning_position: Option<bool>,
    pub denom: String,
}

/// The answer to `GetPollInfo`.
#[derive(Debug, Clone, PartialEq, Eq)]
pub struct PollInfoResponse {
    pub info: PollInfo,
}

/// What was staked on each side.
#[derive(Debug, Clone, PartialEq, Eq)]
pub struct TotalStakedResponse {
    pub total_yes: u128,
    pub total_no: u128,
    pub denom: String,
}

/// The answer to a query.
#[derive(Debug, Clone, PartialEq, Eq)]
pub enum QueryResponse {
    PollInfo(PollInfoResponse),
    EpochInfo(EpochInfoResponse),
    UserStakes(UserStakesResponse),
    TotalStaked(TotalStakedResponse),
}

} // verus!
