//! The factory's configuration, its registry of markets and its provisioning records.

use vstd::prelude::*;

verus! {

/// Shortest market duration accepted, in seconds.
pub const MIN_DURATION: u64 = 60;

/// Longest market duration accepted, in seconds (thirty days).
pub const MAX_DURATION: u64 = 2592000;

/// Ceiling of the protocol fee, in basis points.
pub const MAX_PROTOCOL_FEE: u64 = 1000;

/// Continuation step: the YES token was created.
pub const REPLY_YES_TOKEN_INIT: u64 = 1;

/// Continuation step: the NO token was created.
pub const REPLY_NO_TOKEN_INIT: u64 = 2;

/// Continuation step: the market was created.
pub const REPLY_POLL_INIT: u64 = 3;

/// Decimals of every outcome token.
pub const TOKEN_DECIMALS: u8 = 18;

/// Sagas the factory can number: every continuation tag must fit in 64 bits.
pub const MAX_SAGAS: u64 = 0x5555_5555_5555_5554;

/// The factory's configuration.
#[derive(Debug, Clone, PartialEq, Eq)]
pub struct Config {
    pub owner: String,
    pub initial_fee: u128,
    pub protocol_fee: u64,
    pub poll_code_id: u64,
    pub token_code_id: u64,
    pub denom: String,
}

/// A registered market.
#[derive(Debug, Clone, PartialEq, Eq)]
pub struct PollInfo {
    pub creator: String,
    pub question: String,
    pub avatar: String,
    pub description: String,
    pub yes_token: String,
    pub no_token: String,
    pub poll_addr: String,
}

/// What a provisioning saga carries from one creation step to the next: the market's
/// parameters, and the outcome token addresses once they are known.
#[derive(Debug, Clone, PartialEq, Eq)]
pub struct TempPollData {
    pub creator: String,
    pub question: String,
    pub avatar: String,
    pub description: String,
    pub yes_token_name: String,
    pub yes_token_symbol: String,
    pub no_token_name: String,
    pub no_token_symbol: String,
    pub yes_token: Option<String>,
    pub no_token: Option<String>,
    pub duration: u64,
}

/// A saga in flight, under its number.
#[derive(Debug, Clone, PartialEq, Eq)]
pub struct PendingPoll {
    pub saga_id: u64,
    pub data: TempPollData,
}

/// Counters over the factory's lifetime.
#[derive(Debug, Clone, Copy, PartialEq, Eq)]
pub struct MarketStats {
    pub total_value_locked: u128,
    pub active_polls_count: u64,
    pub total_polls_created: u64,
    pub total_unique_participants: u64,
}

/// The factory's whole state. `polls` holds the registered markets in registration order;
/// `pending` the sagas in flight; `participants` everyone who has created a market. Sagas
/// are numbered by `stats.total_polls_created` at the time they start.
#[derive(Debug, Clone, PartialEq, Eq)]
pub struct FactoryState {
    pub config: Config,
    pub polls: Vec<PollInfo>,
    pub pending: Vec<PendingPoll>,
    pub stats: MarketStats,
    pub participants: Vec<String>,
}

/// The continuation tag of step `step` of saga `saga_id`. The first saga's tags are the
/// steps themselves.
pub open spec fn reply_id_of(saga_id: u64, step: u64) -> int {
    3 * saga_id + step
}

/// The saga a continuation tag belongs to.
pub open spec fn saga_of(id: u64) -> u64 {
    ((id - 1) / 3) as u64
}

/// The step a continuation tag stands for.
pub open spec fn step_of(id: u64) -> u64 {
    ((id - 1) % 3 + 1) as u64
}

/// The continuation a saga waits for: one for each creation still outstanding.
pub open spec fn awaited_step(d: TempPollData) -> u64 {
    if d.yes_token is None {
        REPLY_YES_TOKEN_INIT
    } else if d.no_token is None {
        REPLY_NO_TOKEN_INIT
    } else {
        REPLY_POLL_INIT
    }
}

/// Whether a saga of this number is in flight.
pub open spec fn saga_pending(pending: Seq<PendingPoll>, saga_id: u64) -> bool {
    exists|k: int| 0 <= k < pending.len() && (#[trigger] pending[k]).saga_id == saga_id
}

/// Where the saga of this number sits among those in flight.
pub open spec fn pending_position(pending: Seq<PendingPoll>, saga_id: u64) -> int {
    choose|k: int| 0 <= k < pending.len() && (#[trigger] pending[k]).saga_id == saga_id
}

/// Whether a market with this address is registered.
pub open spec fn poll_registered(polls: Seq<PollInfo>, addr: Seq<char>) -> bool {
    exists|k: int| 0 <= k < polls.len() && (#[trigger] polls[k]).poll_addr@ == addr
}

/// Whether `who` has created a market before.
pub open spec fn participant_listed(participants: Seq<String>, who: Seq<char>) -> bool {
    exists|k: int| 0 <= k < participants.len() && (#[trigger] participants[k])@ == who
}

impl FactoryState {
    /// The factory's invariant: sagas in flight have distinct numbers below the next one,
    /// registered markets have distinct addresses, and the counters stay below the number
    /// of sagas started.
    pub open spec fn wf(&self) -> bool {
        &&& forall|k: int|
            0 <= k < self.pending@.len() ==> (#[trigger] self.pending@[k]).saga_id
                < self.stats.total_polls_created
        &&& forall|k1: int, k2: int|
            0 <= k1 < self.pending@.len() && 0 <= k2 < self.pending@.len() && k1 != k2
                ==> (#[trigger] self.pending@[k1]).saga_id != (#[trigger] self.pending@[k2]).saga_id
        &&& forall|k1: int, k2: int|
            0 <= k1 < self.polls@.len() && 0 <= k2 < self.polls@.len() && k1 != k2
                ==> (#[trigger] self.polls@[k1]).poll_addr@ != (#[trigger] self.polls@[k2]).poll_addr@
        &&& self.stats.active_polls_count <= self.stats.total_polls_created
        &&& self.stats.total_unique_participants <= self.stats.total_polls_created
        &&& self.stats.total_polls_created <= MAX_SAGAS
    }
}

} // verus!
