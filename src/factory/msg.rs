//! What the factory is created with, the creation calls it issues, and what its queries
//! answer.

use crate::poll::msg::InstantiateMsg as PollInstantiateMsg;
use vstd::prelude::*;

verus! {

/// The parameters the factory is created with.
#[derive(Debug, Clone, PartialEq, Eq)]
pub struct InstantiateMsg {
    pub initial_fee: u128,
    pub protocol_fee: u64,
    pub poll_code_id: u64,
    pub token_code_id: u64,
}

/// The parameters of an outcome token: a fungible token that starts with no balances and
/// that `minter` may mint without a cap.
#[derive(Debug, Clone, PartialEq, Eq)]
pub struct TokenInstantiateMsg {
    pub name: String,
    pub symbol: String,
    pub decimals: u8,
    pub minter: String,
}

/// What a creation call creates.
#[derive(Debug, Clone, PartialEq, Eq)]
pub enum InstantiatePayload {
    Token(TokenInstantiateMsg),
    Poll(PollInstantiateMsg),
}

/// A creation call, whose success resumes the saga with the continuation tag `reply_id`.
#[derive(Debug, Clone, PartialEq, Eq)]
pub struct InstantiateRequest {
    pub reply_id: u64,
    pub admin: String,
    pub code_id: u64,
    pub label: String,
    pub payload: InstantiatePayload,
}

/// A key-value attribute of an event.
#[derive(Debug, Clone, PartialEq, Eq)]
pub struct Attribute {
    pub key: String,
    pub value: String,
}

/// An event emitted by a creation call.
#[derive(Debug, Clone, PartialEq, Eq)]
pub struct Event {
    pub ty: String,
    pub attributes: Vec<Attribute>,
}

/// How a continuation moved the saga on.
#[derive(Debug, Clone, PartialEq, Eq)]
pub enum ReplyOutcome {
    /// The next creation call to issue.
    Next(InstantiateRequest),
    /// The market at this address is registered and the saga is over.
    Registered(String),
}

/// The queries the factory answers.
#[derive(Debug, Clone, PartialEq, Eq)]
pub enum QueryMsg {
    GetConfig {},
    GetPollCount {},
    GetPollAt { index: u64 },
    IsPollFromFactory { poll_address: String },
    GetPollDetails { poll_address: String },
    GetMarketStats {},
    ListActivePolls { start_after: Option<String>, limit: Option<u32> },
}

/// The factory's configuration.
#[derive(Debug, Clone, PartialEq, Eq)]
pub struct ConfigResponse {
    pub owner: String,
    pub initial_fee: u128,
    pub protocol_fee: u64,
    pub poll_code_id: u64,
    pub token_code_id: u64,
    pub denom: String,
}

/// How many markets are registered.
#[derive(Debug, Clone, PartialEq, Eq)]
pub struct PollCountResponse {
    pub count: u64,
}

/// A registered market's address.
#[derive(Debug, Clone, PartialEq, Eq)]
pub struct PollResponse {
    pub address: String,
}

/// Whether an address is a registered market, and its description if so.
#[derive(Debug, Clone, PartialEq, Eq)]
pub struct PollDetailsResponse {
    pub exists: bool,
    pub description: Option<String>,
}

/// The answer to a query.
#[derive(Debug, Clone, PartialEq, Eq)]
pub enum QueryResponse {
    Config(ConfigResponse),
    PollCount(PollCountResponse),
    Poll(PollResponse),
    IsPollFromFactory(bool),
    PollDetails(PollDetailsResponse),
    MarketStats(crate::factory::state::MarketStats),
    ActivePolls(Vec<PollResponse>),
}

} // verus!
