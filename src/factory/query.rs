//! The factory's queries.

use crate::factory::contract::polls_contains;
use crate::factory::error::ContractError;
use crate::factory::msg::{
    ConfigResponse, PollCountResponse, PollDetailsResponse, PollResponse, QueryMsg, QueryResponse,
};
use crate::factory::state::{poll_registered, FactoryState, MarketStats};
use vstd::prelude::*;

verus! {

/// A market as listed for paging: its address and whether it is resolved.
#[derive(Debug, Clone, PartialEq, Eq)]
pub struct PollStatus {
    pub address: String,
    pub is_resolved: bool,
}

/// The factory's configuration.
pub fn query_config(state: &FactoryState) -> (r: ConfigResponse)
    ensures
        r == (ConfigResponse {
            owner: state.config.owner,
            initial_fee: state.config.initial_fee,
            protocol_fee: state.config.protocol_fee,
            poll_code_id: state.config.poll_code_id,
            token_code_id: state.config.token_code_id,
            denom: state.config.denom,
        }),
{
    ConfigResponse {
        owner: state.config.owner.clone(),
        initial_fee: state.config.initial_fee,
        protocol_fee: state.config.protocol_fee,
        poll_code_id: state.config.poll_code_id,
        token_code_id: state.config.token_code_id,
        denom: state.config.denom.clone(),
    }
}

/// How many markets are registered.
pub fn query_poll_count(state: &FactoryState) -> (r: PollCountResponse)
    ensures
        r.count == state.polls@.len(),
{
    PollCountResponse { count: state.polls.len() as u64 }
}

/// The address of the market registered in position `index`.
pub fn query_poll_at(state: &FactoryState, index: u64) -> (r: Result<PollResponse, ContractError>)
    ensures
        r is Err <==> index >= state.polls@.len(),
        r is Err ==> r == Err::<PollResponse, ContractError>(ContractError::IndexOutOfBounds {  }),
        r matches Ok(p) ==> p.address == state.polls@[index as int].poll_addr,
{
    if index >= state.polls.len() as u64 {
        return Err(ContractError::IndexOutOfBounds {  });
    }
    Ok(PollResponse { address: state.polls[index as usize].poll_addr.clone() })
}

/// Whether a market with this address is registered.
pub fn query_is_poll_from_factory(state: &FactoryState, poll_address: &String) -> (r: bool)
    ensures
        r == poll_registered(state.polls@, poll_address@),
{
    polls_contains(&state.polls, poll_address)
}

/// Whether a market with this address is registered, and its description if so.
pub fn query_poll_details(state: &FactoryState, poll_address: &String) -> (r: PollDetailsResponse)
    ensures
        r.exists == poll_registered(state.polls@, poll_address@),
        r.description is Some == r.exists,
        r.description matches Some(d) ==> exists|k: int|
            0 <= k < state.polls@.len() && (#[trigger] state.polls@[k]).poll_addr@ == poll_address@
                && state.polls@[k].description == d,
{
    let mut i: usize = 0;
    while i < state.polls.len()
        invariant
            0 <= i <= state.polls@.len(),
            forall|k: int| 0 <= k < i ==> (#[trigger] state.polls@[k]).poll_addr@ != poll_address@,
        decreases state.polls.len() - i,
    {
        if state.polls[i].poll_addr == *poll_address {
            return PollDetailsResponse {
                exists: true,
                description: Some(state.polls[i].description.clone()),
            };
        }
        i = i + 1;
    }
    PollDetailsResponse { exists: false, description: None }
}

/// The factory's counters.
pub fn query_market_stats(state: &FactoryState) -> (r: MarketStats)
    ensures
        r == state.stats,
{
    state.stats
}

/// Default page size of the market listing.
pub const DEFAULT_PAGE_LIMIT: u32 = 10;

/// The unresolved markets among `candidates`, in order, as many as `limit` allows.
pub open spec fn active_page(candidates: Seq<PollStatus>, limit: nat) -> Seq<String>
    decreases candidates.len(),
{
    if candidates.len() == 0 || limit == 0 {
        Seq::empty()
    } else if candidates[0].is_resolved {
        active_page(candidates.subrange(1, candidates.len() as int), limit)
    } else {
        seq![candidates[0].address] + active_page(
            candidates.subrange(1, candidates.len() as int),
            (limit - 1) as nat,
        )
    }
}

/// A page of the market listing: from `candidates`, the markets in listing order after the
/// cursor, the first `limit` (ten by default) that are not resolved.
pub fn query_active_polls(candidates: &Vec<PollStatus>, limit: Option<u32>) -> (r: Vec<PollResponse>)
    ensures
        r@.map_values(|p: PollResponse| p.address) == active_page(
            candidates@,
            (match limit {
                Some(l) => l,
                None => DEFAULT_PAGE_LIMIT,
            }) as nat,
        ),
{
    let limit = match limit {
        Some(l) => l,
        None => DEFAULT_PAGE_LIMIT,
    };
    let ghost all = candidates@;
    let mut page: Vec<PollResponse> = Vec::new();
    let mut left: u32 = limit;
    let mut i: usize = 0;
    assert(all.subrange(0, all.len() as int) =~= all);
    while i < candidates.len() && left > 0
        invariant
            0 <= i <= all.len(),
            all == candidates@,
            page@.map_values(|p: PollResponse| p.address) + active_page(
                all.subrange(i as int, all.len() as int),
                left as nat,
            ) == active_page(all, limit as nat),
        decreases all.len() - i,
    {
        let ghost rest = all.subrange(i as int, all.len() as int);
        assert(rest.subrange(1, rest.len() as int) =~= all.subrange(i + 1, all.len() as int));
        assert(rest[0] == all[i as int]);
        if !candidates[i].is_resolved {
            let ghost before = page@.map_values(|p: PollResponse| p.address);
            page.push(PollResponse { address: candidates[i].address.clone() });
            assert(page@.map_values(|p: PollResponse| p.address) =~= before.push(
                candidates@[i as int].address,
            ));
            assert(before.push(candidates@[i as int].address) + active_page(
                all.subrange(i + 1, all.len() as int),
                (left - 1) as nat,
            ) =~= before + (seq![candidates@[i as int].address] + active_page(
                all.subrange(i + 1, all.len() as int),
                (left - 1) as nat,
            )));
            left = left - 1;
        }
        i = i + 1;
    }
    assert(active_page(all.subrange(i as int, all.len() as int), left as nat) =~= Seq::<
        String,
    >::empty());
    assert(page@.map_values(|p: PollResponse| p.address) + Seq::<String>::empty()
        =~= page@.map_values(|p: PollResponse| p.address));
    page
}

/// Answers a query. For a listing, `candidates` are the registered markets after the
/// listing's cursor, in listing order, each with whether it is resolved.
pub fn query(state: &FactoryState, msg: &QueryMsg, candidates: &Vec<PollStatus>) -> (r: Result<
    QueryResponse,
    ContractError,
>)
    ensures
        *msg is GetPollCount ==> (r matches Ok(QueryResponse::PollCount(c)) && c.count
            == state.polls@.len()),
        *msg is GetMarketStats ==> r == Ok::<QueryResponse, ContractError>(
            QueryResponse::MarketStats(state.stats),
        ),
        *msg matches QueryMsg::GetPollAt { index } ==> if index < state.polls@.len() {
            (r matches Ok(QueryResponse::Poll(p)) && p.address == state.polls@[index as int].poll_addr)
        } else {
            r == Err::<QueryResponse, ContractError>(ContractError::IndexOutOfBounds {  })
        },
        *msg matches QueryMsg::IsPollFromFactory { poll_address } ==> r == Ok::<
            QueryResponse,
            ContractError,
        >(QueryResponse::IsPollFromFactory(poll_registered(state.polls@, poll_address@))),
        *msg matches QueryMsg::GetPollDetails { poll_address } ==> (r matches Ok(
            QueryResponse::PollDetails(d),
        ) && d.exists == poll_registered(state.polls@, poll_address@)),
        *msg is GetConfig ==> (r matches Ok(QueryResponse::Config(c)) && c.owner
            == state.config.owner && c.initial_fee == state.config.initial_fee && c.protocol_fee
            == state.config.protocol_fee && c.poll_code_id == state.config.poll_code_id
            && c.token_code_id == state.config.token_code_id && c.denom == state.config.denom),
        *msg matches QueryMsg::ListActivePolls { start_after, limit } ==> (r matches Ok(
            QueryResponse::ActivePolls(page),
        ) && page@.map_values(|p: PollResponse| p.address) == active_page(
            candidates@,
            (match limit {
                Some(l) => l,
                None => DEFAULT_PAGE_LIMIT,
            }) as nat,
        )),
{
    match msg {
        QueryMsg::GetConfig {  } => Ok(QueryResponse::Config(query_config(state))),
        QueryMsg::GetPollCount {  } => Ok(QueryResponse::PollCount(query_poll_count(state))),
        QueryMsg::GetPollAt { index } => match query_poll_at(state, *index) {
            Ok(p) => Ok(QueryResponse::Poll(p)),
            Err(e) => Err(e),
        },
        QueryMsg::IsPollFromFactory { poll_address } => Ok(
            QueryResponse::IsPollFromFactory(query_is_poll_from_factory(state, poll_address)),
        ),
        QueryMsg::GetPollDetails { poll_address } => Ok(
            QueryResponse::PollDetails(query_poll_details(state, poll_address)),
        ),
        QueryMsg::GetMarketStats {  } => Ok(QueryResponse::MarketStats(query_market_stats(state))),
        QueryMsg::ListActivePolls { start_after: _, limit } => Ok(
            QueryResponse::ActivePolls(query_active_polls(candidates, *limit)),
        ),
    }
}

} // verus!
