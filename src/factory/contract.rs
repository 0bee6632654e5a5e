//! The factory's creation and the provisioning saga. A market is provisioned in three
//! creation calls, each issued once the previous one has reported the address it created:
//! the YES token, the NO token, then the market itself, which is then registered. Each
//! saga in flight keeps its own record, keyed by its number, which its continuation tags
//! carry.

use crate::coin::{find_payment, payment_of, Coin};
use crate::factory::error::{ContractError, RequiredField};
use crate::factory::msg::{
    Attribute, Event, InstantiateMsg, InstantiatePayload, InstantiateRequest, ReplyOutcome,
    TokenInstantiateMsg,
};
use crate::factory::state::{
    awaited_step, pending_position, poll_registered, reply_id_of, saga_of, saga_pending, step_of,
    Config, FactoryState, MarketStats, PendingPoll, PollInfo, TempPollData, MAX_DURATION,
    MAX_PROTOCOL_FEE, MAX_SAGAS, MIN_DURATION, REPLY_NO_TOKEN_INIT, REPLY_POLL_INIT,
    REPLY_YES_TOKEN_INIT, TOKEN_DECIMALS,
};
use crate::poll::contract::stakers_contains;
use crate::poll::msg::InstantiateMsg as PollInstantiateMsg;
use crate::poll::state::staker_listed;
use vstd::prelude::*;
use vstd::string::StringExecFns;

verus! {

/// The factory's payment denomination.
pub open spec fn factory_denom() -> Seq<char> {
    seq!['u', 'x', 'i', 'o', 'n']
}

/// Creates the factory, owned by `sender`, with no market registered and none in flight.
pub fn instantiate(sender: &String, msg: InstantiateMsg) -> (r: Result<FactoryState, ContractError>)
    ensures
        r is Err <==> msg.protocol_fee > MAX_PROTOCOL_FEE,
        r matches Err(err) ==> err matches ContractError::InvalidFee(m) && m@
            == "Protocol fee too high"@,
        r matches Ok(s) ==> {
            &&& s.wf()
            &&& s.config.owner == *sender
            &&& s.config.initial_fee == msg.initial_fee
            &&& s.config.protocol_fee == msg.protocol_fee
            &&& s.config.poll_code_id == msg.poll_code_id
            &&& s.config.token_code_id == msg.token_code_id
            &&& s.config.denom@ == factory_denom()
            &&& s.polls@.len() == 0
            &&& s.pending@.len() == 0
            &&& s.participants@.len() == 0
            &&& s.stats == MarketStats {
                total_value_locked: 0,
                active_polls_count: 0,
                total_polls_created: 0,
                total_unique_participants: 0,
            }
        },
{
    if msg.protocol_fee > MAX_PROTOCOL_FEE {
        return Err(ContractError::InvalidFee(String::from_str("Protocol fee too high")));
    }
    let denom = String::from_str("uxion");
    proof {
        reveal_strlit("uxion");
    }
    Ok(
        FactoryState {
            config: Config {
                owner: sender.clone(),
                initial_fee: msg.initial_fee,
                protocol_fee: msg.protocol_fee,
                poll_code_id: msg.poll_code_id,
                token_code_id: msg.token_code_id,
                denom,
            },
            polls: Vec::new(),
            pending: Vec::new(),
            stats: MarketStats {
                total_value_locked: 0,
                active_polls_count: 0,
                total_polls_created: 0,
                total_unique_participants: 0,
            },
            participants: Vec::new(),
        },
    )
}

/// Why a market creation is refused, if it is: the fee is missing or wrong, the duration
/// is out of bounds, or a required field is empty, checked in that order.
pub open spec fn create_refusal(
    config: Config,
    funds: Seq<Coin>,
    duration: u64,
    question: Seq<char>,
    yes_token_name: Seq<char>,
    yes_token_symbol: Seq<char>,
    no_token_name: Seq<char>,
    no_token_symbol: Seq<char>,
) -> Option<ContractError> {
    match payment_of(funds, config.denom@) {
        None => Some(ContractError::NoXionPayment {  }),
        Some(paid) => if paid != config.initial_fee {
            Some(ContractError::InvalidFeeAmount {  })
        } else if duration < MIN_DURATION || duration > MAX_DURATION {
            Some(ContractError::InvalidDuration { min: MIN_DURATION, max: MAX_DURATION })
        } else if question.len() == 0 {
            Some(ContractError::EmptyField { field: RequiredField::Question })
        } else if yes_token_name.len() == 0 {
            Some(ContractError::EmptyField { field: RequiredField::YesTokenName })
        } else if yes_token_symbol.len() == 0 {
            Some(ContractError::EmptyField { field: RequiredField::YesTokenSymbol })
        } else if no_token_name.len() == 0 {
            Some(ContractError::EmptyField { field: RequiredField::NoTokenName })
        } else if no_token_symbol.len() == 0 {
            Some(ContractError::EmptyField { field: RequiredField::NoTokenSymbol })
        } else {
            None
        },
    }
}

/// Whether `req` creates an outcome token named `name` / `symbol` for the saga `d`: 18
/// decimals, minted by the market's creator, who also administers it, and labelled with
/// `label_prefix` followed by the question.
pub open spec fn is_token_request(
    req: InstantiateRequest,
    reply_id: int,
    code_id: u64,
    label_prefix: Seq<char>,
    d: TempPollData,
    name: String,
    symbol: String,
) -> bool {
    &&& req.reply_id == reply_id
    &&& req.admin == d.creator
    &&& req.code_id == code_id
    &&& req.label@ == label_prefix + d.question@
    &&& req.payload == InstantiatePayload::Token(
        TokenInstantiateMsg { name, symbol, decimals: TOKEN_DECIMALS, minter: d.creator },
    )
}

/// The saga record a market creation starts.
pub open spec fn new_saga_data(
    creator: String,
    question: String,
    avatar: String,
    description: String,
    duration: u64,
    yes_token_name: String,
    yes_token_symbol: String,
    no_token_name: String,
    no_token_symbol: String,
) -> TempPollData {
    TempPollData {
        creator,
        question,
        avatar,
        description,
        yes_token_name,
        yes_token_symbol,
        no_token_name,
        no_token_symbol,
        yes_token: None,
        no_token: None,
        duration,
    }
}

/// The creation call of an outcome token for saga `saga_id`.
fn token_request(
    reply_id: u64,
    code_id: u64,
    label_prefix: &str,
    d: &TempPollData,
    name: &String,
    symbol: &String,
) -> (r: InstantiateRequest)
    ensures
        is_token_request(r, reply_id as int, code_id, label_prefix@, *d, *name, *symbol),
{
    let label = String::from_str(label_prefix).concat(d.question.as_str());
    InstantiateRequest {
        reply_id,
        admin: d.creator.clone(),
        code_id,
        label,
        payload: InstantiatePayload::Token(
            TokenInstantiateMsg {
                name: name.clone(),
                symbol: symbol.clone(),
                decimals: TOKEN_DECIMALS,
                minter: d.creator.clone(),
            },
        ),
    }
}

/// Starts provisioning a market for `sender`, who attached `funds` to pay the creation fee.
///
/// The new saga is numbered by the count of markets created so far; its record is stored,
/// the counters move on, and the creation call of the YES token is returned. Nothing else
/// is issued until that call reports back.
pub fn execute_create_poll(
    state: &mut FactoryState,
    sender: &String,
    funds: &Vec<Coin>,
    question: String,
    avatar: String,
    description: String,
    duration: u64,
    yes_token_name: String,
    yes_token_symbol: String,
    no_token_name: String,
    no_token_symbol: String,
) -> (r: Result<InstantiateRequest, ContractError>)
    requires
        old(state).wf(),
        old(state).stats.total_polls_created < MAX_SAGAS,
    ensures
        final(state).wf(),
        r is Err <==> create_refusal(
            old(state).config,
            funds@,
            duration,
            question@,
            yes_token_name@,
            yes_token_symbol@,
            no_token_name@,
            no_token_symbol@,
        ) is Some,
        r matches Err(err) ==> create_refusal(
            old(state).config,
            funds@,
            duration,
            question@,
            yes_token_name@,
            yes_token_symbol@,
            no_token_name@,
            no_token_symbol@,
        ) == Some(err),
        r is Err ==> *final(state) == *old(state),
        r matches Ok(req) ==> {
            let s0 = *old(state);
            let s1 = *final(state);
            let saga_id = s0.stats.total_polls_created;
            let d = new_saga_data(
                *sender,
                question,
                avatar,
                description,
                duration,
                yes_token_name,
                yes_token_symbol,
                no_token_name,
                no_token_symbol,
            );
            let newcomer = !staker_listed(s0.participants@, sender@);
            &&& s1.pending@ == s0.pending@.push(PendingPoll { saga_id, data: d })
            &&& is_token_request(
                req,
                reply_id_of(saga_id, REPLY_YES_TOKEN_INIT),
                s0.config.token_code_id,
                "YES Token for Poll "@,
                d,
                d.yes_token_name,
                d.yes_token_symbol,
            )
            &&& s1.stats == MarketStats {
                active_polls_count: (s0.stats.active_polls_count + 1) as u64,
                total_polls_created: (saga_id + 1) as u64,
                total_unique_participants: (s0.stats.total_unique_participants + if newcomer {
                    1int
                } else {
                    0int
                }) as u64,
                ..s0.stats
            }
            &&& s1.participants@ == if newcomer {
                s0.participants@.push(*sender)
            } else {
                s0.participants@
            }
            &&& s1.config == s0.config
            &&& s1.polls == s0.polls
        },
{
    match find_payment(funds, &state.config.denom) {
        None => {
            return Err(ContractError::NoXionPayment {  });
        },
        Some(paid) => {
            if paid != state.config.initial_fee {
                return Err(ContractError::InvalidFeeAmount {  });
            }
        },
    }
    if duration < MIN_DURATION || duration > MAX_DURATION {
        return Err(ContractError::InvalidDuration { min: MIN_DURATION, max: MAX_DURATION });
    }
    if question.as_str().is_empty() {
        return Err(ContractError::EmptyField { field: RequiredField::Question });
    }
    if yes_token_name.as_str().is_empty() {
        return Err(ContractError::EmptyField { field: RequiredField::YesTokenName });
    }
    if yes_token_symbol.as_str().is_empty() {
        return Err(ContractError::EmptyField { field: RequiredField::YesTokenSymbol });
    }
    if no_token_name.as_str().is_empty() {
        return Err(ContractError::EmptyField { field: RequiredField::NoTokenName });
    }
    if no_token_symbol.as_str().is_empty() {
        return Err(ContractError::EmptyField { field: RequiredField::NoTokenSymbol });
    }
    let saga_id = state.stats.total_polls_created;
    let data = TempPollData {
        creator: sender.clone(),
        question,
        avatar,
        description,
        yes_token_name,
        yes_token_symbol,
        no_token_name,
        no_token_symbol,
        yes_token: None,
        no_token: None,
        duration,
    };
    let req = token_request(
        saga_id * 3 + REPLY_YES_TOKEN_INIT,
        state.config.token_code_id,
        "YES Token for Poll ",
        &data,
        &data.yes_token_name,
        &data.yes_token_symbol,
    );
    let ghost s0 = *state;
    state.pending.push(PendingPoll { saga_id, data });
    let newcomer = !stakers_contains(&state.participants, sender);
    if newcomer {
        state.participants.push(sender.clone());
        state.stats.total_unique_participants = state.stats.total_unique_participants + 1;
    }
    state.stats.active_polls_count = state.stats.active_polls_count + 1;
    state.stats.total_polls_created = saga_id + 1;
    proof {
        let s1 = *state;
        assert forall|k: int| 0 <= k < s1.pending@.len() implies (#[trigger] s1.pending@[k]).saga_id
            < s1.stats.total_polls_created by {
            if k < s0.pending@.len() {
                assert(s1.pending@[k] == s0.pending@[k]);
            }
        }
        assert forall|k1: int, k2: int|
            0 <= k1 < s1.pending@.len() && 0 <= k2 < s1.pending@.len() && k1 != k2 implies (
            #[trigger] s1.pending@[k1]).saga_id != (#[trigger] s1.pending@[k2]).saga_id by {
            if k1 < s0.pending@.len() {
                assert(s1.pending@[k1] == s0.pending@[k1]);
            }
            if k2 < s0.pending@.len() {
                assert(s1.pending@[k2] == s0.pending@[k2]);
            }
        }
    }
    Ok(req)
}

/// The value of the first attribute whose key is `_contract_address`.
pub open spec fn address_in_attributes(attributes: Seq<Attribute>) -> Option<String>
    decreases attributes.len(),
{
    if attributes.len() == 0 {
        None
    } else if attributes[0].key@ == "_contract_address"@ {
        Some(attributes[0].value)
    } else {
        address_in_attributes(attributes.subrange(1, attributes.len() as int))
    }
}

/// The created contract's address, as the first `_contract_address` attribute of the
/// creation's events reports it.
pub open spec fn address_in_events(events: Seq<Event>) -> Option<String>
    decreases events.len(),
{
    if events.len() == 0 {
        None
    } else {
        match address_in_attributes(events[0].attributes@) {
            Some(a) => Some(a),
            None => address_in_events(events.subrange(1, events.len() as int)),
        }
    }
}

/// The value of the first attribute whose key is `_contract_address`.
fn find_in_attributes(attributes: &Vec<Attribute>, key: &String) -> (r: Option<String>)
    requires
        key@ == "_contract_address"@,
    ensures
        r == address_in_attributes(attributes@),
{
    let mut i: usize = 0;
    assert(attributes@.subrange(0, attributes@.len() as int) =~= attributes@);
    while i < attributes.len()
        invariant
            0 <= i <= attributes@.len(),
            key@ == "_contract_address"@,
            address_in_attributes(attributes@) == address_in_attributes(
                attributes@.subrange(i as int, attributes@.len() as int),
            ),
        decreases attributes.len() - i,
    {
        let ghost rest = attributes@.subrange(i as int, attributes@.len() as int);
        assert(rest.subrange(1, rest.len() as int) =~= attributes@.subrange(
            i + 1,
            attributes@.len() as int,
        ));
        if attributes[i].key == *key {
            return Some(attributes[i].value.clone());
        }
        i = i + 1;
    }
    None
}

/// The created contract's address, as the first `_contract_address` attribute of the
/// creation's events reports it.
pub fn find_contract_address(events: &Vec<Event>) -> (r: Option<String>)
    ensures
        r == address_in_events(events@),
{
    let key = String::from_str("_contract_address");
    let mut i: usize = 0;
    assert(events@.subrange(0, events@.len() as int) =~= events@);
    while i < events.len()
        invariant
            0 <= i <= events@.len(),
            key@ == "_contract_address"@,
            address_in_events(events@) == address_in_events(
                events@.subrange(i as int, events@.len() as int),
            ),
        decreases events.len() - i,
    {
        let ghost rest = events@.subrange(i as int, events@.len() as int);
        assert(rest.subrange(1, rest.len() as int) =~= events@.subrange(
            i + 1,
            events@.len() as int,
        ));
        let found = find_in_attributes(&events[i].attributes, &key);
        if found.is_some() {
            return found;
        }
        i = i + 1;
    }
    None
}

/// Whether `req` creates the market of saga `d`, administered by its creator, controlled
/// by the factory at `factory`, and labelled `Poll for` followed by the question.
pub open spec fn is_poll_request(
    req: InstantiateRequest,
    reply_id: int,
    config: Config,
    d: TempPollData,
    factory: String,
) -> bool {
    &&& req.reply_id == reply_id
    &&& req.admin == d.creator
    &&& req.code_id == config.poll_code_id
    &&& req.label@ == "Poll for "@ + d.question@
    &&& req.payload == InstantiatePayload::Poll(
        PollInstantiateMsg {
            capy_core: factory,
            poll_creator: d.creator,
            yes_token: d.yes_token->Some_0,
            no_token: d.no_token->Some_0,
            duration: d.duration,
            denom: config.denom,
        },
    )
}

/// The creation call of the market of saga `d`.
fn poll_request(reply_id: u64, config: &Config, d: &TempPollData, factory: &String) -> (r:
    InstantiateRequest)
    requires
        d.yes_token is Some,
        d.no_token is Some,
    ensures
        is_poll_request(r, reply_id as int, *config, *d, *factory),
{
    let label = String::from_str("Poll for ").concat(d.question.as_str());
    let yes_token = match &d.yes_token {
        Some(a) => a.clone(),
        None => String::new(),
    };
    let no_token = match &d.no_token {
        Some(a) => a.clone(),
        None => String::new(),
    };
    InstantiateRequest {
        reply_id,
        admin: d.creator.clone(),
        code_id: config.poll_code_id,
        label,
        payload: InstantiatePayload::Poll(
            PollInstantiateMsg {
                capy_core: factory.clone(),
                poll_creator: d.creator.clone(),
                yes_token,
                no_token,
                duration: d.duration,
                denom: config.denom.clone(),
            },
        ),
    }
}

/// Why a continuation is refused, if it is: its tag names no saga in flight or a step the
/// saga is not waiting for, the creation failed, its result names no address, or the
/// market's address is registered already.
pub open spec fn reply_refusal(s: FactoryState, id: u64, result: Result<Vec<Event>, String>) -> Option<
    ContractError,
> {
    if id == 0 || !saga_pending(s.pending@, saga_of(id)) || awaited_step(
        s.pending@[pending_position(s.pending@, saga_of(id))].data,
    ) != step_of(id) {
        Some(ContractError::UnknownReplyId { id })
    } else {
        match result {
            Err(_) => Some(ContractError::InstantiateFailed {  }),
            Ok(events) => match address_in_events(events@) {
                None => Some(ContractError::NoContractAddress {  }),
                Some(addr) => if step_of(id) == REPLY_POLL_INIT && poll_registered(
                    s.polls@,
                    addr@,
                ) {
                    Some(ContractError::PollAlreadyExists {  })
                } else {
                    None
                },
            },
        }
    }
}

/// The address a successful creation reports.
pub open spec fn created_address(result: Result<Vec<Event>, String>) -> String {
    address_in_events(result->Ok_0@)->Some_0
}

/// The position of the saga numbered `saga_id` among those in flight.
fn find_pending(pending: &Vec<PendingPoll>, saga_id: u64) -> (r: Option<usize>)
    ensures
        r is None ==> !saga_pending(pending@, saga_id),
        r matches Some(k) ==> k < pending@.len() && pending@[k as int].saga_id == saga_id,
{
    let mut i: usize = 0;
    while i < pending.len()
        invariant
            0 <= i <= pending@.len(),
            forall|k: int| 0 <= k < i ==> (#[trigger] pending@[k]).saga_id != saga_id,
        decreases pending.len() - i,
    {
        if pending[i].saga_id == saga_id {
            return Some(i);
        }
        i = i + 1;
    }
    None
}

/// Whether a market with this address is registered.
pub fn polls_contains(polls: &Vec<PollInfo>, addr: &String) -> (r: bool)
    ensures
        r == poll_registered(polls@, addr@),
{
    let mut i: usize = 0;
    while i < polls.len()
        invariant
            0 <= i <= polls@.len(),
            forall|k: int| 0 <= k < i ==> (#[trigger] polls@[k]).poll_addr@ != addr@,
        decreases polls.len() - i,
    {
        if polls[i].poll_addr == *addr {
            return true;
        }
        i = i + 1;
    }
    false
}

/// Resumes a saga with the continuation tagged `id`, where `result` is the outcome of the
/// creation call it followed and `contract_address` the factory's own address.
///
/// After the YES token, its address is stored and the NO token's creation is returned;
/// after the NO token, its address is stored and the market's creation is returned; after
/// the market, the market is registered under its address, at the end of the registry, and
/// the saga's record is deleted.
pub fn reply(
    state: &mut FactoryState,
    id: u64,
    result: &Result<Vec<Event>, String>,
    contract_address: &String,
) -> (r: Result<ReplyOutcome, ContractError>)
    requires
        old(state).wf(),
    ensures
        final(state).wf(),
        r is Err <==> reply_refusal(*old(state), id, *result) is Some,
        r matches Err(err) ==> reply_refusal(*old(state), id, *result) == Some(err),
        r is Err ==> *final(state) == *old(state),
        r matches Ok(out) ==> {
            let s0 = *old(state);
            let s1 = *final(state);
            let saga_id = saga_of(id);
            let k = pending_position(s0.pending@, saga_id);
            let d = s0.pending@[k].data;
            let addr = created_address(*result);
            &&& s1.config == s0.config
            &&& s1.stats == s0.stats
            &&& s1.participants == s0.participants
            &&& step_of(id) == REPLY_YES_TOKEN_INIT ==> {
                let d1 = TempPollData { yes_token: Some(addr), ..d };
                &&& s1.pending@ == s0.pending@.update(k, PendingPoll { saga_id, data: d1 })
                &&& s1.polls == s0.polls
                &&& out matches ReplyOutcome::Next(req) && is_token_request(
                    req,
                    reply_id_of(saga_id, REPLY_NO_TOKEN_INIT),
                    s0.config.token_code_id,
                    "NO Token for Poll "@,
                    d1,
                    d.no_token_name,
                    d.no_token_symbol,
                )
            }
            &&& step_of(id) == REPLY_NO_TOKEN_INIT ==> {
                let d2 = TempPollData { no_token: Some(addr), ..d };
                &&& s1.pending@ == s0.pending@.update(k, PendingPoll { saga_id, data: d2 })
                &&& s1.polls == s0.polls
                &&& out matches ReplyOutcome::Next(req) && is_poll_request(
                    req,
                    reply_id_of(saga_id, REPLY_POLL_INIT),
                    s0.config,
                    d2,
                    *contract_address,
                )
            }
            &&& step_of(id) == REPLY_POLL_INIT ==> {
                &&& s1.pending@ == s0.pending@.remove(k)
                &&& s1.polls@ == s0.polls@.push(
                    PollInfo {
                        creator: d.creator,
                        question: d.question,
                        avatar: d.avatar,
                        description: d.description,
                        yes_token: d.yes_token->Some_0,
                        no_token: d.no_token->Some_0,
                        poll_addr: addr,
                    },
                )
                &&& out == ReplyOutcome::Registered(addr)
            }
        },
{
    if id == 0 {
        return Err(ContractError::UnknownReplyId { id });
    }
    let saga_id = (id - 1) / 3;
    let step = (id - 1) % 3 + 1;
    let k = match find_pending(&state.pending, saga_id) {
        None => {
            return Err(ContractError::UnknownReplyId { id });
        },
        Some(k) => k,
    };
    let ghost s0 = *state;
    proof {
        let chosen = pending_position(s0.pending@, saga_id);
        assert(saga_pending(s0.pending@, saga_id));
        assert(s0.pending@[chosen].saga_id == saga_id);
        assert(chosen == k);
    }
    let awaited = if state.pending[k].data.yes_token.is_none() {
        REPLY_YES_TOKEN_INIT
    } else if state.pending[k].data.no_token.is_none() {
        REPLY_NO_TOKEN_INIT
    } else {
        REPLY_POLL_INIT
    };
    if awaited != step {
        return Err(ContractError::UnknownReplyId { id });
    }
    let events = match result {
        Err(_) => {
            return Err(ContractError::InstantiateFailed {  });
        },
        Ok(events) => events,
    };
    let addr = match find_contract_address(events) {
        None => {
            return Err(ContractError::NoContractAddress {  });
        },
        Some(a) => a,
    };
    if step == REPLY_YES_TOKEN_INIT {
        state.pending[k].data.yes_token = Some(addr);
        let req = token_request(
            saga_id * 3 + REPLY_NO_TOKEN_INIT,
            state.config.token_code_id,
            "NO Token for Poll ",
            &state.pending[k].data,
            &state.pending[k].data.no_token_name,
            &state.pending[k].data.no_token_symbol,
        );
        proof {
            let s1 = *state;
            assert(s1.pending@ =~= s0.pending@.update(
                k as int,
                PendingPoll {
                    saga_id,
                    data: TempPollData { yes_token: Some(addr), ..s0.pending@[k as int].data },
                },
            ));
            assert forall|j: int| 0 <= j < s1.pending@.len() implies (#[trigger] s1.pending@[j]).saga_id
                == s0.pending@[j].saga_id by {}
        }
        Ok(ReplyOutcome::Next(req))
    } else if step == REPLY_NO_TOKEN_INIT {
        state.pending[k].data.no_token = Some(addr);
        let req = poll_request(
            saga_id * 3 + REPLY_POLL_INIT,
            &state.config,
            &state.pending[k].data,
            contract_address,
        );
        proof {
            let s1 = *state;
            assert(s1.pending@ =~= s0.pending@.update(
                k as int,
                PendingPoll {
                    saga_id,
                    data: TempPollData { no_token: Some(addr), ..s0.pending@[k as int].data },
                },
            ));
            assert forall|j: int| 0 <= j < s1.pending@.len() implies (#[trigger] s1.pending@[j]).saga_id
                == s0.pending@[j].saga_id by {}
        }
        Ok(ReplyOutcome::Next(req))
    } else {
        if polls_contains(&state.polls, &addr) {
            return Err(ContractError::PollAlreadyExists {  });
        }
        let done = state.pending.remove(k);
        let d = done.data;
        let yes_token = match d.yes_token {
            Some(a) => a,
            None => String::new(),
        };
        let no_token = match d.no_token {
            Some(a) => a,
            None => String::new(),
        };
        let registered = addr.clone();
        state.polls.push(
            PollInfo {
                creator: d.creator,
                question: d.question,
                avatar: d.avatar,
                description: d.description,
                yes_token,
                no_token,
                poll_addr: addr,
            },
        );
        proof {
            let s1 = *state;
            assert forall|j: int| 0 <= j < s1.pending@.len() implies (#[trigger] s1.pending@[j]).saga_id
                < s1.stats.total_polls_created by {
                if j < k {
                    assert(s1.pending@[j] == s0.pending@[j]);
                } else {
                    assert(s1.pending@[j] == s0.pending@[j + 1]);
                }
            }
            assert forall|j1: int, j2: int|
                0 <= j1 < s1.pending@.len() && 0 <= j2 < s1.pending@.len() && j1 != j2 implies (
                #[trigger] s1.pending@[j1]).saga_id != (#[trigger] s1.pending@[j2]).saga_id by {
                let o1 = if j1 < k { j1 } else { j1 + 1 };
                let o2 = if j2 < k { j2 } else { j2 + 1 };
                assert(s1.pending@[j1] == s0.pending@[o1]);
                assert(s1.pending@[j2] == s0.pending@[o2]);
            }
            assert forall|j1: int, j2: int|
                0 <= j1 < s1.polls@.len() && 0 <= j2 < s1.polls@.len() && j1 != j2 implies (
                #[trigger] s1.polls@[j1]).poll_addr@ != (#[trigger] s1.polls@[j2]).poll_addr@ by {
                if j1 < s0.polls@.len() && j2 < s0.polls@.len() {
                    assert(s1.polls@[j1] == s0.polls@[j1]);
                    assert(s1.polls@[j2] == s0.polls@[j2]);
                } else if j1 < s0.polls@.len() {
                    assert(s1.polls@[j1] == s0.polls@[j1]);
                } else {
                    assert(s1.polls@[j2] == s0.polls@[j2]);
                }
            }
        }
        Ok(ReplyOutcome::Registered(registered))
    }
}

} // verus!
