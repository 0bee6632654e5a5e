use capypolls::coin::Coin;
use capypolls::factory::admin::{
    execute_set_initial_fee, execute_set_protocol_fee, execute_update_poll_code_id,
    execute_update_token_code_id, execute_withdraw_fees,
};
use capypolls::factory::contract::{execute_create_poll, find_contract_address, instantiate, reply};
use capypolls::factory::error::{ContractError, RequiredField};
use capypolls::factory::msg::{
    Attribute, Event, InstantiateMsg, InstantiatePayload, InstantiateRequest, QueryMsg,
    QueryResponse, ReplyOutcome,
};
use capypolls::factory::query::{
    query, query_active_polls, query_config, query_is_poll_from_factory, query_poll_at,
    query_poll_count, query_poll_details, PollStatus,
};
use capypolls::factory::state::{FactoryState, REPLY_YES_TOKEN_INIT};

const XION_DENOM: &str = "uxion";

fn setup(owner: &str) -> FactoryState {
    let msg = InstantiateMsg {
        initial_fee: 1000000,
        protocol_fee: 100,
        poll_code_id: 1,
        token_code_id: 2,
    };
    instantiate(&owner.to_string(), msg).unwrap()
}

fn fee() -> Vec<Coin> {
    vec![Coin { denom: XION_DENOM.to_string(), amount: 1000000 }]
}

fn create(state: &mut FactoryState, question: &str) -> Result<InstantiateRequest, ContractError> {
    execute_create_poll(
        state,
        &"creator".to_string(),
        &fee(),
        question.to_string(),
        "avatar_url".to_string(),
        "Test Description".to_string(),
        1000,
        "YES".to_string(),
        "YES".to_string(),
        "NO".to_string(),
        "NO".to_string(),
    )
}

fn created(addr: &str) -> Result<Vec<Event>, String> {
    Ok(vec![Event {
        ty: "instantiate".to_string(),
        attributes: vec![
            Attribute { key: "code_id".to_string(), value: "2".to_string() },
            Attribute { key: "_contract_address".to_string(), value: addr.to_string() },
        ],
    }])
}

#[test]
fn contract_proper_initialization() {
    let state = setup("creator");
    let config = &state.config;
    assert_eq!(config.owner.as_str(), "creator");
    assert_eq!(config.initial_fee, 1000000);
    assert_eq!(config.protocol_fee, 100);
    assert_eq!(config.poll_code_id, 1);
    assert_eq!(config.token_code_id, 2);
    assert_eq!(config.denom, "uxion");
}

#[test]
fn test_create_poll() {
    let mut state = setup("creator");
    // Only the YES token is created at first; the NO token follows once it reports back.
    let req = create(&mut state, "Test Poll?").unwrap();
    assert_eq!(req.reply_id, REPLY_YES_TOKEN_INIT);
    assert_eq!(state.pending.len(), 1);
}

#[test]
fn full_poll_creation_lifecycle() {
    let mut state = setup("owner");
    let req = create(&mut state, "Test Poll?").unwrap();

    assert_eq!(req.reply_id, REPLY_YES_TOKEN_INIT);
    assert_eq!(req.admin, "creator");
    assert_eq!(req.code_id, 2);
    assert_eq!(req.label, "YES Token for Poll Test Poll?");
    match req.payload {
        InstantiatePayload::Token(init) => {
            assert_eq!(init.name, "YES");
            assert_eq!(init.symbol, "YES");
            assert_eq!(init.decimals, 18);
            assert_eq!(init.minter, "creator");
        }
        _ => panic!("Expected WasmMsg::Instantiate"),
    }

    // The count only moves once the market is registered.
    assert_eq!(query_poll_count(&state).count, 0);

    let res = query_config(&state);
    assert_eq!(res.owner, "owner");
    assert_eq!(res.initial_fee, 1000000);
    assert_eq!(res.protocol_fee, 100);
    assert_eq!(res.poll_code_id, 1);
    assert_eq!(res.token_code_id, 2);
    assert_eq!(res.denom, XION_DENOM);
}

#[test]
fn test_fee_management() {
    let mut state = setup("owner");
    let owner = "owner".to_string();

    assert_eq!(execute_set_initial_fee(&mut state, &owner, 2000000), Ok(1000000));
    assert_eq!(state.config.initial_fee, 2000000);

    assert_eq!(execute_set_protocol_fee(&mut state, &owner, 200), Ok(100));
    assert_eq!(state.config.protocol_fee, 200);

    let err = execute_set_protocol_fee(&mut state, &owner, 2000).unwrap_err();
    assert_eq!(err, ContractError::InvalidFee("Fee too high".to_string()));

    let err = execute_set_initial_fee(&mut state, &"anyone".to_string(), 3000000).unwrap_err();
    assert_eq!(err, ContractError::Unauthorized {});
    assert_eq!(state.config.initial_fee, 2000000);
}

#[test]
fn test_code_id_management() {
    let mut state = setup("owner");
    let owner = "owner".to_string();

    assert_eq!(execute_update_poll_code_id(&mut state, &owner, 5), Ok(1));
    assert_eq!(state.config.poll_code_id, 5);

    assert_eq!(execute_update_token_code_id(&mut state, &owner, 6), Ok(2));
    assert_eq!(state.config.token_code_id, 6);

    let err = execute_update_poll_code_id(&mut state, &"anyone".to_string(), 10).unwrap_err();
    assert_eq!(err, ContractError::Unauthorized {});
    assert_eq!(state.config.poll_code_id, 5);
}

#[test]
fn test_poll_queries() {
    let state = setup("owner");

    let res = query_poll_details(&state, &"poll1".to_string());
    assert!(!res.exists);
    assert!(res.description.is_none());

    let err = query_poll_at(&state, 0).unwrap_err();
    assert_eq!(err, ContractError::IndexOutOfBounds {});
}

#[test]
fn instantiate_rejects_protocol_fee_above_ceiling() {
    let msg = InstantiateMsg { initial_fee: 1, protocol_fee: 1001, poll_code_id: 1, token_code_id: 2 };
    let err = instantiate(&"owner".to_string(), msg).unwrap_err();
    assert_eq!(err, ContractError::InvalidFee("Protocol fee too high".to_string()));
    let msg = InstantiateMsg { initial_fee: 1, protocol_fee: 1000, poll_code_id: 1, token_code_id: 2 };
    assert!(instantiate(&"owner".to_string(), msg).is_ok());
}

#[test]
fn create_poll_validates_fee_and_duration() {
    let mut state = setup("owner");
    let sender = "creator".to_string();
    let q = || "Q?".to_string();
    let s = |x: &str| x.to_string();

    let err = execute_create_poll(
        &mut state, &sender, &vec![], q(), s(""), s(""), 1000, s("Y"), s("Y"), s("N"), s("N"),
    )
    .unwrap_err();
    assert_eq!(err, ContractError::NoXionPayment {});

    let low = vec![Coin { denom: XION_DENOM.to_string(), amount: 999999 }];
    let err = execute_create_poll(
        &mut state, &sender, &low, q(), s(""), s(""), 1000, s("Y"), s("Y"), s("N"), s("N"),
    )
    .unwrap_err();
    assert_eq!(err, ContractError::InvalidFeeAmount {});

    for duration in [59u64, 2592001] {
        let err = execute_create_poll(
            &mut state, &sender, &fee(), q(), s(""), s(""), duration, s("Y"), s("Y"), s("N"), s("N"),
        )
        .unwrap_err();
        assert_eq!(err, ContractError::InvalidDuration { min: 60, max: 2592000 });
    }
    for duration in [60u64, 2592000] {
        assert!(execute_create_poll(
            &mut state, &sender, &fee(), q(), s(""), s(""), duration, s("Y"), s("Y"), s("N"), s("N"),
        )
        .is_ok());
    }

    let err = execute_create_poll(
        &mut state, &sender, &fee(), q(), s(""), s(""), 1000, s("Y"), s("Y"), s("N"), s(""),
    )
    .unwrap_err();
    assert_eq!(err, ContractError::EmptyField { field: RequiredField::NoTokenSymbol });
}

// An empty question is refused before any creation call is issued, and nothing changes.
#[test]
fn empty_question_issues_no_creation() {
    let mut state = setup("owner");
    let before = state.clone();
    let err = create(&mut state, "").unwrap_err();
    assert_eq!(err, ContractError::EmptyField { field: RequiredField::Question });
    assert_eq!(state, before);
    assert!(state.pending.is_empty());
    assert_eq!(state.stats.total_polls_created, 0);
}

#[test]
fn saga_registers_market_after_three_steps() {
    let mut state = setup("owner");
    let factory = "factory".to_string();
    let yes_req = create(&mut state, "Rain?").unwrap();

    let no_req = match reply(&mut state, yes_req.reply_id, &created("yes_addr"), &factory).unwrap() {
        ReplyOutcome::Next(req) => req,
        other => panic!("unexpected outcome {:?}", other),
    };
    assert_eq!(no_req.reply_id, 2);
    assert_eq!(no_req.label, "NO Token for Poll Rain?");
    assert_eq!(state.pending[0].data.yes_token, Some("yes_addr".to_string()));

    let poll_req = match reply(&mut state, no_req.reply_id, &created("no_addr"), &factory).unwrap() {
        ReplyOutcome::Next(req) => req,
        other => panic!("unexpected outcome {:?}", other),
    };
    assert_eq!(poll_req.reply_id, 3);
    assert_eq!(poll_req.code_id, 1);
    assert_eq!(poll_req.label, "Poll for Rain?");
    match &poll_req.payload {
        InstantiatePayload::Poll(init) => {
            assert_eq!(init.capy_core, "factory");
            assert_eq!(init.poll_creator, "creator");
            assert_eq!(init.yes_token, "yes_addr");
            assert_eq!(init.no_token, "no_addr");
            assert_eq!(init.duration, 1000);
            assert_eq!(init.denom, "uxion");
        }
        other => panic!("unexpected payload {:?}", other),
    }

    let out = reply(&mut state, poll_req.reply_id, &created("poll_addr"), &factory).unwrap();
    assert_eq!(out, ReplyOutcome::Registered("poll_addr".to_string()));
    assert!(state.pending.is_empty());
    assert_eq!(query_poll_count(&state).count, 1);
    assert_eq!(query_poll_at(&state, 0).unwrap().address, "poll_addr");
    assert!(query_is_poll_from_factory(&state, &"poll_addr".to_string()));
    let details = query_poll_details(&state, &"poll_addr".to_string());
    assert!(details.exists);
    assert_eq!(details.description, Some("Test Description".to_string()));
    assert_eq!(state.polls[0].yes_token, "yes_addr");
    assert_eq!(state.polls[0].no_token, "no_addr");
}

// A failed second creation leaves exactly one created token and the saga's record, and no
// market is registered.
#[test]
fn interrupted_saga_leaves_orphaned_record() {
    let mut state = setup("owner");
    let factory = "factory".to_string();
    let yes_req = create(&mut state, "Rain?").unwrap();
    let no_req = match reply(&mut state, yes_req.reply_id, &created("yes_addr"), &factory).unwrap() {
        ReplyOutcome::Next(req) => req,
        other => panic!("unexpected outcome {:?}", other),
    };
    let before = state.clone();
    let failed: Result<Vec<Event>, String> = Err("out of gas".to_string());
    let err = reply(&mut state, no_req.reply_id, &failed, &factory).unwrap_err();
    assert_eq!(err, ContractError::InstantiateFailed {});
    assert_eq!(state, before);
    assert_eq!(state.pending.len(), 1);
    assert_eq!(state.pending[0].data.yes_token, Some("yes_addr".to_string()));
    assert_eq!(state.pending[0].data.no_token, None);
    assert_eq!(query_poll_count(&state).count, 0);
}

#[test]
fn concurrent_sagas_keep_separate_records() {
    let mut state = setup("owner");
    let factory = "factory".to_string();
    let first = create(&mut state, "First?").unwrap();
    let second = create(&mut state, "Second?").unwrap();
    assert_eq!(first.reply_id, 1);
    assert_eq!(second.reply_id, 4);
    reply(&mut state, second.reply_id, &created("yes_2"), &factory).unwrap();
    reply(&mut state, first.reply_id, &created("yes_1"), &factory).unwrap();
    assert_eq!(state.pending[0].data.question, "First?");
    assert_eq!(state.pending[0].data.yes_token, Some("yes_1".to_string()));
    assert_eq!(state.pending[1].data.yes_token, Some("yes_2".to_string()));
}

#[test]
fn unknown_or_out_of_order_continuations_are_refused() {
    let mut state = setup("owner");
    let factory = "factory".to_string();
    let err = reply(&mut state, 0, &created("x"), &factory).unwrap_err();
    assert_eq!(err, ContractError::UnknownReplyId { id: 0 });
    let err = reply(&mut state, 7, &created("x"), &factory).unwrap_err();
    assert_eq!(err, ContractError::UnknownReplyId { id: 7 });
    create(&mut state, "Rain?").unwrap();
    // The saga waits for the YES token, not for the market.
    let err = reply(&mut state, 3, &created("x"), &factory).unwrap_err();
    assert_eq!(err, ContractError::UnknownReplyId { id: 3 });
    let no_address = Ok(vec![Event { ty: "instantiate".to_string(), attributes: vec![] }]);
    let err = reply(&mut state, 1, &no_address, &factory).unwrap_err();
    assert_eq!(err, ContractError::NoContractAddress {});
}

#[test]
fn duplicate_market_address_is_refused() {
    let mut state = setup("owner");
    let factory = "factory".to_string();
    for (i, q) in ["A?", "B?"].iter().enumerate() {
        let base = 3 * i as u64;
        create(&mut state, q).unwrap();
        reply(&mut state, base + 1, &created("y"), &factory).unwrap();
        reply(&mut state, base + 2, &created("n"), &factory).unwrap();
    }
    reply(&mut state, 3, &created("same"), &factory).unwrap();
    let err = reply(&mut state, 6, &created("same"), &factory).unwrap_err();
    assert_eq!(err, ContractError::PollAlreadyExists {});
    assert_eq!(state.polls.len(), 1);
}

#[test]
fn contract_address_is_first_matching_attribute() {
    let events = vec![
        Event {
            ty: "wasm".to_string(),
            attributes: vec![Attribute { key: "action".to_string(), value: "x".to_string() }],
        },
        Event {
            ty: "instantiate".to_string(),
            attributes: vec![
                Attribute { key: "_contract_address".to_string(), value: "first".to_string() },
                Attribute { key: "_contract_address".to_string(), value: "second".to_string() },
            ],
        },
    ];
    assert_eq!(find_contract_address(&events), Some("first".to_string()));
    assert_eq!(find_contract_address(&vec![]), None);
}

#[test]
fn stats_count_creations_and_newcomers() {
    let mut state = setup("owner");
    create(&mut state, "A?").unwrap();
    create(&mut state, "B?").unwrap();
    assert_eq!(state.stats.total_polls_created, 2);
    assert_eq!(state.stats.active_polls_count, 2);
    assert_eq!(state.stats.total_unique_participants, 1);
    match query(&state, &QueryMsg::GetMarketStats {}, &vec![]).unwrap() {
        QueryResponse::MarketStats(s) => assert_eq!(s, state.stats),
        other => panic!("unexpected answer {:?}", other),
    }
}

#[test]
fn withdraw_fees_is_owner_only() {
    let state = setup("owner");
    let to = "treasury".to_string();
    let t = execute_withdraw_fees(&state, &"owner".to_string(), &to, 5000).unwrap();
    assert_eq!(t.to_address, "treasury");
    assert_eq!(t.denom, "uxion");
    assert_eq!(t.amount, 5000);
    let err = execute_withdraw_fees(&state, &"anyone".to_string(), &to, 5000).unwrap_err();
    assert_eq!(err, ContractError::Unauthorized {});
}

#[test]
fn active_listing_skips_resolved_and_honours_limit() {
    let status = |a: &str, r: bool| PollStatus { address: a.to_string(), is_resolved: r };
    let candidates = vec![status("a", false), status("b", true), status("c", false), status("d", false)];
    let page = query_active_polls(&candidates, Some(2));
    let addrs: Vec<&str> = page.iter().map(|p| p.address.as_str()).collect();
    assert_eq!(addrs, vec!["a", "c"]);
    let page = query_active_polls(&candidates, None);
    assert_eq!(page.len(), 3);
    assert!(query_active_polls(&candidates, Some(0)).is_empty());
}
