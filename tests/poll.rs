use capypolls::coin::{find_payment, Coin};
use capypolls::poll::contract::{
    execute_distribute_epoch_rewards, execute_resolve_poll, execute_stake, execute_withdraw_stake,
    instantiate,
};
use capypolls::poll::error::ContractError;
use capypolls::poll::msg::{BankSend, InstantiateMsg, QueryMsg, QueryResponse};
use capypolls::poll::query::{query, query_epoch_info, query_total_staked};
use capypolls::poll::state::{calculate_epoch_distribution, PollState};

const XION_DENOM: &str = "uxion";
const T0: u64 = 1_571_797_419;

fn setup_contract() -> PollState {
    let msg = InstantiateMsg {
        capy_core: "capy_core".to_string(),
        poll_creator: "creator".to_string(),
        yes_token: "yes_token".to_string(),
        no_token: "no_token".to_string(),
        duration: 1000,
        denom: XION_DENOM.to_string(),
    };
    instantiate(msg, T0).unwrap()
}

fn xion(amount: u128) -> Vec<Coin> {
    vec![Coin { denom: XION_DENOM.to_string(), amount }]
}

#[test]
fn test_proper_initialization() {
    let state = setup_contract();
    let config = &state.config;
    assert_eq!(config.capy_core.as_str(), "capy_core");
    assert_eq!(config.poll_creator.as_str(), "creator");
    assert_eq!(config.yes_token.as_str(), "yes_token");
    assert_eq!(config.no_token.as_str(), "no_token");
    assert!(!config.is_resolved);
    assert_eq!(config.total_staked, 0);
    assert_eq!(config.denom, XION_DENOM);
}

#[test]
fn test_stake() {
    let mut state = setup_contract();

    // Successful stake: it lands in the first epoch.
    let res = execute_stake(&mut state, &"user1".to_string(), &xion(100), 100, true, T0);
    assert_eq!(res, Ok(1));
    assert_eq!(state.stakes.len(), 1);
    assert_eq!(state.epochs[0].total_epoch_staked, 100);

    // Insufficient payment.
    let err = execute_stake(&mut state, &"user2".to_string(), &xion(50), 100, true, T0).unwrap_err();
    assert_eq!(err, ContractError::InvalidPaymentAmount {});

    // Wrong denomination.
    let funds = vec![Coin { denom: "invalid".to_string(), amount: 100 }];
    let err = execute_stake(&mut state, &"user3".to_string(), &funds, 100, true, T0).unwrap_err();
    assert_eq!(err, ContractError::NoXionPayment {});
    assert_eq!(state.stakes.len(), 1);
}

#[test]
fn test_withdraw_stake() {
    let mut state = setup_contract();
    let user = "user1".to_string();
    execute_stake(&mut state, &user, &xion(100), 100, true, T0).unwrap();

    // Move time forward and resolve the market.
    let now = T0 + 1001;
    execute_resolve_poll(&mut state, &"capy_core".to_string(), true, now, 0).unwrap();

    let res = execute_withdraw_stake(&mut state, &user).unwrap();
    assert_eq!(
        res,
        BankSend { to_address: "user1".to_string(), denom: XION_DENOM.to_string(), amount: 100 }
    );
}

#[test]
fn full_poll_lifecycle() {
    let mut state = setup_contract();
    let stake_amount: u128 = 100;
    execute_stake(&mut state, &"user1".to_string(), &xion(stake_amount), stake_amount, true, T0)
        .unwrap();

    let res = query_total_staked(&state);
    assert_eq!(res.total_yes, stake_amount);
    assert_eq!(res.total_no, 0);
    assert_eq!(res.denom, XION_DENOM);

    // Resolution is only possible once the market has ended.
    let end = T0 + 1000;
    execute_resolve_poll(&mut state, &"capy_core".to_string(), true, end, 0).unwrap();

    let res = execute_withdraw_stake(&mut state, &"user1".to_string()).unwrap();
    assert_eq!(res.to_address, "user1");
    assert_eq!(res.denom, XION_DENOM);
    assert_eq!(res.amount, stake_amount);
}

#[test]
fn test_multiple_epochs() {
    let mut state = setup_contract();
    let stake_amount: u128 = 100;
    execute_stake(&mut state, &"user1".to_string(), &xion(stake_amount), stake_amount, true, T0)
        .unwrap();

    // Move to the next epoch.
    let now = T0 + 250;
    let epoch =
        execute_stake(&mut state, &"user2".to_string(), &xion(stake_amount), stake_amount, false, now)
            .unwrap();
    assert_eq!(epoch, 2);

    let res = query_epoch_info(&state, 2).unwrap();
    assert_eq!(res.total_distribution, calculate_epoch_distribution(2));
    assert_eq!(res.num_stakers, 1);
    assert!(!res.is_distributed);
}

#[test]
fn test_error_cases() {
    let mut state = setup_contract();
    let stake_amount: u128 = 100;
    let user = "user1".to_string();

    let funds = vec![Coin { denom: "invalid".to_string(), amount: stake_amount }];
    let err = execute_stake(&mut state, &user, &funds, stake_amount, true, T0).unwrap_err();
    assert_eq!(err, ContractError::NoXionPayment {});

    let err = execute_stake(&mut state, &user, &xion(50), stake_amount, true, T0).unwrap_err();
    assert_eq!(err, ContractError::InvalidPaymentAmount {});

    let err = execute_withdraw_stake(&mut state, &user).unwrap_err();
    assert_eq!(err, ContractError::PollNotResolved {});

    // Once the market has ended, only the factory may resolve it.
    let end = T0 + 1000;
    let err = execute_resolve_poll(&mut state, &"anyone".to_string(), true, end, 0).unwrap_err();
    assert_eq!(err, ContractError::Unauthorized {});
}

#[test]
fn test_epoch_distribution() {
    let mut state = setup_contract();
    let stake_amount: u128 = 100;
    execute_stake(&mut state, &"user1".to_string(), &xion(stake_amount), stake_amount, true, T0)
        .unwrap();

    // Move past the end of the first epoch.
    let now = T0 + 251;

    let err = execute_distribute_epoch_rewards(&mut state, 2, now).unwrap_err();
    assert_eq!(err, ContractError::EpochNotStarted {});

    let mints = execute_distribute_epoch_rewards(&mut state, 1, now).unwrap();
    assert_eq!(1, mints.len());

    let err = execute_distribute_epoch_rewards(&mut state, 1, now).unwrap_err();
    assert_eq!(err, ContractError::EpochAlreadyDistributed {});
}

#[test]
fn query_dispatch_answers_each_query() {
    let mut state = setup_contract();
    execute_stake(&mut state, &"user1".to_string(), &xion(70), 70, false, T0).unwrap();

    match query(&state, &QueryMsg::GetTotalStaked {}).unwrap() {
        QueryResponse::TotalStaked(t) => {
            assert_eq!(t.total_yes, 0);
            assert_eq!(t.total_no, 70);
        }
        other => panic!("unexpected answer {:?}", other),
    }
    let q = QueryMsg::GetUserStakesForEpoch { user: "user1".to_string(), epoch_number: 1 };
    match query(&state, &q).unwrap() {
        QueryResponse::UserStakes(u) => {
            assert_eq!(u.stakes.len(), 1);
            assert_eq!(u.stakes[0].amount, 70);
            assert!(!u.stakes[0].position);
            assert!(!u.stakes[0].withdrawn);
        }
        other => panic!("unexpected answer {:?}", other),
    }
    match query(&state, &QueryMsg::GetPollInfo {}).unwrap() {
        QueryResponse::PollInfo(p) => {
            assert_eq!(p.info.end_timestamp, T0 + 1000);
            assert_eq!(p.info.total_staked, 70);
            assert_eq!(p.info.winning_position, None);
        }
        other => panic!("unexpected answer {:?}", other),
    }
    let err = query(&state, &QueryMsg::GetEpochInfo { epoch_number: 5 }).unwrap_err();
    assert_eq!(err, ContractError::EpochNotFound {});
}

#[test]
fn payment_is_first_coin_of_the_denomination() {
    let funds = vec![
        Coin { denom: "other".to_string(), amount: 5 },
        Coin { denom: XION_DENOM.to_string(), amount: 100 },
        Coin { denom: XION_DENOM.to_string(), amount: 7 },
    ];
    assert_eq!(find_payment(&funds, &XION_DENOM.to_string()), Some(100));
    assert_eq!(find_payment(&funds, &"absent".to_string()), None);
    assert_eq!(find_payment(&vec![], &XION_DENOM.to_string()), None);
}
