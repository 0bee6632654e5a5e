use capypolls::coin::Coin;
use capypolls::poll::contract::{
    execute_distribute_epoch_rewards, execute_resolve_poll, execute_stake, execute_withdraw_stake,
    instantiate,
};
use capypolls::poll::error::ContractError;
use capypolls::poll::msg::{InstantiateMsg, MintMsg};
use capypolls::poll::query::query_epoch_info;
use capypolls::poll::state::PollState;

const T0: u64 = 1_571_797_419;

fn market(duration: u64) -> PollState {
    let msg = InstantiateMsg {
        capy_core: "capy_core".to_string(),
        poll_creator: "creator".to_string(),
        yes_token: "yes_token".to_string(),
        no_token: "no_token".to_string(),
        duration,
        denom: "uxion".to_string(),
    };
    instantiate(msg, T0).unwrap()
}

fn stake(state: &mut PollState, who: &str, amount: u128, side: bool, now: u64) -> Result<u64, ContractError> {
    let funds = vec![Coin { denom: "uxion".to_string(), amount }];
    execute_stake(state, &who.to_string(), &funds, amount, side, now)
}

#[test]
fn single_stake_epoch_one_distribution() {
    let mut state = market(1000);
    assert_eq!(stake(&mut state, "user1", 100, true, T0), Ok(1));
    let now = T0 + 251;
    let mints = execute_distribute_epoch_rewards(&mut state, 1, now).unwrap();
    assert_eq!(
        mints,
        vec![MintMsg { token: "yes_token".to_string(), recipient: "user1".to_string(), amount: 3657 }]
    );
    assert!(state.epochs[0].is_distributed);
    assert!(query_epoch_info(&state, 1).unwrap().is_distributed);
    let err = execute_distribute_epoch_rewards(&mut state, 1, now).unwrap_err();
    assert_eq!(err, ContractError::EpochAlreadyDistributed {});
}

#[test]
fn epoch_totals_equal_stake_sums() {
    let mut state = market(1000);
    stake(&mut state, "a", 10, true, T0).unwrap();
    stake(&mut state, "b", 20, false, T0 + 10).unwrap();
    stake(&mut state, "a", 5, true, T0 + 300).unwrap();
    stake(&mut state, "c", 7, false, T0 + 999).unwrap();
    for e in 1..=4u64 {
        let sum: u128 =
            state.stakes.iter().filter(|r| r.epoch == e).map(|r| r.stake.amount).sum();
        assert_eq!(state.epochs[(e - 1) as usize].total_epoch_staked, sum);
    }
    assert_eq!(state.epochs[0].total_epoch_staked, 30);
    assert_eq!(state.epochs[1].total_epoch_staked, 5);
    assert_eq!(state.epochs[3].total_epoch_staked, 7);
    assert_eq!(state.total_yes, 15);
    assert_eq!(state.total_no, 27);
    assert_eq!(state.config.total_staked, 42);
    assert_eq!(state.epoch_stakers[0], vec!["a".to_string(), "b".to_string()]);
}

#[test]
fn withdrawal_pays_everything_once() {
    let mut state = market(1000);
    stake(&mut state, "user1", 100, true, T0).unwrap();
    stake(&mut state, "user1", 50, false, T0 + 300).unwrap();
    stake(&mut state, "user2", 30, true, T0 + 300).unwrap();
    execute_resolve_poll(&mut state, &"capy_core".to_string(), true, T0 + 1000, 0).unwrap();

    let paid = execute_withdraw_stake(&mut state, &"user1".to_string()).unwrap();
    assert_eq!(paid.amount, 150);
    let before = state.clone();
    let err = execute_withdraw_stake(&mut state, &"user1".to_string()).unwrap_err();
    assert_eq!(err, ContractError::NoStakesToWithdraw {});
    assert_eq!(state, before);

    let paid = execute_withdraw_stake(&mut state, &"user2".to_string()).unwrap();
    assert_eq!(paid.amount, 30);
    let err = execute_withdraw_stake(&mut state, &"nobody".to_string()).unwrap_err();
    assert_eq!(err, ContractError::NoStakesToWithdraw {});
}

#[test]
fn rewards_are_floored_shares_within_budget() {
    let mut state = market(1000);
    stake(&mut state, "a", 100, true, T0).unwrap();
    stake(&mut state, "b", 200, false, T0).unwrap();
    stake(&mut state, "c", 300, true, T0).unwrap();
    let mints = execute_distribute_epoch_rewards(&mut state, 1, T0 + 251).unwrap();
    let amounts: Vec<u128> = mints.iter().map(|m| m.amount).collect();
    assert_eq!(amounts, vec![609, 1219, 1828]);
    assert_eq!(mints[1].token, "no_token");
    let total: u128 = amounts.iter().sum();
    assert!(total <= 3657);
}

#[test]
fn second_resolution_always_fails() {
    let mut state = market(1000);
    let core = "capy_core".to_string();
    let end = T0 + 1000;
    let mint = execute_resolve_poll(&mut state, &core, true, end, 1000).unwrap();
    assert_eq!(
        mint,
        MintMsg { token: "no_token".to_string(), recipient: "public".to_string(), amount: 19000 }
    );
    assert_eq!(state.config.winning_position, Some(true));
    for (sender, side) in [("capy_core", true), ("capy_core", false), ("anyone", false)] {
        let err = execute_resolve_poll(&mut state, &sender.to_string(), side, end + 5, 0).unwrap_err();
        assert_eq!(err, ContractError::PollAlreadyResolved {});
    }
    assert_eq!(state.config.winning_position, Some(true));
}

#[test]
fn resolution_refuses_dilution_overflow() {
    let mut state = market(1000);
    let before = state.clone();
    let core = "capy_core".to_string();
    let err = execute_resolve_poll(&mut state, &core, false, T0 + 1000, u128::MAX).unwrap_err();
    assert_eq!(err, ContractError::FailedInnerCall {});
    assert_eq!(state, before);
    let err = execute_resolve_poll(&mut state, &core, false, T0 + 999, 1).unwrap_err();
    assert_eq!(err, ContractError::PollStillActive {});
    let mint = execute_resolve_poll(&mut state, &core, false, T0 + 1000, 7).unwrap();
    assert_eq!(mint.token, "yes_token");
    assert_eq!(mint.amount, 133);
}

#[test]
fn batched_distribution_matches_single_pass() {
    let mut state = market(1000);
    let n: u128 = 150;
    for i in 0..n {
        stake(&mut state, &format!("s{}", i), i + 1, i % 2 == 0, T0).unwrap();
    }
    let cumulative: u128 = (1..=n).sum();
    let now = T0 + 251;
    let first = execute_distribute_epoch_rewards(&mut state, 1, now).unwrap();
    assert_eq!(first.len(), 100);
    assert_eq!(state.epochs[0].last_processed_index, 100);
    assert!(!state.epochs[0].is_distributed);
    let second = execute_distribute_epoch_rewards(&mut state, 1, now).unwrap();
    assert_eq!(second.len(), 50);
    assert!(state.epochs[0].is_distributed);

    let all: Vec<MintMsg> = first.into_iter().chain(second).collect();
    let expected: Vec<MintMsg> = (0..n)
        .map(|i| MintMsg {
            token: if i % 2 == 0 { "yes_token" } else { "no_token" }.to_string(),
            recipient: format!("s{}", i),
            amount: 3657 * (i + 1) / cumulative,
        })
        .collect();
    assert_eq!(all, expected);
    assert!(all.iter().map(|m| m.amount).sum::<u128>() <= 3657);
}

#[test]
fn uneven_duration_counts_early_time_to_first_epoch() {
    let mut state = market(1001);
    assert_eq!(state.epoch_duration, 250);
    assert_eq!(state.epochs[0].start_time, T0 + 1);
    assert_eq!(state.epochs[3].end_time, T0 + 1001);
    assert_eq!(stake(&mut state, "a", 1, true, T0), Ok(1));
    assert_eq!(stake(&mut state, "a", 1, true, T0 + 251), Ok(2));
    assert_eq!(stake(&mut state, "a", 1, true, T0 + 1000), Ok(4));
    assert_eq!(stake(&mut state, "a", 1, true, T0 + 1001), Err(ContractError::PollEnded {}));

    let mut tiny = market(3);
    assert_eq!(tiny.epoch_duration, 0);
    assert_eq!(stake(&mut tiny, "a", 1, true, T0 + 2), Ok(1));
}

#[test]
fn market_duration_is_bounded() {
    let msg = InstantiateMsg {
        capy_core: "c".to_string(),
        poll_creator: "p".to_string(),
        yes_token: "y".to_string(),
        no_token: "n".to_string(),
        duration: 2592001,
        denom: "uxion".to_string(),
    };
    assert_eq!(instantiate(msg, T0).unwrap_err(), ContractError::InvalidDuration { max: 2592000 });
    let state = market(2592000);
    assert_eq!(state.config.end_timestamp, T0 + 2592000);
    let budgets: Vec<u128> = state.epochs.iter().map(|e| e.total_distribution).collect();
    assert_eq!(budgets, vec![3657, 2743, 2058, 1542]);
}

#[test]
fn distribution_waits_for_epoch_end() {
    let mut state = market(1000);
    stake(&mut state, "a", 5, true, T0).unwrap();
    let err = execute_distribute_epoch_rewards(&mut state, 1, T0 + 250).unwrap_err();
    assert_eq!(err, ContractError::EpochNotEnded {});
    let err = execute_distribute_epoch_rewards(&mut state, 0, T0 + 251).unwrap_err();
    assert_eq!(err, ContractError::EpochNotFound {});
}

#[test]
fn resolved_market_takes_no_stakes() {
    let mut state = market(1000);
    execute_resolve_poll(&mut state, &"capy_core".to_string(), true, T0 + 1000, 0).unwrap();
    assert_eq!(stake(&mut state, "a", 5, true, T0), Err(ContractError::PollAlreadyResolved {}));
}
