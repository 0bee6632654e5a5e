//! The market's operations. Each takes the market's state and the call's plain inputs
//! (sender, attached coins, block time), and either refuses without changing anything or
//! updates the state and returns what the host has to send.

use crate::coin::{find_payment, payment_of, Coin};
use crate::math::{checked_mul, lemma_share_within_budget, multiply_ratio};
use crate::poll::error::ContractError;
use crate::poll::msg::{BankSend, InstantiateMsg, MintMsg};
use crate::poll::reward::{batch_mints, reward_of, staker_mints};
use crate::poll::state::{
    calculate_epoch_distribution, epoch_at, epoch_distribution, lemma_marked_nothing_left,
    lemma_no_record_zero_sum, lemma_prefix_sums, lemma_range_sum_prefix, lemma_range_sum_push,
    lemma_range_sum_same_sums, lemma_record_within_epoch_sum, lemma_sums_bounded,
    lemma_sums_ignore_withdrawn, mark_withdrawn, record_in, schedule_start, staker_listed,
    stakers_unique, total_stake_sum, unwithdrawn_sum, EpochInfo, PollConfig, PollState, Stake,
    StakeRecord, BATCH_SIZE, BLITZ_MULTIPLIER, MAX_DURATION, NUM_EPOCHS,
};
use vstd::prelude::*;

verus! {

/// The record of epoch `k` (numbered from one) of a fresh market.
pub open spec fn initial_epoch(end_timestamp: u64, epoch_duration: u64, k: int) -> EpochInfo {
    let start = schedule_start(end_timestamp, epoch_duration);
    EpochInfo {
        start_time: (start + (k - 1) * epoch_duration) as u64,
        end_time: (start + k * epoch_duration) as u64,
        total_distribution: epoch_distribution(k as u64),
        is_distributed: false,
        total_epoch_staked: 0,
        last_processed_index: 0,
    }
}

/// Why a stake is refused, if it is: the market has ended or is resolved, or the attached
/// payment is missing or differs from the declared amount.
pub open spec fn stake_refusal(
    config: PollConfig,
    funds: Seq<Coin>,
    amount: u128,
    now: u64,
) -> Option<ContractError> {
    if now >= config.end_timestamp {
        Some(ContractError::PollEnded {  })
    } else if config.is_resolved {
        Some(ContractError::PollAlreadyResolved {  })
    } else {
        match payment_of(funds, config.denom@) {
            None => Some(ContractError::NoXionPayment {  }),
            Some(paid) => if paid != amount {
                Some(ContractError::InvalidPaymentAmount {  })
            } else {
                None
            },
        }
    }
}

/// Creates a market that ends `msg.duration` seconds after `now`, with four equal epochs
/// laid out back to back up to its end and nothing staked.
pub fn instantiate(msg: InstantiateMsg, now: u64) -> (r: Result<PollState, ContractError>)
    requires
        msg.duration <= MAX_DURATION ==> now + msg.duration <= u64::MAX,
    ensures
        msg.duration > MAX_DURATION <==> r == Err::<PollState, ContractError>(
            ContractError::InvalidDuration { max: MAX_DURATION },
        ),
        r is Ok || r == Err::<PollState, ContractError>(
            ContractError::InvalidDuration { max: MAX_DURATION },
        ),
        r matches Ok(p) ==> {
            &&& p.wf()
            &&& p.config == PollConfig {
                capy_core: msg.capy_core,
                poll_creator: msg.poll_creator,
                yes_token: msg.yes_token,
                no_token: msg.no_token,
                end_timestamp: (now + msg.duration) as u64,
                total_staked: 0,
                is_resolved: false,
                winning_position: None,
                denom: msg.denom,
            }
            &&& p.current_epoch == 1
            &&& p.epoch_duration == msg.duration / 4
            &&& p.total_yes == 0
            &&& p.total_no == 0
            &&& p.stakes@.len() == 0
            &&& forall|e: u64| 1 <= e <= NUM_EPOCHS ==> (#[trigger] p.stakers_of(e)).len() == 0
            &&& forall|e: u64|
                1 <= e <= NUM_EPOCHS ==> #[trigger] p.epoch(e) == initial_epoch(
                    p.config.end_timestamp,
                    p.epoch_duration,
                    e as int,
                )
        },
{
    if msg.duration > MAX_DURATION {
        return Err(ContractError::InvalidDuration { max: MAX_DURATION });
    }
    let end_timestamp = now + msg.duration;
    let epoch_duration = msg.duration / 4;
    let start = end_timestamp - epoch_duration * 4;
    let mut epochs: Vec<EpochInfo> = Vec::new();
    let mut epoch_stakers: Vec<Vec<String>> = Vec::new();
    let mut t: u64 = start;
    let mut k: u64 = 1;
    while k <= NUM_EPOCHS
        invariant
            1 <= k <= NUM_EPOCHS + 1,
            epoch_duration * 4 <= end_timestamp,
            start == schedule_start(end_timestamp, epoch_duration),
            t == start + (k - 1) * epoch_duration,
            epochs@.len() == k - 1,
            epoch_stakers@.len() == k - 1,
            forall|i: int|
                0 <= i < k - 1 ==> #[trigger] epochs@[i] == initial_epoch(
                    end_timestamp,
                    epoch_duration,
                    i + 1,
                ),
            forall|i: int| 0 <= i < k - 1 ==> (#[trigger] epoch_stakers@[i])@.len() == 0,
        decreases NUM_EPOCHS + 1 - k,
    {
        proof {
            vstd::arithmetic::mul::lemma_mul_is_distributive_add_other_way(
                epoch_duration as int,
                k - 1,
                1,
            );
            vstd::arithmetic::mul::lemma_mul_inequality(k as int, 4, epoch_duration as int);
        }
        let total_distribution = calculate_epoch_distribution(k);
        epochs.push(
            EpochInfo {
                start_time: t,
                end_time: t + epoch_duration,
                total_distribution,
                is_distributed: false,
                total_epoch_staked: 0,
                last_processed_index: 0,
            },
        );
        epoch_stakers.push(Vec::new());
        t = t + epoch_duration;
        k = k + 1;
    }
    let p = PollState {
        config: PollConfig {
            capy_core: msg.capy_core,
            poll_creator: msg.poll_creator,
            yes_token: msg.yes_token,
            no_token: msg.no_token,
            end_timestamp,
            total_staked: 0,
            is_resolved: false,
            winning_position: None,
            denom: msg.denom,
        },
        current_epoch: 1,
        epoch_duration,
        total_yes: 0,
        total_no: 0,
        epochs,
        epoch_stakers,
        stakes: Vec::new(),
    };
    assert forall|e: u64| 1 <= e <= NUM_EPOCHS implies #[trigger] p.epoch_wf(e) by {
        assert(p.stakers_of(e) == epoch_stakers@[e - 1]@);
    }
    Ok(p)
}

/// The epoch a stake placed at `now` belongs to.
pub fn epoch_at_time(now: u64, end_timestamp: u64, epoch_duration: u64) -> (r: u64)
    requires
        now < end_timestamp,
        epoch_duration * 4 <= end_timestamp,
    ensures
        r == epoch_at(now, end_timestamp, epoch_duration),
        1 <= r <= NUM_EPOCHS,
{
    let start = end_timestamp - epoch_duration * 4;
    if now < start {
        1
    } else {
        proof {
            vstd::arithmetic::div_mod::lemma_multiply_divide_lt(
                (now - start) as int,
                epoch_duration as int,
                4,
            );
            vstd::arithmetic::div_mod::lemma_div_pos_is_pos(
                (now - start) as int,
                epoch_duration as int,
            );
        }
        (now - start) / epoch_duration + 1
    }
}

/// Whether `who` appears in a staker list.
pub fn stakers_contains(stakers: &Vec<String>, who: &String) -> (r: bool)
    ensures
        r == staker_listed(stakers@, who@),
{
    let mut i: usize = 0;
    while i < stakers.len()
        invariant
            0 <= i <= stakers@.len(),
            forall|k: int| 0 <= k < i ==> (#[trigger] stakers@[k])@ != who@,
        decreases stakers.len() - i,
    {
        if stakers[i] == *who {
            return true;
        }
        i = i + 1;
    }
    false
}

/// Places a stake of `amount` on `position` for `sender`, paid with `funds`, at time `now`.
///
/// The stake goes to the epoch that `now` falls in; it is appended to the ledger, the sender
/// joins that epoch's staker list on their first stake there, and the epoch's, the side's
/// and the market's totals grow by `amount`. Returns the epoch.
pub fn execute_stake(
    state: &mut PollState,
    sender: &String,
    funds: &Vec<Coin>,
    amount: u128,
    position: bool,
    now: u64,
) -> (r: Result<u64, ContractError>)
    requires
        old(state).wf(),
        old(state).config.total_staked + amount <= u128::MAX,
    ensures
        final(state).wf(),
        r is Err <==> stake_refusal(old(state).config, funds@, amount, now) is Some,
        r matches Err(err) ==> stake_refusal(old(state).config, funds@, amount, now) == Some(err),
        r is Err ==> *final(state) == *old(state),
        r matches Ok(e) ==> {
            let s0 = *old(state);
            let s1 = *final(state);
            &&& e == epoch_at(now, s0.config.end_timestamp, s0.epoch_duration)
            &&& s1.stakes@ == s0.stakes@.push(
                StakeRecord { staker: *sender, epoch: e, stake: Stake { amount, position, withdrawn: false } },
            )
            &&& s1.current_epoch == e
            &&& s1.stakers_of(e) == if staker_listed(s0.stakers_of(e), sender@) {
                s0.stakers_of(e)
            } else {
                s0.stakers_of(e).push(*sender)
            }
            &&& forall|k: u64|
                1 <= k <= NUM_EPOCHS && k != e ==> #[trigger] s1.stakers_of(k) == s0.stakers_of(k)
            &&& s1.epochs@ == s0.epochs@.update(
                e - 1,
                EpochInfo {
                    total_epoch_staked: (s0.epoch(e).total_epoch_staked + amount) as u128,
                    ..s0.epoch(e)
                },
            )
            &&& s1.total_yes == s0.total_yes + if position {
                amount
            } else {
                0
            }
            &&& s1.total_no == s0.total_no + if position {
                0
            } else {
                amount
            }
            &&& s1.config == PollConfig {
                total_staked: (s0.config.total_staked + amount) as u128,
                ..s0.config
            }
            &&& s1.epoch_duration == s0.epoch_duration
        },
{
    if now >= state.config.end_timestamp {
        return Err(ContractError::PollEnded {  });
    }
    if state.config.is_resolved {
        return Err(ContractError::PollAlreadyResolved {  });
    }
    match find_payment(funds, &state.config.denom) {
        None => {
            return Err(ContractError::NoXionPayment {  });
        },
        Some(paid) => {
            if paid != amount {
                return Err(ContractError::InvalidPaymentAmount {  });
            }
        },
    }
    let epoch = epoch_at_time(now, state.config.end_timestamp, state.epoch_duration);
    let ghost s0 = *state;
    let ghost log = state.stakes@;
    let ghost r = StakeRecord {
        staker: *sender,
        epoch,
        stake: Stake { amount, position, withdrawn: false },
    };
    proof {
        lemma_sums_bounded(log, sender@, epoch);
        assert(s0.epoch_wf(epoch));
    }
    let idx = (epoch - 1) as usize;
    state.current_epoch = epoch;
    if position {
        state.total_yes = state.total_yes + amount;
    } else {
        state.total_no = state.total_no + amount;
    }
    state.config.total_staked = state.config.total_staked + amount;
    let mut info = state.epochs[idx];
    info.total_epoch_staked = info.total_epoch_staked + amount;
    state.epochs.set(idx, info);
    let listed = stakers_contains(&state.epoch_stakers[idx], sender);
    if !listed {
        state.epoch_stakers[idx].push(sender.clone());
    }
    state.stakes.push(
        StakeRecord {
            staker: sender.clone(),
            epoch,
            stake: Stake { amount, position, withdrawn: false },
        },
    );
    proof {
        let s1 = *state;
        assert(s1.stakes@ == log.push(r));
        assert(log.push(r).drop_last() =~= log);
        assert forall|k: u64| 1 <= k <= NUM_EPOCHS implies #[trigger] s1.epoch_wf(k) by {
            assert(s0.epoch_wf(k));
            let sk = s0.stakers_of(k);
            lemma_range_sum_push(log, r, sk, k, 0, sk.len() as int);
            if k != epoch {
                assert(s1.stakers_of(k) == sk);
            } else if listed {
                assert(s1.stakers_of(k) == sk);
                let w = choose|w: int| 0 <= w < sk.len() && (#[trigger] sk[w])@ == sender@;
                assert(0 <= w < sk.len() && sk[w]@ == r.staker@);
            } else {
                let sk1 = sk.push(*sender);
                assert(s1.stakers_of(k) == sk1);
                lemma_range_sum_prefix(log.push(r), sk, sk1, k, 0, sk.len() as int);
                assert forall|j: int| 0 <= j < log.len() implies !record_in(
                    #[trigger] log[j],
                    sender@,
                    k,
                ) by {
                    if log[j].epoch == k && log[j].staker@ == sender@ {
                        assert(staker_listed(sk, log[j].staker@));
                    }
                }
                lemma_no_record_zero_sum(log, sender@, k);
                assert(sk1[sk.len() as int] == *sender);
                assert(stakers_unique(sk1)) by {
                    assert forall|k1: int, k2: int|
                        0 <= k1 < sk1.len() && 0 <= k2 < sk1.len() && k1 != k2 implies (
                        #[trigger] sk1[k1])@ != (#[trigger] sk1[k2])@ by {
                        if k1 == sk.len() {
                            assert(sk1[k2] == sk[k2]);
                        } else if k2 == sk.len() {
                            assert(sk1[k1] == sk[k1]);
                        } else {
                            assert(sk1[k1] == sk[k1] && sk1[k2] == sk[k2]);
                        }
                    }
                }
                assert forall|j: int|
                    0 <= j < s1.stakes@.len() && (#[trigger] s1.stakes@[j]).epoch == k implies staker_listed(
                    sk1,
                    s1.stakes@[j].staker@,
                ) by {
                    if j < log.len() {
                        assert(s1.stakes@[j] == log[j]);
                        assert(staker_listed(sk, log[j].staker@));
                        let w = choose|w: int| 0 <= w < sk.len() && (#[trigger] sk[w])@ == log[j].staker@;
                        assert(sk1[w] == sk[w]);
                    } else {
                        assert(sk1[sk.len() as int]@ == s1.stakes@[j].staker@);
                    }
                }
            }
        }
    }
    Ok(epoch)
}

/// Why a distribution call for `epoch_number` is refused, if it is: the epoch lies after the
/// current one or outside the schedule, was paid out already, or has not ended.
pub open spec fn distribute_refusal(s: PollState, epoch_number: u64, now: u64) -> Option<
    ContractError,
> {
    if epoch_number > s.current_epoch {
        Some(ContractError::EpochNotStarted {  })
    } else if epoch_number == 0 {
        Some(ContractError::EpochNotFound {  })
    } else if s.epoch(epoch_number).is_distributed {
        Some(ContractError::EpochAlreadyDistributed {  })
    } else if now <= s.epoch(epoch_number).end_time {
        Some(ContractError::EpochNotEnded {  })
    } else {
        None
    }
}

/// Where a batch that starts at staker `start` of `n` stops.
pub open spec fn batch_end(start: u64, n: int) -> int {
    if start + BATCH_SIZE < n {
        start + BATCH_SIZE
    } else {
        n
    }
}

/// A mint of `amount` of `token` to `recipient`.
pub fn create_mint_msg(token: &String, recipient: &String, amount: u128) -> (r: MintMsg)
    ensures
        r == (MintMsg { token: *token, recipient: *recipient, amount }),
{
    MintMsg { token: token.clone(), recipient: recipient.clone(), amount }
}

/// The reward for a stake of `amount` in the epoch `info`.
pub fn compute_reward(info: EpochInfo, amount: u128) -> (r: u128)
    requires
        amount <= info.total_epoch_staked,
    ensures
        r == reward_of(info.total_distribution, info.total_epoch_staked, amount),
{
    if info.total_epoch_staked == 0 {
        0
    } else {
        proof {
            lemma_share_within_budget(
                info.total_distribution as int,
                amount as int,
                info.total_epoch_staked as int,
            );
        }
        multiply_ratio(info.total_distribution, amount, info.total_epoch_staked)
    }
}

/// Appends the mints for the stakes `who` placed in epoch `e`.
fn push_staker_rewards(
    log: &Vec<StakeRecord>,
    who: &String,
    e: u64,
    info: EpochInfo,
    config: &PollConfig,
    msgs: &mut Vec<MintMsg>,
)
    requires
        forall|j: int|
            0 <= j < log@.len() && (#[trigger] log@[j]).epoch == e ==> log@[j].stake.amount
                <= info.total_epoch_staked,
    ensures
        final(msgs)@ == old(msgs)@ + staker_mints(
            log@,
            *who,
            e,
            info.total_distribution,
            info.total_epoch_staked,
            *config,
        ),
{
    let ghost base = msgs@;
    let ghost d = info.total_distribution;
    let ghost c = info.total_epoch_staked;
    let mut j: usize = 0;
    assert(log@.take(0) =~= Seq::<StakeRecord>::empty());
    assert(base + Seq::<MintMsg>::empty() =~= base);
    while j < log.len()
        invariant
            0 <= j <= log@.len(),
            d == info.total_distribution,
            c == info.total_epoch_staked,
            msgs@ == base + staker_mints(log@.take(j as int), *who, e, d, c, *config),
            forall|i: int|
                0 <= i < log@.len() && (#[trigger] log@[i]).epoch == e ==> log@[i].stake.amount
                    <= info.total_epoch_staked,
        decreases log.len() - j,
    {
        let ghost prefix = log@.take(j as int);
        let ghost next = log@.take(j + 1);
        assert(next.drop_last() =~= prefix);
        assert(next.last() == log@[j as int]);
        let rec = &log[j];
        if rec.epoch == e && rec.staker == *who {
            let amount = compute_reward(info, rec.stake.amount);
            let token = if rec.stake.position {
                &config.yes_token
            } else {
                &config.no_token
            };
            let m = create_mint_msg(token, who, amount);
            msgs.push(m);
            assert(msgs@ =~= base + (staker_mints(prefix, *who, e, d, c, *config) + seq![m]));
        } else {
            assert(staker_mints(next, *who, e, d, c, *config) =~= staker_mints(
                prefix,
                *who,
                e,
                d,
                c,
                *config,
            ) + Seq::<MintMsg>::empty());
        }
        j = j + 1;
    }
    assert(log@.take(log@.len() as int) =~= log@);
}

/// The mints for the stakers `start..end` of epoch `e`.
pub fn batch_rewards(state: &PollState, e: u64, start: u64, end: u64) -> (r: Vec<MintMsg>)
    requires
        state.wf(),
        1 <= e <= NUM_EPOCHS,
        start <= end <= state.stakers_of(e).len(),
    ensures
        r@ == batch_mints(
            state.stakes@,
            state.stakers_of(e),
            e,
            state.epoch(e).total_distribution,
            state.epoch(e).total_epoch_staked,
            state.config,
            start as int,
            end as int,
        ),
{
    let idx = (e - 1) as usize;
    let info = state.epochs[idx];
    proof {
        assert(state.epoch_wf(e));
        assert forall|j: int|
            0 <= j < state.stakes@.len() && (#[trigger] state.stakes@[j]).epoch == e implies
                state.stakes@[j].stake.amount <= info.total_epoch_staked by {
            lemma_record_within_epoch_sum(state.stakes@, j);
        }
    }
    let n = state.epoch_stakers[idx].len();
    let mut msgs: Vec<MintMsg> = Vec::new();
    let mut i: u64 = start;
    while i < end
        invariant
            state.wf(),
            n == state.stakers_of(e).len(),
            1 <= e <= NUM_EPOCHS,
            idx == e - 1,
            info == state.epoch(e),
            start <= i <= end <= state.stakers_of(e).len(),
            forall|j: int|
                0 <= j < state.stakes@.len() && (#[trigger] state.stakes@[j]).epoch == e
                    ==> state.stakes@[j].stake.amount <= info.total_epoch_staked,
            msgs@ == batch_mints(
                state.stakes@,
                state.stakers_of(e),
                e,
                info.total_distribution,
                info.total_epoch_staked,
                state.config,
                start as int,
                i as int,
            ),
        decreases end - i,
    {
        let ghost stakers = state.stakers_of(e);
        assert(stakers == state.epoch_stakers@[idx as int]@);
        let k = i as usize;
        assert(k == i);
        let ghost d = info.total_distribution;
        let ghost c = info.total_epoch_staked;
        assert(batch_mints(state.stakes@, stakers, e, d, c, state.config, start as int, i + 1)
            == batch_mints(state.stakes@, stakers, e, d, c, state.config, start as int, i as int)
            + staker_mints(state.stakes@, stakers[k as int], e, d, c, state.config));
        push_staker_rewards(
            &state.stakes,
            &state.epoch_stakers[idx][k],
            e,
            info,
            &state.config,
            &mut msgs,
        );
        i = i + 1;
    }
    msgs
}

/// Pays the next batch of epoch `epoch_number`'s stakers at time `now`.
///
/// Starting at the epoch's cursor, up to `BATCH_SIZE` stakers are paid, each a mint per stake
/// they placed in the epoch, of that stake's side token and of the stake's share of the
/// epoch's budget (rounded down). The cursor moves past them, and the epoch counts as
/// distributed once every staker has been paid. Returns the mints to send.
pub fn execute_distribute_epoch_rewards(state: &mut PollState, epoch_number: u64, now: u64) -> (r:
    Result<Vec<MintMsg>, ContractError>)
    requires
        old(state).wf(),
    ensures
        final(state).wf(),
        r is Err <==> distribute_refusal(*old(state), epoch_number, now) is Some,
        r matches Err(err) ==> distribute_refusal(*old(state), epoch_number, now) == Some(err),
        r is Err ==> *final(state) == *old(state),
        r matches Ok(msgs) ==> {
            let s0 = *old(state);
            let s1 = *final(state);
            let e = epoch_number;
            let info = s0.epoch(e);
            let n = s0.stakers_of(e).len() as int;
            let hi = batch_end(info.last_processed_index, n);
            &&& msgs@ == batch_mints(
                s0.stakes@,
                s0.stakers_of(e),
                e,
                info.total_distribution,
                info.total_epoch_staked,
                s0.config,
                info.last_processed_index as int,
                hi,
            )
            &&& s1.epochs@ == s0.epochs@.update(
                e - 1,
                EpochInfo { last_processed_index: hi as u64, is_distributed: hi == n, ..info },
            )
            &&& s1.stakes == s0.stakes
            &&& s1.epoch_stakers == s0.epoch_stakers
            &&& s1.config == s0.config
            &&& s1.current_epoch == s0.current_epoch
            &&& s1.epoch_duration == s0.epoch_duration
            &&& s1.total_yes == s0.total_yes
            &&& s1.total_no == s0.total_no
        },
{
    if epoch_number > state.current_epoch {
        return Err(ContractError::EpochNotStarted {  });
    }
    if epoch_number == 0 {
        return Err(ContractError::EpochNotFound {  });
    }
    let idx = (epoch_number - 1) as usize;
    let info = state.epochs[idx];
    if info.is_distributed {
        return Err(ContractError::EpochAlreadyDistributed {  });
    }
    if now <= info.end_time {
        return Err(ContractError::EpochNotEnded {  });
    }
    proof {
        assert(state.epoch_wf(epoch_number));
    }
    let n = state.epoch_stakers[idx].len() as u64;
    let start = info.last_processed_index;
    let remaining = n - start;
    let count = if remaining < BATCH_SIZE {
        remaining
    } else {
        BATCH_SIZE
    };
    let end = start + count;
    let msgs = batch_rewards(state, epoch_number, start, end);
    let ghost s0 = *state;
    state.epochs.set(
        idx,
        EpochInfo { last_processed_index: end, is_distributed: end == n, ..info },
    );
    proof {
        let s1 = *state;
        assert forall|k: u64| 1 <= k <= NUM_EPOCHS implies #[trigger] s1.epoch_wf(k) by {
            assert(s0.epoch_wf(k));
            assert(s1.stakers_of(k) == s0.stakers_of(k));
        }
    }
    Ok(msgs)
}

/// Where the losing side's dilution is minted to.
pub open spec fn blitz_sink() -> Seq<char> {
    seq!['p', 'u', 'b', 'l', 'i', 'c']
}

/// The outcome token of the side that lost.
pub open spec fn losing_token_of(config: PollConfig, winning_position: bool) -> String {
    if winning_position {
        config.no_token
    } else {
        config.yes_token
    }
}

/// The outcome token of the side that lost when `winning_position` wins.
pub fn losing_token(state: &PollState, winning_position: bool) -> (r: String)
    ensures
        r == losing_token_of(state.config, winning_position),
{
    if winning_position {
        state.config.no_token.clone()
    } else {
        state.config.yes_token.clone()
    }
}

/// The configuration once the market is resolved in favour of `winning_position`.
pub open spec fn resolved_config(config: PollConfig, winning_position: bool) -> PollConfig {
    PollConfig { is_resolved: true, winning_position: Some(winning_position), ..config }
}

/// Why a resolution is refused, if it is: the market has not ended, is resolved already,
/// the sender is not the factory, or the dilution would not fit in 128 bits.
pub open spec fn resolve_refusal(
    config: PollConfig,
    sender: Seq<char>,
    now: u64,
    losing_supply: u128,
) -> Option<ContractError> {
    if now < config.end_timestamp {
        Some(ContractError::PollStillActive {  })
    } else if config.is_resolved {
        Some(ContractError::PollAlreadyResolved {  })
    } else if sender != config.capy_core@ {
        Some(ContractError::Unauthorized {  })
    } else if (losing_supply as int) * (BLITZ_MULTIPLIER as int) > u128::MAX {
        Some(ContractError::FailedInnerCall {  })
    } else {
        None
    }
}

/// Resolves the market in favour of `winning_position`, at time `now`, on behalf of
/// `sender`, where `losing_supply` is the losing token's current total supply.
///
/// Marks the market resolved, once and for all, and returns the dilution of the losing
/// side: a mint of nineteen times its supply to the public sink, so that its supply becomes
/// twenty times what it was.
pub fn execute_resolve_poll(
    state: &mut PollState,
    sender: &String,
    winning_position: bool,
    now: u64,
    losing_supply: u128,
) -> (r: Result<MintMsg, ContractError>)
    requires
        old(state).wf(),
    ensures
        final(state).wf(),
        r is Err <==> resolve_refusal(old(state).config, sender@, now, losing_supply) is Some,
        r matches Err(err) ==> resolve_refusal(old(state).config, sender@, now, losing_supply)
            == Some(err),
        r is Err ==> *final(state) == *old(state),
        r matches Ok(m) ==> {
            let s0 = *old(state);
            let s1 = *final(state);
            &&& m.token == losing_token_of(s0.config, winning_position)
            &&& m.recipient@ == blitz_sink()
            &&& m.amount == losing_supply * BLITZ_MULTIPLIER
            &&& s1.config == resolved_config(s0.config, winning_position)
            &&& s1.stakes == s0.stakes
            &&& s1.epochs == s0.epochs
            &&& s1.epoch_stakers == s0.epoch_stakers
            &&& s1.current_epoch == s0.current_epoch
            &&& s1.epoch_duration == s0.epoch_duration
            &&& s1.total_yes == s0.total_yes
            &&& s1.total_no == s0.total_no
        },
{
    if now < state.config.end_timestamp {
        return Err(ContractError::PollStillActive {  });
    }
    if state.config.is_resolved {
        return Err(ContractError::PollAlreadyResolved {  });
    }
    if *sender != state.config.capy_core {
        return Err(ContractError::Unauthorized {  });
    }
    let amount = match checked_mul(losing_supply, BLITZ_MULTIPLIER) {
        Ok(v) => v,
        Err(_) => {
            return Err(ContractError::FailedInnerCall {  });
        },
    };
    let token = losing_token(state, winning_position);
    let sink = <String as vstd::string::StringExecFns>::from_str("public");
    proof {
        reveal_strlit("public");
    }
    let ghost s0 = *state;
    state.config.is_resolved = true;
    state.config.winning_position = Some(winning_position);
    proof {
        let s1 = *state;
        assert forall|k: u64| 1 <= k <= NUM_EPOCHS implies #[trigger] s1.epoch_wf(k) by {
            assert(s0.epoch_wf(k));
            assert(s1.stakers_of(k) == s0.stakers_of(k));
        }
    }
    Ok(MintMsg { token, recipient: sink, amount })
}

/// Once a resolution has gone through, every later one is refused, whoever sends it, at
/// whatever time, naming either side.
pub proof fn lemma_second_resolution_fails(
    config: PollConfig,
    sender: Seq<char>,
    now: u64,
    losing_supply: u128,
    winning_position: bool,
    sender2: Seq<char>,
    now2: u64,
    losing_supply2: u128,
)
    requires
        resolve_refusal(config, sender, now, losing_supply) is None,
    ensures
        resolve_refusal(resolved_config(config, winning_position), sender2, now2, losing_supply2)
            is Some,
{
}

/// Why a withdrawal by `who` is refused, if it is: the market is not resolved, or `who`
/// holds nothing that is still to be paid back.
pub open spec fn withdraw_refusal(s: PollState, who: Seq<char>) -> Option<ContractError> {
    if !s.config.is_resolved {
        Some(ContractError::PollNotResolved {  })
    } else if unwithdrawn_sum(s.stakes@, who) == 0 {
        Some(ContractError::NoStakesToWithdraw {  })
    } else {
        None
    }
}

/// Sum of the stakes of `who` that have not been paid back.
fn unwithdrawn_total(log: &Vec<StakeRecord>, who: &String) -> (r: u128)
    requires
        total_stake_sum(log@) <= u128::MAX,
    ensures
        r == unwithdrawn_sum(log@, who@),
{
    let mut total: u128 = 0;
    let mut j: usize = 0;
    while j < log.len()
        invariant
            0 <= j <= log@.len(),
            total_stake_sum(log@) <= u128::MAX,
            total == unwithdrawn_sum(log@.take(j as int), who@),
        decreases log.len() - j,
    {
        proof {
            assert(log@.take(j + 1).drop_last() =~= log@.take(j as int));
            assert(log@.take(j + 1).last() == log@[j as int]);
            lemma_prefix_sums(log@, j + 1, who@);
        }
        if log[j].staker == *who && !log[j].stake.withdrawn {
            total = total + log[j].stake.amount;
        }
        j = j + 1;
    }
    assert(log@.take(log@.len() as int) =~= log@);
    total
}

/// Pays back to `sender` every stake of theirs that has not been paid back yet.
///
/// Every stake of the sender is marked as paid back and a single transfer of their sum, in
/// the market's denomination, is returned.
pub fn execute_withdraw_stake(state: &mut PollState, sender: &String) -> (r: Result<
    BankSend,
    ContractError,
>)
    requires
        old(state).wf(),
    ensures
        final(state).wf(),
        r is Err <==> withdraw_refusal(*old(state), sender@) is Some,
        r matches Err(err) ==> withdraw_refusal(*old(state), sender@) == Some(err),
        r is Err ==> *final(state) == *old(state),
        r matches Ok(t) ==> {
            let s0 = *old(state);
            let s1 = *final(state);
            &&& t == BankSend {
                to_address: *sender,
                denom: s0.config.denom,
                amount: unwithdrawn_sum(s0.stakes@, sender@) as u128,
            }
            &&& s1.stakes@ == mark_withdrawn(s0.stakes@, sender@)
            &&& s1.config == s0.config
            &&& s1.epochs == s0.epochs
            &&& s1.epoch_stakers == s0.epoch_stakers
            &&& s1.current_epoch == s0.current_epoch
            &&& s1.epoch_duration == s0.epoch_duration
            &&& s1.total_yes == s0.total_yes
            &&& s1.total_no == s0.total_no
        },
{
    if !state.config.is_resolved {
        return Err(ContractError::PollNotResolved {  });
    }
    let total = unwithdrawn_total(&state.stakes, sender);
    if total == 0 {
        return Err(ContractError::NoStakesToWithdraw {  });
    }
    let ghost s0 = *state;
    let ghost log = state.stakes@;
    let mut j: usize = 0;
    while j < state.stakes.len()
        invariant
            0 <= j <= log.len(),
            state.stakes@.len() == log.len(),
            state.config == s0.config,
            state.epochs == s0.epochs,
            state.epoch_stakers == s0.epoch_stakers,
            state.current_epoch == s0.current_epoch,
            state.epoch_duration == s0.epoch_duration,
            state.total_yes == s0.total_yes,
            state.total_no == s0.total_no,
            forall|i: int| 0 <= i < j ==> #[trigger] state.stakes@[i] == mark_withdrawn(log, sender@)[i],
            forall|i: int| j <= i < log.len() ==> #[trigger] state.stakes@[i] == log[i],
        decreases log.len() - j,
    {
        if state.stakes[j].staker == *sender {
            state.stakes[j].stake.withdrawn = true;
        }
        j = j + 1;
    }
    proof {
        let s1 = *state;
        assert(s1.stakes@ =~= mark_withdrawn(log, sender@));
        lemma_sums_ignore_withdrawn(s1.stakes@, log);
        assert forall|k: u64| 1 <= k <= NUM_EPOCHS implies #[trigger] s1.epoch_wf(k) by {
            assert(s0.epoch_wf(k));
            let sk = s0.stakers_of(k);
            lemma_range_sum_same_sums(s1.stakes@, log, sk, k, 0, sk.len() as int);
            assert forall|j2: int|
                0 <= j2 < s1.stakes@.len() && (#[trigger] s1.stakes@[j2]).epoch == k implies staker_listed(
                sk,
                s1.stakes@[j2].staker@,
            ) by {
                assert(s0.stakes@[j2].epoch == k);
            }
        }
        assert forall|j2: int| 0 <= j2 < s1.stakes@.len() implies 1 <= (
        #[trigger] s1.stakes@[j2]).epoch <= NUM_EPOCHS by {
            assert(s0.stakes@[j2].epoch == s1.stakes@[j2].epoch);
        }
    }
    Ok(BankSend { to_address: sender.clone(), denom: state.config.denom.clone(), amount: total })
}

/// A withdrawal pays out everything: a second withdrawal by the same staker right after a
/// successful one finds nothing left and is refused.
pub proof fn lemma_second_withdrawal_fails(s0: PollState, s1: PollState, who: Seq<char>)
    requires
        withdraw_refusal(s0, who) is None,
        s1.config == s0.config,
        s1.stakes@ == mark_withdrawn(s0.stakes@, who),
    ensures
        withdraw_refusal(s1, who) == Some(ContractError::NoStakesToWithdraw {  }),
{
    lemma_marked_nothing_left(s0.stakes@, who);
}

} // verus!
