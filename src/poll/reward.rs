//! The epoch reward model: which mints a pass over an epoch's stakers produces, and the
//! two laws about it: batches concatenate to one pass, and a whole pass stays within the
//! epoch's budget.

use crate::math::{lemma_floor_share, lemma_share_within_budget};
use crate::poll::msg::MintMsg;
use crate::poll::state::{
    lemma_range_sum_split, lemma_record_within_epoch_sum, record_in,
    staker_epoch_sum, stakers_range_sum, PollConfig, PollState, StakeRecord,
    NUM_EPOCHS,
};
use vstd::prelude::*;

verus! {

/// The reward for a stake of `amount` in an epoch whose stakes sum to `cumulative`: the
/// epoch's `budget` times the stake's share of the epoch, rounded down.
pub open spec fn reward_of(budget: u128, cumulative: u128, amount: u128) -> u128 {
    if cumulative == 0 {
        0
    } else {
        ((budget as int) * (amount as int) / (cumulative as int)) as u128
    }
}

/// The outcome token of a side.
pub open spec fn side_token(config: PollConfig, position: bool) -> String {
    if position {
        config.yes_token
    } else {
        config.no_token
    }
}

/// The mints for the stakes `who` placed in epoch `e`, in ledger order.
pub open spec fn staker_mints(
    log: Seq<StakeRecord>,
    who: String,
    e: u64,
    budget: u128,
    cumulative: u128,
    config: PollConfig,
) -> Seq<MintMsg>
    decreases log.len(),
{
    if log.len() == 0 {
        Seq::empty()
    } else {
        staker_mints(log.drop_last(), who, e, budget, cumulative, config) + if record_in(log.last(), who@, e) {
            seq![
                MintMsg {
                    token: side_token(config, log.last().stake.position),
                    recipient: who,
                    amount: reward_of(budget, cumulative, log.last().stake.amount),
                },
            ]
        } else {
            Seq::empty()
        }
    }
}

/// The mints for the stakers `stakers[lo..hi]` of epoch `e`, staker by staker.
pub open spec fn batch_mints(
    log: Seq<StakeRecord>,
    stakers: Seq<String>,
    e: u64,
    budget: u128,
    cumulative: u128,
    config: PollConfig,
    lo: int,
    hi: int,
) -> Seq<MintMsg>
    decreases hi - lo,
{
    if hi <= lo {
        Seq::empty()
    } else {
        batch_mints(log, stakers, e, budget, cumulative, config, lo, hi - 1) + staker_mints(
            log,
            stakers[hi - 1],
            e,
            budget,
            cumulative,
            config,
        )
    }
}

/// The total amount minted by a sequence of mints.
pub open spec fn mint_total(mints: Seq<MintMsg>) -> int
    decreases mints.len(),
{
    if mints.len() == 0 {
        0
    } else {
        mint_total(mints.drop_last()) + mints.last().amount
    }
}

/// Mint totals add up over concatenation.
pub proof fn lemma_mint_total_concat(a: Seq<MintMsg>, b: Seq<MintMsg>)
    ensures
        mint_total(a + b) == mint_total(a) + mint_total(b),
    decreases b.len(),
{
    if b.len() == 0 {
        assert(a + b =~= a);
    } else {
        assert((a + b).drop_last() =~= a + b.drop_last());
        lemma_mint_total_concat(a, b.drop_last());
    }
}

/// Distribution in batches is resumable: the batch over `stakers[lo..mid]` followed by the
/// batch over `stakers[mid..hi]` is exactly the single pass over `stakers[lo..hi]`, so every
/// staker receives the same mints, in the same order, however the pass is split.
pub proof fn lemma_batches_concatenate(
    log: Seq<StakeRecord>,
    stakers: Seq<String>,
    e: u64,
    budget: u128,
    cumulative: u128,
    config: PollConfig,
    lo: int,
    mid: int,
    hi: int,
)
    requires
        lo <= mid <= hi,
    ensures
        batch_mints(log, stakers, e, budget, cumulative, config, lo, mid) + batch_mints(
            log,
            stakers,
            e,
            budget,
            cumulative,
            config,
            mid,
            hi,
        ) == batch_mints(log, stakers, e, budget, cumulative, config, lo, hi),
    decreases hi - mid,
{
    if hi == mid {
        assert(batch_mints(log, stakers, e, budget, cumulative, config, lo, mid) + Seq::<MintMsg>::empty()
            =~= batch_mints(log, stakers, e, budget, cumulative, config, lo, mid));
    } else {
        lemma_batches_concatenate(log, stakers, e, budget, cumulative, config, lo, mid, hi - 1);
        let a = batch_mints(log, stakers, e, budget, cumulative, config, lo, mid);
        let b = batch_mints(log, stakers, e, budget, cumulative, config, mid, hi - 1);
        let c = staker_mints(log, stakers[hi - 1], e, budget, cumulative, config);
        assert(a + (b + c) =~= (a + b) + c);
    }
}

/// Two distribution calls for one epoch mint what one unbatched pass mints: when the
/// second call starts where the first left the cursor, on the same ledger, staker list and
/// reward parameters, the first call's mints followed by the second's are exactly the pass
/// from the first call's start to the second call's end.
pub proof fn lemma_two_calls_one_pass(
    s0: PollState,
    s1: PollState,
    e: u64,
    first: Seq<MintMsg>,
    second: Seq<MintMsg>,
    end: int,
)
    requires
        s0.epoch(e).last_processed_index <= s1.epoch(e).last_processed_index <= end,
        first == batch_mints(
            s0.stakes@,
            s0.stakers_of(e),
            e,
            s0.epoch(e).total_distribution,
            s0.epoch(e).total_epoch_staked,
            s0.config,
            s0.epoch(e).last_processed_index as int,
            s1.epoch(e).last_processed_index as int,
        ),
        s1.stakes == s0.stakes,
        s1.epoch_stakers == s0.epoch_stakers,
        s1.config == s0.config,
        s1.epoch(e).total_distribution == s0.epoch(e).total_distribution,
        s1.epoch(e).total_epoch_staked == s0.epoch(e).total_epoch_staked,
        second == batch_mints(
            s1.stakes@,
            s1.stakers_of(e),
            e,
            s1.epoch(e).total_distribution,
            s1.epoch(e).total_epoch_staked,
            s1.config,
            s1.epoch(e).last_processed_index as int,
            end,
        ),
    ensures
        first + second == batch_mints(
            s0.stakes@,
            s0.stakers_of(e),
            e,
            s0.epoch(e).total_distribution,
            s0.epoch(e).total_epoch_staked,
            s0.config,
            s0.epoch(e).last_processed_index as int,
            end,
        ),
{
    lemma_batches_concatenate(
        s0.stakes@,
        s0.stakers_of(e),
        e,
        s0.epoch(e).total_distribution,
        s0.epoch(e).total_epoch_staked,
        s0.config,
        s0.epoch(e).last_processed_index as int,
        s1.epoch(e).last_processed_index as int,
        end,
    );
}

/// A staker's rewards are a floored share of the budget: scaled by the epoch's stake they
/// are at most the budget times the staker's own stake in the epoch. With nothing staked in
/// the epoch nothing is minted.
pub proof fn lemma_staker_mints_weighted(
    log: Seq<StakeRecord>,
    who: String,
    e: u64,
    budget: u128,
    cumulative: u128,
    config: PollConfig,
)
    requires
        forall|j: int|
            0 <= j < log.len() && (#[trigger] log[j]).epoch == e ==> log[j].stake.amount
                <= cumulative,
    ensures
        mint_total(staker_mints(log, who, e, budget, cumulative, config)) >= 0,
        cumulative == 0 ==> mint_total(staker_mints(log, who, e, budget, cumulative, config)) == 0,
        (cumulative as int) * mint_total(staker_mints(log, who, e, budget, cumulative, config)) <= (
        budget as int) * staker_epoch_sum(log, who@, e),
    decreases log.len(),
{
    let c = cumulative as int;
    let d = budget as int;
    if log.len() == 0 {
        assert(staker_mints(log, who, e, budget, cumulative, config) =~= Seq::<MintMsg>::empty());
    } else {
        let prev = log.drop_last();
        assert forall|j: int|
            0 <= j < prev.len() && (#[trigger] prev[j]).epoch == e implies prev[j].stake.amount
            <= cumulative by {
            assert(prev[j] == log[j]);
        }
        lemma_staker_mints_weighted(prev, who, e, budget, cumulative, config);
        let head = staker_mints(prev, who, e, budget, cumulative, config);
        let r = log.last();
        if record_in(r, who@, e) {
            let m = MintMsg {
                token: side_token(config, r.stake.position),
                recipient: who,
                amount: reward_of(budget, cumulative, r.stake.amount),
            };
            lemma_mint_total_concat(head, seq![m]);
            assert(seq![m].drop_last() =~= Seq::<MintMsg>::empty());
            assert(mint_total(Seq::<MintMsg>::empty()) == 0);
            assert(seq![m].last() == m);
            assert(mint_total(seq![m]) == m.amount);
            let a = r.stake.amount as int;
            assert(log[log.len() - 1] == r);
            if c > 0 {
                lemma_share_within_budget(d, a, c);
                lemma_floor_share(d, a, c);
                assert(m.amount == (d * a) / c);
                vstd::arithmetic::mul::lemma_mul_is_distributive_add(c, mint_total(head), m.amount as int);
                vstd::arithmetic::mul::lemma_mul_is_distributive_add(d, staker_epoch_sum(prev, who@, e), a);
            }
        } else {
            assert(head + Seq::<MintMsg>::empty() =~= head);
        }
    }
}

/// Scaled by the epoch's stake, the mints of a batch are at most the budget times the
/// batch's stake.
pub proof fn lemma_batch_weighted(
    log: Seq<StakeRecord>,
    stakers: Seq<String>,
    e: u64,
    budget: u128,
    cumulative: u128,
    config: PollConfig,
    lo: int,
    hi: int,
)
    requires
        forall|j: int|
            0 <= j < log.len() && (#[trigger] log[j]).epoch == e ==> log[j].stake.amount
                <= cumulative,
    ensures
        mint_total(batch_mints(log, stakers, e, budget, cumulative, config, lo, hi)) >= 0,
        cumulative == 0 ==> mint_total(batch_mints(log, stakers, e, budget, cumulative, config, lo, hi)) == 0,
        (cumulative as int) * mint_total(batch_mints(log, stakers, e, budget, cumulative, config, lo, hi))
            <= (budget as int) * stakers_range_sum(log, stakers, e, lo, hi),
    decreases hi - lo,
{
    let c = cumulative as int;
    let d = budget as int;
    if hi <= lo {
        assert(batch_mints(log, stakers, e, budget, cumulative, config, lo, hi) =~= Seq::<MintMsg>::empty());
    } else {
        lemma_batch_weighted(log, stakers, e, budget, cumulative, config, lo, hi - 1);
        lemma_staker_mints_weighted(log, stakers[hi - 1], e, budget, cumulative, config);
        let a = batch_mints(log, stakers, e, budget, cumulative, config, lo, hi - 1);
        let b = staker_mints(log, stakers[hi - 1], e, budget, cumulative, config);
        lemma_mint_total_concat(a, b);
        vstd::arithmetic::mul::lemma_mul_is_distributive_add(c, mint_total(a), mint_total(b));
        vstd::arithmetic::mul::lemma_mul_is_distributive_add(
            d,
            stakers_range_sum(log, stakers, e, lo, hi - 1),
            staker_epoch_sum(log, stakers[hi - 1]@, e),
        );
    }
}

/// Distribution never exceeds the epoch's budget: whatever stretch `stakers[lo..hi]` of an
/// epoch's staker list a pass covers, and so in particular all batches of the epoch
/// together, the amount minted is at most the epoch's `total_distribution`.
pub proof fn lemma_distribution_within_budget(p: PollState, e: u64, lo: int, hi: int)
    requires
        p.wf(),
        1 <= e <= NUM_EPOCHS,
        0 <= lo <= hi <= p.stakers_of(e).len(),
    ensures
        mint_total(
            batch_mints(
                p.stakes@,
                p.stakers_of(e),
                e,
                p.epoch(e).total_distribution,
                p.epoch(e).total_epoch_staked,
                p.config,
                lo,
                hi,
            ),
        ) <= p.epoch(e).total_distribution,
{
    let log = p.stakes@;
    let stakers = p.stakers_of(e);
    let budget = p.epoch(e).total_distribution;
    let cumulative = p.epoch(e).total_epoch_staked;
    let n = stakers.len() as int;
    let c = cumulative as int;
    let d = budget as int;
    assert(p.epoch_wf(e));
    assert forall|j: int|
        0 <= j < log.len() && (#[trigger] log[j]).epoch == e implies log[j].stake.amount
        <= cumulative by {
        lemma_record_within_epoch_sum(log, j);
    }
    lemma_batch_weighted(log, stakers, e, budget, cumulative, p.config, lo, hi);
    let t = mint_total(batch_mints(log, stakers, e, budget, cumulative, p.config, lo, hi));
    if c > 0 {
        lemma_range_sum_split(log, stakers, e, 0, lo, n);
        lemma_range_sum_split(log, stakers, e, lo, hi, n);
        lemma_range_sum_split(log, stakers, e, 0, 0, lo);
        lemma_range_sum_split(log, stakers, e, lo, lo, hi);
        let part = stakers_range_sum(log, stakers, e, lo, hi);
        assert(0 <= part <= c);
        vstd::arithmetic::mul::lemma_mul_inequality(part, c, d);
        vstd::arithmetic::mul::lemma_mul_is_commutative(part, d);
        vstd::arithmetic::mul::lemma_mul_is_commutative(c, d);
        vstd::arithmetic::mul::lemma_mul_is_commutative(c, t);
        vstd::arithmetic::mul::lemma_mul_inequality_converse(t, d, c);
    }
}

} // verus!
