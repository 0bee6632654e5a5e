//! The market's records, the fixed epoch schedule, and the ledger sums that the
//! market's invariant is stated over.

use vstd::prelude::*;

verus! {

/// Number of epochs a market's lifetime is split into.
pub const NUM_EPOCHS: u64 = 4;

/// Most stakers paid by one distribution call.
pub const BATCH_SIZE: u64 = 100;

/// Longest market duration accepted, in seconds (thirty days).
pub const MAX_DURATION: u64 = 2592000;

/// The losing side's supply is multiplied by this much on resolution, so that the new
/// supply is twenty times the old one.
pub const BLITZ_MULTIPLIER: u128 = 19;

/// A market's configuration; `is_resolved` and `winning_position` are set once, on
/// resolution.
#[derive(Debug, Clone, PartialEq, Eq)]
pub struct PollConfig {
    pub capy_core: String,
    pub poll_creator: String,
    pub yes_token: String,
    pub no_token: String,
    pub end_timestamp: u64,
    pub total_staked: u128,
    pub is_resolved: bool,
    pub winning_position: Option<bool>,
    pub denom: String,
}

/// One epoch's schedule and reward progress.
#[derive(Debug, Clone, Copy, PartialEq, Eq)]
pub struct EpochInfo {
    pub start_time: u64,
    pub end_time: u64,
    pub total_distribution: u128,
    pub is_distributed: bool,
    pub total_epoch_staked: u128,
    /// How many of the epoch's stakers have been paid.
    pub last_processed_index: u64,
}

/// One stake: its amount, its side (`true` for YES) and whether it was paid back.
#[derive(Debug, Clone, Copy, PartialEq, Eq)]
pub struct Stake {
    pub amount: u128,
    pub position: bool,
    pub withdrawn: bool,
}

/// A stake together with its staker and the epoch it was placed in.
#[derive(Debug, Clone, PartialEq, Eq)]
pub struct StakeRecord {
    pub staker: String,
    pub epoch: u64,
    pub stake: Stake,
}

/// A market's whole state.
///
/// `epochs[i]` and `epoch_stakers[i]` belong to epoch `i + 1`; `epoch_stakers[i]` lists each
/// staker of that epoch once, in the order of their first stake there. `stakes` is the
/// append-only log of every stake, in the order they were placed.
#[derive(Debug, Clone, PartialEq, Eq)]
pub struct PollState {
    pub config: PollConfig,
    /// The epoch of the most recent stake; epochs after it count as not started.
    pub current_epoch: u64,
    pub epoch_duration: u64,
    pub total_yes: u128,
    pub total_no: u128,
    pub epochs: Vec<EpochInfo>,
    pub epoch_stakers: Vec<Vec<String>>,
    pub stakes: Vec<StakeRecord>,
}

/// Reward budget of an epoch, in parts per ten thousand of the reward pool.
pub open spec fn epoch_distribution(epoch_number: u64) -> u128 {
    if epoch_number == 1 {
        3657
    } else if epoch_number == 2 {
        2743
    } else if epoch_number == 3 {
        2058
    } else if epoch_number == 4 {
        1542
    } else {
        0
    }
}

/// The fixed reward budget of an epoch; epochs outside the schedule get none.
pub fn calculate_epoch_distribution(epoch_number: u64) -> (r: u128)
    ensures
        r == epoch_distribution(epoch_number),
{
    match epoch_number {
        1 => 3657,
        2 => 2743,
        3 => 2058,
        4 => 1542,
        _ => 0,
    }
}

/// The epochs are laid out back to back so that the last one ends with the market; this is
/// when the first one starts.
pub open spec fn schedule_start(end_timestamp: u64, epoch_duration: u64) -> int {
    end_timestamp - 4 * epoch_duration
}

/// The epoch a stake placed at `now` belongs to. Time before the schedule starts (the
/// remainder when the duration is not a multiple of four) counts to the first epoch.
pub open spec fn epoch_at(now: u64, end_timestamp: u64, epoch_duration: u64) -> u64 {
    let start = schedule_start(end_timestamp, epoch_duration);
    if now < start {
        1
    } else {
        ((now - start) / (epoch_duration as int) + 1) as u64
    }
}

/// Whether a record is a stake of `who` in epoch `e`.
pub open spec fn record_in(r: StakeRecord, who: Seq<char>, e: u64) -> bool {
    r.staker@ == who && r.epoch == e
}

/// Sum of every stake in the log.
pub open spec fn total_stake_sum(log: Seq<StakeRecord>) -> int
    decreases log.len(),
{
    if log.len() == 0 {
        0
    } else {
        total_stake_sum(log.drop_last()) + log.last().stake.amount
    }
}

/// Sum of the stakes placed in epoch `e`.
pub open spec fn epoch_stake_sum(log: Seq<StakeRecord>, e: u64) -> int
    decreases log.len(),
{
    if log.len() == 0 {
        0
    } else {
        epoch_stake_sum(log.drop_last(), e) + if log.last().epoch == e {
            log.last().stake.amount as int
        } else {
            0
        }
    }
}

/// Sum of the stakes on one side.
pub open spec fn side_stake_sum(log: Seq<StakeRecord>, position: bool) -> int
    decreases log.len(),
{
    if log.len() == 0 {
        0
    } else {
        side_stake_sum(log.drop_last(), position) + if log.last().stake.position == position {
            log.last().stake.amount as int
        } else {
            0
        }
    }
}

/// Sum of the stakes `who` placed in epoch `e`.
pub open spec fn staker_epoch_sum(log: Seq<StakeRecord>, who: Seq<char>, e: u64) -> int
    decreases log.len(),
{
    if log.len() == 0 {
        0
    } else {
        staker_epoch_sum(log.drop_last(), who, e) + if record_in(log.last(), who, e) {
            log.last().stake.amount as int
        } else {
            0
        }
    }
}

/// Sum of the stakes of `who` that have not been paid back.
pub open spec fn unwithdrawn_sum(log: Seq<StakeRecord>, who: Seq<char>) -> int
    decreases log.len(),
{
    if log.len() == 0 {
        0
    } else {
        unwithdrawn_sum(log.drop_last(), who) + if log.last().staker@ == who
            && !log.last().stake.withdrawn {
            log.last().stake.amount as int
        } else {
            0
        }
    }
}

/// Sum, over the stakers `stakers[lo..hi]`, of what each staked in epoch `e`.
pub open spec fn stakers_range_sum(
    log: Seq<StakeRecord>,
    stakers: Seq<String>,
    e: u64,
    lo: int,
    hi: int,
) -> int
    decreases hi - lo,
{
    if hi <= lo {
        0
    } else {
        stakers_range_sum(log, stakers, e, lo, hi - 1) + staker_epoch_sum(log, stakers[hi - 1]@, e)
    }
}

/// Whether `who` appears in a staker list.
pub open spec fn staker_listed(stakers: Seq<String>, who: Seq<char>) -> bool {
    exists|k: int| 0 <= k < stakers.len() && (#[trigger] stakers[k])@ == who
}

/// Whether a staker list names nobody twice.
pub open spec fn stakers_unique(stakers: Seq<String>) -> bool {
    forall|k1: int, k2: int|
        0 <= k1 < stakers.len() && 0 <= k2 < stakers.len() && k1 != k2 ==> (#[trigger] stakers[k1])@
            != (#[trigger] stakers[k2])@
}

/// The same log with every stake of `who` marked as paid back.
pub open spec fn mark_withdrawn(log: Seq<StakeRecord>, who: Seq<char>) -> Seq<StakeRecord> {
    log.map_values(
        |r: StakeRecord|
            if r.staker@ == who {
                StakeRecord { stake: Stake { withdrawn: true, ..r.stake }, ..r }
            } else {
                r
            },
    )
}

impl PollState {
    /// The staker list of epoch `e` (numbered from one).
    pub open spec fn stakers_of(&self, e: u64) -> Seq<String> {
        self.epoch_stakers@[e - 1]@
    }

    /// The record of epoch `e` (numbered from one).
    pub open spec fn epoch(&self, e: u64) -> EpochInfo {
        self.epochs@[e - 1]
    }

    /// What holds of every epoch's bookkeeping.
    pub open spec fn epoch_wf(&self, e: u64) -> bool {
        let info = self.epoch(e);
        let stakers = self.stakers_of(e);
        &&& info.total_epoch_staked == epoch_stake_sum(self.stakes@, e)
        &&& info.total_epoch_staked == stakers_range_sum(
            self.stakes@,
            stakers,
            e,
            0,
            stakers.len() as int,
        )
        &&& stakers_unique(stakers)
        &&& forall|j: int|
            0 <= j < self.stakes@.len() && (#[trigger] self.stakes@[j]).epoch == e
                ==> staker_listed(stakers, self.stakes@[j].staker@)
        &&& info.last_processed_index <= stakers.len()
    }

    /// The market's invariant: four epochs, every stake in one of them, and every running
    /// total equal to the sum it stands for.
    pub open spec fn wf(&self) -> bool {
        &&& self.epochs@.len() == NUM_EPOCHS
        &&& self.epoch_stakers@.len() == NUM_EPOCHS
        &&& self.epoch_duration * 4 <= self.config.end_timestamp
        &&& 1 <= self.current_epoch <= NUM_EPOCHS
        &&& forall|j: int|
            0 <= j < self.stakes@.len() ==> 1 <= (#[trigger] self.stakes@[j]).epoch <= NUM_EPOCHS
        &&& self.total_yes == side_stake_sum(self.stakes@, true)
        &&& self.total_no == side_stake_sum(self.stakes@, false)
        &&& self.config.total_staked == total_stake_sum(self.stakes@)
        &&& forall|e: u64| 1 <= e <= NUM_EPOCHS ==> #[trigger] self.epoch_wf(e)
    }
}

/// Every ledger sum is non-negative and bounded by the sum of all stakes, and the two
/// sides together make up that sum.
pub proof fn lemma_sums_bounded(log: Seq<StakeRecord>, who: Seq<char>, e: u64)
    ensures
        0 <= staker_epoch_sum(log, who, e) <= epoch_stake_sum(log, e) <= total_stake_sum(log),
        0 <= unwithdrawn_sum(log, who) <= total_stake_sum(log),
        side_stake_sum(log, true) + side_stake_sum(log, false) == total_stake_sum(log),
        side_stake_sum(log, true) >= 0,
        side_stake_sum(log, false) >= 0,
    decreases log.len(),
{
    if log.len() > 0 {
        lemma_sums_bounded(log.drop_last(), who, e);
    }
}

/// A single stake of epoch `e` is no more than the epoch's sum.
pub proof fn lemma_record_within_epoch_sum(log: Seq<StakeRecord>, j: int)
    requires
        0 <= j < log.len(),
    ensures
        log[j].stake.amount <= epoch_stake_sum(log, log[j].epoch),
    decreases log.len(),
{
    let e = log[j].epoch;
    lemma_sums_bounded(log.drop_last(), log[j].staker@, e);
    if j < log.len() - 1 {
        lemma_record_within_epoch_sum(log.drop_last(), j);
    }
}

/// A staker that placed nothing in epoch `e` has an empty sum there.
pub proof fn lemma_no_record_zero_sum(log: Seq<StakeRecord>, who: Seq<char>, e: u64)
    requires
        forall|j: int| 0 <= j < log.len() ==> !record_in(#[trigger] log[j], who, e),
    ensures
        staker_epoch_sum(log, who, e) == 0,
    decreases log.len(),
{
    if log.len() > 0 {
        assert forall|j: int| 0 <= j < log.drop_last().len() implies !record_in(
            #[trigger] log.drop_last()[j],
            who,
            e,
        ) by {
            assert(log.drop_last()[j] == log[j]);
        }
        lemma_no_record_zero_sum(log.drop_last(), who, e);
    }
}

/// Appending a stake changes each staker's epoch sum by that stake, if it is theirs.
pub proof fn lemma_range_sum_push(
    log: Seq<StakeRecord>,
    r: StakeRecord,
    stakers: Seq<String>,
    e: u64,
    lo: int,
    hi: int,
)
    requires
        0 <= lo <= hi <= stakers.len(),
        stakers_unique(stakers),
    ensures
        stakers_range_sum(log.push(r), stakers, e, lo, hi) == stakers_range_sum(
            log,
            stakers,
            e,
            lo,
            hi,
        ) + if r.epoch == e && exists|k: int| lo <= k < hi && (#[trigger] stakers[k])@ == r.staker@ {
            r.stake.amount as int
        } else {
            0
        },
    decreases hi - lo,
{
    assert(log.push(r).drop_last() =~= log);
    if hi > lo {
        lemma_range_sum_push(log, r, stakers, e, lo, hi - 1);
        let last = stakers[hi - 1];
        if r.epoch == e && last@ == r.staker@ {
            assert forall|k: int| lo <= k < hi - 1 implies (#[trigger] stakers[k])@ != r.staker@ by {
                assert(stakers[k]@ != stakers[hi - 1]@);
            }
        }
        if r.epoch == e && (exists|k: int| lo <= k < hi - 1 && (#[trigger] stakers[k])@ == r.staker@) {
            let k = choose|k: int| lo <= k < hi - 1 && (#[trigger] stakers[k])@ == r.staker@;
            assert(stakers[k]@ != stakers[hi - 1]@);
        }
    }
}

/// A range sum reads the staker list only inside the range.
pub proof fn lemma_range_sum_prefix(
    log: Seq<StakeRecord>,
    s1: Seq<String>,
    s2: Seq<String>,
    e: u64,
    lo: int,
    hi: int,
)
    requires
        0 <= lo <= hi <= s1.len(),
        hi <= s2.len(),
        forall|k: int| lo <= k < hi ==> s1[k] == s2[k],
    ensures
        stakers_range_sum(log, s1, e, lo, hi) == stakers_range_sum(log, s2, e, lo, hi),
    decreases hi - lo,
{
    if hi > lo {
        lemma_range_sum_prefix(log, s1, s2, e, lo, hi - 1);
    }
}

/// Range sums split at any midpoint.
pub proof fn lemma_range_sum_split(
    log: Seq<StakeRecord>,
    stakers: Seq<String>,
    e: u64,
    lo: int,
    mid: int,
    hi: int,
)
    requires
        lo <= mid <= hi,
    ensures
        stakers_range_sum(log, stakers, e, lo, mid) + stakers_range_sum(log, stakers, e, mid, hi)
            == stakers_range_sum(log, stakers, e, lo, hi),
        stakers_range_sum(log, stakers, e, mid, hi) >= 0,
    decreases hi - mid,
{
    if hi > mid {
        lemma_range_sum_split(log, stakers, e, lo, mid, hi - 1);
        lemma_sums_bounded(log, stakers[hi - 1]@, e);
    }
}

} // verus!

verus! {

/// The ledger sums read the stakers, epochs, amounts and sides of the stakes, never whether
/// a stake was paid back.
pub proof fn lemma_sums_ignore_withdrawn(l1: Seq<StakeRecord>, l2: Seq<StakeRecord>)
    requires
        l1.len() == l2.len(),
        forall|i: int|
            0 <= i < l1.len() ==> (#[trigger] l1[i]).staker == l2[i].staker && l1[i].epoch
                == l2[i].epoch && l1[i].stake.amount == l2[i].stake.amount && l1[i].stake.position
                == l2[i].stake.position,
    ensures
        total_stake_sum(l1) == total_stake_sum(l2),
        side_stake_sum(l1, true) == side_stake_sum(l2, true),
        side_stake_sum(l1, false) == side_stake_sum(l2, false),
        forall|e: u64| #[trigger] epoch_stake_sum(l1, e) == epoch_stake_sum(l2, e),
        forall|who: Seq<char>, e: u64| #[trigger]
            staker_epoch_sum(l1, who, e) == staker_epoch_sum(l2, who, e),
    decreases l1.len(),
{
    if l1.len() > 0 {
        let prev1 = l1.drop_last();
        let prev2 = l2.drop_last();
        assert forall|i: int| 0 <= i < prev1.len() implies (#[trigger] prev1[i]).staker == prev2[i].staker
            && prev1[i].epoch == prev2[i].epoch && prev1[i].stake.amount == prev2[i].stake.amount
            && prev1[i].stake.position == prev2[i].stake.position by {
            assert(prev1[i] == l1[i] && prev2[i] == l2[i]);
        }
        lemma_sums_ignore_withdrawn(prev1, prev2);
        assert(l1.last() == l1[l1.len() - 1]);
        assert(l2.last() == l2[l2.len() - 1]);
        assert forall|e: u64| #[trigger] epoch_stake_sum(l1, e) == epoch_stake_sum(l2, e) by {
            assert(epoch_stake_sum(prev1, e) == epoch_stake_sum(prev2, e));
        }
        assert forall|who: Seq<char>, e: u64| #[trigger]
            staker_epoch_sum(l1, who, e) == staker_epoch_sum(l2, who, e) by {
            assert(staker_epoch_sum(prev1, who, e) == staker_epoch_sum(prev2, who, e));
        }
    }
}

/// Range sums agree on logs whose per-staker sums agree.
pub proof fn lemma_range_sum_same_sums(
    l1: Seq<StakeRecord>,
    l2: Seq<StakeRecord>,
    stakers: Seq<String>,
    e: u64,
    lo: int,
    hi: int,
)
    requires
        forall|who: Seq<char>, e2: u64| #[trigger]
            staker_epoch_sum(l1, who, e2) == staker_epoch_sum(l2, who, e2),
    ensures
        stakers_range_sum(l1, stakers, e, lo, hi) == stakers_range_sum(l2, stakers, e, lo, hi),
    decreases hi - lo,
{
    if hi > lo {
        lemma_range_sum_same_sums(l1, l2, stakers, e, lo, hi - 1);
        assert(staker_epoch_sum(l1, stakers[hi - 1]@, e) == staker_epoch_sum(
            l2,
            stakers[hi - 1]@,
            e,
        ));
    }
}

/// A prefix of the log holds no more than the whole log.
pub proof fn lemma_prefix_sums(log: Seq<StakeRecord>, j: int, who: Seq<char>)
    requires
        0 <= j <= log.len(),
    ensures
        0 <= unwithdrawn_sum(log.take(j), who) <= total_stake_sum(log.take(j)) <= total_stake_sum(log),
    decreases log.len(),
{
    lemma_sums_bounded(log.take(j), who, 0);
    if j < log.len() {
        assert(log.drop_last().take(j) =~= log.take(j));
        lemma_prefix_sums(log.drop_last(), j, who);
        lemma_sums_bounded(log.drop_last(), who, 0);
    } else {
        assert(log.take(j) =~= log);
    }
}

/// Marking a staker's stakes as paid back leaves nothing of theirs to pay.
pub proof fn lemma_marked_nothing_left(log: Seq<StakeRecord>, who: Seq<char>)
    ensures
        unwithdrawn_sum(mark_withdrawn(log, who), who) == 0,
    decreases log.len(),
{
    if log.len() > 0 {
        assert(mark_withdrawn(log, who).drop_last() =~= mark_withdrawn(log.drop_last(), who));
        lemma_marked_nothing_left(log.drop_last(), who);
    }
}

} // verus!

verus! {

/// Every epoch's running total is the sum of the stakes placed in it.
pub proof fn lemma_epoch_total_is_stake_sum(p: PollState, e: u64)
    requires
        p.wf(),
        1 <= e <= NUM_EPOCHS,
    ensures
        p.epoch(e).total_epoch_staked == epoch_stake_sum(p.stakes@, e),
{
    assert(p.epoch_wf(e));
}

} // verus!
