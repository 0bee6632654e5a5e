//! The market's queries.

use crate::poll::error::ContractError;
use crate::poll::msg::{
    EpochInfoResponse, PollInfo, PollInfoResponse, QueryMsg, QueryResponse, TotalStakedResponse,
    UserStakesResponse,
};
use crate::poll::state::{record_in, PollState, Stake, StakeRecord, NUM_EPOCHS};
use vstd::prelude::*;

verus! {

/// The stakes `who` placed in epoch `e`, in the order placed.
pub open spec fn user_stakes(log: Seq<StakeRecord>, who: Seq<char>, e: u64) -> Seq<Stake>
    decreases log.len(),
{
    if log.len() == 0 {
        Seq::empty()
    } else if record_in(log.last(), who, e) {
        user_stakes(log.drop_last(), who, e).push(log.last().stake)
    } else {
        user_stakes(log.drop_last(), who, e)
    }
}

/// An epoch's schedule, budget and progress, and how many stakers it has.
pub fn query_epoch_info(state: &PollState, epoch_number: u64) -> (r: Result<
    EpochInfoResponse,
    ContractError,
>)
    requires
        state.wf(),
    ensures
        r is Err <==> !(1 <= epoch_number <= NUM_EPOCHS),
        r is Err ==> r == Err::<EpochInfoResponse, ContractError>(ContractError::EpochNotFound {  }),
        r matches Ok(info) ==> info == (EpochInfoResponse {
            start_time: state.epoch(epoch_number).start_time,
            end_time: state.epoch(epoch_number).end_time,
            total_distribution: state.epoch(epoch_number).total_distribution,
            is_distributed: state.epoch(epoch_number).is_distributed,
            num_stakers: state.stakers_of(epoch_number).len() as u64,
        }),
{
    if epoch_number == 0 || epoch_number > NUM_EPOCHS {
        return Err(ContractError::EpochNotFound {  });
    }
    let idx = (epoch_number - 1) as usize;
    let epoch = state.epochs[idx];
    Ok(
        EpochInfoResponse {
            start_time: epoch.start_time,
            end_time: epoch.end_time,
            total_distribution: epoch.total_distribution,
            is_distributed: epoch.is_distributed,
            num_stakers: state.epoch_stakers[idx].len() as u64,
        },
    )
}

/// The stakes `user` placed in epoch `epoch_number`, in the order placed.
pub fn query_user_stakes(state: &PollState, user: &String, epoch_number: u64) -> (r:
    UserStakesResponse)
    ensures
        r.stakes@ == user_stakes(state.stakes@, user@, epoch_number),
{
    let mut stakes: Vec<Stake> = Vec::new();
    let mut j: usize = 0;
    assert(state.stakes@.take(0) =~= Seq::<StakeRecord>::empty());
    while j < state.stakes.len()
        invariant
            0 <= j <= state.stakes@.len(),
            stakes@ == user_stakes(state.stakes@.take(j as int), user@, epoch_number),
        decreases state.stakes.len() - j,
    {
        assert(state.stakes@.take(j + 1).drop_last() =~= state.stakes@.take(j as int));
        assert(state.stakes@.take(j + 1).last() == state.stakes@[j as int]);
        if state.stakes[j].epoch == epoch_number && state.stakes[j].staker == *user {
            stakes.push(state.stakes[j].stake);
        }
        j = j + 1;
    }
    assert(state.stakes@.take(state.stakes@.len() as int) =~= state.stakes@);
    UserStakesResponse { stakes }
}

/// The market's public configuration.
pub fn query_poll_info(state: &PollState) -> (r: PollInfoResponse)
    ensures
        r.info == (PollInfo {
            end_timestamp: state.config.end_timestamp,
            yes_token: state.config.yes_token,
            no_token: state.config.no_token,
            total_staked: state.config.total_staked,
            is_resolved: state.config.is_resolved,
            winning_position: state.config.winning_position,
            denom: state.config.denom,
        }),
{
    PollInfoResponse {
        info: PollInfo {
            end_timestamp: state.config.end_timestamp,
            yes_token: state.config.yes_token.clone(),
            no_token: state.config.no_token.clone(),
            total_staked: state.config.total_staked,
            is_resolved: state.config.is_resolved,
            winning_position: state.config.winning_position,
            denom: state.config.denom.clone(),
        },
    }
}

/// What was staked on each side.
pub fn query_total_staked(state: &PollState) -> (r: TotalStakedResponse)
    ensures
        r == (TotalStakedResponse {
            total_yes: state.total_yes,
            total_no: state.total_no,
            denom: state.config.denom,
        }),
{
    TotalStakedResponse {
        total_yes: state.total_yes,
        total_no: state.total_no,
        denom: state.config.denom.clone(),
    }
}

/// Answers a query.
pub fn query(state: &PollState, msg: &QueryMsg) -> (r: Result<QueryResponse, ContractError>)
    requires
        state.wf(),
    ensures
        *msg is GetPollInfo ==> (r matches Ok(QueryResponse::PollInfo(p)) && p.info == (PollInfo {
            end_timestamp: state.config.end_timestamp,
            yes_token: state.config.yes_token,
            no_token: state.config.no_token,
            total_staked: state.config.total_staked,
            is_resolved: state.config.is_resolved,
            winning_position: state.config.winning_position,
            denom: state.config.denom,
        })),
        *msg is GetTotalStaked ==> r == Ok::<QueryResponse, ContractError>(
            QueryResponse::TotalStaked(
                TotalStakedResponse {
                    total_yes: state.total_yes,
                    total_no: state.total_no,
                    denom: state.config.denom,
                },
            ),
        ),
        *msg matches QueryMsg::GetEpochInfo { epoch_number } ==> if 1 <= epoch_number
            <= NUM_EPOCHS {
            r == Ok::<QueryResponse, ContractError>(
                QueryResponse::EpochInfo(
                    EpochInfoResponse {
                        start_time: state.epoch(epoch_number).start_time,
                        end_time: state.epoch(epoch_number).end_time,
                        total_distribution: state.epoch(epoch_number).total_distribution,
                        is_distributed: state.epoch(epoch_number).is_distributed,
                        num_stakers: state.stakers_of(epoch_number).len() as u64,
                    },
                ),
            )
        } else {
            r == Err::<QueryResponse, ContractError>(ContractError::EpochNotFound {  })
        },
        *msg matches QueryMsg::GetUserStakesForEpoch { user, epoch_number } ==> (r matches Ok(
            QueryResponse::UserStakes(u),
        ) && u.stakes@ == user_stakes(state.stakes@, user@, epoch_number)),
{
    match msg {
        QueryMsg::GetPollInfo {  } => Ok(QueryResponse::PollInfo(query_poll_info(state))),
        QueryMsg::GetEpochInfo { epoch_number } => match query_epoch_info(state, *epoch_number) {
            Ok(info) => Ok(QueryResponse::EpochInfo(info)),
            Err(e) => Err(e),
        },
        QueryMsg::GetUserStakesForEpoch { user, epoch_number } => Ok(
            QueryResponse::UserStakes(query_user_stakes(state, user, *epoch_number)),
        ),
        QueryMsg::GetTotalStaked {  } => Ok(QueryResponse::TotalStaked(query_total_staked(state))),
    }
}

} // verus!
