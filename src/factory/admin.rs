//! The owner's operations on the factory's configuration.

use crate::factory::error::ContractError;
use crate::factory::state::{Config, FactoryState, MAX_PROTOCOL_FEE};
use crate::poll::msg::BankSend;
use vstd::prelude::*;
use vstd::string::StringExecFns;

verus! {

/// Points new markets at another code template; only the owner may. Returns the previous
/// template.
pub fn execute_update_poll_code_id(
    state: &mut FactoryState,
    sender: &String,
    code_id: u64,
) -> (r: Result<u64, ContractError>)
    requires
        old(state).wf(),
    ensures
        final(state).wf(),
        r is Err <==> sender@ != old(state).config.owner@,
        r is Err ==> r == Err::<u64, ContractError>(ContractError::Unauthorized {  }),
        r is Err ==> *final(state) == *old(state),
        r matches Ok(previous) ==> previous == old(state).config.poll_code_id && *final(state) == (
        FactoryState {
            config: Config { poll_code_id: code_id, ..old(state).config },
            ..*old(state)
        }),
{
    if *sender != state.config.owner {
        return Err(ContractError::Unauthorized {  });
    }
    let previous = state.config.poll_code_id;
    state.config.poll_code_id = code_id;
    Ok(previous)
}

/// Points new outcome tokens at another code template; only the owner may. Returns the
/// previous template.
pub fn execute_update_token_code_id(
    state: &mut FactoryState,
    sender: &String,
    code_id: u64,
) -> (r: Result<u64, ContractError>)
    requires
        old(state).wf(),
    ensures
        final(state).wf(),
        r is Err <==> sender@ != old(state).config.owner@,
        r is Err ==> r == Err::<u64, ContractError>(ContractError::Unauthorized {  }),
        r is Err ==> *final(state) == *old(state),
        r matches Ok(previous) ==> previous == old(state).config.token_code_id && *final(state) == (
        FactoryState {
            config: Config { token_code_id: code_id, ..old(state).config },
            ..*old(state)
        }),
{
    if *sender != state.config.owner {
        return Err(ContractError::Unauthorized {  });
    }
    let previous = state.config.token_code_id;
    state.config.token_code_id = code_id;
    Ok(previous)
}

/// Sets the fee for creating a market; only the owner may. Returns the previous fee.
pub fn execute_set_initial_fee(
    state: &mut FactoryState,
    sender: &String,
    new_fee: u128,
) -> (r: Result<u128, ContractError>)
    requires
        old(state).wf(),
    ensures
        final(state).wf(),
        r is Err <==> sender@ != old(state).config.owner@,
        r is Err ==> r == Err::<u128, ContractError>(ContractError::Unauthorized {  }),
        r is Err ==> *final(state) == *old(state),
        r matches Ok(previous) ==> previous == old(state).config.initial_fee && *final(state) == (
        FactoryState {
            config: Config { initial_fee: new_fee, ..old(state).config },
            ..*old(state)
        }),
{
    if *sender != state.config.owner {
        return Err(ContractError::Unauthorized {  });
    }
    let previous = state.config.initial_fee;
    state.config.initial_fee = new_fee;
    Ok(previous)
}

/// Sets the protocol fee, in basis points; only the owner may, and not above the ceiling.
/// Returns the previous fee.
pub fn execute_set_protocol_fee(
    state: &mut FactoryState,
    sender: &String,
    new_fee: u64,
) -> (r: Result<u64, ContractError>)
    requires
        old(state).wf(),
    ensures
        final(state).wf(),
        r is Err <==> sender@ != old(state).config.owner@ || new_fee > MAX_PROTOCOL_FEE,
        r is Err ==> *final(state) == *old(state),
        sender@ != old(state).config.owner@ ==> r == Err::<u64, ContractError>(
            ContractError::Unauthorized {  },
        ),
        sender@ == old(state).config.owner@ && new_fee > MAX_PROTOCOL_FEE ==> (r matches Err(
            ContractError::InvalidFee(m),
        ) && m@ == "Fee too high"@),
        r matches Ok(previous) ==> previous == old(state).config.protocol_fee && *final(state) == (
        FactoryState {
            config: Config { protocol_fee: new_fee, ..old(state).config },
            ..*old(state)
        }),
{
    if *sender != state.config.owner {
        return Err(ContractError::Unauthorized {  });
    }
    if new_fee > MAX_PROTOCOL_FEE {
        return Err(ContractError::InvalidFee(String::from_str("Fee too high")));
    }
    let previous = state.config.protocol_fee;
    state.config.protocol_fee = new_fee;
    Ok(previous)
}

/// Sends the factory's whole `balance` of its denomination to `to`; only the owner may.
pub fn execute_withdraw_fees(
    state: &FactoryState,
    sender: &String,
    to: &String,
    balance: u128,
) -> (r: Result<BankSend, ContractError>)
    ensures
        r is Err <==> sender@ != state.config.owner@,
        r is Err ==> r == Err::<BankSend, ContractError>(ContractError::Unauthorized {  }),
        r matches Ok(t) ==> t == (BankSend {
            to_address: *to,
            denom: state.config.denom,
            amount: balance,
        }),
{
    if *sender != state.config.owner {
        return Err(ContractError::Unauthorized {  });
    }
    Ok(BankSend { to_address: to.clone(), denom: state.config.denom.clone(), amount: balance })
}

} // verus!
