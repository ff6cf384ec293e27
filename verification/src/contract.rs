//! Entry points: create the handler state, execute a command or callback,
//! answer a query. Each invocation is one atomic, serialized unit against
//! the state.

use vstd::prelude::*;
use crate::error::ContractError;
use crate::msg::{Callback, ExecuteMsg, InstantiateMsg, QueryAnswer, QueryMsg, Response};
use crate::state::State;
use crate::typing::{config_wf, MessageInfo};
use crate::contract_callback::{
    bond_response_post, route_callback, start_unbond_response_post, unbond_response_post,
};
use crate::contract_execute::{
    bond_accepted, bond_headroom, bond_post, route_execute, start_unbond_post, unbond_post,
};
use crate::contract_query::{bond_status_answer, route_query, spec_shares_available};

verus! {

/// Create the handler with its immutable configuration and empty registries.
pub fn instantiate(msg: InstantiateMsg) -> (s: State)
    requires
        config_wf(msg.config),
    ensures
        s.wf(),
        s.model().config == msg.config,
        s.model().owners =~= Map::<Seq<char>, Seq<char>>::empty(),
        s.model().statuses =~= Map::<Seq<char>, crate::typing::BondStatusV>::empty(),
{
    State::new(msg.config)
}

/// Execute one command or callback against the state, atomically: either
/// the whole transition applies and the response carries the outbound
/// messages, or an error is returned and nothing is mutated.
pub fn execute(state: &mut State, now: u64, info: MessageInfo, msg: ExecuteMsg) -> (r: Result<
    Response,
    ContractError,
>)
    requires
        old(state).wf(),
        (msg matches ExecuteMsg::Bond { id } && bond_accepted(
            old(state).model(),
            info.sender@,
            info.funds@,
            id@,
        )) ==> bond_headroom(old(state).model(), msg->Bond_id@, info.funds@[0].amount),
    ensures
        final(state).wf(),
        match msg {
            ExecuteMsg::Bond { id } => bond_post(
                old(state).model(),
                final(state).model(),
                info.sender@,
                info.funds@,
                id@,
                r,
            ),
            ExecuteMsg::StartUnbond { id, share_amount } => start_unbond_post(
                old(state).model(),
                final(state).model(),
                info.sender@,
                id@,
                share_amount,
                r,
            ),
            ExecuteMsg::Unbond { id, share_amount } => unbond_post(
                old(state).model(),
                final(state).model(),
                info.sender@,
                id@,
                share_amount,
                now,
                r,
            ),
            ExecuteMsg::Callback(callback) => match callback {
                Callback::BondResponse(response) => bond_response_post(
                    old(state).model(),
                    final(state).model(),
                    info.sender@,
                    response.bond_id@,
                    response.share_amount,
                    r,
                ),
                Callback::StartUnbondResponse(response) => start_unbond_response_post(
                    old(state).model(),
                    final(state).model(),
                    info.sender@,
                    response.unbond_id@,
                    now,
                    r,
                ),
                Callback::UnbondResponse(response) => unbond_response_post(
                    old(state).model(),
                    final(state).model(),
                    info.sender@,
                    response.unbond_id@,
                    info.funds@,
                    r,
                ),
            },
        },
{
    match msg {
        ExecuteMsg::Callback(callback) => route_callback(state, now, info, callback),
        other => route_execute(state, now, info, other),
    }
}

/// Answer a read-only query against the state.
pub fn query(state: &State, now: u64, msg: QueryMsg) -> (r: QueryAnswer)
    requires
        state.wf(),
    ensures
        match msg {
            QueryMsg::GetConfig {} => r matches QueryAnswer::Config(resp) && resp.config
                == state.model().config,
            QueryMsg::GetBondStatus { id } => r matches QueryAnswer::BondStatus(resp)
                && bond_status_answer(state.model(), id@, resp),
            QueryMsg::GetSharesAvailableUnbond { id } => r matches QueryAnswer::SharesAvailableUnbond(
                resp,
            ) && resp.shares_available_unbond == spec_shares_available(state.model(), id@, now),
        },
{
    route_query(state, now, msg)
}

} // verus!
