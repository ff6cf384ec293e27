//! Callback handlers: the authoritative, per-denomination half of each
//! transition, applied when a router confirms. The two routers' callbacks
//! for one logical operation are unordered and may be separated by
//! arbitrary time; each touches its own leg only.

use vstd::prelude::*;
use crate::error::ContractError;
use crate::msg::{
    BondResponse, Callback, FundsTransfer, Response, StartUnbondResponse, UnbondResponse,
};
use crate::state::{status_or_default, State, StateModel};
use crate::typing::{
    denom_sum, lemma_denom_sum_nonneg, BondStatusData, BondStatusV, Coin, MessageInfo,
    UnbondingElement,
};

verus! {

/// A response that answers a callback: no outbound messages at all.
pub open spec fn quiet_response(resp: Response) -> bool {
    &&& resp.notifications@.len() == 0
    &&& resp.transfers@.len() == 0
}

/// Whether the confirmed amount fits into what the ledger holds as pending
/// bond for the confirming router's leg.
pub open spec fn bond_confirm_covered(st: BondStatusV, leg1: bool, amount: u128) -> bool {
    if leg1 {
        amount <= st.sent_to_bond.denom_1
    } else {
        amount <= st.sent_to_bond.denom_2
    }
}

/// The ledger transition of one bond confirmation: the confirmed amount
/// moves from pending to bonded, on the confirming router's leg only.
pub open spec fn bond_confirm_next(st: BondStatusV, leg1: bool, amount: u128) -> BondStatusV {
    if leg1 {
        BondStatusV {
            sent_to_bond: BondStatusData {
                denom_1: (st.sent_to_bond.denom_1 - amount) as u128,
                denom_2: st.sent_to_bond.denom_2,
            },
            bonded: BondStatusData {
                denom_1: (st.bonded.denom_1 + amount) as u128,
                denom_2: st.bonded.denom_2,
            },
            ..st
        }
    } else {
        BondStatusV {
            sent_to_bond: BondStatusData {
                denom_1: st.sent_to_bond.denom_1,
                denom_2: (st.sent_to_bond.denom_2 - amount) as u128,
            },
            bonded: BondStatusData {
                denom_1: st.bonded.denom_1,
                denom_2: (st.bonded.denom_2 + amount) as u128,
            },
            ..st
        }
    }
}

/// Everything `BondConfirmed` guarantees: only a configured router may call;
/// a confirmation beyond the pending amount is a protocol violation and
/// fails without mutation; otherwise the confirming leg's transition
/// applies and nothing else moves.
pub open spec fn bond_response_post(
    pre: StateModel,
    post: StateModel,
    sender: Seq<char>,
    bond_id: Seq<char>,
    amount: u128,
    r: Result<Response, ContractError>,
) -> bool {
    if !pre.config.spec_is_valid_callback_caller(sender) {
        &&& r == Result::<Response, ContractError>::Err(ContractError::Unauthorized {})
        &&& post == pre
    } else {
        let leg1 = sender == pre.config.router_denom_1@;
        let st = status_or_default(pre, bond_id);
        if !bond_confirm_covered(st, leg1, amount) {
            &&& r == Result::<Response, ContractError>::Err(
                ContractError::ConfirmedAmountTooHigh {},
            )
            &&& post == pre
        } else {
            &&& (r matches Ok(resp) && quiet_response(resp))
            &&& post.config == pre.config
            &&& post.owners == pre.owners
            &&& post.statuses == pre.statuses.insert(bond_id, bond_confirm_next(st, leg1, amount))
        }
    }
}

/// Apply a router's bond confirmation for its denomination only.
pub fn bond_response(state: &mut State, info: MessageInfo, response: BondResponse) -> (r: Result<
    Response,
    ContractError,
>)
    requires
        old(state).wf(),
    ensures
        final(state).wf(),
        bond_response_post(
            old(state).model(),
            final(state).model(),
            info.sender@,
            response.bond_id@,
            response.share_amount,
            r,
        ),
{
    let config = state.config().clone();
    if !config.is_valid_callback_caller(&info.sender) {
        return Err(ContractError::Unauthorized {});
    }
    let leg1 = info.sender == config.router_denom_1;
    let mut st = state.status_or_new(&response.bond_id);
    proof {
        lemma_denom_sum_nonneg(st@.unbonding, config.denom_1@);
        lemma_denom_sum_nonneg(st@.unbonding, config.denom_2@);
    }
    if leg1 {
        if response.share_amount > st.sent_to_bond.denom_1 {
            return Err(ContractError::ConfirmedAmountTooHigh {});
        }
        st.sent_to_bond.denom_1 = st.sent_to_bond.denom_1 - response.share_amount;
        st.bonded.denom_1 = st.bonded.denom_1 + response.share_amount;
    } else {
        if response.share_amount > st.sent_to_bond.denom_2 {
            return Err(ContractError::ConfirmedAmountTooHigh {});
        }
        st.sent_to_bond.denom_2 = st.sent_to_bond.denom_2 - response.share_amount;
        st.bonded.denom_2 = st.bonded.denom_2 + response.share_amount;
    }
    state.set_status(response.bond_id, st);
    Ok(Response::empty())
}

/// The ledger transition of one start-unbond confirmation: the confirming
/// leg's unconfirmed amount becomes a fresh queue element whose lock starts
/// now, and the unconfirmed amount of that leg resets to zero.
pub open spec fn start_unbond_confirm_next(
    st: BondStatusV,
    leg1: bool,
    cfg: crate::typing::Config,
    now: u64,
) -> BondStatusV {
    if leg1 {
        BondStatusV {
            unbonding: st.unbonding.push(
                UnbondingElement {
                    denom: cfg.denom_1,
                    value: st.unconfirmed_unbonding.denom_1,
                    unbonding_start_time: now,
                },
            ),
            unconfirmed_unbonding: BondStatusData {
                denom_1: 0,
                denom_2: st.unconfirmed_unbonding.denom_2,
            },
            ..st
        }
    } else {
        BondStatusV {
            unbonding: st.unbonding.push(
                UnbondingElement {
                    denom: cfg.denom_2,
                    value: st.unconfirmed_unbonding.denom_2,
                    unbonding_start_time: now,
                },
            ),
            unconfirmed_unbonding: BondStatusData {
                denom_1: st.unconfirmed_unbonding.denom_1,
                denom_2: 0,
            },
            ..st
        }
    }
}

/// Everything `UnbondStartConfirmed` guarantees: each of the two
/// confirmations appends its own queue element with its own maturity clock.
pub open spec fn start_unbond_response_post(
    pre: StateModel,
    post: StateModel,
    sender: Seq<char>,
    unbond_id: Seq<char>,
    now: u64,
    r: Result<Response, ContractError>,
) -> bool {
    if !pre.config.spec_is_valid_callback_caller(sender) {
        &&& r == Result::<Response, ContractError>::Err(ContractError::Unauthorized {})
        &&& post == pre
    } else {
        let leg1 = sender == pre.config.router_denom_1@;
        let st = status_or_default(pre, unbond_id);
        &&& (r matches Ok(resp) && quiet_response(resp))
        &&& post.config == pre.config
        &&& post.owners == pre.owners
        &&& post.statuses == pre.statuses.insert(
            unbond_id,
            start_unbond_confirm_next(st, leg1, pre.config, now),
        )
    }
}

/// Apply a router's start-unbond confirmation for its denomination only.
pub fn start_unbond_response(
    state: &mut State,
    now: u64,
    info: MessageInfo,
    response: StartUnbondResponse,
) -> (r: Result<Response, ContractError>)
    requires
        old(state).wf(),
    ensures
        final(state).wf(),
        start_unbond_response_post(
            old(state).model(),
            final(state).model(),
            info.sender@,
            response.unbond_id@,
            now,
            r,
        ),
{
    let config = state.config().clone();
    if !config.is_valid_callback_caller(&info.sender) {
        return Err(ContractError::Unauthorized {});
    }
    let leg1 = info.sender == config.router_denom_1;
    let mut st = state.status_or_new(&response.unbond_id);
    let ghost st0 = st@;
    if leg1 {
        let elem = UnbondingElement {
            denom: config.denom_1.clone(),
            value: st.unconfirmed_unbonding.denom_1,
            unbonding_start_time: now,
        };
        st.unbonding.push(elem);
        st.unconfirmed_unbonding.denom_1 = 0;
    } else {
        let elem = UnbondingElement {
            denom: config.denom_2.clone(),
            value: st.unconfirmed_unbonding.denom_2,
            unbonding_start_time: now,
        };
        st.unbonding.push(elem);
        st.unconfirmed_unbonding.denom_2 = 0;
    }
    proof {
        assert(st@.unbonding.drop_last() =~= st0.unbonding);
        assert(denom_sum(st@.unbonding, config.denom_1@) == denom_sum(st0.unbonding, config.denom_1@)
            + if st@.unbonding.last().denom@ == config.denom_1@ {
            st@.unbonding.last().value as int
        } else {
            0
        });
        assert(denom_sum(st@.unbonding, config.denom_2@) == denom_sum(st0.unbonding, config.denom_2@)
            + if st@.unbonding.last().denom@ == config.denom_2@ {
            st@.unbonding.last().value as int
        } else {
            0
        });
    }
    state.set_status(response.unbond_id, st);
    Ok(Response::empty())
}

/// Whether the returned amount fits into what the ledger holds as sent for
/// unbond on the confirming router's leg.
pub open spec fn unbond_confirm_covered(st: BondStatusV, leg1: bool, returned: u128) -> bool {
    if leg1 {
        returned <= st.sent_for_unbond.denom_1
    } else {
        returned <= st.sent_for_unbond.denom_2
    }
}

/// The ledger transition of one unbond confirmation: the returned amount
/// leaves `sent_for_unbond` on the confirming router's leg only.
pub open spec fn unbond_confirm_next(st: BondStatusV, leg1: bool, returned: u128) -> BondStatusV {
    if leg1 {
        BondStatusV {
            sent_for_unbond: BondStatusData {
                denom_1: (st.sent_for_unbond.denom_1 - returned) as u128,
                denom_2: st.sent_for_unbond.denom_2,
            },
            ..st
        }
    } else {
        BondStatusV {
            sent_for_unbond: BondStatusData {
                denom_1: st.sent_for_unbond.denom_1,
                denom_2: (st.sent_for_unbond.denom_2 - returned) as u128,
            },
            ..st
        }
    }
}

/// Everything `UnbondConfirmed` guarantees: the returned amount leaves the
/// confirming leg's sent-for-unbond balance, and the attached funds are
/// forwarded to the registered owner; a return beyond the pending balance
/// is a protocol violation and fails without mutation.
pub open spec fn unbond_response_post(
    pre: StateModel,
    post: StateModel,
    sender: Seq<char>,
    unbond_id: Seq<char>,
    funds: Seq<Coin>,
    r: Result<Response, ContractError>,
) -> bool {
    if !pre.config.spec_is_valid_callback_caller(sender) {
        &&& r == Result::<Response, ContractError>::Err(ContractError::Unauthorized {})
        &&& post == pre
    } else if !pre.owners.contains_key(unbond_id) {
        &&& r == Result::<Response, ContractError>::Err(ContractError::IdNotAllocated {})
        &&& post == pre
    } else if funds.len() != 1 {
        &&& r == Result::<Response, ContractError>::Err(
            ContractError::MismatchAmountDenoms { req_amount_denoms: 1 },
        )
        &&& post == pre
    } else if !pre.statuses.contains_key(unbond_id) {
        &&& r == Result::<Response, ContractError>::Err(ContractError::NoPreviousBondData {})
        &&& post == pre
    } else {
        let leg1 = sender == pre.config.router_denom_1@;
        let st = pre.statuses[unbond_id];
        let returned = funds[0].amount;
        if !unbond_confirm_covered(st, leg1, returned) {
            &&& r == Result::<Response, ContractError>::Err(
                ContractError::ConfirmedAmountTooHigh {},
            )
            &&& post == pre
        } else {
            &&& (r matches Ok(resp) && resp.notifications@.len() == 0 && resp.transfers@.len() == 1
                && resp.transfers@[0].to_address@ == pre.owners[unbond_id]
                && resp.transfers@[0].funds@ == funds)
            &&& post.config == pre.config
            &&& post.owners == pre.owners
            &&& post.statuses == pre.statuses.insert(
                unbond_id,
                unbond_confirm_next(st, leg1, returned),
            )
        }
    }
}

/// Apply a router's unbond confirmation for its denomination only, and
/// forward the returned funds to the position's owner.
pub fn unbond_response(state: &mut State, info: MessageInfo, response: UnbondResponse) -> (r:
    Result<Response, ContractError>)
    requires
        old(state).wf(),
    ensures
        final(state).wf(),
        unbond_response_post(
            old(state).model(),
            final(state).model(),
            info.sender@,
            response.unbond_id@,
            info.funds@,
            r,
        ),
{
    let config = state.config().clone();
    if !config.is_valid_callback_caller(&info.sender) {
        return Err(ContractError::Unauthorized {});
    }
    let target_addr = match state.get_owner(&response.unbond_id) {
        None => {
            return Err(ContractError::IdNotAllocated {});
        },
        Some(owner) => owner.clone(),
    };
    if info.funds.len() != 1 {
        return Err(ContractError::MismatchAmountDenoms { req_amount_denoms: 1 });
    }
    let returned = info.funds[0].amount;
    let leg1 = info.sender == config.router_denom_1;
    let mut st = match state.get_status(&response.unbond_id) {
        None => {
            return Err(ContractError::NoPreviousBondData {});
        },
        Some(st) => st.clone(),
    };
    if leg1 {
        if returned > st.sent_for_unbond.denom_1 {
            return Err(ContractError::ConfirmedAmountTooHigh {});
        }
        st.sent_for_unbond.denom_1 = st.sent_for_unbond.denom_1 - returned;
    } else {
        if returned > st.sent_for_unbond.denom_2 {
            return Err(ContractError::ConfirmedAmountTooHigh {});
        }
        st.sent_for_unbond.denom_2 = st.sent_for_unbond.denom_2 - returned;
    }
    proof {
        lemma_denom_sum_nonneg(st@.unbonding, config.denom_1@);
        lemma_denom_sum_nonneg(st@.unbonding, config.denom_2@);
    }
    state.set_status(response.unbond_id, st);
    let transfer = FundsTransfer { to_address: target_addr, funds: info.funds };
    Ok(Response { notifications: Vec::new(), transfers: vec![transfer] })
}

/// Dispatch a router confirmation to its handler; each handler checks that
/// the caller is one of the two configured routers.
pub fn route_callback(state: &mut State, now: u64, info: MessageInfo, msg: Callback) -> (r: Result<
    Response,
    ContractError,
>)
    requires
        old(state).wf(),
    ensures
        final(state).wf(),
        match msg {
            Callback::BondResponse(response) => bond_response_post(
                old(state).model(),
                final(state).model(),
                info.sender@,
                response.bond_id@,
                response.share_amount,
                r,
            ),
            Callback::StartUnbondResponse(response) => start_unbond_response_post(
                old(state).model(),
                final(state).model(),
                info.sender@,
                response.unbond_id@,
                now,
                r,
            ),
            Callback::UnbondResponse(response) => unbond_response_post(
                old(state).model(),
                final(state).model(),
                info.sender@,
                response.unbond_id@,
                info.funds@,
                r,
            ),
        },
{
    match msg {
        Callback::BondResponse(response) => bond_response(state, info, response),
        Callback::StartUnbondResponse(response) => start_unbond_response(state, now, info, response),
        Callback::UnbondResponse(response) => unbond_response(state, info, response),
    }
}

} // verus!
