//! Command handlers: `Bond`, `StartUnbond` and `Unbond`. Each validates,
//! applies its optimistic ledger transition atomically, and emits one
//! notification to each router.

use vstd::prelude::*;
use crate::error::ContractError;
use crate::msg::{ExecuteMsg, ExternalExecuteMsg, Notification, Response};
use crate::state::{status_or_default, State, StateModel};
use crate::typing::{
    lemma_denom_sum_nonneg, lemma_matured_sum_le_denom_sum, leg1_total, leg2_total, matured_sum,
    BondStatus, BondStatusData, BondStatusV, Coin, Config, MessageInfo,
};
use crate::unbonding::{
    consume_unbondings, drain, lemma_drain_success, lemma_drain_sums,
};

verus! {

/// The validation error a `Bond` call with these funds is rejected with, if
/// any; the checks run in this order.
pub open spec fn funds_check_error(funds: Seq<Coin>, cfg: Config) -> Option<ContractError> {
    if funds.len() != 2 {
        Some(ContractError::MismatchAmountDenoms { req_amount_denoms: 2 })
    } else if funds[0].amount != funds[1].amount {
        Some(ContractError::FundsAmountNotEqual {})
    } else if funds[0].denom@ == funds[1].denom@ {
        Some(ContractError::FundsDenomAreSame {})
    } else if !cfg.spec_is_valid_denom(funds[0].denom@) {
        Some(ContractError::InvalidDenom { denom: funds[0].denom })
    } else if !cfg.spec_is_valid_denom(funds[1].denom@) {
        Some(ContractError::InvalidDenom { denom: funds[1].denom })
    } else {
        None
    }
}

/// A `Bond` call that passes fund validation and the ownership check.
pub open spec fn bond_accepted(
    pre: StateModel,
    sender: Seq<char>,
    funds: Seq<Coin>,
    id: Seq<char>,
) -> bool {
    &&& funds_check_error(funds, pre.config) is None
    &&& (pre.owners.contains_key(id) ==> pre.owners[id] == sender)
}

/// Machine-limit headroom for a `Bond` of `amount`: what each leg of the
/// position tracks must still fit after growing by the attached amount.
pub open spec fn bond_headroom(pre: StateModel, id: Seq<char>, amount: u128) -> bool {
    &&& leg1_total(status_or_default(pre, id), pre.config) + amount <= u128::MAX
    &&& leg2_total(status_or_default(pre, id), pre.config) + amount <= u128::MAX
}

/// The ledger transition of a successful `Bond`: the pending amount grows by
/// the attached amount on both legs.
pub open spec fn bond_next(st: BondStatusV, amount: u128) -> BondStatusV {
    BondStatusV {
        sent_to_bond: BondStatusData {
            denom_1: (st.sent_to_bond.denom_1 + amount) as u128,
            denom_2: (st.sent_to_bond.denom_2 + amount) as u128,
        },
        ..st
    }
}

/// A successful command answers with no transfers and exactly one
/// notification per router, in configuration order.
pub open spec fn paired_notification_frame(cfg: Config, resp: Response) -> bool {
    &&& resp.transfers@.len() == 0
    &&& resp.notifications@.len() == 2
    &&& resp.notifications@[0].router@ == cfg.router_denom_1@
    &&& resp.notifications@[1].router@ == cfg.router_denom_2@
}

/// The two bond notifications: each router is told the identifier and is
/// handed that router's fund leg.
pub open spec fn bond_notifications(
    cfg: Config,
    id: Seq<char>,
    amount: u128,
    resp: Response,
) -> bool {
    &&& paired_notification_frame(cfg, resp)
    &&& (resp.notifications@[0].payload matches ExternalExecuteMsg::OnBond { id: nid } && nid@
        == id)
    &&& resp.notifications@[0].funds@.len() == 1
    &&& resp.notifications@[0].funds@[0].denom@ == cfg.denom_1@
    &&& resp.notifications@[0].funds@[0].amount == amount
    &&& (resp.notifications@[1].payload matches ExternalExecuteMsg::OnBond { id: nid } && nid@
        == id)
    &&& resp.notifications@[1].funds@.len() == 1
    &&& resp.notifications@[1].funds@[0].denom@ == cfg.denom_2@
    &&& resp.notifications@[1].funds@[0].amount == amount
}

/// Everything `Bond` guarantees: either nothing is mutated and the first
/// failing validation's error is returned, or ownership is registered, the
/// pending amounts grow by the attached amount on both legs, and both
/// routers are notified.
pub open spec fn bond_post(
    pre: StateModel,
    post: StateModel,
    sender: Seq<char>,
    funds: Seq<Coin>,
    id: Seq<char>,
    r: Result<Response, ContractError>,
) -> bool {
    if funds_check_error(funds, pre.config) is Some {
        &&& r == Result::<Response, ContractError>::Err(funds_check_error(funds, pre.config)->Some_0)
        &&& post == pre
    } else if pre.owners.contains_key(id) && pre.owners[id] != sender {
        &&& r == Result::<Response, ContractError>::Err(ContractError::Unauthorized {})
        &&& post == pre
    } else {
        &&& (r matches Ok(resp) && bond_notifications(pre.config, id, funds[0].amount, resp))
        &&& post.config == pre.config
        &&& post.owners == pre.owners.insert(id, sender)
        &&& post.statuses == pre.statuses.insert(
            id,
            bond_next(status_or_default(pre, id), funds[0].amount),
        )
    }
}

/// Bond exactly two equal amounts of the two configured denominations under
/// `id`, registering the caller as owner on first use.
pub fn bond(state: &mut State, info: MessageInfo, id: String) -> (r: Result<
    Response,
    ContractError,
>)
    requires
        old(state).wf(),
        bond_accepted(old(state).model(), info.sender@, info.funds@, id@) ==> bond_headroom(
            old(state).model(),
            id@,
            info.funds@[0].amount,
        ),
    ensures
        final(state).wf(),
        bond_post(old(state).model(), final(state).model(), info.sender@, info.funds@, id@, r),
{
    if info.funds.len() != 2 {
        return Err(ContractError::MismatchAmountDenoms { req_amount_denoms: 2 });
    }
    if info.funds[0].amount != info.funds[1].amount {
        return Err(ContractError::FundsAmountNotEqual {});
    }
    if info.funds[0].denom == info.funds[1].denom {
        return Err(ContractError::FundsDenomAreSame {});
    }
    let config = state.config().clone();
    if !config.is_valid_denom(&info.funds[0].denom) {
        return Err(ContractError::InvalidDenom { denom: info.funds[0].denom.clone() });
    }
    if !config.is_valid_denom(&info.funds[1].denom) {
        return Err(ContractError::InvalidDenom { denom: info.funds[1].denom.clone() });
    }
    let registered = match state.get_owner(&id) {
        Some(owner) => {
            if *owner != info.sender {
                return Err(ContractError::Unauthorized {});
            }
            true
        },
        None => false,
    };
    if !registered {
        state.set_owner(id.clone(), info.sender.clone());
    } else {
        proof {
            assert(state.model().owners =~= old(state).model().owners.insert(
                id@,
                info.sender@,
            ));
        }
    }
    let amount = info.funds[0].amount;
    let mut st = state.status_or_new(&id);
    proof {
        lemma_denom_sum_nonneg(st@.unbonding, config.denom_1@);
        lemma_denom_sum_nonneg(st@.unbonding, config.denom_2@);
    }
    st.sent_to_bond.denom_1 = st.sent_to_bond.denom_1 + amount;
    st.sent_to_bond.denom_2 = st.sent_to_bond.denom_2 + amount;
    state.set_status(id.clone(), st);
    let n1 = Notification {
        router: config.router_denom_1.clone(),
        payload: ExternalExecuteMsg::OnBond { id: id.clone() },
        funds: vec![Coin { denom: config.denom_1.clone(), amount: amount }],
    };
    let n2 = Notification {
        router: config.router_denom_2.clone(),
        payload: ExternalExecuteMsg::OnBond { id: id },
        funds: vec![Coin { denom: config.denom_2.clone(), amount: amount }],
    };
    Ok(Response { notifications: vec![n1, n2], transfers: Vec::new() })
}

/// The ledger transition of a successful `StartUnbond`: the amount moves
/// from `bonded` to `unconfirmed_unbonding` on both legs.
pub open spec fn start_unbond_next(st: BondStatusV, amount: u128) -> BondStatusV {
    BondStatusV {
        bonded: BondStatusData {
            denom_1: (st.bonded.denom_1 - amount) as u128,
            denom_2: (st.bonded.denom_2 - amount) as u128,
        },
        unconfirmed_unbonding: BondStatusData {
            denom_1: (st.unconfirmed_unbonding.denom_1 + amount) as u128,
            denom_2: (st.unconfirmed_unbonding.denom_2 + amount) as u128,
        },
        ..st
    }
}

/// The two start-unbond notifications: identifier and share amount, no funds.
pub open spec fn start_unbond_notifications(
    cfg: Config,
    id: Seq<char>,
    amount: u128,
    resp: Response,
) -> bool {
    &&& paired_notification_frame(cfg, resp)
    &&& (resp.notifications@[0].payload matches ExternalExecuteMsg::OnStartUnbond {
        id: nid,
        share_amount,
    } && nid@ == id && share_amount == amount)
    &&& resp.notifications@[0].funds@.len() == 0
    &&& (resp.notifications@[1].payload matches ExternalExecuteMsg::OnStartUnbond {
        id: nid,
        share_amount,
    } && nid@ == id && share_amount == amount)
    &&& resp.notifications@[1].funds@.len() == 0
}

/// Everything `StartUnbond` guarantees, each rejection a distinct error:
/// unknown identifier, foreign owner, an in-flight start-unbond, or a
/// request beyond the bonded amount of either leg; otherwise the symmetric
/// transition applies and both routers are notified.
pub open spec fn start_unbond_post(
    pre: StateModel,
    post: StateModel,
    sender: Seq<char>,
    id: Seq<char>,
    amount: u128,
    r: Result<Response, ContractError>,
) -> bool {
    if !pre.owners.contains_key(id) {
        &&& r == Result::<Response, ContractError>::Err(ContractError::IdNotAllocated {})
        &&& post == pre
    } else if pre.owners[id] != sender {
        &&& r == Result::<Response, ContractError>::Err(ContractError::Unauthorized {})
        &&& post == pre
    } else {
        let st = status_or_default(pre, id);
        if st.unconfirmed_unbonding.denom_1 != 0 || st.unconfirmed_unbonding.denom_2 != 0 {
            &&& r == Result::<Response, ContractError>::Err(
                ContractError::NoStartUnbondingIfExistingUnconfirmed {},
            )
            &&& post == pre
        } else if amount > st.bonded.denom_1 || amount > st.bonded.denom_2 {
            &&& r == Result::<Response, ContractError>::Err(
                ContractError::StartUnbondAmountTooHigh {},
            )
            &&& post == pre
        } else {
            &&& (r matches Ok(resp) && start_unbond_notifications(pre.config, id, amount, resp))
            &&& post.config == pre.config
            &&& post.owners == pre.owners
            &&& post.statuses == pre.statuses.insert(id, start_unbond_next(st, amount))
        }
    }
}

/// Move `share_amount` of both legs out of `bonded`, awaiting the two
/// start-unbond confirmations; only one such operation may be in flight.
pub fn start_unbond(state: &mut State, info: MessageInfo, id: String, share_amount: u128) -> (r:
    Result<Response, ContractError>)
    requires
        old(state).wf(),
    ensures
        final(state).wf(),
        start_unbond_post(
            old(state).model(),
            final(state).model(),
            info.sender@,
            id@,
            share_amount,
            r,
        ),
{
    match state.get_owner(&id) {
        None => {
            return Err(ContractError::IdNotAllocated {});
        },
        Some(owner) => {
            if *owner != info.sender {
                return Err(ContractError::Unauthorized {});
            }
        },
    }
    let config = state.config().clone();
    let mut st = state.status_or_new(&id);
    if st.unconfirmed_unbonding.denom_1 != 0 || st.unconfirmed_unbonding.denom_2 != 0 {
        return Err(ContractError::NoStartUnbondingIfExistingUnconfirmed {});
    }
    if share_amount > st.bonded.denom_1 || share_amount > st.bonded.denom_2 {
        return Err(ContractError::StartUnbondAmountTooHigh {});
    }
    st.bonded.denom_1 = st.bonded.denom_1 - share_amount;
    st.bonded.denom_2 = st.bonded.denom_2 - share_amount;
    st.unconfirmed_unbonding.denom_1 = st.unconfirmed_unbonding.denom_1 + share_amount;
    st.unconfirmed_unbonding.denom_2 = st.unconfirmed_unbonding.denom_2 + share_amount;
    state.set_status(id.clone(), st);
    let n1 = Notification {
        router: config.router_denom_1.clone(),
        payload: ExternalExecuteMsg::OnStartUnbond { id: id.clone(), share_amount: share_amount },
        funds: Vec::new(),
    };
    let n2 = Notification {
        router: config.router_denom_2.clone(),
        payload: ExternalExecuteMsg::OnStartUnbond { id: id, share_amount: share_amount },
        funds: Vec::new(),
    };
    Ok(Response { notifications: vec![n1, n2], transfers: Vec::new() })
}

/// Whether each leg's matured queue value covers a release of `amount`.
pub open spec fn unbond_covered(st: BondStatusV, cfg: Config, now: u64, amount: u128) -> bool {
    &&& amount <= matured_sum(st.unbonding, cfg.denom_1@, cfg.lock_period_denom_1, now)
    &&& amount <= matured_sum(st.unbonding, cfg.denom_2@, cfg.lock_period_denom_2, now)
}

/// The ledger transition of a successful `Unbond`: the queue is drained by
/// `amount` per leg and the amount moves into `sent_for_unbond` on both legs.
pub open spec fn unbond_next(st: BondStatusV, cfg: Config, now: u64, amount: u128) -> BondStatusV {
    BondStatusV {
        unbonding: drain(st.unbonding, Seq::empty(), amount, amount, cfg, now)->Some_0,
        sent_for_unbond: BondStatusData {
            denom_1: (st.sent_for_unbond.denom_1 + amount) as u128,
            denom_2: (st.sent_for_unbond.denom_2 + amount) as u128,
        },
        ..st
    }
}

/// The two unbond notifications: identifier and share amount, no funds.
pub open spec fn unbond_notifications(
    cfg: Config,
    id: Seq<char>,
    amount: u128,
    resp: Response,
) -> bool {
    &&& paired_notification_frame(cfg, resp)
    &&& (resp.notifications@[0].payload matches ExternalExecuteMsg::OnUnbond {
        id: nid,
        share_amount,
    } && nid@ == id && share_amount == amount)
    &&& resp.notifications@[0].funds@.len() == 0
    &&& (resp.notifications@[1].payload matches ExternalExecuteMsg::OnUnbond {
        id: nid,
        share_amount,
    } && nid@ == id && share_amount == amount)
    &&& resp.notifications@[1].funds@.len() == 0
}

/// Everything `Unbond` guarantees: requesting more than the matured,
/// available amount of either leg fails with the too-high error and leaves
/// the whole state unchanged; otherwise the queue engine's result replaces
/// the queue and both routers are asked for the funds.
pub open spec fn unbond_post(
    pre: StateModel,
    post: StateModel,
    sender: Seq<char>,
    id: Seq<char>,
    amount: u128,
    now: u64,
    r: Result<Response, ContractError>,
) -> bool {
    if !pre.owners.contains_key(id) {
        &&& r == Result::<Response, ContractError>::Err(ContractError::IdNotAllocated {})
        &&& post == pre
    } else if pre.owners[id] != sender {
        &&& r == Result::<Response, ContractError>::Err(ContractError::Unauthorized {})
        &&& post == pre
    } else {
        let st = status_or_default(pre, id);
        if !unbond_covered(st, pre.config, now, amount) {
            &&& r == Result::<Response, ContractError>::Err(ContractError::UnbondAmountTooHigh {})
            &&& post == pre
        } else {
            &&& (r matches Ok(resp) && unbond_notifications(pre.config, id, amount, resp))
            &&& post.config == pre.config
            &&& post.owners == pre.owners
            &&& post.statuses == pre.statuses.insert(id, unbond_next(st, pre.config, now, amount))
        }
    }
}

/// Release `share_amount` of each leg from the matured queue elements and
/// send both routers an unbond request; all-or-nothing.
pub fn unbond(state: &mut State, now: u64, info: MessageInfo, id: String, share_amount: u128) -> (r:
    Result<Response, ContractError>)
    requires
        old(state).wf(),
    ensures
        final(state).wf(),
        unbond_post(
            old(state).model(),
            final(state).model(),
            info.sender@,
            id@,
            share_amount,
            now,
            r,
        ),
{
    match state.get_owner(&id) {
        None => {
            return Err(ContractError::IdNotAllocated {});
        },
        Some(owner) => {
            if *owner != info.sender {
                return Err(ContractError::Unauthorized {});
            }
        },
    }
    let config = state.config().clone();
    let st = state.status_or_new(&id);
    let ghost st_v = st@;
    proof {
        lemma_drain_success(st_v.unbonding, Seq::empty(), share_amount, share_amount, config, now);
    }
    let BondStatus { sent_to_bond, bonded, unconfirmed_unbonding, unbonding, sent_for_unbond } = st;
    let remaining = match consume_unbondings(unbonding, &config, now, share_amount) {
        Err(e) => {
            return Err(e);
        },
        Ok(remaining) => remaining,
    };
    proof {
        lemma_drain_sums(st_v.unbonding, Seq::empty(), share_amount, share_amount, config, now);
        lemma_matured_sum_le_denom_sum(
            st_v.unbonding,
            config.denom_1@,
            config.lock_period_denom_1,
            now,
        );
        lemma_matured_sum_le_denom_sum(
            st_v.unbonding,
            config.denom_2@,
            config.lock_period_denom_2,
            now,
        );
    }
    let new_status = BondStatus {
        sent_to_bond,
        bonded,
        unconfirmed_unbonding,
        unbonding: remaining,
        sent_for_unbond: BondStatusData {
            denom_1: sent_for_unbond.denom_1 + share_amount,
            denom_2: sent_for_unbond.denom_2 + share_amount,
        },
    };
    state.set_status(id.clone(), new_status);
    let n1 = Notification {
        router: config.router_denom_1.clone(),
        payload: ExternalExecuteMsg::OnUnbond { id: id.clone(), share_amount: share_amount },
        funds: Vec::new(),
    };
    let n2 = Notification {
        router: config.router_denom_2.clone(),
        payload: ExternalExecuteMsg::OnUnbond { id: id, share_amount: share_amount },
        funds: Vec::new(),
    };
    Ok(Response { notifications: vec![n1, n2], transfers: Vec::new() })
}

/// Dispatch a command to its handler; the callback variant never reaches
/// this router.
pub fn route_execute(state: &mut State, now: u64, info: MessageInfo, msg: ExecuteMsg) -> (r: Result<
    Response,
    ContractError,
>)
    requires
        old(state).wf(),
        (msg matches ExecuteMsg::Bond { id } && bond_accepted(
            old(state).model(),
            info.sender@,
            info.funds@,
            id@,
        )) ==> bond_headroom(old(state).model(), msg->Bond_id@, info.funds@[0].amount),
    ensures
        final(state).wf(),
        match msg {
            ExecuteMsg::Bond { id } => bond_post(
                old(state).model(),
                final(state).model(),
                info.sender@,
                info.funds@,
                id@,
                r,
            ),
            ExecuteMsg::StartUnbond { id, share_amount } => start_unbond_post(
                old(state).model(),
                final(state).model(),
                info.sender@,
                id@,
                share_amount,
                r,
            ),
            ExecuteMsg::Unbond { id, share_amount } => unbond_post(
                old(state).model(),
                final(state).model(),
                info.sender@,
                id@,
                share_amount,
                now,
                r,
            ),
            ExecuteMsg::Callback(_) => r == Result::<Response, ContractError>::Err(
                ContractError::Never {},
            ) && final(state).model() == old(state).model(),
        },
{
    match msg {
        ExecuteMsg::Bond { id } => bond(state, info, id),
        ExecuteMsg::StartUnbond { id, share_amount } => start_unbond(state, info, id, share_amount),
        ExecuteMsg::Unbond { id, share_amount } => unbond(state, now, info, id, share_amount),
        ExecuteMsg::Callback(_) => Err(ContractError::Never {}),
    }
}

} // verus!
