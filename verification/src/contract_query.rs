//! Read-only projections of the state: the configuration, a position's
//! ledger snapshot, and the amount currently withdrawable from a position.

use vstd::prelude::*;
use crate::msg::{
    GetBondStatusResponse, GetConfigResponse, GetSharesAvailableUnbondResponse, QueryAnswer,
    QueryMsg,
};
use crate::state::{State, StateModel};
use crate::typing::{
    lemma_matured_sum_le_denom_sum, lemma_matured_sum_nonneg, lemma_matured_sum_take_le,
    matured_sum, UnbondingElement,
};

verus! {

/// The configuration as instantiated.
pub fn get_config(state: &State) -> (r: GetConfigResponse)
    ensures
        r.config == state.model().config,
{
    GetConfigResponse { config: state.config().clone() }
}

/// What a ledger-snapshot answer must hold: the stored record, or nothing
/// for a never-touched identifier.
pub open spec fn bond_status_answer(m: StateModel, id: Seq<char>, resp: GetBondStatusResponse) -> bool {
    match resp.bond_status {
        Some(st) => m.statuses.contains_key(id) && st@ == m.statuses[id],
        None => !m.statuses.contains_key(id),
    }
}

/// The current ledger snapshot for `id`, or empty if never touched.
pub fn get_bond_status(state: &State, id: String) -> (r: GetBondStatusResponse)
    requires
        state.wf(),
    ensures
        bond_status_answer(state.model(), id@, r),
{
    match state.get_status(&id) {
        Some(st) => GetBondStatusResponse { bond_status: Some(st.clone()) },
        None => GetBondStatusResponse { bond_status: None },
    }
}

/// The amount that can be released symmetrically right now: per
/// denomination, the total value of that leg's matured queue elements, then
/// the minimum across the two legs; zero for a never-touched identifier.
pub open spec fn spec_shares_available(m: StateModel, id: Seq<char>, now: u64) -> int {
    if !m.statuses.contains_key(id) {
        0
    } else {
        let st = m.statuses[id];
        let a1 = matured_sum(st.unbonding, m.config.denom_1@, m.config.lock_period_denom_1, now);
        let a2 = matured_sum(st.unbonding, m.config.denom_2@, m.config.lock_period_denom_2, now);
        if a1 <= a2 {
            a1
        } else {
            a2
        }
    }
}

/// Sum the matured queue elements of one denomination.
fn matured_amount(q: &Vec<UnbondingElement>, denom: &String, lock_period: u64, now: u64) -> (r:
    u128)
    requires
        matured_sum(q@, denom@, lock_period, now) <= u128::MAX,
    ensures
        r == matured_sum(q@, denom@, lock_period, now),
{
    let n = q.len();
    let mut total: u128 = 0;
    let mut i: usize = 0;
    while i < n
        invariant
            n == q@.len(),
            0 <= i <= n,
            matured_sum(q@, denom@, lock_period, now) <= u128::MAX,
            total == matured_sum(q@.take(i as int), denom@, lock_period, now),
        decreases n - i,
    {
        proof {
            assert(q@.take(i + 1).drop_last() =~= q@.take(i as int));
            assert(q@.take(i + 1).last() == q@[i as int]);
            lemma_matured_sum_take_le(q@, denom@, lock_period, now, i + 1);
            lemma_matured_sum_nonneg(q@.take(i as int), denom@, lock_period, now);
        }
        let e = &q[i];
        let matured = (e.unbonding_start_time as u128) + (lock_period as u128) < (now as u128);
        if e.denom == *denom && matured {
            total = total + e.value;
        }
        i += 1;
    }
    proof {
        assert(q@.take(n as int) =~= q@);
    }
    total
}

/// The amount currently withdrawable from `id`.
pub fn get_shares_available_unbond(state: &State, now: u64, id: String) -> (r:
    GetSharesAvailableUnbondResponse)
    requires
        state.wf(),
    ensures
        r.shares_available_unbond == spec_shares_available(state.model(), id@, now),
{
    let config = state.config().clone();
    let st = match state.get_status(&id) {
        None => {
            return GetSharesAvailableUnbondResponse { shares_available_unbond: 0 };
        },
        Some(st) => st,
    };
    proof {
        lemma_matured_sum_nonneg(st@.unbonding, config.denom_1@, config.lock_period_denom_1, now);
        lemma_matured_sum_nonneg(st@.unbonding, config.denom_2@, config.lock_period_denom_2, now);
        lemma_matured_sum_le_denom_sum(
            st@.unbonding,
            config.denom_1@,
            config.lock_period_denom_1,
            now,
        );
        lemma_matured_sum_le_denom_sum(
            st@.unbonding,
            config.denom_2@,
            config.lock_period_denom_2,
            now,
        );
    }
    let a1 = matured_amount(&st.unbonding, &config.denom_1, config.lock_period_denom_1, now);
    let a2 = matured_amount(&st.unbonding, &config.denom_2, config.lock_period_denom_2, now);
    let shares = if a1 <= a2 {
        a1
    } else {
        a2
    };
    GetSharesAvailableUnbondResponse { shares_available_unbond: shares }
}

/// Dispatch a query to its projection.
pub fn route_query(state: &State, now: u64, msg: QueryMsg) -> (r: QueryAnswer)
    requires
        state.wf(),
    ensures
        match msg {
            QueryMsg::GetConfig {} => r matches QueryAnswer::Config(resp) && resp.config
                == state.model().config,
            QueryMsg::GetBondStatus { id } => r matches QueryAnswer::BondStatus(resp)
                && bond_status_answer(state.model(), id@, resp),
            QueryMsg::GetSharesAvailableUnbond { id } => r matches QueryAnswer::SharesAvailableUnbond(
                resp,
            ) && resp.shares_available_unbond == spec_shares_available(state.model(), id@, now),
        },
{
    match msg {
        QueryMsg::GetConfig {} => QueryAnswer::Config(get_config(state)),
        QueryMsg::GetBondStatus { id } => QueryAnswer::BondStatus(get_bond_status(state, id)),
        QueryMsg::GetSharesAvailableUnbond { id } => QueryAnswer::SharesAvailableUnbond(
            get_shares_available_unbond(state, now, id),
        ),
    }
}

} // verus!
