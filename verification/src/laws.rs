//! Laws of the reconciliation state machine: what holds across several
//! operations, for every position and every arrival order of the two
//! routers' confirmations.

use vstd::prelude::*;
use crate::contract_callback::{bond_confirm_next, start_unbond_confirm_next};
use crate::typing::{
    denom_sum, lemma_denom_sum_nonneg, matured_sum, spec_matured, status_wf, BondStatusV, Config,
    UnbondingElement,
};

verus! {

/// After both bond confirmations of one operation — each confirming the
/// operation's full pending amount for its own leg — the pending amounts
/// return to zero and the bonded amounts grow by that amount on both legs;
/// the outcome is the same whichever router confirms first, and nothing
/// else in the record moves.
pub proof fn bond_confirmations_converge(st: BondStatusV, cfg: Config, amount: u128)
    requires
        status_wf(st, cfg),
        st.sent_to_bond.denom_1 == amount,
        st.sent_to_bond.denom_2 == amount,
    ensures
        bond_confirm_next(bond_confirm_next(st, true, amount), false, amount) == bond_confirm_next(
            bond_confirm_next(st, false, amount),
            true,
            amount,
        ),
        ({
            let done = bond_confirm_next(bond_confirm_next(st, true, amount), false, amount);
            &&& done.sent_to_bond.denom_1 == 0
            &&& done.sent_to_bond.denom_2 == 0
            &&& done.bonded.denom_1 == st.bonded.denom_1 + amount
            &&& done.bonded.denom_2 == st.bonded.denom_2 + amount
            &&& done.unconfirmed_unbonding == st.unconfirmed_unbonding
            &&& done.unbonding == st.unbonding
            &&& done.sent_for_unbond == st.sent_for_unbond
        }),
{
    lemma_denom_sum_nonneg(st.unbonding, cfg.denom_1@);
    lemma_denom_sum_nonneg(st.unbonding, cfg.denom_2@);
}

/// After both start-unbond confirmations, in either arrival order, the
/// queue holds exactly two new elements — one per denomination, each
/// carrying the amount previously unconfirmed for its leg and clocked at
/// its own confirmation time — and the unconfirmed amounts are zero again;
/// nothing else in the record moves.
pub proof fn start_unbond_confirmations_converge(st: BondStatusV, cfg: Config, t1: u64, t2: u64)
    ensures
        ({
            let e1 = UnbondingElement {
                denom: cfg.denom_1,
                value: st.unconfirmed_unbonding.denom_1,
                unbonding_start_time: t1,
            };
            let e2 = UnbondingElement {
                denom: cfg.denom_2,
                value: st.unconfirmed_unbonding.denom_2,
                unbonding_start_time: t2,
            };
            let first_leg_first = start_unbond_confirm_next(
                start_unbond_confirm_next(st, true, cfg, t1),
                false,
                cfg,
                t2,
            );
            let second_leg_first = start_unbond_confirm_next(
                start_unbond_confirm_next(st, false, cfg, t2),
                true,
                cfg,
                t1,
            );
            &&& first_leg_first.unbonding == st.unbonding.push(e1).push(e2)
            &&& second_leg_first.unbonding == st.unbonding.push(e2).push(e1)
            &&& first_leg_first.unconfirmed_unbonding.denom_1 == 0
            &&& first_leg_first.unconfirmed_unbonding.denom_2 == 0
            &&& second_leg_first.unconfirmed_unbonding.denom_1 == 0
            &&& second_leg_first.unconfirmed_unbonding.denom_2 == 0
            &&& first_leg_first.sent_to_bond == st.sent_to_bond
            &&& first_leg_first.bonded == st.bonded
            &&& first_leg_first.sent_for_unbond == st.sent_for_unbond
            &&& second_leg_first.sent_to_bond == st.sent_to_bond
            &&& second_leg_first.bonded == st.bonded
            &&& second_leg_first.sent_for_unbond == st.sent_for_unbond
        }),
{
}

/// Before any element of a leg matures, that leg has nothing available, so
/// the amount withdrawable — the minimum across the legs — is zero.
pub proof fn lemma_no_matured_no_shares(
    q: Seq<UnbondingElement>,
    denom: Seq<char>,
    lock_period: u64,
    now: u64,
)
    requires
        forall|i: int|
            0 <= i < q.len() && (#[trigger] q[i]).denom@ == denom ==> !spec_matured(
                q[i],
                lock_period,
                now,
            ),
    ensures
        matured_sum(q, denom, lock_period, now) == 0,
    decreases q.len(),
{
    if q.len() > 0 {
        assert forall|i: int|
            0 <= i < q.drop_last().len() && (#[trigger] q.drop_last()[i]).denom@
                == denom implies !spec_matured(q.drop_last()[i], lock_period, now) by {
            assert(q.drop_last()[i] == q[i]);
        }
        lemma_no_matured_no_shares(q.drop_last(), denom, lock_period, now);
        assert(q[q.len() - 1] == q.last());
    }
}

/// Once every element of a leg has matured, the whole queue value of that
/// leg is available.
pub proof fn lemma_all_matured_full_shares(
    q: Seq<UnbondingElement>,
    denom: Seq<char>,
    lock_period: u64,
    now: u64,
)
    requires
        forall|i: int|
            0 <= i < q.len() && (#[trigger] q[i]).denom@ == denom ==> spec_matured(
                q[i],
                lock_period,
                now,
            ),
    ensures
        matured_sum(q, denom, lock_period, now) == denom_sum(q, denom),
    decreases q.len(),
{
    if q.len() > 0 {
        assert forall|i: int|
            0 <= i < q.drop_last().len() && (#[trigger] q.drop_last()[i]).denom@
                == denom implies spec_matured(q.drop_last()[i], lock_period, now) by {
            assert(q.drop_last()[i] == q[i]);
        }
        lemma_all_matured_full_shares(q.drop_last(), denom, lock_period, now);
        assert(q[q.len() - 1] == q.last());
    }
}

} // verus!
