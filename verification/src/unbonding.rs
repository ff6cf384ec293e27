//! The unbonding queue engine: consumes matured, denomination-tagged queue
//! elements, scanning from the most recently appended end, to satisfy a
//! release request held against both legs at once.

use vstd::prelude::*;
use crate::error::ContractError;
use crate::typing::{
    config_wf, denom_sum, lemma_denom_sum_append, lemma_matured_sum_nonneg, matured_sum,
    spec_matured, Config, UnbondingElement,
};

verus! {

/// The queue left after consuming `c1` of the first leg and `c2` of the
/// second from `q`, scanned last-in-first-out, with `kept` the elements
/// already retained by the scan; `None` when the queue runs out before both
/// legs are satisfied.
///
/// An element is consumed only if it carries a configured denomination, its
/// lock period has elapsed, and its leg still has something left to consume;
/// an element larger than the remainder is put back reduced. Every other
/// element is retained unchanged, and the retained elements are appended
/// behind the unscanned part of the queue in scan order.
pub open spec fn drain(
    q: Seq<UnbondingElement>,
    kept: Seq<UnbondingElement>,
    c1: u128,
    c2: u128,
    cfg: Config,
    now: u64,
) -> Option<Seq<UnbondingElement>>
    decreases q.len(),
{
    if c1 == 0 && c2 == 0 {
        Some(q + kept)
    } else if q.len() == 0 {
        None
    } else {
        let e = q.last();
        let rest = q.drop_last();
        if e.denom@ == cfg.denom_1@ && spec_matured(e, cfg.lock_period_denom_1, now) {
            if e.value > c1 {
                drain(
                    rest,
                    kept.push(
                        UnbondingElement {
                            denom: e.denom,
                            value: (e.value - c1) as u128,
                            unbonding_start_time: e.unbonding_start_time,
                        },
                    ),
                    0,
                    c2,
                    cfg,
                    now,
                )
            } else {
                drain(rest, kept, (c1 - e.value) as u128, c2, cfg, now)
            }
        } else if e.denom@ == cfg.denom_2@ && spec_matured(e, cfg.lock_period_denom_2, now) {
            if e.value > c2 {
                drain(
                    rest,
                    kept.push(
                        UnbondingElement {
                            denom: e.denom,
                            value: (e.value - c2) as u128,
                            unbonding_start_time: e.unbonding_start_time,
                        },
                    ),
                    c1,
                    0,
                    cfg,
                    now,
                )
            } else {
                drain(rest, kept, c1, (c2 - e.value) as u128, cfg, now)
            }
        } else {
            drain(rest, kept.push(e), c1, c2, cfg, now)
        }
    }
}

/// The scan succeeds exactly when each leg's matured queue value covers what
/// that leg still has to consume.
pub proof fn lemma_drain_success(
    q: Seq<UnbondingElement>,
    kept: Seq<UnbondingElement>,
    c1: u128,
    c2: u128,
    cfg: Config,
    now: u64,
)
    requires
        config_wf(cfg),
    ensures
        drain(q, kept, c1, c2, cfg, now) is Some <==> c1 <= matured_sum(
            q,
            cfg.denom_1@,
            cfg.lock_period_denom_1,
            now,
        ) && c2 <= matured_sum(q, cfg.denom_2@, cfg.lock_period_denom_2, now),
    decreases q.len(),
{
    lemma_matured_sum_nonneg(q, cfg.denom_1@, cfg.lock_period_denom_1, now);
    lemma_matured_sum_nonneg(q, cfg.denom_2@, cfg.lock_period_denom_2, now);
    if c1 == 0 && c2 == 0 {
    } else if q.len() == 0 {
    } else {
        let e = q.last();
        let rest = q.drop_last();
        lemma_matured_sum_nonneg(rest, cfg.denom_1@, cfg.lock_period_denom_1, now);
        lemma_matured_sum_nonneg(rest, cfg.denom_2@, cfg.lock_period_denom_2, now);
        if e.denom@ == cfg.denom_1@ && spec_matured(e, cfg.lock_period_denom_1, now) {
            if e.value > c1 {
                lemma_drain_success(
                    rest,
                    kept.push(
                        UnbondingElement {
                            denom: e.denom,
                            value: (e.value - c1) as u128,
                            unbonding_start_time: e.unbonding_start_time,
                        },
                    ),
                    0,
                    c2,
                    cfg,
                    now,
                );
            } else {
                lemma_drain_success(rest, kept, (c1 - e.value) as u128, c2, cfg, now);
            }
        } else if e.denom@ == cfg.denom_2@ && spec_matured(e, cfg.lock_period_denom_2, now) {
            if e.value > c2 {
                lemma_drain_success(
                    rest,
                    kept.push(
                        UnbondingElement {
                            denom: e.denom,
                            value: (e.value - c2) as u128,
                            unbonding_start_time: e.unbonding_start_time,
                        },
                    ),
                    c1,
                    0,
                    cfg,
                    now,
                );
            } else {
                lemma_drain_success(rest, kept, c1, (c2 - e.value) as u128, cfg, now);
            }
        } else {
            lemma_drain_success(rest, kept.push(e), c1, c2, cfg, now);
        }
    }
}

/// A successful scan conserves value: each leg's queue total shrinks by
/// exactly what that leg had to consume.
pub proof fn lemma_drain_sums(
    q: Seq<UnbondingElement>,
    kept: Seq<UnbondingElement>,
    c1: u128,
    c2: u128,
    cfg: Config,
    now: u64,
)
    requires
        config_wf(cfg),
        drain(q, kept, c1, c2, cfg, now) is Some,
    ensures
        denom_sum(drain(q, kept, c1, c2, cfg, now)->Some_0, cfg.denom_1@) == denom_sum(
            q,
            cfg.denom_1@,
        ) + denom_sum(kept, cfg.denom_1@) - c1,
        denom_sum(drain(q, kept, c1, c2, cfg, now)->Some_0, cfg.denom_2@) == denom_sum(
            q,
            cfg.denom_2@,
        ) + denom_sum(kept, cfg.denom_2@) - c2,
    decreases q.len(),
{
    if c1 == 0 && c2 == 0 {
        lemma_denom_sum_append(q, kept, cfg.denom_1@);
        lemma_denom_sum_append(q, kept, cfg.denom_2@);
    } else {
        let e = q.last();
        let rest = q.drop_last();
        if e.denom@ == cfg.denom_1@ && spec_matured(e, cfg.lock_period_denom_1, now) {
            if e.value > c1 {
                let reduced = UnbondingElement {
                    denom: e.denom,
                    value: (e.value - c1) as u128,
                    unbonding_start_time: e.unbonding_start_time,
                };
                lemma_drain_sums(rest, kept.push(reduced), 0, c2, cfg, now);
                assert(kept.push(reduced).drop_last() =~= kept);
            } else {
                lemma_drain_sums(rest, kept, (c1 - e.value) as u128, c2, cfg, now);
            }
        } else if e.denom@ == cfg.denom_2@ && spec_matured(e, cfg.lock_period_denom_2, now) {
            if e.value > c2 {
                let reduced = UnbondingElement {
                    denom: e.denom,
                    value: (e.value - c2) as u128,
                    unbonding_start_time: e.unbonding_start_time,
                };
                lemma_drain_sums(rest, kept.push(reduced), c1, 0, cfg, now);
                assert(kept.push(reduced).drop_last() =~= kept);
            } else {
                lemma_drain_sums(rest, kept, c1, (c2 - e.value) as u128, cfg, now);
            }
        } else {
            lemma_drain_sums(rest, kept.push(e), c1, c2, cfg, now);
            assert(kept.push(e).drop_last() =~= kept);
        }
    }
}

/// Run the queue engine: consume `amount` from each leg of `queue`.
/// Mirrors `drain` exactly; fails with the too-high error when the queue is
/// exhausted before both legs are satisfied.
pub fn consume_unbondings(queue: Vec<UnbondingElement>, config: &Config, now: u64, amount: u128) -> (r:
    Result<Vec<UnbondingElement>, ContractError>)
    ensures
        match r {
            Ok(remaining) => drain(queue@, Seq::empty(), amount, amount, *config, now) == Some(
                remaining@,
            ),
            Err(e) => {
                &&& e == (ContractError::UnbondAmountTooHigh {})
                &&& drain(queue@, Seq::empty(), amount, amount, *config, now) is None
            },
        },
{
    let mut q = queue;
    let mut kept: Vec<UnbondingElement> = Vec::new();
    let mut c1: u128 = amount;
    let mut c2: u128 = amount;
    proof {
        assert(kept@ =~= Seq::<UnbondingElement>::empty());
    }
    while c1 > 0 || c2 > 0
        invariant
            drain(q@, kept@, c1, c2, *config, now) == drain(
                queue@,
                Seq::empty(),
                amount,
                amount,
                *config,
                now,
            ),
        decreases q@.len(),
    {
        let ghost q_prev = q@;
        let ghost kept_prev = kept@;
        let ghost c1_prev = c1;
        let ghost c2_prev = c2;
        let mut e = match q.pop() {
            Some(e) => e,
            None => {
                return Err(ContractError::UnbondAmountTooHigh {});
            },
        };
        proof {
            assert(q@ =~= q_prev.drop_last());
            assert(e == q_prev.last());
        }
        let matured_1 = (e.unbonding_start_time as u128) + (config.lock_period_denom_1 as u128) < (
        now as u128);
        let matured_2 = (e.unbonding_start_time as u128) + (config.lock_period_denom_2 as u128) < (
        now as u128);
        if e.denom == config.denom_1 && matured_1 {
            if e.value > c1 {
                e.value = e.value - c1;
                c1 = 0;
                kept.push(e);
            } else {
                c1 = c1 - e.value;
            }
        } else if e.denom == config.denom_2 && matured_2 {
            if e.value > c2 {
                e.value = e.value - c2;
                c2 = 0;
                kept.push(e);
            } else {
                c2 = c2 - e.value;
            }
        } else {
            kept.push(e);
        }
        proof {
            assert(drain(q@, kept@, c1, c2, *config, now) == drain(
                q_prev,
                kept_prev,
                c1_prev,
                c2_prev,
                *config,
                now,
            ));
        }
    }
    q.append(&mut kept);
    Ok(q)
}

} // verus!
