//! Core data model: configuration, per-position ledger record, and the
//! arithmetic invariant that keeps the two legs of every position within
//! machine bounds.

use vstd::prelude::*;

verus! {

/// Immutable configuration of the handler: two denominations, the router
/// responsible for each, and each leg's lock period in seconds.
pub struct Config {
    /// The lock period of the strategy for the first denomination, in seconds
    pub lock_period_denom_1: u64,
    /// The lock period of the strategy for the second denomination, in seconds
    pub lock_period_denom_2: u64,
    /// The first allowed denomination for bonding
    pub denom_1: String,
    /// Router principal that stakes the first denomination
    pub router_denom_1: String,
    /// The second allowed denomination for bonding
    pub denom_2: String,
    /// Router principal that stakes the second denomination
    pub router_denom_2: String,
}

/// The configuration invariant: the two denominations are distinct.
pub open spec fn config_wf(cfg: Config) -> bool {
    cfg.denom_1@ != cfg.denom_2@
}

impl Config {
    /// Whether `denom` is one of the two configured denominations.
    pub open spec fn spec_is_valid_denom(&self, denom: Seq<char>) -> bool {
        self.denom_1@ == denom || self.denom_2@ == denom
    }

    pub fn is_valid_denom(&self, denom: &String) -> (r: bool)
        ensures
            r == self.spec_is_valid_denom(denom@),
    {
        self.denom_1 == *denom || self.denom_2 == *denom
    }

    /// Whether `caller` is one of the two configured router principals.
    pub open spec fn spec_is_valid_callback_caller(&self, caller: Seq<char>) -> bool {
        self.router_denom_1@ == caller || self.router_denom_2@ == caller
    }

    pub fn is_valid_callback_caller(&self, caller: &String) -> (r: bool)
        ensures
            r == self.spec_is_valid_callback_caller(caller@),
    {
        self.router_denom_1 == *caller || self.router_denom_2 == *caller
    }
}

impl Clone for Config {
    fn clone(&self) -> (r: Self)
        ensures
            r == *self,
    {
        Config {
            lock_period_denom_1: self.lock_period_denom_1,
            lock_period_denom_2: self.lock_period_denom_2,
            denom_1: self.denom_1.clone(),
            router_denom_1: self.router_denom_1.clone(),
            denom_2: self.denom_2.clone(),
            router_denom_2: self.router_denom_2.clone(),
        }
    }
}

/// An amount of one denomination, as attached to a command or callback.
#[derive(Debug)]
pub struct Coin {
    pub denom: String,
    pub amount: u128,
}

impl Clone for Coin {
    fn clone(&self) -> (r: Self)
        ensures
            r == *self,
    {
        Coin { denom: self.denom.clone(), amount: self.amount }
    }
}

/// The authenticated caller of a command or callback, with any attached funds.
pub struct MessageInfo {
    pub sender: String,
    pub funds: Vec<Coin>,
}

/// A pair of amounts, one per denomination leg.
#[derive(Clone, Copy)]
pub struct BondStatusData {
    pub denom_1: u128,
    pub denom_2: u128,
}

impl BondStatusData {
    /// Create a new `BondStatusData` from a single value, used when an
    /// operation touches both legs by the same amount.
    pub fn new(value: u128) -> (r: Self)
        ensures
            r.denom_1 == value,
            r.denom_2 == value,
    {
        BondStatusData { denom_1: value, denom_2: value }
    }
}

/// One time-locked withdrawal chunk for a single denomination.
pub struct UnbondingElement {
    pub denom: String,
    pub value: u128,
    pub unbonding_start_time: u64,
}

impl Clone for UnbondingElement {
    fn clone(&self) -> (r: Self)
        ensures
            r == *self,
    {
        UnbondingElement {
            denom: self.denom.clone(),
            value: self.value,
            unbonding_start_time: self.unbonding_start_time,
        }
    }
}

/// Per-position ledger record.
pub struct BondStatus {
    /// Pending amount per denomination awaiting bond confirmation.
    pub sent_to_bond: BondStatusData,
    /// Confirmed, currently staked amount per denomination.
    pub bonded: BondStatusData,
    /// Amount moved out of `bonded` awaiting the start-unbond confirmation;
    /// at most one such in-flight operation is permitted at a time.
    pub unconfirmed_unbonding: BondStatusData,
    /// Ordered sequence of time-locked withdrawal chunks.
    pub unbonding: Vec<UnbondingElement>,
    /// Amount released from the queue and sent to the routers, awaiting the
    /// final confirmation and fund return.
    pub sent_for_unbond: BondStatusData,
}

/// Mathematical model of a `BondStatus`: the same record with the queue as a
/// sequence.
pub ghost struct BondStatusV {
    pub sent_to_bond: BondStatusData,
    pub bonded: BondStatusData,
    pub unconfirmed_unbonding: BondStatusData,
    pub unbonding: Seq<UnbondingElement>,
    pub sent_for_unbond: BondStatusData,
}

impl View for BondStatus {
    type V = BondStatusV;

    open spec fn view(&self) -> BondStatusV {
        BondStatusV {
            sent_to_bond: self.sent_to_bond,
            bonded: self.bonded,
            unconfirmed_unbonding: self.unconfirmed_unbonding,
            unbonding: self.unbonding@,
            sent_for_unbond: self.sent_for_unbond,
        }
    }
}

/// The all-zero ledger record a position starts from.
pub open spec fn empty_status() -> BondStatusV {
    BondStatusV {
        sent_to_bond: BondStatusData { denom_1: 0, denom_2: 0 },
        bonded: BondStatusData { denom_1: 0, denom_2: 0 },
        unconfirmed_unbonding: BondStatusData { denom_1: 0, denom_2: 0 },
        unbonding: Seq::empty(),
        sent_for_unbond: BondStatusData { denom_1: 0, denom_2: 0 },
    }
}

impl Default for BondStatus {
    fn default() -> (r: Self)
        ensures
            r@ == empty_status(),
    {
        let r = BondStatus {
            sent_to_bond: BondStatusData { denom_1: 0, denom_2: 0 },
            bonded: BondStatusData { denom_1: 0, denom_2: 0 },
            unconfirmed_unbonding: BondStatusData { denom_1: 0, denom_2: 0 },
            unbonding: Vec::new(),
            sent_for_unbond: BondStatusData { denom_1: 0, denom_2: 0 },
        };
        proof {
            assert(r.unbonding@ =~= Seq::<UnbondingElement>::empty());
        }
        r
    }
}

impl Clone for BondStatus {
    fn clone(&self) -> (r: Self)
        ensures
            r@ == self@,
    {
        let r = BondStatus {
            sent_to_bond: self.sent_to_bond,
            bonded: self.bonded,
            unconfirmed_unbonding: self.unconfirmed_unbonding,
            unbonding: self.unbonding.clone(),
            sent_for_unbond: self.sent_for_unbond,
        };
        proof {
            assert(r.unbonding@ =~= self.unbonding@);
        }
        r
    }
}

/// Total value of the queue elements tagged with `denom`.
pub open spec fn denom_sum(q: Seq<UnbondingElement>, denom: Seq<char>) -> int
    decreases q.len(),
{
    if q.len() == 0 {
        0
    } else {
        denom_sum(q.drop_last(), denom) + if q.last().denom@ == denom {
            q.last().value as int
        } else {
            0
        }
    }
}

/// Whether an element's lock period has elapsed at time `now`.
pub open spec fn spec_matured(e: UnbondingElement, lock_period: u64, now: u64) -> bool {
    e.unbonding_start_time + lock_period < now
}

/// Total value of the matured queue elements tagged with `denom`.
pub open spec fn matured_sum(
    q: Seq<UnbondingElement>,
    denom: Seq<char>,
    lock_period: u64,
    now: u64,
) -> int
    decreases q.len(),
{
    if q.len() == 0 {
        0
    } else {
        matured_sum(q.drop_last(), denom, lock_period, now) + if q.last().denom@ == denom
            && spec_matured(q.last(), lock_period, now) {
            q.last().value as int
        } else {
            0
        }
    }
}

pub proof fn lemma_denom_sum_nonneg(q: Seq<UnbondingElement>, denom: Seq<char>)
    ensures
        denom_sum(q, denom) >= 0,
    decreases q.len(),
{
    if q.len() > 0 {
        lemma_denom_sum_nonneg(q.drop_last(), denom);
    }
}

pub proof fn lemma_matured_sum_nonneg(
    q: Seq<UnbondingElement>,
    denom: Seq<char>,
    lock_period: u64,
    now: u64,
)
    ensures
        matured_sum(q, denom, lock_period, now) >= 0,
    decreases q.len(),
{
    if q.len() > 0 {
        lemma_matured_sum_nonneg(q.drop_last(), denom, lock_period, now);
    }
}

/// The matured part of a leg never exceeds the leg's whole queue value.
pub proof fn lemma_matured_sum_le_denom_sum(
    q: Seq<UnbondingElement>,
    denom: Seq<char>,
    lock_period: u64,
    now: u64,
)
    ensures
        matured_sum(q, denom, lock_period, now) <= denom_sum(q, denom),
    decreases q.len(),
{
    if q.len() > 0 {
        lemma_matured_sum_le_denom_sum(q.drop_last(), denom, lock_period, now);
    }
}

/// A prefix of the queue never holds more matured value than the whole queue.
pub proof fn lemma_matured_sum_take_le(
    q: Seq<UnbondingElement>,
    denom: Seq<char>,
    lock_period: u64,
    now: u64,
    i: int,
)
    requires
        0 <= i <= q.len(),
    ensures
        matured_sum(q.take(i), denom, lock_period, now) <= matured_sum(q, denom, lock_period, now),
    decreases q.len(),
{
    if i == q.len() {
        assert(q.take(i) =~= q);
    } else {
        assert(q.take(i) =~= q.drop_last().take(i));
        lemma_matured_sum_take_le(q.drop_last(), denom, lock_period, now, i);
        lemma_matured_sum_nonneg(q, denom, lock_period, now);
    }
}

/// Splitting the queue splits the per-denomination totals.
pub proof fn lemma_denom_sum_append(
    a: Seq<UnbondingElement>,
    b: Seq<UnbondingElement>,
    denom: Seq<char>,
)
    ensures
        denom_sum(a + b, denom) == denom_sum(a, denom) + denom_sum(b, denom),
    decreases b.len(),
{
    if b.len() == 0 {
        assert(a + b =~= a);
    } else {
        assert((a + b).drop_last() =~= a + b.drop_last());
        assert((a + b).last() == b.last());
        lemma_denom_sum_append(a, b.drop_last(), denom);
    }
}

/// Everything the ledger tracks for the first leg of a position, as one sum.
pub open spec fn leg1_total(st: BondStatusV, cfg: Config) -> int {
    st.sent_to_bond.denom_1 + st.bonded.denom_1 + st.unconfirmed_unbonding.denom_1 + denom_sum(
        st.unbonding,
        cfg.denom_1@,
    ) + st.sent_for_unbond.denom_1
}

/// Everything the ledger tracks for the second leg of a position, as one sum.
pub open spec fn leg2_total(st: BondStatusV, cfg: Config) -> int {
    st.sent_to_bond.denom_2 + st.bonded.denom_2 + st.unconfirmed_unbonding.denom_2 + denom_sum(
        st.unbonding,
        cfg.denom_2@,
    ) + st.sent_for_unbond.denom_2
}

/// The arithmetic invariant of a ledger record: the whole value each leg
/// tracks, in any stage of the lifecycle, fits in the machine representation.
/// Every transition except `Bond` conserves or shrinks these totals, so the
/// invariant rules out overflow everywhere downstream of a bond.
pub open spec fn status_wf(st: BondStatusV, cfg: Config) -> bool {
    &&& leg1_total(st, cfg) <= u128::MAX
    &&& leg2_total(st, cfg) <= u128::MAX
}

} // verus!
