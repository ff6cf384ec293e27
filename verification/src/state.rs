//! Persistent-state model: a key-value store abstraction for the ownership
//! registry and the position ledger, plus the whole handler state that every
//! operation receives by reference.

use vstd::prelude::*;
use crate::typing::{config_wf, status_wf, empty_status, BondStatus, BondStatusV, Config};

verus! {

/// One binding of a store.
struct StoreEntry<V> {
    key: String,
    val: V,
}

/// The bindings of `entries`, read left to right, as a map from key view to
/// value view.
spec fn map_of<V: View>(entries: Seq<StoreEntry<V>>) -> Map<Seq<char>, V::V>
    decreases entries.len(),
{
    if entries.len() == 0 {
        Map::empty()
    } else {
        map_of(entries.drop_last()).insert(entries.last().key@, entries.last().val@)
    }
}

/// A store keyed by strings: the repository abstraction behind the ownership
/// registry (values are owner principals) and the position ledger (values are
/// ledger records).
pub struct Store<V> {
    entries: Vec<StoreEntry<V>>,
}

impl<V: View> View for Store<V> {
    type V = Map<Seq<char>, V::V>;

    closed spec fn view(&self) -> Map<Seq<char>, V::V> {
        map_of(self.entries@)
    }
}

/// A key occurs in `entries` at most once.
spec fn keys_unique<V>(entries: Seq<StoreEntry<V>>) -> bool {
    forall|i: int, j: int|
        0 <= i < j < entries.len() ==> (#[trigger] entries[i]).key@ != (#[trigger] entries[j]).key@
}

proof fn lemma_map_of_domain<V: View>(entries: Seq<StoreEntry<V>>, key: Seq<char>)
    ensures
        map_of(entries).contains_key(key) <==> exists|i: int|
            0 <= i < entries.len() && (#[trigger] entries[i]).key@ == key,
    decreases entries.len(),
{
    if entries.len() > 0 {
        lemma_map_of_domain(entries.drop_last(), key);
        if entries.last().key@ == key {
            assert(entries[entries.len() - 1].key@ == key);
        } else if map_of(entries).contains_key(key) {
            let i = choose|i: int|
                0 <= i < entries.drop_last().len() && (#[trigger] entries.drop_last()[i]).key@
                    == key;
            assert(entries[i].key@ == key);
        } else if exists|i: int| 0 <= i < entries.len() && (#[trigger] entries[i]).key@ == key {
            let i = choose|i: int| 0 <= i < entries.len() && (#[trigger] entries[i]).key@ == key;
            assert(entries.drop_last()[i].key@ == key);
        }
    }
}

proof fn lemma_map_of_at<V: View>(entries: Seq<StoreEntry<V>>, i: int)
    requires
        keys_unique(entries),
        0 <= i < entries.len(),
    ensures
        map_of(entries).contains_key(entries[i].key@),
        map_of(entries)[entries[i].key@] == entries[i].val@,
    decreases entries.len(),
{
    if i == entries.len() - 1 {
    } else {
        lemma_map_of_at(entries.drop_last(), i);
        assert(entries.drop_last()[i] == entries[i]);
        assert(entries.last().key@ != entries[i].key@);
    }
}

proof fn lemma_map_of_update<V: View>(entries: Seq<StoreEntry<V>>, i: int, e: StoreEntry<V>)
    requires
        keys_unique(entries),
        0 <= i < entries.len(),
        e.key@ == entries[i].key@,
    ensures
        map_of(entries.update(i, e)) =~= map_of(entries).insert(e.key@, e.val@),
    decreases entries.len(),
{
    let updated = entries.update(i, e);
    if i == entries.len() - 1 {
        assert(updated.drop_last() =~= entries.drop_last());
        assert(updated.last() == e);
    } else {
        assert(updated.drop_last() =~= entries.drop_last().update(i, e));
        assert(entries.drop_last()[i] == entries[i]);
        lemma_map_of_update(entries.drop_last(), i, e);
        assert(updated.last() == entries.last());
        assert(entries.last().key@ != e.key@);
    }
}

impl<V: View> Store<V> {
    /// Internal invariant: no key is bound twice.
    pub closed spec fn wf(&self) -> bool {
        keys_unique(self.entries@)
    }

    pub fn new() -> (s: Self)
        ensures
            s.wf(),
            s@ =~= Map::<Seq<char>, V::V>::empty(),
    {
        let s = Store { entries: Vec::new() };
        proof {
            assert(s.entries@.len() == 0);
        }
        s
    }

    /// Look the key up; `None` exactly when the key is unbound.
    pub fn get<'a>(&'a self, key: &String) -> (r: Option<&'a V>)
        requires
            self.wf(),
        ensures
            match r {
                Some(v) => self@.contains_key(key@) && v@ == self@[key@],
                None => !self@.contains_key(key@),
            },
    {
        let n = self.entries.len();
        let mut i: usize = 0;
        while i < n
            invariant
                n == self.entries@.len(),
                0 <= i <= n,
                self.wf(),
                forall|j: int| 0 <= j < i ==> (#[trigger] self.entries@[j]).key@ != key@,
            decreases n - i,
        {
            if self.entries[i].key == *key {
                proof {
                    lemma_map_of_at(self.entries@, i as int);
                }
                return Some(&self.entries[i].val);
            }
            i += 1;
        }
        proof {
            lemma_map_of_domain(self.entries@, key@);
        }
        None
    }

    /// Bind the key to the value, replacing any previous binding.
    pub fn put(&mut self, key: String, val: V)
        requires
            old(self).wf(),
        ensures
            final(self).wf(),
            final(self)@ =~= old(self)@.insert(key@, val@),
    {
        let n = self.entries.len();
        let mut i: usize = 0;
        while i < n
            invariant
                n == self.entries@.len(),
                0 <= i <= n,
                self.wf(),
                self.entries@ == old(self).entries@,
                forall|j: int| 0 <= j < i ==> (#[trigger] self.entries@[j]).key@ != key@,
            decreases n - i,
        {
            if self.entries[i].key == *(&key) {
                let e = StoreEntry { key, val };
                proof {
                    lemma_map_of_update(self.entries@, i as int, e);
                }
                self.entries.set(i, e);
                return ;
            }
            i += 1;
        }
        let e = StoreEntry { key, val };
        self.entries.push(e);
        proof {
            assert(self.entries@.drop_last() =~= old(self).entries@);
            assert forall|a: int, b: int|
                0 <= a < b < self.entries@.len() implies (#[trigger] self.entries@[a]).key@ != (
            #[trigger] self.entries@[b]).key@ by {
                if b < self.entries@.len() - 1 {
                    assert(old(self).entries@[a].key@ != old(self).entries@[b].key@);
                } else {
                    assert(old(self).entries@[a].key@ != e.key@);
                }
            }
        }
    }
}

/// Mathematical model of the whole handler state.
pub ghost struct StateModel {
    pub config: Config,
    pub owners: Map<Seq<char>, Seq<char>>,
    pub statuses: Map<Seq<char>, BondStatusV>,
}

/// Well-formedness of the model: the configuration invariant, and the
/// arithmetic invariant of every ledger record.
pub open spec fn model_wf(m: StateModel) -> bool {
    &&& config_wf(m.config)
    &&& forall|id: Seq<char>|
        m.statuses.contains_key(id) ==> status_wf(#[trigger] m.statuses[id], m.config)
}

/// The ledger record of `id`, or the all-zero record if the position was
/// never touched.
pub open spec fn status_or_default(m: StateModel, id: Seq<char>) -> BondStatusV {
    if m.statuses.contains_key(id) {
        m.statuses[id]
    } else {
        empty_status()
    }
}

/// The whole state every command, callback and query operates on: the
/// immutable configuration, the ownership registry, and the position ledger.
pub struct State {
    config: Config,
    owners: Store<String>,
    statuses: Store<BondStatus>,
}

impl State {
    pub closed spec fn model(&self) -> StateModel {
        StateModel { config: self.config, owners: self.owners@, statuses: self.statuses@ }
    }

    pub closed spec fn stores_wf(&self) -> bool {
        self.owners.wf() && self.statuses.wf()
    }

    pub open spec fn wf(&self) -> bool {
        self.stores_wf() && model_wf(self.model())
    }

    pub fn new(config: Config) -> (s: State)
        requires
            config_wf(config),
        ensures
            s.wf(),
            s.model().config == config,
            s.model().owners =~= Map::<Seq<char>, Seq<char>>::empty(),
            s.model().statuses =~= Map::<Seq<char>, BondStatusV>::empty(),
    {
        State { config, owners: Store::new(), statuses: Store::new() }
    }

    pub fn config(&self) -> (c: &Config)
        ensures
            *c == self.model().config,
    {
        &self.config
    }

    /// The registered owner of `id`, if the identifier is allocated.
    pub fn get_owner<'a>(&'a self, id: &String) -> (r: Option<&'a String>)
        requires
            self.wf(),
        ensures
            match r {
                Some(owner) => self.model().owners.contains_key(id@) && owner@
                    == self.model().owners[id@],
                None => !self.model().owners.contains_key(id@),
            },
    {
        self.owners.get(id)
    }

    /// Bind `id` to `owner` in the ownership registry.
    pub fn set_owner(&mut self, id: String, owner: String)
        requires
            old(self).wf(),
        ensures
            final(self).wf(),
            final(self).model().config == old(self).model().config,
            final(self).model().owners =~= old(self).model().owners.insert(id@, owner@),
            final(self).model().statuses == old(self).model().statuses,
    {
        self.owners.put(id, owner);
        proof {
            let m0 = old(self).model();
            let m1 = self.model();
            assert forall|pid: Seq<char>| m1.statuses.contains_key(pid) implies status_wf(
                #[trigger] m1.statuses[pid],
                m1.config,
            ) by {
                assert(status_wf(m0.statuses[pid], m0.config));
            }
        }
    }

    /// The stored ledger record of `id`, if the position was ever touched.
    pub fn get_status<'a>(&'a self, id: &String) -> (r: Option<&'a BondStatus>)
        requires
            self.wf(),
        ensures
            match r {
                Some(st) => self.model().statuses.contains_key(id@) && st@
                    == self.model().statuses[id@],
                None => !self.model().statuses.contains_key(id@),
            },
    {
        self.statuses.get(id)
    }

    /// A copy of the ledger record of `id`, created with zero defaults if the
    /// position was never touched.
    pub fn status_or_new(&self, id: &String) -> (st: BondStatus)
        requires
            self.wf(),
        ensures
            st@ == status_or_default(self.model(), id@),
            status_wf(st@, self.model().config),
    {
        match self.statuses.get(id) {
            Some(st) => st.clone(),
            None => {
                let st = BondStatus::default();
                proof {
                    crate::typing::lemma_denom_sum_nonneg(st@.unbonding, self.config.denom_1@);
                    crate::typing::lemma_denom_sum_nonneg(st@.unbonding, self.config.denom_2@);
                }
                st
            },
        }
    }

    /// Write the ledger record of `id` back.
    pub fn set_status(&mut self, id: String, st: BondStatus)
        requires
            old(self).wf(),
            status_wf(st@, old(self).model().config),
        ensures
            final(self).wf(),
            final(self).model().config == old(self).model().config,
            final(self).model().owners == old(self).model().owners,
            final(self).model().statuses =~= old(self).model().statuses.insert(id@, st@),
    {
        let ghost st_v = st@;
        self.statuses.put(id, st);
        proof {
            let m0 = old(self).model();
            let m1 = self.model();
            assert(m1.statuses =~= m0.statuses.insert(id@, st_v));
            assert forall|pid: Seq<char>| m1.statuses.contains_key(pid) implies status_wf(
                #[trigger] m1.statuses[pid],
                m1.config,
            ) by {
                if pid == id@ {
                    assert(m1.statuses[pid] == st_v);
                } else {
                    assert(m1.statuses[pid] == m0.statuses[pid]);
                    assert(status_wf(m0.statuses[pid], m0.config));
                }
            }
        }
    }
}

} // verus!
