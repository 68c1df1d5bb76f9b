//! The key-value state of a shard, with the record of the changes made to
//! it since the record was last pruned (its state diff).
use vstd::prelude::*;
use crate::identity::{bytes_eq, copy_bytes};

verus! {

/// A storage entry read from the parentchain: a key and its value, if the
/// key is set.
#[derive(Debug)]
pub struct StorageEntry {
    pub key: Vec<u8>,
    pub value: Option<Vec<u8>>,
}

/// The bytes of an optional value.
pub open spec fn opt_view(v: Option<Vec<u8>>) -> Option<Seq<u8>> {
    match v {
        Some(b) => Some(b@),
        None => None,
    }
}

/// The last change written for `key` in `log`, if any.
pub open spec fn log_get(log: Seq<(Vec<u8>, Option<Vec<u8>>)>, key: Seq<u8>) -> Option<Option<Seq<u8>>>
    decreases log.len(),
{
    if log.len() == 0 {
        None
    } else if log.last().0@ == key {
        Some(opt_view(log.last().1))
    } else {
        log_get(log.drop_last(), key)
    }
}

/// A log of changes as a map: each key to its last change.
pub open spec fn log_map(log: Seq<(Vec<u8>, Option<Vec<u8>>)>) -> Map<Seq<u8>, Option<Seq<u8>>> {
    Map::new(|k: Seq<u8>| log_get(log, k) is Some, |k: Seq<u8>| log_get(log, k).unwrap())
}

/// The keys that a log sets, with their values.
pub open spec fn log_store(log: Seq<(Vec<u8>, Option<Vec<u8>>)>) -> Map<Seq<u8>, Seq<u8>> {
    Map::new(
        |k: Seq<u8>| log_get(log, k) matches Some(Some(_)),
        |k: Seq<u8>| log_get(log, k).unwrap().unwrap(),
    )
}

/// `store` after the changes of `diff`: keys set to `Some(v)` take `v`,
/// keys set to `None` are cleared, the others keep their value.
pub open spec fn apply_map(store: Map<Seq<u8>, Seq<u8>>, diff: Map<Seq<u8>, Option<Seq<u8>>>) -> Map<Seq<u8>, Seq<u8>> {
    Map::new(
        |k: Seq<u8>| if diff.contains_key(k) { diff[k] is Some } else { store.contains_key(k) },
        |k: Seq<u8>| if diff.contains_key(k) { diff[k].unwrap() } else { store[k] },
    )
}

/// Appending a change to a log changes its map at that key only.
proof fn lemma_log_push(log: Seq<(Vec<u8>, Option<Vec<u8>>)>, e: (Vec<u8>, Option<Vec<u8>>))
    ensures
        log_map(log.push(e)) == log_map(log).insert(e.0@, opt_view(e.1)),
        log_store(log.push(e)) == (match e.1 {
            Some(v) => log_store(log).insert(e.0@, v@),
            None => log_store(log).remove(e.0@),
        }),
{
    let l2 = log.push(e);
    assert(l2.drop_last() =~= log);
    assert(log_map(l2) =~= log_map(log).insert(e.0@, opt_view(e.1)));
    match e.1 {
        Some(v) => { assert(log_store(l2) =~= log_store(log).insert(e.0@, v@)); },
        None => { assert(log_store(l2) =~= log_store(log).remove(e.0@)); },
    }
}

/// A set of changes to the state: each key either set to a value or
/// cleared.  When a key is changed twice, the later change counts.
#[derive(Clone, Debug)]
pub struct StateDiff {
    log: Vec<(Vec<u8>, Option<Vec<u8>>)>,
}

impl View for StateDiff {
    type V = Map<Seq<u8>, Option<Seq<u8>>>;

    closed spec fn view(&self) -> Map<Seq<u8>, Option<Seq<u8>>> {
        log_map(self.log@)
    }
}

/// The changes that a list of storage entries makes, the later entry for
/// a key counting.
pub open spec fn entries_map(entries: Seq<StorageEntry>) -> Map<Seq<u8>, Option<Seq<u8>>>
    decreases entries.len(),
{
    if entries.len() == 0 {
        Map::empty()
    } else {
        entries_map(entries.drop_last()).insert(entries.last().key@, opt_view(entries.last().value))
    }
}

/// A copy of an optional value.
pub fn copy_opt(v: &Option<Vec<u8>>) -> (r: Option<Vec<u8>>)
    ensures
        opt_view(r) == opt_view(*v),
{
    match v {
        Some(b) => Some(copy_bytes(b)),
        None => None,
    }
}

/// The changes that storage entries read from the parentchain make.
pub fn into_map(storage_entries: Vec<StorageEntry>) -> (d: StateDiff)
    ensures
        d@ == entries_map(storage_entries@),
{
    let mut log: Vec<(Vec<u8>, Option<Vec<u8>>)> = Vec::new();
    let mut i: usize = 0;
    assert(log_map(log@) =~= entries_map(storage_entries@.subrange(0, 0)));
    while i < storage_entries.len()
        invariant
            i <= storage_entries@.len(),
            log_map(log@) == entries_map(storage_entries@.subrange(0, i as int)),
        decreases storage_entries@.len() - i,
    {
        let e = &storage_entries[i];
        let ghost prev = log@;
        let entry = (copy_bytes(&e.key), copy_opt(&e.value));
        log.push(entry);
        proof {
            lemma_log_push(prev, entry);
            assert(storage_entries@.subrange(0, i + 1).drop_last() =~= storage_entries@.subrange(0, i as int));
        }
        i = i + 1;
    }
    assert(storage_entries@.subrange(0, i as int) =~= storage_entries@);
    StateDiff { log }
}

impl StateDiff {
    /// No changes.
    pub fn new() -> (d: StateDiff)
        ensures
            d@ == Map::<Seq<u8>, Option<Seq<u8>>>::empty(),
    {
        let d = StateDiff { log: Vec::new() };
        assert(d@ =~= Map::<Seq<u8>, Option<Seq<u8>>>::empty());
        d
    }

    /// Whether there are no changes.
    pub fn is_empty(&self) -> (r: bool)
        ensures
            r ==> self@ == Map::<Seq<u8>, Option<Seq<u8>>>::empty(),
            self@ == Map::<Seq<u8>, Option<Seq<u8>>>::empty() ==> r,
    {
        if self.log.len() == 0 {
            assert(self@ =~= Map::<Seq<u8>, Option<Seq<u8>>>::empty());
            true
        } else {
            assert(self@.contains_key(self.log@.last().0@));
            false
        }
    }

    /// The change for `key`, if there is one.
    pub fn get(&self, key: &[u8]) -> (r: Option<Option<Vec<u8>>>)
        ensures
            r is Some <==> self@.contains_key(key@),
            r matches Some(v) ==> opt_view(v) == self@[key@],
    {
        let mut i = self.log.len();
        assert(self.log@.subrange(0, i as int) =~= self.log@);
        while i > 0
            invariant
                i <= self.log@.len(),
                log_get(self.log@, key@) == log_get(self.log@.subrange(0, i as int), key@),
            decreases i,
        {
            let ghost prefix = self.log@.subrange(0, i as int);
            if bytes_eq(self.log[i - 1].0.as_slice(), key) {
                return Some(copy_opt(&self.log[i - 1].1));
            }
            assert(prefix.drop_last() =~= self.log@.subrange(0, i - 1));
            i = i - 1;
        }
        None
    }

    /// Records that `key` is set to `value` (or cleared, for `None`).
    pub fn insert(&mut self, key: Vec<u8>, value: Option<Vec<u8>>)
        ensures
            final(self)@ == old(self)@.insert(key@, opt_view(value)),
    {
        proof { lemma_log_push(self.log@, (key, value)); }
        self.log.push((key, value));
    }

    /// A copy of these changes.
    pub fn duplicate(&self) -> (r: StateDiff)
        ensures
            r@ == self@,
    {
        let mut log: Vec<(Vec<u8>, Option<Vec<u8>>)> = Vec::new();
        let mut i: usize = 0;
        while i < self.log.len()
            invariant
                i <= self.log@.len(),
                log@.len() == i,
                forall|j: int| 0 <= j < i ==> (#[trigger] log@[j]).0@ == self.log@[j].0@ && opt_view(log@[j].1) == opt_view(self.log@[j].1),
            decreases self.log@.len() - i,
        {
            log.push((copy_bytes(&self.log[i].0), copy_opt(&self.log[i].1)));
            i = i + 1;
        }
        proof { lemma_same_logs(log@, self.log@); }
        StateDiff { log }
    }
}

/// Logs with the same keys and values in the same order give the same map.
proof fn lemma_same_logs(a: Seq<(Vec<u8>, Option<Vec<u8>>)>, b: Seq<(Vec<u8>, Option<Vec<u8>>)>)
    requires
        a.len() == b.len(),
        forall|j: int| 0 <= j < a.len() ==> (#[trigger] a[j]).0@ == b[j].0@ && opt_view(a[j].1) == opt_view(b[j].1),
    ensures
        log_map(a) == log_map(b),
    decreases a.len(),
{
    assert forall|k: Seq<u8>| log_get(a, k) == log_get(b, k) by {
        lemma_same_logs_get(a, b, k);
    }
    assert(log_map(a) =~= log_map(b));
}

proof fn lemma_same_logs_get(a: Seq<(Vec<u8>, Option<Vec<u8>>)>, b: Seq<(Vec<u8>, Option<Vec<u8>>)>, k: Seq<u8>)
    requires
        a.len() == b.len(),
        forall|j: int| 0 <= j < a.len() ==> (#[trigger] a[j]).0@ == b[j].0@ && opt_view(a[j].1) == opt_view(b[j].1),
    ensures
        log_get(a, k) == log_get(b, k),
    decreases a.len(),
{
    if a.len() > 0 {
        assert(a.last() == a[a.len() - 1]);
        lemma_same_logs_get(a.drop_last(), b.drop_last(), k);
    }
}

/// The state of a shard: its key-value storage and the changes made to it
/// since the last prune.
#[derive(Clone, Debug)]
pub struct Externalities {
    state: Vec<(Vec<u8>, Option<Vec<u8>>)>,
    state_diff: Vec<(Vec<u8>, Option<Vec<u8>>)>,
}

impl Externalities {
    /// The storage: each set key with its value.
    pub closed spec fn storage(&self) -> Map<Seq<u8>, Seq<u8>> {
        log_store(self.state@)
    }

    /// The changes made since the last prune.
    pub closed spec fn diff(&self) -> Map<Seq<u8>, Option<Seq<u8>>> {
        log_map(self.state_diff@)
    }

    /// An empty state with no recorded changes.
    pub fn new() -> (s: Externalities)
        ensures
            s.storage() == Map::<Seq<u8>, Seq<u8>>::empty(),
            s.diff() == Map::<Seq<u8>, Option<Seq<u8>>>::empty(),
    {
        let s = Externalities { state: Vec::new(), state_diff: Vec::new() };
        assert(s.storage() =~= Map::<Seq<u8>, Seq<u8>>::empty());
        assert(s.diff() =~= Map::<Seq<u8>, Option<Seq<u8>>>::empty());
        s
    }

    /// The value of `key`, if it is set.
    pub fn get(&self, key: &[u8]) -> (r: Option<Vec<u8>>)
        ensures
            r is Some <==> self.storage().contains_key(key@),
            r matches Some(v) ==> v@ == self.storage()[key@],
    {
        let mut i = self.state.len();
        assert(self.state@.subrange(0, i as int) =~= self.state@);
        while i > 0
            invariant
                i <= self.state@.len(),
                log_get(self.state@, key@) == log_get(self.state@.subrange(0, i as int), key@),
            decreases i,
        {
            let ghost prefix = self.state@.subrange(0, i as int);
            if bytes_eq(self.state[i - 1].0.as_slice(), key) {
                return copy_opt(&self.state[i - 1].1);
            }
            assert(prefix.drop_last() =~= self.state@.subrange(0, i - 1));
            i = i - 1;
        }
        None
    }

    /// Sets `key` to `value`, or clears it for `None`, and records the change.
    pub fn set(&mut self, key: &[u8], value: &Option<Vec<u8>>)
        ensures
            final(self).storage() == (match *value {
                Some(v) => old(self).storage().insert(key@, v@),
                None => old(self).storage().remove(key@),
            }),
            final(self).diff() == old(self).diff().insert(key@, opt_view(*value)),
    {
        let k1 = slice_to_vec(key);
        let k2 = slice_to_vec(key);
        let v1 = copy_opt(value);
        let v2 = copy_opt(value);
        proof {
            lemma_log_push(self.state@, (k1, v1));
            lemma_log_push(self.state_diff@, (k2, v2));
        }
        self.state.push((k1, v1));
        self.state_diff.push((k2, v2));
    }

    /// Sets `key` to `value` and records the change.
    pub fn insert(&mut self, key: &[u8], value: &[u8])
        ensures
            final(self).storage() == old(self).storage().insert(key@, value@),
            final(self).diff() == old(self).diff().insert(key@, Some(value@)),
    {
        self.set(key, &Some(slice_to_vec(value)));
    }

    /// Clears `key` and records the change.
    pub fn remove(&mut self, key: &[u8])
        ensures
            final(self).storage() == old(self).storage().remove(key@),
            final(self).diff() == old(self).diff().insert(key@, None),
    {
        self.set(key, &None);
    }

    /// Applies the changes of `diff`, recording them.
    pub fn apply_state_diff(&mut self, diff: &StateDiff)
        ensures
            final(self).storage() == apply_map(old(self).storage(), diff@),
            final(self).diff() == old(self).diff().union_prefer_right(diff@),
    {
        let ghost store0 = self.storage();
        let ghost diff0 = self.diff();
        let mut i: usize = 0;
        assert(apply_map(store0, log_map(diff.log@.subrange(0, 0))) =~= store0);
        assert(diff0.union_prefer_right(log_map(diff.log@.subrange(0, 0))) =~= diff0);
        while i < diff.log.len()
            invariant
                i <= diff.log@.len(),
                self.storage() == apply_map(store0, log_map(diff.log@.subrange(0, i as int))),
                self.diff() == diff0.union_prefer_right(log_map(diff.log@.subrange(0, i as int))),
            decreases diff.log@.len() - i,
        {
            let ghost pre = diff.log@.subrange(0, i as int);
            let e = &diff.log[i];
            self.set(e.0.as_slice(), &e.1);
            proof {
                assert(diff.log@.subrange(0, i + 1) =~= pre.push(diff.log@[i as int]));
                lemma_log_push(pre, diff.log@[i as int]);
                assert(self.storage() =~= apply_map(store0, log_map(diff.log@.subrange(0, i + 1))));
                assert(self.diff() =~= diff0.union_prefer_right(log_map(diff.log@.subrange(0, i + 1))));
            }
            i = i + 1;
        }
        assert(diff.log@.subrange(0, i as int) =~= diff.log@);
    }

    /// Forgets the recorded changes; the storage stays as it is.
    pub fn prune_state_diff(&mut self)
        ensures
            final(self).storage() == old(self).storage(),
            final(self).diff() == Map::<Seq<u8>, Option<Seq<u8>>>::empty(),
    {
        self.state_diff = Vec::new();
        assert(self.diff() =~= Map::<Seq<u8>, Option<Seq<u8>>>::empty());
    }

    /// The changes made since the last prune.
    pub fn state_diff(&self) -> (d: StateDiff)
        ensures
            d@ == self.diff(),
    {
        let d = StateDiff { log: Vec::new() };
        let mut d = d;
        let mut i: usize = 0;
        assert(log_map(d.log@) =~= log_map(self.state_diff@.subrange(0, 0)));
        while i < self.state_diff.len()
            invariant
                i <= self.state_diff@.len(),
                d@ == log_map(self.state_diff@.subrange(0, i as int)),
            decreases self.state_diff@.len() - i,
        {
            let ghost pre = self.state_diff@.subrange(0, i as int);
            d.insert(copy_bytes(&self.state_diff[i].0), copy_opt(&self.state_diff[i].1));
            proof {
                assert(self.state_diff@.subrange(0, i + 1) =~= pre.push(self.state_diff@[i as int]));
                lemma_log_push(pre, self.state_diff@[i as int]);
            }
            i = i + 1;
        }
        assert(self.state_diff@.subrange(0, i as int) =~= self.state_diff@);
        d
    }
}

/// A vector holding the bytes of `s`.
pub fn slice_to_vec(s: &[u8]) -> (r: Vec<u8>)
    ensures
        r@ == s@,
{
    let mut r: Vec<u8> = Vec::new();
    let mut i: usize = 0;
    while i < s.len()
        invariant
            i <= s@.len(),
            r@ == s@.subrange(0, i as int),
        decreases s@.len() - i,
    {
        r.push(s[i]);
        i = i + 1;
        assert(r@ =~= s@.subrange(0, i as int));
    }
    assert(r@ =~= s@);
    r
}

/// Law: applying a diff, then a second one, is applying the second over the
/// first.
pub proof fn lemma_apply_twice(
    store: Map<Seq<u8>, Seq<u8>>,
    d1: Map<Seq<u8>, Option<Seq<u8>>>,
    d2: Map<Seq<u8>, Option<Seq<u8>>>,
)
    ensures
        apply_map(apply_map(store, d1), d2) == apply_map(store, d1.union_prefer_right(d2)),
{
    assert(apply_map(apply_map(store, d1), d2) =~= apply_map(store, d1.union_prefer_right(d2)));
}

/// Law: applying the same diff twice changes nothing more.
pub proof fn lemma_apply_idempotent(store: Map<Seq<u8>, Seq<u8>>, d: Map<Seq<u8>, Option<Seq<u8>>>)
    ensures
        apply_map(apply_map(store, d), d) == apply_map(store, d),
{
    assert(apply_map(apply_map(store, d), d) =~= apply_map(store, d));
}

} // verus!
