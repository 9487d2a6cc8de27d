use std::collections::HashMap;
use vstd::prelude::*;

use crate::errors::AppError;

verus! {

broadcast use vstd::std_specs::hash::group_hash_axioms;

/// The number of distinct keys at which a batch window asks to be flushed.
pub const DEFAULT_MAX_BATCH_SIZE: usize = 100;

/// What a `load` call did.
#[derive(Clone, Copy, Debug, PartialEq, Eq, Structural)]
pub enum LoadStep {
    /// The key already has a cache entry: read it with `cached`, nothing to fetch.
    Cached,
    /// The key waits in the batch window; `flush_now` says the window is full.
    Enrolled { flush_now: bool },
}

/// The abstract state of a loader.
pub ghost struct LoaderState<T> {
    /// Memoized successful results, for the lifetime of the loader.
    pub cache: Map<u128, Seq<T>>,
    /// Distinct keys accumulated since the last flush, in order of first request.
    pub window: Seq<u128>,
    /// The error of the last failed fetch of each key, for the callers that
    /// waited on it; cleared when the key is fetched again.
    pub failed: Map<u128, AppError>,
    pub max_batch_size: nat,
}

/// A request-scoped coalescing loader from 128-bit ids to sequences of items.
///
/// Callers `load` keys; keys that are not cached join the batch window
/// (once each). `take_batch` flushes the window, the caller runs the batch
/// fetch once for those keys, and `complete` fans the results out: values
/// are cached, keys missing from the results default to an empty sequence,
/// and errors are handed back to every waiter of the key without being cached
/// (they stay readable with `failure` until the key is loaded again).
///
/// The loader performs no fetch itself: its owner flushes explicitly, when
/// `load` reports a full window or once every caller that could enroll in the
/// current scheduling pass has done so, runs the batch fetch, and hands the
/// results back to `complete`.
pub struct Loader<T> {
    cache: HashMap<u128, Vec<T>>,
    window: Vec<u128>,
    failed: HashMap<u128, AppError>,
    max_batch_size: usize,
}

/// The state after one `load` of `key`: a cache hit changes nothing; a miss
/// starts a fresh attempt, clearing the key's recorded error.
pub open spec fn load_step<T>(s: LoaderState<T>, key: u128) -> LoaderState<T> {
    if s.cache.contains_key(key) {
        s
    } else if s.window.contains(key) {
        LoaderState { failed: s.failed.remove(key), ..s }
    } else {
        LoaderState { window: s.window.push(key), failed: s.failed.remove(key), ..s }
    }
}

/// What one `load` of `key` reports.
pub open spec fn load_result<T>(s: LoaderState<T>, key: u128) -> LoadStep {
    if s.cache.contains_key(key) {
        LoadStep::Cached
    } else {
        LoadStep::Enrolled { flush_now: load_step(s, key).window.len() >= s.max_batch_size }
    }
}

/// The state after the window is flushed.
pub open spec fn flush_step<T>(s: LoaderState<T>) -> LoaderState<T> {
    LoaderState { window: Seq::empty(), ..s }
}

/// The value a batch result gives a key: its sequence, an empty sequence
/// where the key is missing, none where the key failed.
pub open spec fn fetched_value<T>(m: Map<u128, Result<Vec<T>, AppError>>, k: u128) -> Option<Seq<T>> {
    if !m.contains_key(k) {
        Some(Seq::empty())
    } else {
        match m[k] {
            Ok(v) => Some(v@),
            Err(_) => None,
        }
    }
}

/// What every waiter of `k` is resolved with.
pub open spec fn resolution_of<T>(m: Map<u128, Result<Vec<T>, AppError>>, k: u128) -> Result<(), AppError> {
    if m.contains_key(k) && m[k] is Err {
        Err(m[k]->Err_0)
    } else {
        Ok(())
    }
}

/// The state after the results of a batch are fanned out for `batch`.
pub open spec fn complete_step<T>(
    s: LoaderState<T>,
    batch: Seq<u128>,
    m: Map<u128, Result<Vec<T>, AppError>>,
) -> LoaderState<T>
    decreases batch.len(),
{
    if batch.len() == 0 {
        s
    } else {
        let prev = complete_step(s, batch.drop_last(), m);
        match fetched_value(m, batch.last()) {
            Some(v) => LoaderState {
                cache: prev.cache.insert(batch.last(), v),
                failed: prev.failed.remove(batch.last()),
                ..prev
            },
            None => LoaderState {
                failed: prev.failed.insert(batch.last(), m[batch.last()]->Err_0),
                ..prev
            },
        }
    }
}

/// How a fan-out leaves each key's cache entry: a key of the batch whose
/// result is a value (or is missing) holds that value (or the empty
/// sequence) and no recorded error; a failed key of the batch gains no
/// entry and records its error; every other key keeps what it had.
pub proof fn lemma_complete_entry<T>(
    s: LoaderState<T>,
    batch: Seq<u128>,
    m: Map<u128, Result<Vec<T>, AppError>>,
    k: u128,
)
    ensures
        complete_step(s, batch, m).cache.contains_key(k) == (s.cache.contains_key(k) || (
        batch.contains(k) && fetched_value(m, k) is Some)),
        batch.contains(k) && fetched_value(m, k) is Some ==> complete_step(s, batch, m).cache[k]
            == fetched_value(m, k)->Some_0,
        !batch.contains(k) ==> complete_step(s, batch, m).cache[k] == s.cache[k],
        batch.contains(k) && fetched_value(m, k) is Some ==> !complete_step(
            s,
            batch,
            m,
        ).failed.contains_key(k),
        batch.contains(k) && fetched_value(m, k) is None ==> complete_step(
            s,
            batch,
            m,
        ).failed.contains_key(k) && complete_step(s, batch, m).failed[k] == m[k]->Err_0,
        complete_step(s, batch, m).window == s.window,
        complete_step(s, batch, m).max_batch_size == s.max_batch_size,
    decreases batch.len(),
{
    if batch.len() > 0 {
        lemma_complete_entry(s, batch.drop_last(), m, k);
        assert(batch =~= batch.drop_last().push(batch.last()));
        assert(batch.contains(k) <==> (batch.drop_last().contains(k) || batch.last() == k)) by {
            if batch.contains(k) && batch.last() != k {
                let j = choose|j: int| 0 <= j < batch.len() && batch[j] == k;
                assert(j < batch.len() - 1);
                assert(batch.drop_last()[j] == k);
            }
            if batch.last() == k {
                assert(batch[batch.len() - 1] == k);
            }
        }
    }
}

/// The state after loading each key of `keys` in turn.
pub open spec fn load_all<T>(s: LoaderState<T>, keys: Seq<u128>) -> LoaderState<T>
    decreases keys.len(),
{
    if keys.len() == 0 {
        s
    } else {
        load_step(load_all(s, keys.drop_last()), keys.last())
    }
}

/// Any number of loads within one flush cycle, of keys none of which is
/// cached, leave in the window exactly the distinct requested keys, each
/// once: the flush hands one batch fetch M keys for M distinct keys however
/// many loads asked for them.
pub proof fn lemma_window_is_distinct_requested_keys<T>(s: LoaderState<T>, keys: Seq<u128>)
    requires
        s.window.len() == 0,
        forall|i: int| 0 <= i < keys.len() ==> !s.cache.contains_key(#[trigger] keys[i]),
    ensures
        load_all(s, keys).window.no_duplicates(),
        load_all(s, keys).window.to_set() == keys.to_set(),
        load_all(s, keys).cache == s.cache,
    decreases keys.len(),
{
    if keys.len() == 0 {
        assert(s.window.to_set() =~= keys.to_set());
    } else {
        let prev = keys.drop_last();
        let k = keys.last();
        assert forall|i: int| 0 <= i < prev.len() implies !s.cache.contains_key(#[trigger] prev[i]) by {
            assert(prev[i] == keys[i]);
        }
        lemma_window_is_distinct_requested_keys(s, prev);
        let p = load_all(s, prev);
        assert(!s.cache.contains_key(keys[keys.len() - 1]));
        assert(keys =~= prev.push(k));
        prev.lemma_push_to_set_commute(k);
        if p.window.contains(k) {
            assert(p.window.to_set().contains(k));
            assert(keys.to_set() =~= p.window.to_set());
        } else {
            p.window.lemma_push_to_set_commute(k);
        }
    }
}

/// Coalescing: loading `k1`, `k2`, then `k1` again, none of them cached,
/// leaves exactly the two distinct keys in the window, so the next flush
/// hands one batch fetch the keys `k1` and `k2`; the repeated load joins the
/// waiting key instead of adding a second copy.
pub proof fn lemma_coalescing<T>(s: LoaderState<T>, k1: u128, k2: u128)
    requires
        s.window.len() == 0,
        !s.cache.contains_key(k1),
        !s.cache.contains_key(k2),
        k1 != k2,
    ensures
        ({
            let s3 = load_step(load_step(load_step(s, k1), k2), k1);
            &&& s3.window == seq![k1, k2]
            &&& s3.cache == s.cache
            &&& load_result(load_step(load_step(s, k1), k2), k1) is Enrolled
        }),
{
    let s1 = load_step(s, k1);
    let s2 = load_step(s1, k2);
    assert(!s.window.contains(k1));
    assert(s1.window =~= seq![k1]);
    assert(!s1.window.contains(k2));
    assert(s2.window =~= seq![k1, k2]);
    assert(s2.window[0] == k1);
    assert(s2.window.contains(k1));
}

/// Memoization: once a batch holding `k` has been fanned out with a value
/// (or no entry) for `k`, a later load of `k` is a cache hit that returns
/// that value and changes nothing, so no new fetch follows.
pub proof fn lemma_memoization<T>(
    s: LoaderState<T>,
    batch: Seq<u128>,
    m: Map<u128, Result<Vec<T>, AppError>>,
    k: u128,
)
    requires
        batch.contains(k),
        fetched_value(m, k) is Some,
    ensures
        ({
            let t = complete_step(s, batch, m);
            &&& t.cache.contains_key(k)
            &&& t.cache[k] == fetched_value(m, k)->Some_0
            &&& load_result(t, k) == LoadStep::Cached
            &&& load_step(t, k) == t
        }),
{
    lemma_complete_entry(s, batch, m, k);
}

/// Default-empty: a key of the batch that the fetch results omit is cached
/// as an empty sequence, a success and not an error.
pub proof fn lemma_missing_key_is_empty<T>(
    s: LoaderState<T>,
    batch: Seq<u128>,
    m: Map<u128, Result<Vec<T>, AppError>>,
    k: u128,
)
    requires
        batch.contains(k),
        !m.contains_key(k),
    ensures
        complete_step(s, batch, m).cache.contains_key(k),
        complete_step(s, batch, m).cache[k] == Seq::<T>::empty(),
        resolution_of(m, k) == Ok::<(), AppError>(()),
{
    lemma_complete_entry(s, batch, m, k);
}

/// A failed key is not memoized: after the fan-out it still has no cache
/// entry, so the next load of it enrolls it for a new fetch; meanwhile its
/// error is recorded for the callers that waited on it.
pub proof fn lemma_failure_not_cached<T>(
    s: LoaderState<T>,
    batch: Seq<u128>,
    m: Map<u128, Result<Vec<T>, AppError>>,
    k: u128,
)
    requires
        !s.cache.contains_key(k),
        m.contains_key(k),
        m[k] is Err,
    ensures
        !complete_step(s, batch, m).cache.contains_key(k),
        batch.contains(k) ==> complete_step(s, batch, m).failed.contains_key(k)
            && complete_step(s, batch, m).failed[k] == m[k]->Err_0,
        load_result(complete_step(s, batch, m), k) is Enrolled,
{
    lemma_complete_entry(s, batch, m, k);
}

/// Request isolation: a fresh loader holds no cache entry, so whatever
/// another loader has cached, every first load on it enrolls its key.
pub proof fn lemma_fresh_loader_shares_nothing<T>(s: LoaderState<T>, k: u128)
    requires
        s.cache == Map::<u128, Seq<T>>::empty(),
    ensures
        load_result(s, k) is Enrolled,
        !load_step(s, k).cache.contains_key(k),
{
}

impl<T> View for Loader<T> {
    type V = LoaderState<T>;

    closed spec fn view(&self) -> LoaderState<T> {
        LoaderState {
            cache: Map::new(|k: u128| self.cache@.contains_key(k), |k: u128| self.cache@[k]@),
            window: self.window@,
            failed: self.failed@,
            max_batch_size: self.max_batch_size as nat,
        }
    }
}

impl<T> Loader<T> {
    /// The loader's own invariant: the window holds each key once.
    pub closed spec fn wf(&self) -> bool {
        self.window@.no_duplicates()
    }

    /// A fresh loader for one request: nothing cached, nothing waiting.
    pub fn new(max_batch_size: usize) -> (r: Loader<T>)
        ensures
            r.wf(),
            r@.cache == Map::<u128, Seq<T>>::empty(),
            r@.window == Seq::<u128>::empty(),
            r@.failed == Map::<u128, AppError>::empty(),
            r@.max_batch_size == max_batch_size,
    {
        let r = Loader { cache: HashMap::new(), window: Vec::new(), failed: HashMap::new(), max_batch_size };
        assert(r@.cache =~= Map::<u128, Seq<T>>::empty());
        r
    }

    /// Asks for `key`: a cache hit changes nothing; otherwise the key joins
    /// the window unless it already waits there, and its recorded error is cleared.
    pub fn load(&mut self, key: u128) -> (r: LoadStep)
        requires
            old(self).wf(),
        ensures
            final(self).wf(),
            final(self)@ == load_step(old(self)@, key),
            r == load_result(old(self)@, key),
    {
        if self.cache.contains_key(&key) {
            return LoadStep::Cached;
        }
        self.failed.remove(&key);
        let mut i: usize = 0;
        let mut found = false;
        while i < self.window.len()
            invariant
                i <= self.window@.len(),
                found == (exists|j: int| 0 <= j < i && self.window@[j] == key),
            decreases self.window@.len() - i,
        {
            if self.window[i] == key {
                found = true;
            }
            i = i + 1;
        }
        if !found {
            self.window.push(key);
            assert(self.window@.no_duplicates());
        }
        assert(self@ =~= load_step(old(self)@, key));
        LoadStep::Enrolled { flush_now: self.window.len() >= self.max_batch_size }
    }

    /// The cached value of `key`, if it has one.
    pub fn cached(&self, key: u128) -> (r: Option<&Vec<T>>)
        ensures
            match r {
                Some(v) => self@.cache.contains_key(key) && v@ == self@.cache[key],
                None => !self@.cache.contains_key(key),
            },
    {
        self.cache.get(&key)
    }

    /// The recorded error of `key`'s last failed fetch, if any.
    pub fn failure(&self, key: u128) -> (r: Option<&AppError>)
        ensures
            match r {
                Some(e) => self@.failed.contains_key(key) && *e == self@.failed[key],
                None => !self@.failed.contains_key(key),
            },
    {
        self.failed.get(&key)
    }

    /// Flushes the window: the distinct keys to hand to one batch fetch.
    pub fn take_batch(&mut self) -> (r: Vec<u128>)
        requires
            old(self).wf(),
        ensures
            final(self).wf(),
            r@ == old(self)@.window,
            r@.no_duplicates(),
            final(self)@ == flush_step(old(self)@),
    {
        let mut batch: Vec<u128> = Vec::new();
        std::mem::swap(&mut batch, &mut self.window);
        assert(self@ =~= flush_step(old(self)@));
        batch
    }

    /// Fans the results of one batch fetch out over `batch`: each key gets
    /// its value cached (an empty sequence where the results omit it), or,
    /// where the results hold an error for it, that error without a cache
    /// entry, recorded for `failure`. The i-th resolution is for the i-th key of `batch`.
    pub fn complete(
        &mut self,
        batch: Vec<u128>,
        results: HashMap<u128, Result<Vec<T>, AppError>>,
    ) -> (r: Vec<(u128, Result<(), AppError>)>)
        requires
            old(self).wf(),
            batch@.no_duplicates(),
        ensures
            final(self).wf(),
            final(self)@ == complete_step(old(self)@, batch@, results@),
            r@.len() == batch@.len(),
            forall|i: int|
                0 <= i < batch@.len() ==> #[trigger] r@[i] == (batch@[i], resolution_of(results@, batch@[i])),
    {
        let ghost m = results@;
        let mut results = results;
        let mut out: Vec<(u128, Result<(), AppError>)> = Vec::new();
        let mut i: usize = 0;
        while i < batch.len()
            invariant
                self.wf(),
                batch@.no_duplicates(),
                i <= batch@.len(),
                self@ == complete_step(old(self)@, batch@.subrange(0, i as int), m),
                out@.len() == i,
                forall|j: int| 0 <= j < i ==> #[trigger] out@[j] == (batch@[j], resolution_of(m, batch@[j])),
                forall|j: int|
                    i <= j < batch@.len() ==> (#[trigger] results@.contains_key(batch@[j])
                        == m.contains_key(batch@[j]) && (m.contains_key(batch@[j]) ==> results@[batch@[j]]
                        == m[batch@[j]])),
            decreases batch@.len() - i,
        {
            let key = batch[i];
            let ghost before = self@;
            assert(batch@.subrange(0, i + 1).drop_last() =~= batch@.subrange(0, i as int));
            assert(batch@.subrange(0, i + 1).last() == key);
            match results.remove(&key) {
                Some(Ok(v)) => {
                    let ghost vv = v@;
                    self.cache.insert(key, v);
                    self.failed.remove(&key);
                    assert(self@.cache =~= before.cache.insert(key, vv));
                    out.push((key, Ok(())));
                },
                Some(Err(e)) => {
                    self.failed.insert(key, e.duplicate());
                    out.push((key, Err(e)));
                },
                None => {
                    self.cache.insert(key, Vec::new());
                    self.failed.remove(&key);
                    assert(self@.cache =~= before.cache.insert(key, Seq::<T>::empty()));
                    out.push((key, Ok(())));
                },
            }
            assert forall|j: int| i + 1 <= j < batch@.len() implies (#[trigger] results@.contains_key(batch@[j])
                == m.contains_key(batch@[j]) && (m.contains_key(batch@[j]) ==> results@[batch@[j]]
                == m[batch@[j]])) by {
                assert(batch@[j] != batch@[i as int]);
            }
            i = i + 1;
        }
        assert(batch@.subrange(0, batch@.len() as int) =~= batch@);
        out
    }
}

} // verus!
