//! The counter store model and the counter coordinator.
//!
//! A counter record is `{key, minute window, count}` with a uniqueness
//! invariant on `(key, minute window)`; a key's total is the sum of its
//! counts across all windows. The durable store behind the service promises
//! exactly one atomic operation, increment-and-read-total; this module is
//! that operation's semantics, verified, and the coordinator that combines
//! it with the fan-out notification. The transport layer maps the store's
//! rows into [`CounterStore`] values and back.

use vstd::prelude::*;

use tokio::sync::broadcast::Sender;

use crate::fanout::publish;

verus! {

/// One counter row: hits for `key` during one UTC minute.
pub struct CounterRecord {
    pub key: String,
    pub minute_window: u64,
    pub count: u64,
}

/// The set of counter rows, unique per `(key, minute_window)`.
pub struct CounterStore {
    pub records: Vec<CounterRecord>,
}

/// What one record contributes to the total of `key`.
pub open spec fn count_for(r: CounterRecord, key: Seq<char>) -> int {
    if r.key@ == key {
        r.count as int
    } else {
        0
    }
}

/// The total of `key` over the records from index `i` on.
pub open spec fn total_from(records: Seq<CounterRecord>, key: Seq<char>, i: int) -> int
    decreases records.len() - i,
{
    if i < 0 || i >= records.len() {
        0
    } else {
        count_for(records[i], key) + total_from(records, key, i + 1)
    }
}

/// The total hits of `key`: the sum of its counts across all minute
/// windows.
pub open spec fn total_of(records: Seq<CounterRecord>, key: Seq<char>) -> int {
    total_from(records, key, 0)
}

impl CounterStore {
    /// No two records share a `(key, minute_window)` pair.
    pub open spec fn wf(self) -> bool {
        forall|i: int, j: int|
            0 <= i < j < self.records@.len() ==> !((#[trigger] self.records@[i]).key@
                == (#[trigger] self.records@[j]).key@ && self.records@[i].minute_window
                == self.records@[j].minute_window)
    }
}

proof fn lemma_total_from_nonneg(records: Seq<CounterRecord>, key: Seq<char>, i: int)
    ensures
        total_from(records, key, i) >= 0,
    decreases records.len() - i,
{
    if 0 <= i < records.len() {
        lemma_total_from_nonneg(records, key, i + 1);
    }
}

proof fn lemma_total_update(
    records: Seq<CounterRecord>,
    key: Seq<char>,
    j: int,
    r2: CounterRecord,
    i: int,
)
    requires
        0 <= j < records.len(),
        0 <= i <= records.len(),
    ensures
        i <= j ==> total_from(records.update(j, r2), key, i) == total_from(records, key, i)
            - count_for(records[j], key) + count_for(r2, key),
        i > j ==> total_from(records.update(j, r2), key, i) == total_from(records, key, i),
    decreases records.len() - i,
{
    if i < records.len() {
        lemma_total_update(records, key, j, r2, i + 1);
    }
}

proof fn lemma_total_push(records: Seq<CounterRecord>, key: Seq<char>, r: CounterRecord, i: int)
    requires
        0 <= i <= records.len(),
    ensures
        total_from(records.push(r), key, i) == total_from(records, key, i) + count_for(r, key),
    decreases records.len() - i,
{
    if i < records.len() {
        lemma_total_push(records, key, r, i + 1);
    } else {
        assert(total_from(records.push(r), key, i) == count_for(records.push(r)[i], key)
            + total_from(records.push(r), key, i + 1));
        assert(total_from(records.push(r), key, i + 1) == 0);
    }
}

impl CounterStore {
    /// A clean store: no records, so every key totals zero.
    pub fn new() -> (s: CounterStore)
        ensures
            s.wf(),
            s.records@.len() == 0,
            forall|k: Seq<char>| total_of(s.records@, k) == 0,
    {
        CounterStore { records: Vec::new() }
    }

    /// Increment-and-read-total, the store's one atomic operation:
    /// increments the count for `(key, current minute window)` — creating
    /// the window row with count 1 if absent — and returns the key's total
    /// across all windows, which reflects the just-applied increment (it
    /// equals the pre-increment total plus one). No other row is touched,
    /// so no other key's total changes and window bucketing is preserved.
    pub fn bump(&mut self, key: String, minute_window: u64) -> (total: u64)
        requires
            old(self).wf(),
            total_of(old(self).records@, key@) < u64::MAX,
        ensures
            final(self).wf(),
            total == total_of(old(self).records@, key@) + 1,
            total_of(final(self).records@, key@) == total,
            forall|k2: Seq<char>|
                k2 != key@ ==> total_of(final(self).records@, k2) == total_of(
                    old(self).records@,
                    k2,
                ),
            // when the window row exists, only its count is raised
            ({
                let before = old(self).records@;
                let after = final(self).records@;
                forall|i: int|
                    0 <= i < before.len() && (#[trigger] before[i]).key@ == key@
                        && before[i].minute_window == minute_window ==> after.len()
                        == before.len() && after[i].key@ == key@ && after[i].minute_window
                        == minute_window && after[i].count == before[i].count + 1 && (forall|
                        j: int,
                    | 0 <= j < before.len() && j != i ==> after[j] == before[j])
            }),
            // when it does not, it is created at the end with count 1
            ({
                let before = old(self).records@;
                let after = final(self).records@;
                (forall|i: int|
                    0 <= i < before.len() ==> !((#[trigger] before[i]).key@ == key@
                        && before[i].minute_window == minute_window)) ==> after.len()
                    == before.len() + 1 && after.take(before.len() as int) == before
                    && after.last().key@ == key@ && after.last().minute_window == minute_window
                    && after.last().count == 1
            }),
    {
        let ghost orig = self.records@;
        proof {
            lemma_total_from_nonneg(orig, key@, 0);
        }
        let n = self.records.len();
        let mut i: usize = 0;
        let mut sum: u64 = 0;
        let mut found: Option<usize> = None;
        while i < n
            invariant
                self.records@ == orig,
                n == orig.len(),
                i <= n,
                total_of(orig, key@) < u64::MAX,
                sum == total_of(orig, key@) - total_from(orig, key@, i as int),
                sum <= total_of(orig, key@),
                match found {
                    Some(j) => j < i && orig[j as int].key@ == key@
                        && orig[j as int].minute_window == minute_window
                        && orig[j as int].count <= sum,
                    None => forall|t: int|
                        0 <= t < i ==> !((#[trigger] orig[t]).key@ == key@
                            && orig[t].minute_window == minute_window),
                },
            decreases n - i,
        {
            proof {
                lemma_total_from_nonneg(orig, key@, i as int + 1);
            }
            if self.records[i].key == key {
                sum = sum + self.records[i].count;
                if found.is_none() && self.records[i].minute_window == minute_window {
                    found = Some(i);
                }
            }
            i = i + 1;
        }
        let total = sum + 1;
        match found {
            Some(j) => {
                let c = self.records[j].count;
                self.records[j].count = c + 1;
                proof {
                    let r2 = self.records@[j as int];
                    lemma_total_update(orig, key@, j as int, r2, 0);
                    assert forall|k2: Seq<char>| k2 != key@ implies total_of(
                        self.records@,
                        k2,
                    ) == total_of(orig, k2) by {
                        lemma_total_update(orig, k2, j as int, r2, 0);
                    }
                    assert forall|a: int, b: int|
                        0 <= a < b < self.records@.len() implies !((#[trigger] self.records@[a]).key@
                        == (#[trigger] self.records@[b]).key@ && self.records@[a].minute_window
                        == self.records@[b].minute_window) by {
                        assert(self.records@[a].key@ == orig[a].key@);
                        assert(self.records@[b].key@ == orig[b].key@);
                    }
                }
            },
            None => {
                self.records.push(CounterRecord { key, minute_window, count: 1 });
                proof {
                    let r = self.records@[orig.len() as int];
                    lemma_total_push(orig, key@, r, 0);
                    assert forall|k2: Seq<char>| k2 != key@ implies total_of(
                        self.records@,
                        k2,
                    ) == total_of(orig, k2) by {
                        lemma_total_push(orig, k2, r, 0);
                    }
                    assert(self.records@.take(orig.len() as int) =~= orig);
                }
            },
        }
        total
    }
}

/// Performs the coordinator's step for one inbound hit: the atomic
/// increment-and-read-total against the store, then publication of the key
/// to the notification fan-out. A publish with no active subscribers is not
/// an error, so its outcome is dropped, exactly like the response path
/// does not wait on subscribers.
pub fn bump_and_notify(
    store: &mut CounterStore,
    fanout: &Sender<String>,
    key: String,
    minute_window: u64,
) -> (total: u64)
    requires
        old(store).wf(),
        total_of(old(store).records@, key@) < u64::MAX,
    ensures
        final(store).wf(),
        total == total_of(old(store).records@, key@) + 1,
        total_of(final(store).records@, key@) == total,
        forall|k2: Seq<char>|
            k2 != key@ ==> total_of(final(store).records@, k2) == total_of(
                old(store).records@,
                k2,
            ),
{
    let notify_key = key.clone();
    let total = store.bump(key, minute_window);
    let _receivers = publish(fanout, notify_key);
    total
}

/// Law: increments are never lost — `bump` returns the pre-increment total
/// plus one and raises the key's total to exactly that value, so a run of
/// bumps of one key starting from total `t0` observes `t0 + 1, t0 + 2, ...`:
/// no two observe the same value, and after `n` of them the total is
/// exactly `t0 + n`. (Interleavings for one key are serialized by the
/// store's own atomicity, which this model's single mutable reference
/// stands for.)
pub proof fn lemma_no_lost_updates(t0: int, observed: Seq<int>)
    requires
        forall|i: int| 0 <= i < observed.len() ==> #[trigger] observed[i] == t0 + i + 1,
    ensures
        forall|i: int, j: int|
            0 <= i < j < observed.len() ==> #[trigger] observed[i] != #[trigger] observed[j],
        observed.len() > 0 ==> observed.last() == t0 + observed.len(),
{
}

} // verus!
