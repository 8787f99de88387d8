//! The agent's bounded delivery buffer: events wait in a queue, leave in
//! numbered batches, and stay pending until the server acknowledges them, so
//! that a reconnect can replay what was not acknowledged.

use std::collections::{BTreeMap, VecDeque};

use vstd::prelude::*;
use vstd::std_specs::btree::increasing_seq;
use vstd::std_specs::iter::IteratorSpec;

use crate::counters::Counters;
use crate::event_model::{same_events, RuntimeEvent};

verus! {

/// A batch handed to the session, with the sequence number it travels under.
#[derive(Debug)]
pub struct PendingBatch {
    pub sequence: u64,
    pub events: Vec<RuntimeEvent>,
}

impl Clone for PendingBatch {
    fn clone(&self) -> (r: Self)
        ensures
            r.sequence == self.sequence,
            same_events(r.events@, self.events@),
    {
        PendingBatch { sequence: self.sequence, events: self.events.clone() }
    }
}

/// The abstract state of a buffer: its bounds, the next sequence number, the
/// queued events in arrival order, and the pending batches in sequence order.
pub ghost struct BufferModel {
    pub capacity: nat,
    pub batch_size: nat,
    pub next_sequence: u64,
    pub queued: Seq<RuntimeEvent>,
    pub pending: Seq<(u64, Seq<RuntimeEvent>)>,
}

/// The number of events in a run of pending batches.
pub open spec fn pending_total(s: Seq<(u64, Seq<RuntimeEvent>)>) -> nat
    decreases s.len(),
{
    if s.len() == 0 {
        0
    } else {
        pending_total(s.drop_last()) + s.last().1.len()
    }
}

/// Events the buffer holds: queued and pending alike.
pub open spec fn occupancy(m: BufferModel) -> nat {
    m.queued.len() + pending_total(m.pending)
}

/// The pending batches are in strictly increasing sequence order, each before
/// the next sequence number to be handed out (unless the numbers have run out).
pub open spec fn sequences_ordered(m: BufferModel) -> bool {
    &&& forall|i: int, j: int|
        0 <= i < j < m.pending.len() ==> (#[trigger] m.pending[i]).0 < (#[trigger] m.pending[j]).0
    &&& forall|i: int|
        0 <= i < m.pending.len() ==> 1 <= (#[trigger] m.pending[i]).0 && (m.pending[i].0
            < m.next_sequence || m.next_sequence == u64::MAX)
}

/// A buffer state that the operations keep.
pub open spec fn model_ok(m: BufferModel) -> bool {
    &&& 0 < m.batch_size <= m.capacity
    &&& m.capacity <= usize::MAX
    &&& 1 <= m.next_sequence
    &&& sequences_ordered(m)
    &&& occupancy(m) <= m.capacity
}

/// `push`: the event is queued when the buffer holds fewer events than its
/// capacity, and refused otherwise.
pub open spec fn model_push(m: BufferModel, event: RuntimeEvent) -> (BufferModel, bool) {
    if occupancy(m) < m.capacity {
        (BufferModel { queued: m.queued.push(event), ..m }, true)
    } else {
        (m, false)
    }
}

/// How many queued events the next batch takes.
pub open spec fn batch_count(m: BufferModel) -> nat {
    if m.batch_size < m.queued.len() {
        m.batch_size
    } else {
        m.queued.len()
    }
}

/// The next sequence number after `s`, stopping at `u64::MAX`.
pub open spec fn next_sequence_after(s: u64) -> u64 {
    if s < u64::MAX {
        (s + 1) as u64
    } else {
        s
    }
}

/// The pending batches with a batch filed under its sequence number, which is
/// at least every number already there: it replaces a batch under the same
/// number and is appended otherwise.
pub open spec fn file_batch(
    s: Seq<(u64, Seq<RuntimeEvent>)>,
    batch: (u64, Seq<RuntimeEvent>),
) -> Seq<(u64, Seq<RuntimeEvent>)> {
    if s.len() > 0 && s.last().0 == batch.0 {
        s.drop_last().push(batch)
    } else {
        s.push(batch)
    }
}

/// `next_batch`: the oldest queued events, at most a batch of them, leave as a
/// batch under the next sequence number and become pending.
pub open spec fn model_next_batch(m: BufferModel) -> (BufferModel, Option<(u64, Seq<RuntimeEvent>)>) {
    if m.queued.len() == 0 {
        (m, None)
    } else {
        let count = batch_count(m) as int;
        let batch = (m.next_sequence, m.queued.take(count));
        (
            BufferModel {
                next_sequence: next_sequence_after(m.next_sequence),
                queued: m.queued.skip(count),
                pending: file_batch(m.pending, batch),
                ..m
            },
            Some(batch),
        )
    }
}

/// Where a sequence number stands among the pending batches.
pub open spec fn batch_position(s: Seq<(u64, Seq<RuntimeEvent>)>, sequence: u64) -> Option<int> {
    if exists|i: int| 0 <= i < s.len() && (#[trigger] s[i]).0 == sequence {
        Some(choose|i: int| 0 <= i < s.len() && (#[trigger] s[i]).0 == sequence)
    } else {
        None
    }
}

/// `acknowledge`: the pending batch under the sequence number is dropped, and
/// the call reports whether there was one.
pub open spec fn model_acknowledge(m: BufferModel, sequence: u64) -> (BufferModel, Option<nat>) {
    match batch_position(m.pending, sequence) {
        Some(i) => (BufferModel { pending: m.pending.remove(i), ..m }, Some(m.pending[i].1.len())),
        None => (m, None),
    }
}

/// `s` lists the batches of `m` by sequence number, in increasing order.
pub open spec fn lists_batches(s: Seq<(u64, Seq<RuntimeEvent>)>, m: Map<u64, PendingBatch>) -> bool {
    &&& forall|i: int, j: int| 0 <= i < j < s.len() ==> (#[trigger] s[i]).0 < (#[trigger] s[j]).0
    &&& forall|i: int|
        0 <= i < s.len() ==> m.contains_key((#[trigger] s[i]).0) && s[i].1 == m[s[i].0].events@
    &&& forall|k: u64| #[trigger] m.contains_key(k) ==> exists|i: int| 0 <= i < s.len() && (#[trigger] s[i]).0 == k
}

/// The batches of a map by sequence number, in increasing order.
pub open spec fn batches_in_order(m: Map<u64, PendingBatch>) -> Seq<(u64, Seq<RuntimeEvent>)> {
    choose|s: Seq<(u64, Seq<RuntimeEvent>)>| lists_batches(s, m)
}

/// A bounded buffer of events awaiting delivery.
#[derive(Debug)]
pub struct EventBuffer {
    capacity: usize,
    batch_size: usize,
    next_sequence: u64,
    queued: VecDeque<RuntimeEvent>,
    pending: BTreeMap<u64, PendingBatch>,
}

impl View for EventBuffer {
    type V = BufferModel;

    closed spec fn view(&self) -> BufferModel {
        BufferModel {
            capacity: self.capacity as nat,
            batch_size: self.batch_size as nat,
            next_sequence: self.next_sequence,
            queued: self.queued@,
            pending: batches_in_order(self.pending@),
        }
    }
}

// ------------------------------------------------------------------ lemmas

proof fn lemma_increasing_keys(s: Seq<u64>)
    requires
        increasing_seq(s),
    ensures
        forall|i: int, j: int| 0 <= i < j < s.len() ==> s[i] < s[j],
{
    assert(vstd::laws_cmp::obeys_cmp::<u64>());
    vstd::std_specs::btree::axiom_increasing_seq_meaning(s);
    assert forall|i: int, j: int| 0 <= i < j < s.len() implies s[i] < s[j] by {
        assert(vstd::std_specs::cmp::OrdSpec::cmp_spec(&s[i], &s[j]) is Less);
    }
}

proof fn lemma_lists_drop_first(s: Seq<(u64, Seq<RuntimeEvent>)>, m: Map<u64, PendingBatch>)
    requires
        lists_batches(s, m),
        s.len() > 0,
    ensures
        lists_batches(s.drop_first(), m.remove(s[0].0)),
{
    let t = s.drop_first();
    let m2 = m.remove(s[0].0);
    assert forall|i: int, j: int| 0 <= i < j < t.len() implies (#[trigger] t[i]).0 < (#[trigger] t[j]).0 by {
        assert(s[i + 1].0 < s[j + 1].0);
    }
    assert forall|i: int| 0 <= i < t.len() implies m2.contains_key((#[trigger] t[i]).0) && t[i].1
        == m2[t[i].0].events@ by {
        assert(s[0].0 < s[i + 1].0);
        assert(m.contains_key(s[i + 1].0));
    }
    assert forall|k: u64| #[trigger] m2.contains_key(k) implies exists|i: int|
        0 <= i < t.len() && (#[trigger] t[i]).0 == k by {
        assert(m.contains_key(k));
        let i = choose|i: int| 0 <= i < s.len() && (#[trigger] s[i]).0 == k;
        assert(i != 0);
        assert(t[i - 1].0 == k);
    }
}

/// Two listings of the same batches in increasing order are the same.
proof fn lemma_lists_unique(s1: Seq<(u64, Seq<RuntimeEvent>)>, s2: Seq<(u64, Seq<RuntimeEvent>)>, m: Map<u64, PendingBatch>)
    requires
        lists_batches(s1, m),
        lists_batches(s2, m),
    ensures
        s1 == s2,
    decreases s1.len(),
{
    if s1.len() == 0 {
        if s2.len() > 0 {
            assert(m.contains_key(s2[0].0));
            let i = choose|i: int| 0 <= i < s1.len() && (#[trigger] s1[i]).0 == s2[0].0;
        }
        assert(s1 =~= s2);
    } else if s2.len() == 0 {
        assert(m.contains_key(s1[0].0));
        let i = choose|i: int| 0 <= i < s2.len() && (#[trigger] s2[i]).0 == s1[0].0;
    } else {
        let k1 = s1[0].0;
        let k2 = s2[0].0;
        assert(m.contains_key(k1));
        assert(m.contains_key(k2));
        let j = choose|j: int| 0 <= j < s2.len() && (#[trigger] s2[j]).0 == k1;
        let i = choose|i: int| 0 <= i < s1.len() && (#[trigger] s1[i]).0 == k2;
        if j > 0 {
            assert(s2[0].0 < s2[j].0);
            if i > 0 {
                assert(s1[0].0 < s1[i].0);
            }
        }
        if i > 0 {
            assert(s1[0].0 < s1[i].0);
        }
        assert(k1 == k2);
        lemma_lists_drop_first(s1, m);
        lemma_lists_drop_first(s2, m);
        lemma_lists_unique(s1.drop_first(), s2.drop_first(), m.remove(k1));
        assert(s1[0] == s2[0]);
        assert(s1 =~= seq![s1[0]] + s1.drop_first());
        assert(s2 =~= seq![s2[0]] + s2.drop_first());
    }
}

proof fn lemma_lists_remove(s: Seq<(u64, Seq<RuntimeEvent>)>, m: Map<u64, PendingBatch>, i: int)
    requires
        lists_batches(s, m),
        0 <= i < s.len(),
    ensures
        lists_batches(s.remove(i), m.remove(s[i].0)),
{
    let t = s.remove(i);
    let k = s[i].0;
    let m2 = m.remove(k);
    assert forall|a: int, b: int| 0 <= a < b < t.len() implies (#[trigger] t[a]).0 < (#[trigger] t[b]).0 by {
        let a0 = if a < i { a } else { a + 1 };
        let b0 = if b < i { b } else { b + 1 };
        assert(t[a] == s[a0] && t[b] == s[b0]);
        assert(s[a0].0 < s[b0].0);
    }
    assert forall|a: int| 0 <= a < t.len() implies m2.contains_key((#[trigger] t[a]).0) && t[a].1
        == m2[t[a].0].events@ by {
        let a0 = if a < i { a } else { a + 1 };
        assert(t[a] == s[a0]);
        assert(m.contains_key(s[a0].0));
        if a0 < i {
            assert(s[a0].0 < s[i].0);
        } else {
            assert(s[i].0 < s[a0].0);
        }
    }
    assert forall|k2: u64| #[trigger] m2.contains_key(k2) implies exists|a: int|
        0 <= a < t.len() && (#[trigger] t[a]).0 == k2 by {
        assert(m.contains_key(k2));
        let a0 = choose|a0: int| 0 <= a0 < s.len() && (#[trigger] s[a0]).0 == k2;
        assert(a0 != i);
        if a0 < i {
            assert(t[a0] == s[a0]);
        } else {
            assert(t[a0 - 1] == s[a0]);
        }
    }
}

proof fn lemma_file_lists(s: Seq<(u64, Seq<RuntimeEvent>)>, m: Map<u64, PendingBatch>, b: PendingBatch)
    requires
        lists_batches(s, m),
        forall|i: int| 0 <= i < s.len() ==> (#[trigger] s[i]).0 <= b.sequence,
    ensures
        lists_batches(file_batch(s, (b.sequence, b.events@)), m.insert(b.sequence, b)),
{
    let k = b.sequence;
    let t = file_batch(s, (k, b.events@));
    let m2 = m.insert(k, b);
    let n = s.len() as int;
    let replaced = n > 0 && s.last().0 == k;
    let kept = if replaced { n - 1 } else { n };
    assert forall|i: int| 0 <= i < kept implies (#[trigger] s[i]).0 < k by {
        if replaced {
            assert(s[i].0 < s[n - 1].0);
        } else if n > 0 {
            assert(s[i].0 <= k);
            if s[i].0 == k {
                if i < n - 1 {
                    assert(s[i].0 < s[n - 1].0);
                    assert(s[n - 1].0 <= k);
                }
            }
        }
    }
    assert(t.len() == kept + 1);
    assert forall|i: int| 0 <= i < kept implies #[trigger] t[i] == s[i] by {}
    assert(t[kept] == (k, b.events@));
    assert forall|i: int, j: int| 0 <= i < j < t.len() implies (#[trigger] t[i]).0 < (#[trigger] t[j]).0 by {
        if j < kept {
            assert(s[i].0 < s[j].0);
        } else {
            assert(s[i].0 < k);
        }
    }
    assert forall|i: int| 0 <= i < t.len() implies m2.contains_key((#[trigger] t[i]).0) && t[i].1
        == m2[t[i].0].events@ by {
        if i < kept {
            assert(s[i].0 < k);
            assert(m.contains_key(s[i].0));
        }
    }
    assert forall|k2: u64| #[trigger] m2.contains_key(k2) implies exists|i: int|
        0 <= i < t.len() && (#[trigger] t[i]).0 == k2 by {
        if k2 == k {
            assert(t[kept].0 == k2);
        } else {
            assert(m.contains_key(k2));
            let a = choose|a: int| 0 <= a < s.len() && (#[trigger] s[a]).0 == k2;
            if replaced && a == n - 1 {
                assert(false);
            }
            assert(a < kept);
            assert(t[a] == s[a]);
        }
    }
}

/// A listing pins the ordered view of the batches.
proof fn lemma_in_order(s: Seq<(u64, Seq<RuntimeEvent>)>, m: Map<u64, PendingBatch>)
    requires
        lists_batches(s, m),
    ensures
        batches_in_order(m) == s,
{
    lemma_lists_unique(batches_in_order(m), s, m);
}

/// The keys of a map in increasing order, each with its batch, list the map.
proof fn lemma_keys_list(keys: Seq<u64>, m: Map<u64, PendingBatch>)
    requires
        increasing_seq(keys),
        keys.to_set() == m.dom(),
    ensures
        lists_batches(keys.map(|i: int, k: u64| (k, m[k].events@)), m),
{
    lemma_increasing_keys(keys);
    let s = keys.map(|i: int, k: u64| (k, m[k].events@));
    assert forall|i: int| 0 <= i < s.len() implies m.contains_key((#[trigger] s[i]).0) && s[i].1
        == m[s[i].0].events@ by {
        assert(keys.to_set().contains(keys[i]));
    }
    assert forall|k: u64| #[trigger] m.contains_key(k) implies exists|i: int|
        0 <= i < s.len() && (#[trigger] s[i]).0 == k by {
        assert(keys.to_set().contains(k));
        let i = choose|i: int| 0 <= i < keys.len() && keys[i] == k;
        assert(s[i].0 == k);
    }
}

proof fn lemma_total_prefix(s: Seq<(u64, Seq<RuntimeEvent>)>, i: int)
    requires
        0 <= i <= s.len(),
    ensures
        pending_total(s.take(i)) <= pending_total(s),
        i < s.len() ==> pending_total(s.take(i + 1)) == pending_total(s.take(i)) + s[i].1.len(),
    decreases s.len() - i,
{
    if i < s.len() {
        assert(s.take(i + 1).drop_last() =~= s.take(i));
        lemma_total_prefix(s, i + 1);
    } else {
        assert(s.take(i) =~= s);
    }
}

proof fn lemma_total_remove(s: Seq<(u64, Seq<RuntimeEvent>)>, i: int)
    requires
        0 <= i < s.len(),
    ensures
        pending_total(s.remove(i)) + s[i].1.len() == pending_total(s),
    decreases s.len(),
{
    if i == s.len() - 1 {
        assert(s.remove(i) =~= s.drop_last());
    } else {
        lemma_total_remove(s.drop_last(), i);
        assert(s.remove(i).drop_last() =~= s.drop_last().remove(i));
        assert(s.remove(i).last() == s.last());
    }
}

proof fn lemma_file_batch(s: Seq<(u64, Seq<RuntimeEvent>)>, batch: (u64, Seq<RuntimeEvent>))
    ensures
        pending_total(file_batch(s, batch)) <= pending_total(s) + batch.1.len(),
        !(s.len() > 0 && s.last().0 == batch.0) ==> pending_total(file_batch(s, batch))
            == pending_total(s) + batch.1.len(),
{
    if s.len() > 0 && s.last().0 == batch.0 {
        assert(file_batch(s, batch).drop_last() =~= s.drop_last());
    } else {
        assert(file_batch(s, batch).drop_last() =~= s);
    }
}

proof fn lemma_next_batch_ok(m: BufferModel)
    requires
        model_ok(m),
    ensures
        model_ok(model_next_batch(m).0),
        occupancy(model_next_batch(m).0) <= occupancy(m),
{
    if m.queued.len() > 0 {
        let count = batch_count(m) as int;
        let batch = (m.next_sequence, m.queued.take(count));
        let m2 = model_next_batch(m).0;
        lemma_file_batch(m.pending, batch);
        assert(m2.pending == file_batch(m.pending, batch));
        assert forall|i: int, j: int|
            0 <= i < j < m2.pending.len() implies (#[trigger] m2.pending[i]).0 < (
            #[trigger] m2.pending[j]).0 by {
            if m.pending.len() > 0 && m.pending.last().0 == batch.0 {
                assert(m.pending[i].0 < m.pending[m.pending.len() - 1].0);
            } else if j == m.pending.len() {
                assert(m.pending[i].0 < m.next_sequence || m.next_sequence == u64::MAX);
                if m.next_sequence == u64::MAX && m.pending[i].0 == m.next_sequence {
                    assert(m.pending[i].0 < m.pending[m.pending.len() - 1].0);
                }
            }
        }
    }
}

proof fn lemma_acknowledge_ok(m: BufferModel, sequence: u64)
    requires
        model_ok(m),
    ensures
        model_ok(model_acknowledge(m, sequence).0),
        model_acknowledge(m, sequence).1 matches Some(n) ==> occupancy(
            model_acknowledge(m, sequence).0,
        ) + n == occupancy(m),
{
    match batch_position(m.pending, sequence) {
        Some(i) => {
            let m2 = model_acknowledge(m, sequence).0;
            lemma_total_remove(m.pending, i);
            assert forall|a: int, b: int|
                0 <= a < b < m2.pending.len() implies (#[trigger] m2.pending[a]).0 < (
                #[trigger] m2.pending[b]).0 by {
                let a0 = if a < i { a } else { a + 1 };
                let b0 = if b < i { b } else { b + 1 };
                assert(m2.pending[a] == m.pending[a0]);
                assert(m2.pending[b] == m.pending[b0]);
            }
            assert forall|a: int| 0 <= a < m2.pending.len() implies 1 <= (
            #[trigger] m2.pending[a]).0 <= m2.next_sequence by {
                let a0 = if a < i { a } else { a + 1 };
                assert(m2.pending[a] == m.pending[a0]);
            }
        },
        None => {},
    }
}

// --------------------------------------------------------------------- laws

/// Every operation keeps the buffer's bounds: it never holds more events than
/// its capacity, and its pending batches stay in increasing sequence order.
pub proof fn lemma_operations_keep_bounds(m: BufferModel, event: RuntimeEvent, sequence: u64)
    requires
        model_ok(m),
    ensures
        model_ok(model_push(m, event).0),
        model_ok(model_next_batch(m).0),
        model_ok(model_acknowledge(m, sequence).0),
{
    lemma_next_batch_ok(m);
    lemma_acknowledge_ok(m, sequence);
}

/// Events leave in arrival order and none is lost: a batch takes the oldest
/// queued events, at most a batch of them, and those it leaves stay queued in
/// order behind them.
pub proof fn lemma_batches_keep_arrival_order(m: BufferModel)
    requires
        model_ok(m),
        m.queued.len() > 0,
    ensures
        model_next_batch(m).1 matches Some(b) && b.1 + model_next_batch(m).0.queued == m.queued
            && 0 < b.1.len() <= m.batch_size,
{
    let count = batch_count(m) as int;
    assert(m.queued.take(count) + m.queued.skip(count) =~= m.queued);
}

/// Acknowledging the batch just handed out undoes its filing: the pending
/// batches are as before, and the buffer holds that many events fewer (while
/// sequence numbers have not run out).
pub proof fn lemma_acknowledge_undoes_next_batch(m: BufferModel)
    requires
        model_ok(m),
        m.queued.len() > 0,
        m.next_sequence < u64::MAX,
    ensures
        ({
            let (m1, b) = model_next_batch(m);
            let batch = b.unwrap();
            let (m2, n) = model_acknowledge(m1, batch.0);
            &&& n == Some(batch.1.len())
            &&& m2.pending == m.pending
            &&& m2.queued == m.queued.skip(batch.1.len() as int)
            &&& occupancy(m2) + batch.1.len() == occupancy(m)
        }),
{
    let (m1, b) = model_next_batch(m);
    let batch = b.unwrap();
    let k = m.pending.len() as int;
    if k > 0 {
        assert(m.pending[k - 1].0 < m.next_sequence);
    }
    assert(m1.pending == m.pending.push(batch));
    assert(m1.pending[k].0 == batch.0);
    let i = batch_position(m1.pending, batch.0)->0;
    assert(i == k) by {
        if i < k {
            assert(m.pending[i].0 < m.next_sequence);
            assert(m1.pending[i] == m.pending[i]);
        }
    }
    assert(m1.pending.remove(k) =~= m.pending);
    lemma_file_batch(m.pending, batch);
}

// --------------------------------------------------------------- operations

impl EventBuffer {
    /// The buffer's state satisfies its bounds.
    pub closed spec fn well_formed(&self) -> bool {
        &&& model_ok(self@)
        &&& lists_batches(self@.pending, self.pending@)
        &&& forall|k: u64| #[trigger] self.pending@.contains_key(k) ==> self.pending@[k].sequence == k
    }

    /// An empty buffer of `capacity` events, handing out batches of at most
    /// `batch_size` events.
    pub fn new(capacity: usize, batch_size: usize) -> (r: Self)
        requires
            capacity > 0 && batch_size > 0 && batch_size <= capacity,
        ensures
            r.well_formed(),
            r@ == (BufferModel {
                capacity: capacity as nat,
                batch_size: batch_size as nat,
                next_sequence: 1,
                queued: Seq::empty(),
                pending: Seq::empty(),
            }),
    {
        let r = EventBuffer {
            capacity,
            batch_size,
            next_sequence: 1,
            queued: VecDeque::new(),
            pending: BTreeMap::new(),
        };
        proof {
            assert(lists_batches(Seq::empty(), r.pending@));
            lemma_in_order(Seq::empty(), r.pending@);
        }
        r
    }

    fn occupied(&self) -> (n: usize)
        requires
            self.well_formed(),
        ensures
            n == occupancy(self@),
    {
        let ghost pv = self@.pending;
        let ghost m = self.pending@;
        let mut total: usize = self.queued.len();
        let values = self.pending.values();
        let ghost keys = choose|keys: Seq<u64>|
            increasing_seq(keys) && keys.to_set() == m.dom() && keys.no_duplicates()
                && values.remaining() == keys.map(|i: int, k: u64| &m[k]);
        proof {
            lemma_keys_list(keys, m);
            lemma_in_order(keys.map(|i: int, k: u64| (k, m[k].events@)), m);
        }
        for b in it: values
            invariant
                self.well_formed(),
                pv == self@.pending,
                m == self.pending@,
                it.seq() == keys.map(|i: int, k: u64| &m[k]),
                pv == keys.map(|i: int, k: u64| (k, m[k].events@)),
                total == self.queued@.len() + pending_total(pv.take(it.index() as int)),
        {
            proof {
                lemma_total_prefix(pv, it.index() as int);
                lemma_total_prefix(pv, it.index() as int + 1);
            }
            total = total + b.events.len();
        }
        proof {
            assert(pv.take(pv.len() as int) =~= pv);
        }
        total
    }

    /// Queues an event when the buffer holds fewer events than its capacity;
    /// otherwise refuses it and counts it as dropped for capacity.
    pub fn push(&mut self, event: RuntimeEvent, counters: &mut Counters) -> (r: bool)
        requires
            old(self).well_formed(),
        ensures
            final(self).well_formed(),
            (final(self)@, r) == model_push(old(self)@, event),
            r ==> *final(counters) == *old(counters),
            !r ==> *final(counters) == (Counters {
                capacity_dropped: old(counters).capacity_dropped.wrapping_add(1),
                ..*old(counters)
            }),
    {
        let occupied = self.occupied();
        if occupied >= self.capacity {
            counters.capacity_dropped = counters.capacity_dropped.wrapping_add(1);
            return false;
        }
        self.queued.push_back(event);
        true
    }

    /// Hands out the oldest queued events, at most a batch of them, under the
    /// next sequence number, and keeps them pending until acknowledged; none
    /// when nothing is queued. Counts the events as sent.
    pub fn next_batch(&mut self, counters: &mut Counters) -> (r: Option<PendingBatch>)
        requires
            old(self).well_formed(),
        ensures
            final(self).well_formed(),
            final(self)@ == model_next_batch(old(self)@).0,
            match (r, model_next_batch(old(self)@).1) {
                (None, None) => *final(counters) == *old(counters),
                (Some(b), Some(m)) => b.sequence == m.0 && same_events(b.events@, m.1)
                    && *final(counters) == (Counters {
                    sent: old(counters).sent.wrapping_add(m.1.len() as u64),
                    ..*old(counters)
                }),
                _ => false,
            },
    {
        if self.queued.len() == 0 {
            return None;
        }
        let ghost m = self@;
        let ghost mp = self.pending@;
        let count = if self.batch_size < self.queued.len() {
            self.batch_size
        } else {
            self.queued.len()
        };
        let mut events: Vec<RuntimeEvent> = Vec::new();
        let mut i: usize = 0;
        assert(m.queued.skip(0) =~= m.queued);
        assert(m.queued.take(0) =~= Seq::<RuntimeEvent>::empty());
        while i < count
            invariant
                self@ == (BufferModel { queued: m.queued.skip(i as int), ..m }),
                self.pending@ == mp,
                model_ok(m),
                lists_batches(m.pending, mp),
                forall|k: u64| #[trigger] mp.contains_key(k) ==> mp[k].sequence == k,
                i <= count,
                count == batch_count(m),
                count <= m.queued.len(),
                events@ == m.queued.take(i as int),
                self.queued@ == m.queued.skip(i as int),
            decreases count - i,
        {
            let e = self.queued.pop_front();
            match e {
                Some(e) => {
                    events.push(e);
                },
                None => {
                    assert(false);
                },
            }
            i = i + 1;
            assert(events@ =~= m.queued.take(i as int));
            assert(self.queued@ =~= m.queued.skip(i as int));
        }
        let sequence = self.next_sequence;
        self.next_sequence = self.next_sequence.saturating_add(1);
        counters.sent = counters.sent.wrapping_add(count as u64);
        let batch = PendingBatch { sequence, events };
        let copy = batch.clone();
        let ghost filed = batch;
        self.pending.insert(sequence, batch);
        proof {
            let mb = (m.next_sequence, m.queued.take(count as int));
            assert forall|i: int| 0 <= i < m.pending.len() implies (#[trigger] m.pending[i]).0
                <= sequence by {}
            lemma_file_lists(m.pending, mp, filed);
            lemma_in_order(file_batch(m.pending, mb), self.pending@);
            lemma_next_batch_ok(m);
        }
        Some(copy)
    }

    /// Drops the pending batch under `sequence` and counts its events as
    /// acknowledged; false when no batch is pending under that number.
    pub fn acknowledge(&mut self, sequence: u64, counters: &mut Counters) -> (r: bool)
        requires
            old(self).well_formed(),
        ensures
            final(self).well_formed(),
            final(self)@ == model_acknowledge(old(self)@, sequence).0,
            r == model_acknowledge(old(self)@, sequence).1 is Some,
            match model_acknowledge(old(self)@, sequence).1 {
                Some(n) => *final(counters) == (Counters {
                    acknowledged: old(counters).acknowledged.wrapping_add(n as u64),
                    ..*old(counters)
                }),
                None => *final(counters) == *old(counters),
            },
    {
        let ghost m = self@;
        let ghost mp = self.pending@;
        match self.pending.remove(&sequence) {
            Some(batch) => {
                proof {
                    assert(mp.contains_key(sequence));
                    assert(self.pending@ == mp.remove(sequence));
                    assert(batch == mp[sequence]);
                    let i = choose|i: int| 0 <= i < m.pending.len() && (#[trigger] m.pending[i]).0 == sequence;
                    assert(batch_position(m.pending, sequence) == Some(i)) by {
                        let k = choose|k: int| 0 <= k < m.pending.len() && (#[trigger] m.pending[k]).0 == sequence;
                        if k < i {
                            assert(m.pending[k].0 < m.pending[i].0);
                        } else if k > i {
                            assert(m.pending[i].0 < m.pending[k].0);
                        }
                    }
                    lemma_lists_remove(m.pending, mp, i);
                    lemma_in_order(m.pending.remove(i), self.pending@);
                    lemma_acknowledge_ok(m, sequence);
                }
                counters.acknowledged = counters.acknowledged.wrapping_add(batch.events.len() as u64);
                true
            },
            None => {
                proof {
                    assert(!mp.contains_key(sequence));
                    assert(self.pending@ == mp.remove(sequence));
                    assert(self.pending@ =~= mp);
                    assert(batch_position(m.pending, sequence) is None);
                }
                false
            },
        }
    }

    /// Copies of all pending batches, in sequence order, for resending after a
    /// reconnect; counts their events as retried.
    pub fn replay_pending(&self, counters: &mut Counters) -> (r: Vec<PendingBatch>)
        requires
            self.well_formed(),
        ensures
            r@.len() == self@.pending.len(),
            forall|i: int|
                0 <= i < r@.len() ==> (#[trigger] r@[i]).sequence == self@.pending[i].0
                    && same_events(r@[i].events@, self@.pending[i].1),
            *final(counters) == (Counters {
                retried: old(counters).retried.wrapping_add(pending_total(self@.pending) as u64),
                ..*old(counters)
            }),
    {
        let ghost pv = self@.pending;
        let ghost m = self.pending@;
        let mut batches: Vec<PendingBatch> = Vec::new();
        let mut total: u64 = 0;
        let values = self.pending.values();
        let ghost keys = choose|keys: Seq<u64>|
            increasing_seq(keys) && keys.to_set() == m.dom() && keys.no_duplicates()
                && values.remaining() == keys.map(|i: int, k: u64| &m[k]);
        proof {
            lemma_keys_list(keys, m);
            lemma_in_order(keys.map(|i: int, k: u64| (k, m[k].events@)), m);
        }
        for b in it: values
            invariant
                self.well_formed(),
                pv == self@.pending,
                m == self.pending@,
                it.seq() == keys.map(|i: int, k: u64| &m[k]),
                pv == keys.map(|i: int, k: u64| (k, m[k].events@)),
                batches@.len() == it.index(),
                forall|j: int|
                    0 <= j < it.index() ==> (#[trigger] batches@[j]).sequence == pv[j].0 && same_events(
                        batches@[j].events@,
                        pv[j].1,
                    ),
                total == pending_total(pv.take(it.index() as int)),
        {
            proof {
                lemma_total_prefix(pv, it.index() as int);
                lemma_total_prefix(pv, it.index() as int + 1);
                assert(m.contains_key(keys[it.index() as int])) by {
                    assert(keys.to_set().contains(keys[it.index() as int]));
                }
            }
            let copy = b.clone();
            total = total + copy.events.len() as u64;
            batches.push(copy);
        }
        proof {
            assert(pv.take(pv.len() as int) =~= pv);
        }
        counters.retried = counters.retried.wrapping_add(total);
        batches
    }
}

broadcast use {vstd::laws_cmp::group_laws_cmp, vstd::std_specs::btree::group_btree_axioms};

} // verus!
