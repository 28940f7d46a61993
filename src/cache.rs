//! The write-behind cache: audit records wait in a buffer and leave in one
//! batch when the buffer reaches its threshold; with caching off each record
//! is written on its own.

use vstd::prelude::*;
use vstd::arithmetic::div_mod::{lemma_fundamental_div_mod, lemma_fundamental_div_mod_converse};
use crate::descriptor::NewRequest;

verus! {

/// What the caller must persist after handing a record to the cache.
#[derive(Debug)]
pub enum Persist {
    /// Caching is off: write this one record now.
    WriteOne(NewRequest),
    /// The record waits in the buffer; nothing to write yet.
    Buffered,
    /// The buffer reached its threshold: write this whole batch, oldest first.
    WriteBulk(Vec<NewRequest>),
}

/// One step of the buffer: append the record, and if the buffer then holds
/// at least `threshold` records, take all of them out as one batch.
pub open spec fn record_step<T>(buffer: Seq<T>, threshold: nat, item: T) -> (Option<Seq<T>>, Seq<T>) {
    let grown = buffer.push(item);
    if grown.len() >= threshold {
        (Some(grown), Seq::empty())
    } else {
        (None, grown)
    }
}

/// The batches flushed and the buffer left after recording `items`, in order,
/// into an empty buffer.
pub open spec fn record_all<T>(threshold: nat, items: Seq<T>) -> (Seq<Seq<T>>, Seq<T>)
    decreases items.len(),
{
    if items.len() == 0 {
        (Seq::empty(), Seq::empty())
    } else {
        let (batches, buffer) = record_all(threshold, items.drop_last());
        match record_step(buffer, threshold, items.last()) {
            (Some(batch), rest) => (batches.push(batch), rest),
            (None, rest) => (batches, rest),
        }
    }
}

/// The batches laid end to end.
pub open spec fn concat_batches<T>(batches: Seq<Seq<T>>) -> Seq<T>
    decreases batches.len(),
{
    if batches.len() == 0 {
        Seq::empty()
    } else {
        concat_batches(batches.drop_last()) + batches.last()
    }
}

/// Recording N records with threshold T > 0 flushes exactly N / T batches of
/// exactly T records each, leaves N mod T records buffered, and loses or
/// repeats none: the batches followed by the buffer are the records in the
/// order they came.
pub proof fn lemma_record_all<T>(threshold: nat, items: Seq<T>)
    requires
        threshold > 0,
    ensures
        record_all(threshold, items).0.len() == items.len() / threshold,
        forall|k: int| 0 <= k < record_all(threshold, items).0.len()
            ==> (#[trigger] record_all(threshold, items).0[k]).len() == threshold,
        record_all(threshold, items).1.len() == items.len() % threshold,
        concat_batches(record_all(threshold, items).0) + record_all(threshold, items).1 == items,
    decreases items.len(),
{
    if items.len() > 0 {
        let prev = items.drop_last();
        lemma_record_all(threshold, prev);
        let (batches, buffer) = record_all(threshold, prev);
        let n = prev.len() as int;
        let t = threshold as int;
        assert(buffer.len() == n % t);
        lemma_fundamental_div_mod(n, t);
        let q = n / t;
        let m = n % t;
        assert(0 <= m < t);
        let grown = buffer.push(items.last());
        if grown.len() >= threshold {
            assert(n % t + 1 == t);
            assert(n + 1 == (q + 1) * t + 0) by (nonlinear_arith)
                requires m + 1 == t, n == t * q + m;
            lemma_fundamental_div_mod_converse(n + 1, t, q + 1, 0);
            assert(batches.push(grown).drop_last() =~= batches);
            assert(concat_batches(batches.push(grown)) + Seq::<T>::empty() =~= items) by {
                assert(concat_batches(batches) + buffer =~= prev);
                assert(items =~= prev.push(items.last()));
            }
        } else {
            assert(n + 1 == q * t + (m + 1)) by (nonlinear_arith)
                requires n == t * q + m;
            lemma_fundamental_div_mod_converse(n + 1, t, q, m + 1);
            assert(concat_batches(batches) + grown =~= items) by {
                assert(concat_batches(batches) + buffer =~= prev);
                assert(items =~= prev.push(items.last()));
            }
        }
    }
}

/// The batches handed out among the outcomes of successive steps, in order.
pub open spec fn emitted<T>(outs: Seq<Option<Seq<T>>>) -> Seq<Seq<T>>
    decreases outs.len(),
{
    if outs.len() == 0 {
        Seq::empty()
    } else {
        match outs.last() {
            Some(b) => emitted(outs.drop_last()).push(b),
            None => emitted(outs.drop_last()),
        }
    }
}

/// `items.len()` successive calls of `WriteBehindCache::record` on an enabled
/// cache that starts empty: `buffers[k]` is the buffer before call `k` and
/// `buffers[k + 1]` the one after it, and `outs[k]` is the batch call `k`
/// hands out, if any.
pub open spec fn successive_records<T>(
    threshold: nat,
    items: Seq<T>,
    buffers: Seq<Seq<T>>,
    outs: Seq<Option<Seq<T>>>,
) -> bool {
    &&& buffers.len() == items.len() + 1
    &&& outs.len() == items.len()
    &&& buffers[0] == Seq::<T>::empty()
    &&& forall|k: int|
        0 <= k < items.len() ==> #[trigger] record_step(buffers[k], threshold, items[k]) == (
            outs[k],
            buffers[k + 1],
        )
}

proof fn lemma_successive_prefix<T>(
    threshold: nat,
    items: Seq<T>,
    buffers: Seq<Seq<T>>,
    outs: Seq<Option<Seq<T>>>,
    n: int,
)
    requires
        successive_records(threshold, items, buffers, outs),
        0 <= n <= items.len(),
    ensures
        emitted(outs.take(n)) == record_all(threshold, items.take(n)).0,
        buffers[n] == record_all(threshold, items.take(n)).1,
    decreases n,
{
    if n == 0 {
        assert(items.take(0) =~= Seq::<T>::empty());
        assert(outs.take(0) =~= Seq::<Option<Seq<T>>>::empty());
    } else {
        lemma_successive_prefix(threshold, items, buffers, outs, n - 1);
        assert(items.take(n).drop_last() =~= items.take(n - 1));
        assert(outs.take(n).drop_last() =~= outs.take(n - 1));
        assert(items.take(n).last() == items[n - 1]);
        assert(outs.take(n).last() == outs[n - 1]);
        assert(record_step(buffers[n - 1], threshold, items[n - 1]) == (outs[n - 1], buffers[n]));
    }
}

/// Recording N records one call at a time, with threshold T > 0, into an
/// enabled cache that starts empty hands out exactly N / T batches of
/// exactly T records each and leaves N mod T records buffered; the batches
/// followed by the buffer are the records in the order the calls took them,
/// so none is lost or repeated, however the calls were interleaved before
/// they reached the cache one at a time.
pub proof fn lemma_successive_records<T>(
    threshold: nat,
    items: Seq<T>,
    buffers: Seq<Seq<T>>,
    outs: Seq<Option<Seq<T>>>,
)
    requires
        threshold > 0,
        successive_records(threshold, items, buffers, outs),
    ensures
        emitted(outs).len() == items.len() / threshold,
        forall|k: int| 0 <= k < emitted(outs).len() ==> (#[trigger] emitted(outs)[k]).len() == threshold,
        buffers.last().len() == items.len() % threshold,
        concat_batches(emitted(outs)) + buffers.last() == items,
{
    let n = items.len() as int;
    lemma_successive_prefix(threshold, items, buffers, outs, n);
    assert(items.take(n) =~= items);
    assert(outs.take(n) =~= outs);
    lemma_record_all(threshold, items);
}

/// Buffer of audit records waiting to be written.
pub struct WriteBehindCache {
    buffer: Vec<NewRequest>,
    threshold: usize,
    enabled: bool,
}

impl WriteBehindCache {
    /// The records waiting, oldest first.
    pub closed spec fn view(&self) -> Seq<NewRequest> {
        self.buffer@
    }

    pub closed spec fn spec_threshold(&self) -> nat {
        self.threshold as nat
    }

    pub closed spec fn spec_enabled(&self) -> bool {
        self.enabled
    }

    /// The buffer stays below the threshold, and is unused with caching off.
    pub closed spec fn wf(&self) -> bool {
        &&& self.buffer@.len() < self.threshold || self.buffer@.len() == 0
        &&& !self.enabled ==> self.buffer@.len() == 0
    }

    /// An empty cache; `threshold` and `enabled` are fixed for its lifetime.
    pub fn new(enabled: bool, threshold: usize) -> (r: WriteBehindCache)
        ensures
            r.wf(),
            r@ == Seq::<NewRequest>::empty(),
            r.spec_threshold() == threshold,
            r.spec_enabled() == enabled,
    {
        WriteBehindCache { buffer: Vec::new(), threshold, enabled }
    }

    pub fn threshold(&self) -> (r: usize)
        ensures
            r == self.spec_threshold(),
    {
        self.threshold
    }

    pub fn enabled(&self) -> (r: bool)
        ensures
            r == self.spec_enabled(),
    {
        self.enabled
    }

    /// Number of records waiting.
    pub fn len(&self) -> (r: usize)
        ensures
            r == self@.len(),
    {
        self.buffer.len()
    }

    /// Hands one record to the cache. With caching off the record comes back
    /// to be written at once. Otherwise it joins the buffer, and when the
    /// buffer reaches the threshold the whole buffer is taken out as one
    /// batch and the buffer starts empty again.
    pub fn record(&mut self, request: NewRequest) -> (r: Persist)
        requires
            old(self).wf(),
        ensures
            final(self).wf(),
            final(self).spec_threshold() == old(self).spec_threshold(),
            final(self).spec_enabled() == old(self).spec_enabled(),
            !old(self).spec_enabled() ==> r == Persist::WriteOne(request) && final(self)@
                == old(self)@,
            old(self).spec_enabled() ==> match record_step(
                old(self)@,
                old(self).spec_threshold(),
                request,
            ) {
                (Some(batch), rest) => r matches Persist::WriteBulk(b) && b@ == batch
                    && final(self)@ == rest,
                (None, rest) => r == Persist::Buffered && final(self)@ == rest,
            },
    {
        if !self.enabled {
            return Persist::WriteOne(request);
        }
        self.buffer.push(request);
        if self.buffer.len() >= self.threshold {
            let mut batch: Vec<NewRequest> = Vec::new();
            std::mem::swap(&mut self.buffer, &mut batch);
            Persist::WriteBulk(batch)
        } else {
            Persist::Buffered
        }
    }
}

} // verus!
