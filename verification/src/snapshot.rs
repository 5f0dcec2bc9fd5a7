//! The set of open spans at one instant.

use crate::id::SpanId;
use crate::lifecycle::after;
use crate::lifecycle::Notification;
use crate::record::SpanRecord;
use std::collections::hash_map::Values;
use std::collections::HashMap;
use tracing::Metadata;
use vstd::prelude::*;
use vstd::std_specs::iter::IteratorSpec;

verus! {

broadcast use vstd::std_specs::hash::group_hash_axioms;

/// Every record is found under its own identity, so no two records of the
/// set belong to the same span.
pub open spec fn keyed_by_id(open: Map<SpanId, SpanRecord>) -> bool {
    forall|id: SpanId| #[trigger] open.contains_key(id) ==> open[id].id == id
}

/// The map that a table keyed by raw numbers stands for: the same records,
/// found under identities.
spec fn by_id(raw: Map<u64, SpanRecord>) -> Map<SpanId, SpanRecord> {
    Map::new(|id: SpanId| raw.contains_key(id.0), |id: SpanId| raw[id.0])
}

proof fn lemma_by_id_len(raw: Map<u64, SpanRecord>)
    requires
        raw.dom().finite(),
    ensures
        by_id(raw).dom().finite(),
        by_id(raw).len() == raw.len(),
{
    let wrap = |k: u64| SpanId(k);
    assert(raw.dom().map(wrap) =~= by_id(raw).dom());
    vstd::set_lib::lemma_map_size(raw.dom(), by_id(raw).dom(), wrap);
}

proof fn lemma_by_id_values(raw: Map<u64, SpanRecord>)
    ensures
        by_id(raw).values() == raw.values(),
{
    assert forall|r: SpanRecord| raw.values().contains(r) implies by_id(raw).values().contains(
        r,
    ) by {
        let k = choose|k: u64| #[trigger] raw.dom().contains(k) && raw[k] == r;
        assert(by_id(raw).dom().contains(SpanId(k)));
    }
    assert(by_id(raw).values() =~= raw.values());
}

/// A set that is keyed by identity has as many records as identities.
proof fn lemma_as_many_records(open: Map<SpanId, SpanRecord>)
    requires
        open.dom().finite(),
        keyed_by_id(open),
    ensures
        open.values().finite(),
        open.values().len() == open.len(),
{
    let record_of = |id: SpanId| open[id];
    assert(open.dom().map(record_of) =~= open.values());
    vstd::set_lib::lemma_map_size(open.dom(), open.values(), record_of);
}

/// The spans that were open at one instant, each under its identity.
///
/// A snapshot is a value of its own: it shares nothing with the registry it
/// was taken from, and changes only through `new_span` and `close_span` on
/// itself. Its view is the map from the identities of the open spans to their
/// records.
pub struct SpanSnapshot {
    spans: HashMap<u64, SpanRecord>,
}

impl View for SpanSnapshot {
    type V = Map<SpanId, SpanRecord>;

    closed spec fn view(&self) -> Map<SpanId, SpanRecord> {
        by_id(self.spans@)
    }
}

impl Default for SpanSnapshot {
    /// The snapshot with no open span.
    fn default() -> (snapshot: SpanSnapshot)
        ensures
            snapshot@ == Map::<SpanId, SpanRecord>::empty(),
    {
        SpanSnapshot { spans: HashMap::new() }
    }
}

impl Clone for SpanSnapshot {
    /// A copy that holds the same spans and shares nothing with `self`.
    fn clone(&self) -> (copy: SpanSnapshot)
        ensures
            copy@ == self@,
            keyed_by_id(copy@),
    {
        proof {
            use_type_invariant(self);
        }
        SpanSnapshot { spans: self.spans.clone() }
    }
}

impl SpanSnapshot {
    #[verifier::type_invariant]
    spec fn stored_by_number(self) -> bool {
        forall|k: u64| #[trigger] self.spans@.contains_key(k) ==> self.spans@[k].id == SpanId(k)
    }

    /// The records of the open spans, each once, in no particular order.
    ///
    /// Every call starts a new walk over the whole set.
    pub fn open_spans(&self) -> (records: Values<'_, u64, SpanRecord>)
        ensures
            records.remaining().unref().to_set() == self@.values(),
            records.remaining().unref().no_duplicates(),
            records.remaining().len() == self@.len(),
            keyed_by_id(self@),
            records.initial_value_relation(&records),
            records.decrease() is Some,
    {
        let records = self.spans.values();
        proof {
            use_type_invariant(self);
            lemma_by_id_len(self.spans@);
            lemma_by_id_values(self.spans@);
            lemma_as_many_records(self@);
            records.remaining().unref().lemma_no_dup_set_cardinality();
        }
        records
    }

    /// Writes nothing: a snapshot has no text form of its own, and a caller
    /// that wants one walks `open_spans`.
    pub fn dump_text(&self) {
    }

    /// Takes note of a span that was created: afterwards the snapshot holds a
    /// record of it under `id`, with the parent and the description given.
    ///
    /// Where `id` is still in the snapshot, the new record replaces the one
    /// that was there.
    pub fn new_span(
        &mut self,
        parent: Option<SpanId>,
        metadata: &'static Metadata<'static>,
        id: SpanId,
    )
        ensures
            final(self)@ == old(self)@.insert(id, SpanRecord { id, parent, metadata }),
            final(self)@ == after(
                old(self)@,
                Notification::Created(SpanRecord { id, parent, metadata }),
            ),
            keyed_by_id(final(self)@),
    {
        proof {
            use_type_invariant(&*self);
        }
        // The table is taken out while it changes and put back afterwards, so
        // that `self` is whole at every point where a call could unwind.
        let mut spans = HashMap::new();
        std::mem::swap(&mut spans, &mut self.spans);
        spans.insert(id.0, SpanRecord { id, parent, metadata });
        self.spans = spans;
    }

    /// Takes note of a span that was closed: afterwards the snapshot holds no
    /// record under `id`. Where it held none before, nothing changes.
    pub fn close_span(&mut self, id: SpanId)
        ensures
            final(self)@ == old(self)@.remove(id),
            final(self)@ == after(old(self)@, Notification::Closed(id)),
            keyed_by_id(final(self)@),
    {
        proof {
            use_type_invariant(&*self);
        }
        // As in `new_span`: the table is out of `self` while it changes.
        let mut spans = HashMap::new();
        std::mem::swap(&mut spans, &mut self.spans);
        spans.remove(&id.0);
        self.spans = spans;
    }
}

} // verus!
