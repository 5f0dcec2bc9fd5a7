//! The life of a span as the registry sees it: which notifications change
//! the set of open spans, and what holds of the set along any sequence of
//! them.

use crate::id::SpanId;
use crate::record::SpanRecord;
use crate::snapshot::keyed_by_id;
use vstd::prelude::*;

verus! {

/// What the instrumentation framework can tell the registry.
pub enum Notification {
    /// A span was created; the record says under which identity, with which
    /// parent and from which call site.
    Created(SpanRecord),
    /// Execution went into the span.
    Entered(SpanId),
    /// Execution left the span, for now or for good.
    Exited(SpanId),
    /// Values were recorded on the span.
    Recorded(SpanId),
    /// The first span was said to follow from the second.
    FollowsFrom(SpanId, SpanId),
    /// Something happened at one instant.
    Event,
    /// The span that went by the first identity goes by the second.
    IdChanged(SpanId, SpanId),
    /// The span was closed: nothing refers to it any more.
    Closed(SpanId),
}

impl Notification {
    /// The notification creates a span under `id`.
    pub open spec fn opens(self, id: SpanId) -> bool {
        self matches Notification::Created(record) && record.id == id
    }

    /// The notification closes the span `id`.
    pub open spec fn closes(self, id: SpanId) -> bool {
        self == Notification::Closed(id)
    }

    /// The notification creates or closes some span.
    pub open spec fn counts(self) -> bool {
        self is Created || self is Closed
    }
}

/// The set of open spans after one notification.
///
/// A creation puts the record under its identity, which is what
/// `SpanSnapshot::new_span` does; a close takes the identity out, which is
/// what `SpanSnapshot::close_span` does; nothing else changes the set.
pub open spec fn after(open: Map<SpanId, SpanRecord>, n: Notification) -> Map<SpanId, SpanRecord> {
    match n {
        Notification::Created(record) => open.insert(record.id, record),
        Notification::Closed(id) => open.remove(id),
        _ => open,
    }
}

/// The set of open spans after a sequence of notifications, taken in order.
pub open spec fn after_all(open: Map<SpanId, SpanRecord>, ns: Seq<Notification>) -> Map<
    SpanId,
    SpanRecord,
>
    decreases ns.len(),
{
    if ns.len() == 0 {
        open
    } else {
        after(after_all(open, ns.drop_last()), ns.last())
    }
}

/// Among `ns` there is a creation under `id` that no close of `id` follows.
pub open spec fn created_and_not_closed(ns: Seq<Notification>, id: SpanId) -> bool {
    exists|i: int|
        0 <= i < ns.len() && (#[trigger] ns[i]).opens(id) && forall|j: int|
            i < j < ns.len() ==> !(#[trigger] ns[j]).closes(id)
}

/// A registry that started empty holds a span exactly if the span was
/// created and has not been closed since.
pub proof fn lemma_open_iff_created_and_not_closed(ns: Seq<Notification>, id: SpanId)
    ensures
        after_all(Map::empty(), ns).contains_key(id) <==> created_and_not_closed(ns, id),
    decreases ns.len(),
{
    if ns.len() > 0 {
        let before = ns.drop_last();
        lemma_open_iff_created_and_not_closed(before, id);
        if !ns.last().closes(id) && !ns.last().opens(id) {
            // The last notification leaves `id` where it was: a creation
            // that nothing closes in one sequence is one in the other.
            if created_and_not_closed(before, id) {
                let i = choose|i: int|
                    0 <= i < before.len() && (#[trigger] before[i]).opens(id) && forall|j: int|
                        i < j < before.len() ==> !(#[trigger] before[j]).closes(id);
                assert forall|j: int| i < j < ns.len() implies !(#[trigger] ns[j]).closes(id) by {
                    if j < before.len() {
                        assert(!before[j].closes(id));
                    }
                }
            }
            if created_and_not_closed(ns, id) {
                let i = choose|i: int|
                    0 <= i < ns.len() && (#[trigger] ns[i]).opens(id) && forall|j: int|
                        i < j < ns.len() ==> !(#[trigger] ns[j]).closes(id);
                assert(before[i].opens(id));
            }
        }
    }
}

/// Whatever is notified, every record stays under its own identity.
pub proof fn lemma_keyed_by_id_kept(open: Map<SpanId, SpanRecord>, ns: Seq<Notification>)
    requires
        keyed_by_id(open),
    ensures
        keyed_by_id(after_all(open, ns)),
    decreases ns.len(),
{
    if ns.len() > 0 {
        lemma_keyed_by_id_kept(open, ns.drop_last());
    }
}

/// A span is in the set from its creation on, whatever else is notified, for
/// as long as it is not closed: the set then holds a record with its
/// identity.
pub proof fn lemma_open_until_closed(
    open: Map<SpanId, SpanRecord>,
    record: SpanRecord,
    later: Seq<Notification>,
)
    requires
        forall|i: int| 0 <= i < later.len() ==> !(#[trigger] later[i]).closes(record.id),
    ensures
        after_all(after(open, Notification::Created(record)), later).contains_key(record.id),
        after_all(after(open, Notification::Created(record)), later)[record.id].id == record.id,
    decreases later.len(),
{
    if later.len() > 0 {
        lemma_open_until_closed(open, record, later.drop_last());
    }
}

/// The record that a creation put into the set stays there unchanged, for
/// as long as its identity is neither closed nor created anew.
pub proof fn lemma_record_kept(
    open: Map<SpanId, SpanRecord>,
    record: SpanRecord,
    later: Seq<Notification>,
)
    requires
        forall|i: int|
            0 <= i < later.len() ==> !(#[trigger] later[i]).closes(record.id) && !later[i].opens(
                record.id,
            ),
    ensures
        after_all(after(open, Notification::Created(record)), later).contains_key(record.id),
        after_all(after(open, Notification::Created(record)), later)[record.id] == record,
    decreases later.len(),
{
    if later.len() > 0 {
        lemma_record_kept(open, record, later.drop_last());
    }
}

/// Once a span is closed it is out of the set, whatever else is notified,
/// for as long as nothing is created under its identity.
pub proof fn lemma_closed_until_created(
    open: Map<SpanId, SpanRecord>,
    id: SpanId,
    later: Seq<Notification>,
)
    requires
        forall|i: int| 0 <= i < later.len() ==> !(#[trigger] later[i]).opens(id),
    ensures
        !after_all(after(open, Notification::Closed(id)), later).contains_key(id),
    decreases later.len(),
{
    if later.len() > 0 {
        lemma_closed_until_created(open, id, later.drop_last());
    }
}

/// A span created under the identity of a closed one is a new span: the set
/// is what it would be had the earlier span never been there.
pub proof fn lemma_created_anew(open: Map<SpanId, SpanRecord>, record: SpanRecord)
    ensures
        after(after(open, Notification::Closed(record.id)), Notification::Created(record)) == after(
            open,
            Notification::Created(record),
        ),
        after(
            after(open, Notification::Closed(record.id)),
            Notification::Created(record),
        )[record.id] == record,
{
}

/// Closing a span that is not in the set changes nothing.
pub proof fn lemma_close_of_absent(open: Map<SpanId, SpanRecord>, id: SpanId)
    requires
        !open.contains_key(id),
    ensures
        after(open, Notification::Closed(id)) == open,
{
}

/// Notifications that neither create nor close a span leave the set as it
/// was, however many there are and whichever spans they speak of.
pub proof fn lemma_only_creation_and_close_count(
    open: Map<SpanId, SpanRecord>,
    ns: Seq<Notification>,
)
    requires
        forall|i: int| 0 <= i < ns.len() ==> !(#[trigger] ns[i]).counts(),
    ensures
        after_all(open, ns) == open,
    decreases ns.len(),
{
    if ns.len() > 0 {
        lemma_only_creation_and_close_count(open, ns.drop_last());
    }
}

/// Entering and leaving a span, any number of times, does not take it out of
/// the set: after each of these notifications the set is what it was right
/// after the creation. The close that follows takes the span out.
pub proof fn lemma_entered_and_exited_stays_open(
    open: Map<SpanId, SpanRecord>,
    record: SpanRecord,
    ns: Seq<Notification>,
    seen: int,
)
    requires
        forall|i: int|
            0 <= i < ns.len() ==> #[trigger] ns[i] == Notification::Entered(record.id) || ns[i]
                == Notification::Exited(record.id),
        0 <= seen <= ns.len(),
    ensures
        after_all(after(open, Notification::Created(record)), ns.take(seen)) == after(
            open,
            Notification::Created(record),
        ),
        after_all(after(open, Notification::Created(record)), ns.take(seen)).contains_key(
            record.id,
        ),
        !after(
            after_all(after(open, Notification::Created(record)), ns.take(seen)),
            Notification::Closed(record.id),
        ).contains_key(record.id),
{
    lemma_only_creation_and_close_count(after(open, Notification::Created(record)), ns.take(seen));
}

/// A record names the parent that its span was created under, whether or
/// not that parent is in the set, and whatever becomes of the parent later.
pub proof fn lemma_parent_kept(
    open: Map<SpanId, SpanRecord>,
    record: SpanRecord,
    later: Seq<Notification>,
)
    requires
        forall|i: int|
            0 <= i < later.len() ==> !(#[trigger] later[i]).closes(record.id) && !later[i].opens(
                record.id,
            ),
    ensures
        after(open, Notification::Created(record))[record.id].parent == record.parent,
        after_all(after(open, Notification::Created(record)), later)[record.id].parent
            == record.parent,
{
    lemma_record_kept(open, record, later);
}

} // verus!
