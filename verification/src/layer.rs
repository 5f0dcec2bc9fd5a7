//! The shared registry, and the notifications it takes.

use crate::id::SpanId;
use crate::lock::guarded;
use crate::lock::guarded_mut;
use crate::lock::read_access;
use crate::lock::shared;
use crate::lock::write_access;
use crate::record::SpanRecord;
use crate::snapshot::keyed_by_id;
use crate::snapshot::SpanSnapshot;
use std::sync::Arc;
use std::sync::RwLock;
use tracing::span::Attributes;
use tracing::span::Id;
use tracing::span::Record;
use tracing::Event;
use tracing::Metadata;
use vstd::prelude::*;

verus! {

/// A handle on a registry of open spans.
///
/// The registry is one `SpanSnapshot` behind a reader-writer lock. Every
/// handle may be used from any thread. Creations and closes take the lock
/// exclusively, one at a time, each for one insertion or removal; a snapshot
/// takes it shared, for the time of one copy.
///
/// Other handles may change the registry between any two calls, so the
/// contracts here say what a registry started with and nothing of what it
/// holds at a later instant. What a creation or a close does to the set of
/// open spans is stated at `SpanSnapshot::new_span` and
/// `SpanSnapshot::close_span`, which these functions apply to the guarded
/// set, and what holds along a sequence of notifications is proved in
/// `lifecycle`.
///
/// The lock is never poisoned by this crate: nothing that runs while it is
/// held exclusively panics. Should it be found poisoned all the same, the
/// call panics rather than read or repair a set that may be half written.
pub struct SpanDumpLayer {
    spans: Arc<RwLock<SpanSnapshot>>,
}

impl Clone for SpanDumpLayer {
    /// Another handle on the same registry: what is recorded through one is
    /// seen through the other.
    fn clone(&self) -> (handle: SpanDumpLayer)
        ensures
            handle == *self,
    {
        SpanDumpLayer { spans: shared(&self.spans) }
    }
}

impl SpanDumpLayer {
    /// A handle on a new registry, which holds no span.
    pub fn new() -> (layer: SpanDumpLayer)
        ensures
            layer.started_with() == Map::<SpanId, SpanRecord>::empty(),
    {
        SpanDumpLayer { spans: Arc::new(crate::lock::lock_around(SpanSnapshot::default())) }
    }

    /// A copy of the set of open spans as it is at one instant between two
    /// changes. The copy is the caller's own: nothing that the registry is
    /// told afterwards shows in it.
    pub fn snapshot(&self) -> (snapshot: SpanSnapshot)
        ensures
            keyed_by_id(snapshot@),
    {
        let guard = read_access(&self.spans);
        guarded(&guard).clone()
    }

    /// The set of open spans that the registry behind this handle started
    /// with, before it was told of any span. Every handle on one registry
    /// gives the same set.
    pub closed spec fn started_with(self) -> Map<SpanId, SpanRecord> {
        crate::lock::made_with(*self.spans)
    }

    /// Records that a span was created: `SpanSnapshot::new_span` on the
    /// guarded set, under exclusive access.
    pub fn record_new(
        &self,
        parent: Option<SpanId>,
        metadata: &'static Metadata<'static>,
        id: SpanId,
    ) {
        let mut guard = write_access(&self.spans);
        guarded_mut(&mut guard).new_span(parent, metadata, id);
    }

    /// Records that a span was closed: `SpanSnapshot::close_span` on the
    /// guarded set, under exclusive access.
    pub fn record_close(&self, id: SpanId) {
        let mut guard = write_access(&self.spans);
        guarded_mut(&mut guard).close_span(id);
    }

    /// The registry wants to hear of every span.
    pub fn enabled(&self, _metadata: &Metadata<'_>) -> (interested: bool)
        ensures
            interested,
    {
        true
    }

    /// A span was created (`Notification::Created`): it is open from now on,
    /// whether or not it is ever entered. What is recorded of it is
    /// `SpanRecord::from_tracing` of `attrs` and `id`.
    pub fn on_new_span(&self, attrs: &Attributes<'_>, id: &Id) {
        let record = SpanRecord::from_tracing(attrs, id);
        self.record_new(record.parent, record.metadata, record.id);
    }

    /// Values were recorded on a span (`Notification::Recorded`): the
    /// registry keeps none.
    pub fn on_record(&self, _span: &Id, _values: &Record<'_>) {
    }

    /// A span was said to follow from another (`Notification::FollowsFrom`):
    /// the registry keeps no such link.
    pub fn on_follows_from(&self, _span: &Id, _follows: &Id) {
    }

    /// The registry lets every event through.
    pub fn event_enabled(&self, _event: &Event<'_>) -> (interested: bool)
        ensures
            interested,
    {
        true
    }

    /// Something happened at one instant (`Notification::Event`): the
    /// registry keeps no events.
    pub fn on_event(&self, _event: &Event<'_>) {
    }

    /// Execution went into a span (`Notification::Entered`). The span has
    /// been open since it was created, so there is nothing to do.
    pub fn on_enter(&self, _id: &Id) {
    }

    /// Execution left a span (`Notification::Exited`). The span stays open
    /// until it is closed, so there is nothing to do.
    pub fn on_exit(&self, _id: &Id) {
    }

    /// A span was closed (`Notification::Closed`): it is open no longer.
    pub fn on_close(&self, id: Id) {
        self.record_close(SpanId::from_tracing(&id));
    }

    /// A span changed its identity (`Notification::IdChanged`): the registry
    /// follows no such change.
    pub fn on_id_change(&self, _old: &Id, _new: &Id) {
    }
}

} // verus!
