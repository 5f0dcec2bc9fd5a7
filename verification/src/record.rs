//! What the registry keeps of one open span.

use crate::framework::metadata_of;
use crate::framework::number_of;
use crate::framework::parent_of;
use crate::id::SpanId;
use tracing::span::Attributes;
use tracing::span::Id;
use tracing::Metadata;
use vstd::prelude::*;

verus! {

/// One open span: its identity, the parent it was created under, and the
/// static description of its call site.
///
/// `parent` is the identity that was named when the span was created. The
/// parent may have been closed since: the record still names it.
#[derive(Clone, Copy, Debug)]
pub struct SpanRecord {
    /// The identity of the span.
    pub id: SpanId,
    /// The span that was named as its parent when it was created, if one was.
    pub parent: Option<SpanId>,
    /// The description of the call site that the span was created at. It
    /// belongs to the framework and lives as long as the program.
    pub metadata: &'static Metadata<'static>,
}

/// The record of the span that the framework announces with `attrs` and
/// `id`: the number of `id`, the number of the parent that `attrs` names
/// explicitly, and the description that `attrs` carries.
pub open spec fn announced(attrs: Attributes<'_>, id: Id) -> SpanRecord {
    SpanRecord {
        id: SpanId(number_of(id)),
        parent: match parent_of(attrs) {
            Some(parent) => Some(SpanId(number_of(parent))),
            None => None,
        },
        metadata: metadata_of(attrs),
    }
}

impl SpanRecord {
    /// The record of the span that the framework announces with `attrs` and
    /// `id`.
    pub fn from_tracing(attrs: &Attributes<'_>, id: &Id) -> (record: SpanRecord)
        ensures
            record == announced(*attrs, *id),
    {
        let parent = match attrs.parent() {
            Some(parent) => Some(SpanId::from_tracing(parent)),
            None => None,
        };
        SpanRecord { id: SpanId::from_tracing(id), parent, metadata: attrs.metadata() }
    }
}

} // verus!
