//! Span identities as plain values.

use crate::framework::number_of;
use tracing::span::Id;
use vstd::prelude::*;

verus! {

/// The identity of a span: the number that the instrumentation framework
/// assigned to it when the span was created. Two spans that are open at the
/// same time never share one; a closed span's identity may be given out again.
#[derive(Clone, Copy, Debug, PartialEq, Eq, Hash, Structural)]
pub struct SpanId(pub u64);

impl SpanId {
    /// The identity that the framework's `id` stands for.
    pub fn from_tracing(id: &Id) -> (span: SpanId)
        ensures
            span == SpanId(number_of(*id)),
            span.0 != 0,
    {
        SpanId(id.into_u64())
    }
}

} // verus!
