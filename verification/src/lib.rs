//! A registry of the spans that are open right now.
//!
//! An instrumentation framework tells the registry when a span is created and
//! when it is closed; anyone may ask the registry for a snapshot, a copy of
//! the set of spans that were open at that instant. A span counts as open
//! from its creation to its close, whether or not it is running.

pub mod framework;
pub mod id;
pub mod layer;
pub mod lifecycle;
pub mod lock;
pub mod record;
pub mod snapshot;

pub use crate::id::SpanId;
pub use crate::layer::SpanDumpLayer;
pub use crate::record::SpanRecord;
pub use crate::snapshot::SpanSnapshot;
