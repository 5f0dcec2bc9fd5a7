//! The instrumentation framework's types, as far as the registry meets
//! them, and what is taken on trust about the calls made on them.

use tracing::span::Attributes;
use tracing::span::Id;
use tracing::span::Record;
use tracing::Event;
use tracing::Metadata;
use vstd::prelude::*;

verus! {

/// `tracing::span::Id`, the identity that the framework gives a span. It is
/// opaque here; `SpanId` holds its number as a plain value.
#[verifier::external_type_specification]
#[verifier::external_body]
pub struct ExId(Id);

/// `tracing::span::Attributes`, what the framework says of a span that is
/// being created. It is opaque here.
#[verifier::external_type_specification]
#[verifier::external_body]
pub struct ExAttributes<'a>(Attributes<'a>);

/// `tracing::span::Record`, values recorded on a span. The registry takes it
/// and never looks inside.
#[verifier::external_type_specification]
#[verifier::external_body]
pub struct ExRecord<'a>(Record<'a>);

/// `tracing::Event`, something that happened at one instant. The registry
/// takes it and never looks inside.
#[verifier::external_type_specification]
#[verifier::external_body]
pub struct ExEvent<'a>(Event<'a>);

/// `tracing::Metadata`, the static description of a call site: its name,
/// target, level and fields. The registry hands a reference to it on and
/// never looks inside.
#[verifier::external_type_specification]
#[verifier::external_body]
pub struct ExMetadata<'a>(Metadata<'a>);

/// The number that an identity of the framework holds: what
/// `tracing::span::Id::into_u64` returns for it.
pub uninterp spec fn number_of(id: Id) -> u64;

/// `tracing::span::Id::into_u64` gives the number behind an identity. An
/// identity holds nothing but that number, a `NonZeroU64`: the result depends
/// on the identity alone and is never zero.
pub assume_specification[ Id::into_u64 ](id: &Id) -> (raw: u64)
    ensures
        raw == number_of(*id),
        raw != 0,
;

/// The parent that was named explicitly for a new span, if one was: what
/// `tracing::span::Attributes::parent` returns for its attributes.
pub uninterp spec fn parent_of(attrs: Attributes<'_>) -> Option<Id>;

/// `tracing::span::Attributes::parent` gives the parent that was named
/// explicitly for the new span, and nothing where the span is a root or
/// takes its parent from the context. The result is read from the attributes
/// and depends on them alone.
pub assume_specification<'a, 'b>[ Attributes::<'a>::parent ](attrs: &'b Attributes<'a>) -> (parent:
    Option<&'b Id>)
    ensures
        match parent {
            Some(id) => parent_of(*attrs) == Some(*id),
            None => parent_of(*attrs) is None,
        },
;

/// The description of the call site of a new span: what
/// `tracing::span::Attributes::metadata` returns for its attributes.
pub uninterp spec fn metadata_of(attrs: Attributes<'_>) -> &'static Metadata<'static>;

/// `tracing::span::Attributes::metadata` gives the description of the new
/// span's call site. The result is read from the attributes and depends on
/// them alone.
pub assume_specification<'a>[ Attributes::<'a>::metadata ](attrs: &Attributes<'a>) -> (metadata:
    &'static Metadata<'static>)
    ensures
        metadata == metadata_of(*attrs),
;

} // verus!
