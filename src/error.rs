use vstd::prelude::*;

verus! {

/// The internal error taxonomy. `X` is the query engine's error, `C` the
/// error of a failed schema conversion; each is kept as the embedded cause.
#[allow(inconsistent_fields)]
#[derive(Debug, PartialEq, Eq)]
pub enum Error<X, C> {
    /// The engine's schema has no internal representation.
    SchemaConversion { source: C },
    /// The wrapped engine stream yielded an error item.
    PollStream { source: X },
    /// The future that was to produce the engine stream failed.
    CreateRecordBatches { source: X },
}

/// The query engine's error taxonomy as the outbound adapter produces it: a
/// foreign error embedded as the cause, with a context message.
#[derive(Debug, PartialEq, Eq)]
pub enum ExternalError<E> {
    External(String, E),
}

} // verus!
