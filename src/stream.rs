use std::sync::Arc;
use vstd::prelude::*;

use crate::poll::PollNext;

verus! {

/// A batch of the internal stream: the engine's batch together with the
/// schema of the stream it came from.
#[derive(Debug, PartialEq, Eq)]
pub struct RecordBatch<Sc, B> {
    pub schema: Arc<Sc>,
    pub df_recordbatch: B,
}

/// The internal representation of a schema, and its two conversions to and
/// from the engine's representation.
pub trait ArrowSchema: Sized {
    /// The engine's representation of a schema.
    type Arrow;
    /// Why an engine schema has no internal representation.
    type ConversionError;

    /// The engine's representation of this schema, shared.
    fn arrow_schema(&self) -> Arc<Self::Arrow>;

    /// Converts an engine schema, or says why it cannot be converted.
    fn try_from_arrow(schema: Arc<Self::Arrow>) -> Result<Self, Self::ConversionError>;
}

/// An internal stream: its items are `Result<RecordBatch<Self::Schema,
/// Self::Batch>, Self::Error>`, and its schema is known without waiting.
pub trait RecordBatchStream {
    type Schema;
    type Batch;
    type Error;

    fn schema(&self) -> Arc<Self::Schema>;
}

/// A query engine stream: its items are `Result<Self::Batch, Self::Error>`,
/// and its schema, in the engine's representation, is known without waiting.
pub trait DfRecordBatchStream {
    type Schema;
    type Batch;
    type Error;

    fn schema(&self) -> Self::Schema;
}

/// Polling an internal stream. `Cx` is the caller's wake-up context, handed
/// through to whatever the stream waits on.
pub trait RecordBatchPoll<Cx>: RecordBatchStream {
    fn poll_next(&mut self, cx: &mut Cx) -> PollNext<
        Result<RecordBatch<Self::Schema, Self::Batch>, Self::Error>,
    >;

    /// Bounds on the number of items still to come: a lower bound, and an
    /// upper bound where one is known.
    fn size_hint(&self) -> (usize, Option<usize>);
}

/// Polling a query engine stream.
pub trait DfRecordBatchPoll<Cx>: DfRecordBatchStream {
    fn poll_next(&mut self, cx: &mut Cx) -> PollNext<Result<Self::Batch, Self::Error>>;

    /// Bounds on the number of items still to come.
    fn size_hint(&self) -> (usize, Option<usize>);
}

/// A one-shot computation: `poll` returns `None` while it is not done, and
/// its output once it is.
pub trait StreamFuture<Cx> {
    type Output;

    fn poll(&mut self, cx: &mut Cx) -> Option<Self::Output>;
}

} // verus!
