use std::sync::Arc;
use vstd::prelude::*;

use crate::error::{Error, ExternalError};
use crate::poll::PollNext;
use crate::stream::{
    ArrowSchema, DfRecordBatchPoll, DfRecordBatchStream, RecordBatch, RecordBatchPoll,
    RecordBatchStream, StreamFuture,
};

verus! {

/// How the outbound adapter turns one poll outcome of the internal stream
/// into one of the engine's: the batch leaves its envelope, an error becomes
/// an external error with an empty context and the error as its cause.
pub open spec fn outbound_maps<Sc, B, E>(
    p: PollNext<Result<RecordBatch<Sc, B>, E>>,
    r: PollNext<Result<B, ExternalError<E>>>,
) -> bool {
    match p {
        PollNext::Pending => r is Pending,
        PollNext::Exhausted => r is Exhausted,
        PollNext::Item(Ok(rb)) => r == PollNext::<Result<B, ExternalError<E>>>::Item(
            Ok(rb.df_recordbatch),
        ),
        PollNext::Item(Err(e)) => match r {
            PollNext::Item(Err(ExternalError::External(context, cause))) => context@.len() == 0
                && cause == e,
            _ => false,
        },
    }
}

/// Maps one poll outcome of the internal stream to the engine's form.
pub fn outbound_item<Sc, B, E>(p: PollNext<Result<RecordBatch<Sc, B>, E>>) -> (r: PollNext<
    Result<B, ExternalError<E>>,
>)
    ensures
        outbound_maps(p, r),
{
    match p {
        PollNext::Pending => PollNext::Pending,
        PollNext::Item(Ok(rb)) => PollNext::Item(Ok(rb.df_recordbatch)),
        PollNext::Item(Err(e)) => PollNext::Item(Err(ExternalError::External(String::new(), e))),
        PollNext::Exhausted => PollNext::Exhausted,
    }
}

/// Exposes an internal stream as one of the query engine. The engine's form
/// of the schema is computed once, when the adapter is made.
pub struct DfRecordBatchStreamAdapter<S, A> {
    schema: Arc<A>,
    stream: S,
    done: bool,
}

impl<S, A> DfRecordBatchStreamAdapter<S, A> {
    /// The engine's form of the schema, fixed at construction.
    pub closed spec fn schema_view(&self) -> Arc<A> {
        self.schema
    }

    /// The wrapped stream.
    pub closed spec fn inner(&self) -> S {
        self.stream
    }

    /// Whether the adapter has reported exhaustion.
    pub closed spec fn is_done(&self) -> bool {
        self.done
    }
}

impl<S, A> DfRecordBatchStreamAdapter<S, A> where
    S: RecordBatchStream,
    S::Schema: ArrowSchema<Arrow = A>,
 {
    /// Wraps `stream`, which the adapter owns from now on, and converts its
    /// schema to the engine's form.
    pub fn new(stream: S) -> (r: Self)
        ensures
            r.inner() == stream,
            !r.is_done(),
            exists|s: Arc<S::Schema>|
                #![auto]
                S::schema.ensures((&stream,), s) && <S::Schema as ArrowSchema>::arrow_schema.ensures(
                    (&*s,),
                    r.schema_view(),
                ),
    {
        let s = stream.schema();
        let schema = s.arrow_schema();
        let ghost wrapped = stream;
        let r = Self { schema, stream, done: false };
        assert(S::schema.ensures((&wrapped,), s));
        assert(<S::Schema as ArrowSchema>::arrow_schema.ensures((&*s,), r.schema_view()));
        r
    }
}

impl<S, A> DfRecordBatchStream for DfRecordBatchStreamAdapter<S, A> where S: RecordBatchStream {
    type Schema = Arc<A>;

    type Batch = S::Batch;

    type Error = ExternalError<S::Error>;

    /// The engine's form of the schema, as converted at construction.
    fn schema(&self) -> (r: Arc<A>)
        ensures
            r == self.schema_view(),
    {
        Arc::clone(&self.schema)
    }
}

impl<Cx, S, A> DfRecordBatchPoll<Cx> for DfRecordBatchStreamAdapter<S, A> where
    S: RecordBatchPoll<Cx>,
 {
    /// Once exhaustion has been reported, the wrapped stream is not polled
    /// again and every poll reports exhaustion.
    fn poll_next(&mut self, cx: &mut Cx) -> (r: PollNext<Result<S::Batch, ExternalError<S::Error>>>)
        ensures
            final(self).schema_view() == old(self).schema_view(),
            old(self).is_done() ==> r is Exhausted && final(self).is_done(),
            !old(self).is_done() ==> (exists|p: PollNext<Result<RecordBatch<S::Schema, S::Batch>, S::Error>>|
                outbound_maps(p, r)),
            final(self).is_done() <==> r is Exhausted,
    {
        if self.done {
            return PollNext::Exhausted;
        }
        let p = self.stream.poll_next(cx);
        if let PollNext::Exhausted = p {
            self.done = true;
        }
        outbound_item(p)
    }

    /// The wrapped stream's size hint, unchanged.
    fn size_hint(&self) -> (r: (usize, Option<usize>))
        ensures
            S::size_hint.ensures((&self.inner(),), r),
    {
        self.stream.size_hint()
    }
}

/// How the inbound adapters turn one poll outcome of the engine's stream into
/// one of the internal stream: a batch is put in an envelope with `schema`,
/// an error becomes a poll error with the engine's error as its cause.
pub open spec fn inbound_of<Sc, B, X, C>(schema: Arc<Sc>, p: PollNext<Result<B, X>>) -> PollNext<
    Result<RecordBatch<Sc, B>, Error<X, C>>,
> {
    match p {
        PollNext::Pending => PollNext::<Result<RecordBatch<Sc, B>, Error<X, C>>>::Pending,
        PollNext::Item(Ok(b)) => PollNext::<Result<RecordBatch<Sc, B>, Error<X, C>>>::Item(
            Ok(RecordBatch { schema, df_recordbatch: b }),
        ),
        PollNext::Item(Err(x)) => PollNext::<Result<RecordBatch<Sc, B>, Error<X, C>>>::Item(
            Err(Error::PollStream { source: x }),
        ),
        PollNext::Exhausted => PollNext::<Result<RecordBatch<Sc, B>, Error<X, C>>>::Exhausted,
    }
}

/// Maps one poll outcome of the engine's stream to the internal form, with
/// `schema` as the schema of every batch.
pub fn inbound_item<Sc, B, X, C>(schema: &Arc<Sc>, p: PollNext<Result<B, X>>) -> (r: PollNext<
    Result<RecordBatch<Sc, B>, Error<X, C>>,
>)
    ensures
        r == inbound_of::<Sc, B, X, C>(*schema, p),
{
    match p {
        PollNext::Pending => PollNext::Pending,
        PollNext::Item(Ok(b)) => PollNext::Item(
            Ok(RecordBatch { schema: Arc::<Sc>::clone(schema), df_recordbatch: b }),
        ),
        PollNext::Item(Err(x)) => PollNext::Item(Err(Error::PollStream { source: x })),
        PollNext::Exhausted => PollNext::Exhausted,
    }
}

/// Exposes a query engine stream as an internal stream, with the engine's
/// schema converted once, when the adapter is made.
pub struct RecordBatchStreamAdapter<Sc, S> {
    schema: Arc<Sc>,
    stream: S,
    done: bool,
}

impl<Sc, S> RecordBatchStreamAdapter<Sc, S> {
    /// The converted schema.
    pub closed spec fn schema_view(&self) -> Arc<Sc> {
        self.schema
    }

    /// The wrapped stream.
    pub closed spec fn inner(&self) -> S {
        self.stream
    }

    /// Whether the adapter has reported exhaustion.
    pub closed spec fn is_done(&self) -> bool {
        self.done
    }

    /// `r` is the adapter over `stream` with the converted schema, or the
    /// conversion's error when there is none.
    pub open spec fn built_from<X, C>(stream: S, converted: Result<Sc, C>, r: Result<Self, Error<X, C>>) -> bool {
        match converted {
            Ok(sc) => r matches Ok(a) && *a.schema_view() == sc && a.inner() == stream
                && !a.is_done(),
            Err(c) => r == Err::<Self, Error<X, C>>(Error::SchemaConversion { source: c }),
        }
    }

    /// Builds the adapter from `stream` and the outcome of converting its
    /// schema: the adapter holds the converted schema, or construction fails
    /// with the conversion error as the cause.
    pub fn from_converted<X, C>(stream: S, converted: Result<Sc, C>) -> (r: Result<
        Self,
        Error<X, C>,
    >)
        ensures
            Self::built_from(stream, converted, r),
    {
        match converted {
            Ok(sc) => Ok(Self { schema: Arc::new(sc), stream, done: false }),
            Err(c) => Err(Error::SchemaConversion { source: c }),
        }
    }
}

impl<Sc, S> RecordBatchStreamAdapter<Sc, S> where
    Sc: ArrowSchema,
    S: DfRecordBatchStream<Schema = Arc<Sc::Arrow>>,
 {
    /// Wraps `stream`, converting its schema once; fails when the schema has
    /// no internal representation, and then holds no stream.
    pub fn try_new(stream: S) -> (r: Result<Self, Error<S::Error, Sc::ConversionError>>)
        ensures
            exists|df_schema: Arc<Sc::Arrow>, converted: Result<Sc, Sc::ConversionError>|
                S::schema.ensures((&stream,), df_schema) && #[trigger] Sc::try_from_arrow.ensures(
                    (df_schema,),
                    converted,
                ) && #[trigger] Self::built_from(stream, converted, r),
    {
        let df_schema = stream.schema();
        let converted = Sc::try_from_arrow(df_schema);
        let r = Self::from_converted(stream, converted);
        assert(Sc::try_from_arrow.ensures((df_schema,), converted));
        r
    }
}

impl<Sc, S> RecordBatchStream for RecordBatchStreamAdapter<Sc, S> where
    S: DfRecordBatchStream,
    Sc: ArrowSchema,
 {
    type Schema = Sc;

    type Batch = S::Batch;

    type Error = Error<S::Error, Sc::ConversionError>;

    /// The schema converted at construction.
    fn schema(&self) -> (r: Arc<Sc>)
        ensures
            r == self.schema_view(),
    {
        Arc::clone(&self.schema)
    }
}

impl<Cx, Sc, S> RecordBatchPoll<Cx> for RecordBatchStreamAdapter<Sc, S> where
    S: DfRecordBatchPoll<Cx>,
    Sc: ArrowSchema,
 {
    /// Once exhaustion has been reported, the wrapped stream is not polled
    /// again and every poll reports exhaustion.
    fn poll_next(&mut self, cx: &mut Cx) -> (r: PollNext<
        Result<RecordBatch<Sc, S::Batch>, Error<S::Error, Sc::ConversionError>>,
    >)
        ensures
            final(self).schema_view() == old(self).schema_view(),
            old(self).is_done() ==> r is Exhausted && final(self).is_done(),
            !old(self).is_done() ==> (exists|p: PollNext<Result<S::Batch, S::Error>>|
                r == inbound_of::<Sc, S::Batch, S::Error, Sc::ConversionError>(
                    old(self).schema_view(),
                    p,
                )),
            final(self).is_done() <==> r is Exhausted,
    {
        if self.done {
            return PollNext::Exhausted;
        }
        let ghost schema = self.schema_view();
        let p = self.stream.poll_next(cx);
        let ghost polled = p;
        if let PollNext::Exhausted = p {
            self.done = true;
        }
        let r = inbound_item(&self.schema, p);
        assert(r == inbound_of::<Sc, S::Batch, S::Error, Sc::ConversionError>(schema, polled));
        r
    }

    /// The wrapped stream's size hint, unchanged.
    fn size_hint(&self) -> (r: (usize, Option<usize>))
        ensures
            S::size_hint.ensures((&self.inner(),), r),
    {
        self.stream.size_hint()
    }
}

/// Where the lazy adapter stands: waiting on the future, delegating to the
/// stream it produced, or done.
pub enum AsyncRecordBatchStreamAdapterState<F, S> {
    /// The future has not resolved yet.
    Uninit(F),
    /// The future resolved to this stream.
    Inited(S),
    /// The future's failure has been yielded, or the stream reported
    /// exhaustion: only exhaustion follows.
    Terminated,
}

/// Exposes a future that resolves to a query engine stream as an internal
/// stream whose schema is known before the future has resolved.
pub struct AsyncRecordBatchStreamAdapter<Sc, F, S> {
    schema: Arc<Sc>,
    state: AsyncRecordBatchStreamAdapterState<F, S>,
}

/// The state after a poll that delegated to the stream: done once the
/// stream reported exhaustion, still delegating otherwise.
pub open spec fn after_delegating<F, S, B, X>(
    after: AsyncRecordBatchStreamAdapterState<F, S>,
    polled: PollNext<Result<B, X>>,
) -> bool {
    if polled is Exhausted {
        after is Terminated
    } else {
        after is Inited
    }
}

/// One poll of the lazy adapter, given what the future reported on that
/// poll (`resolved`, `None` while it is pending) and what the stream
/// reported (`polled`).
///
/// While the future is pending the poll is pending and nothing changes. On
/// the poll on which the future resolves to a stream, that stream is polled
/// in the same call and its outcome is returned as `inbound_of` maps it. On
/// the poll on which it fails, the failure is returned as an error item and
/// the adapter is done. Once the stream is there, every poll delegates to
/// it until it reports exhaustion; once done, every poll reports exhaustion.
pub open spec fn lazy_poll<Sc, F, S, B, X, C>(
    schema: Arc<Sc>,
    before: AsyncRecordBatchStreamAdapterState<F, S>,
    after: AsyncRecordBatchStreamAdapterState<F, S>,
    r: PollNext<Result<RecordBatch<Sc, B>, Error<X, C>>>,
    resolved: Option<Result<S, X>>,
    polled: PollNext<Result<B, X>>,
) -> bool {
    match before {
        AsyncRecordBatchStreamAdapterState::Uninit(_) => match resolved {
            None => after is Uninit && r is Pending,
            Some(Ok(_)) => after_delegating(after, polled) && r == inbound_of::<Sc, B, X, C>(
                schema,
                polled,
            ),
            Some(Err(x)) => after is Terminated && r == PollNext::<
                Result<RecordBatch<Sc, B>, Error<X, C>>,
            >::Item(Err(Error::CreateRecordBatches { source: x })),
        },
        AsyncRecordBatchStreamAdapterState::Inited(_) => after_delegating(after, polled) && r == inbound_of::<
            Sc,
            B,
            X,
            C,
        >(schema, polled),
        AsyncRecordBatchStreamAdapterState::Terminated => after is Terminated && r is Exhausted,
    }
}

/// What the lazy adapter does with the future's outcome: a stream becomes
/// the state, to be polled in the same call, with nothing to yield yet; a
/// failure ends the adapter and is yielded at once as the cause of an error
/// item.
pub fn lazy_resolved<Sc, F, S, B, X, C>(outcome: Result<S, X>) -> (r: (
    AsyncRecordBatchStreamAdapterState<F, S>,
    Option<PollNext<Result<RecordBatch<Sc, B>, Error<X, C>>>>,
))
    ensures
        match outcome {
            Ok(s) => r.0 == AsyncRecordBatchStreamAdapterState::<F, S>::Inited(s) && r.1 is None,
            Err(x) => r.0 is Terminated && r.1 == Some(
                PollNext::<Result<RecordBatch<Sc, B>, Error<X, C>>>::Item(
                    Err(Error::CreateRecordBatches { source: x }),
                ),
            ),
        },
{
    match outcome {
        Ok(s) => (AsyncRecordBatchStreamAdapterState::Inited(s), None),
        Err(x) => (
            AsyncRecordBatchStreamAdapterState::Terminated,
            Some(PollNext::Item(Err(Error::CreateRecordBatches { source: x }))),
        ),
    }
}

impl<Sc, F, S> AsyncRecordBatchStreamAdapter<Sc, F, S> {
    /// The schema given at construction.
    pub closed spec fn schema_view(&self) -> Arc<Sc> {
        self.schema
    }

    /// The state of the adapter.
    pub closed spec fn state(&self) -> AsyncRecordBatchStreamAdapterState<F, S> {
        self.state
    }

    /// Wraps the future `stream`, which is not polled until the adapter is.
    pub fn new(schema: Arc<Sc>, stream: F) -> (r: Self)
        ensures
            r.schema_view() == schema,
            r.state() == AsyncRecordBatchStreamAdapterState::<F, S>::Uninit(stream),
    {
        Self { schema, state: AsyncRecordBatchStreamAdapterState::Uninit(stream) }
    }
}

impl<Sc, F, S> RecordBatchStream for AsyncRecordBatchStreamAdapter<Sc, F, S> where
    S: DfRecordBatchStream,
    Sc: ArrowSchema,
 {
    type Schema = Sc;

    type Batch = S::Batch;

    type Error = Error<S::Error, Sc::ConversionError>;

    /// The schema given at construction, whatever the state.
    fn schema(&self) -> (r: Arc<Sc>)
        ensures
            r == self.schema_view(),
    {
        Arc::clone(&self.schema)
    }
}

impl<Cx, Sc, F, S> RecordBatchPoll<Cx> for AsyncRecordBatchStreamAdapter<Sc, F, S> where
    F: StreamFuture<Cx, Output = Result<S, S::Error>>,
    S: DfRecordBatchPoll<Cx>,
    Sc: ArrowSchema,
 {
    fn poll_next(&mut self, cx: &mut Cx) -> (r: PollNext<
        Result<RecordBatch<Sc, S::Batch>, Error<S::Error, Sc::ConversionError>>,
    >)
        ensures
            final(self).schema_view() == old(self).schema_view(),
            exists|resolved: Option<Result<S, S::Error>>, polled: PollNext<Result<S::Batch, S::Error>>|
                #[trigger] lazy_poll::<Sc, F, S, S::Batch, S::Error, Sc::ConversionError>(
                    old(self).schema_view(),
                    old(self).state(),
                    final(self).state(),
                    r,
                    resolved,
                    polled,
                ),
    {
        let ghost before = self.state();
        let ghost schema = self.schema_view();
        let ghost mut resolved: Option<Result<S, S::Error>> = None;
        if let AsyncRecordBatchStreamAdapterState::Uninit(future) = &mut self.state {
            match future.poll(cx) {
                None => {
                    let r = PollNext::Pending;
                    assert(lazy_poll::<Sc, F, S, S::Batch, S::Error, Sc::ConversionError>(
                        schema, before, self.state(), r, None, PollNext::Pending));
                    return r;
                },
                Some(outcome) => {
                    proof {
                        resolved = Some(outcome);
                    }
                    let (next, item) = lazy_resolved(outcome);
                    self.state = next;
                    if let Some(r) = item {
                        assert(lazy_poll::<Sc, F, S, S::Batch, S::Error, Sc::ConversionError>(
                            schema, before, self.state(), r, resolved, PollNext::Pending));
                        return r;
                    }
                },
            }
        }
        let r = match &mut self.state {
            AsyncRecordBatchStreamAdapterState::Inited(stream) => {
                let p = stream.poll_next(cx);
                let ghost polled = p;
                let r = inbound_item(&self.schema, p);
                if let PollNext::Exhausted = r {
                    self.state = AsyncRecordBatchStreamAdapterState::Terminated;
                }
                assert(lazy_poll::<Sc, F, S, S::Batch, S::Error, Sc::ConversionError>(
                    schema, before, self.state(), r, resolved, polled));
                r
            },
            _ => {
                let r = PollNext::Exhausted;
                assert(lazy_poll::<Sc, F, S, S::Batch, S::Error, Sc::ConversionError>(
                    schema, before, self.state(), r, resolved, PollNext::Pending));
                r
            },
        };
        r
    }

    /// No bound is known for a stream that may not exist yet.
    fn size_hint(&self) -> (r: (usize, Option<usize>))
        ensures
            r == (0usize, None::<usize>),
    {
        (0, None)
    }
}

} // verus!
