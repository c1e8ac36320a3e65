//! What holds of whole runs of polls, stated over the one-poll relations
//! that the adapters' contracts use.
use std::sync::Arc;
use vstd::prelude::*;

use crate::adapter::{
    after_delegating, inbound_of, lazy_poll, outbound_maps, AsyncRecordBatchStreamAdapter,
    AsyncRecordBatchStreamAdapterState, DfRecordBatchStreamAdapter, RecordBatchStreamAdapter,
};
use crate::error::{Error, ExternalError};
use crate::poll::PollNext;
use crate::stream::RecordBatch;

verus! {

/// The batches of the successful items of a run of internal polls, in order.
pub open spec fn internal_batches<Sc, B, E>(ps: Seq<PollNext<Result<RecordBatch<Sc, B>, E>>>) -> Seq<
    B,
>
    decreases ps.len(),
{
    if ps.len() == 0 {
        Seq::empty()
    } else {
        let rest = internal_batches(ps.drop_last());
        match ps.last() {
            PollNext::Item(Ok(rb)) => rest.push(rb.df_recordbatch),
            _ => rest,
        }
    }
}

/// The batches of the successful items of a run of engine polls, in order.
pub open spec fn engine_batches<B, X>(ps: Seq<PollNext<Result<B, X>>>) -> Seq<B>
    decreases ps.len(),
{
    if ps.len() == 0 {
        Seq::empty()
    } else {
        let rest = engine_batches(ps.drop_last());
        match ps.last() {
            PollNext::Item(Ok(b)) => rest.push(b),
            _ => rest,
        }
    }
}

/// The outbound adapter yields the wrapped stream's batches in the same
/// order and with the same content: over any run of polls, the batches that
/// come out are exactly the batches that went in.
pub proof fn outbound_keeps_batches<Sc, B, E>(
    ps: Seq<PollNext<Result<RecordBatch<Sc, B>, E>>>,
    rs: Seq<PollNext<Result<B, ExternalError<E>>>>,
)
    requires
        ps.len() == rs.len(),
        forall|i: int| 0 <= i < ps.len() ==> outbound_maps(#[trigger] ps[i], rs[i]),
    ensures
        engine_batches(rs) == internal_batches(ps),
    decreases ps.len(),
{
    if ps.len() > 0 {
        outbound_keeps_batches(ps.drop_last(), rs.drop_last());
        assert(outbound_maps(ps[ps.len() - 1], rs[rs.len() - 1]));
    }
}

/// The inbound adapters yield the wrapped stream's batches in the same order
/// and with the same content, each in an envelope with the adapter's schema.
pub proof fn inbound_keeps_batches<Sc, B, X, C>(
    schema: Arc<Sc>,
    ps: Seq<PollNext<Result<B, X>>>,
    rs: Seq<PollNext<Result<RecordBatch<Sc, B>, Error<X, C>>>>,
)
    requires
        ps.len() == rs.len(),
        forall|i: int| 0 <= i < ps.len() ==> #[trigger] rs[i] == inbound_of::<Sc, B, X, C>(schema, ps[i]),
    ensures
        internal_batches(rs) == engine_batches(ps),
        forall|i: int|
            0 <= i < rs.len() ==> (#[trigger] rs[i] matches PollNext::Item(Ok(rb)) ==> rb.schema == schema),
    decreases ps.len(),
{
    if ps.len() > 0 {
        inbound_keeps_batches(schema, ps.drop_last(), rs.drop_last());
        assert(rs[rs.len() - 1] == inbound_of::<Sc, B, X, C>(schema, ps[ps.len() - 1]));
    }
}

/// An error item of the wrapped stream comes out of the outbound adapter as
/// exactly one error item, at the same place in the run, with the error as
/// its cause; every other item is mapped on its own, so the run goes on
/// with whatever the wrapped stream yields next.
pub proof fn outbound_error_in_place<Sc, B, E>(
    ps: Seq<PollNext<Result<RecordBatch<Sc, B>, E>>>,
    rs: Seq<PollNext<Result<B, ExternalError<E>>>>,
)
    requires
        ps.len() == rs.len(),
        forall|i: int| 0 <= i < ps.len() ==> outbound_maps(#[trigger] ps[i], rs[i]),
    ensures
        forall|i: int|
            0 <= i < ps.len() ==> ((#[trigger] ps[i] is Item && ps[i]->Item_0 is Err) <==> (
            rs[i] is Item && rs[i]->Item_0 is Err)),
        forall|i: int|
            0 <= i < ps.len() ==> (#[trigger] ps[i] matches PollNext::Item(Err(e)) ==> (
            rs[i] matches PollNext::Item(Err(ExternalError::External(_, cause))) && cause == e)),
{
    assert forall|i: int| 0 <= i < ps.len() implies ((#[trigger] ps[i] is Item && ps[i]->Item_0 is Err) <==> (
    rs[i] is Item && rs[i]->Item_0 is Err)) by {
        assert(outbound_maps(ps[i], rs[i]));
    }
}

/// An error item of the wrapped stream comes out of an inbound adapter as
/// exactly one poll error, at the same place in the run, with the error as
/// its cause.
pub proof fn inbound_error_in_place<Sc, B, X, C>(
    schema: Arc<Sc>,
    ps: Seq<PollNext<Result<B, X>>>,
    rs: Seq<PollNext<Result<RecordBatch<Sc, B>, Error<X, C>>>>,
)
    requires
        ps.len() == rs.len(),
        forall|i: int| 0 <= i < ps.len() ==> #[trigger] rs[i] == inbound_of::<Sc, B, X, C>(schema, ps[i]),
    ensures
        forall|i: int|
            0 <= i < ps.len() ==> ((#[trigger] ps[i] is Item && ps[i]->Item_0 is Err) <==> (
            rs[i] is Item && rs[i]->Item_0 is Err)),
        forall|i: int|
            0 <= i < ps.len() ==> (#[trigger] ps[i] matches PollNext::Item(Err(x)) ==> rs[i]
                == PollNext::<Result<RecordBatch<Sc, B>, Error<X, C>>>::Item(
                Err(Error::PollStream { source: x }),
            )),
{
    assert forall|i: int| 0 <= i < ps.len() implies ((#[trigger] ps[i] is Item && ps[i]->Item_0 is Err) <==> (
    rs[i] is Item && rs[i]->Item_0 is Err)) by {
        assert(rs[i] == inbound_of::<Sc, B, X, C>(schema, ps[i]));
    }
}

/// A run of polls of the lazy adapter from its first state: `states[i]` is
/// the state before poll `i`, `rs[i]` what it returned, `resolved[i]` and
/// `polled[i]` what the future and the stream reported on it.
pub open spec fn lazy_run<Sc, F, S, B, X, C>(
    schema: Arc<Sc>,
    states: Seq<AsyncRecordBatchStreamAdapterState<F, S>>,
    rs: Seq<PollNext<Result<RecordBatch<Sc, B>, Error<X, C>>>>,
    resolved: Seq<Option<Result<S, X>>>,
    polled: Seq<PollNext<Result<B, X>>>,
) -> bool {
    &&& states.len() == rs.len() + 1
    &&& resolved.len() == rs.len()
    &&& polled.len() == rs.len()
    &&& states[0] is Uninit
    &&& forall|i: int|
        0 <= i < rs.len() ==> #[trigger] lazy_poll::<Sc, F, S, B, X, C>(
            schema,
            states[i],
            states[i + 1],
            rs[i],
            resolved[i],
            polled[i],
        )
}

/// When the future reports pending on the first `n` polls and resolves to a
/// stream on the next one, the lazy adapter is pending on exactly those `n`
/// polls, and on the poll on which the future resolves it already returns
/// what the new stream reported, with no extra pending poll.
pub proof fn lazy_pending_until_resolved<Sc, F, S, B, X, C>(
    schema: Arc<Sc>,
    states: Seq<AsyncRecordBatchStreamAdapterState<F, S>>,
    rs: Seq<PollNext<Result<RecordBatch<Sc, B>, Error<X, C>>>>,
    resolved: Seq<Option<Result<S, X>>>,
    polled: Seq<PollNext<Result<B, X>>>,
    n: int,
)
    requires
        lazy_run(schema, states, rs, resolved, polled),
        0 <= n < rs.len(),
        forall|i: int| 0 <= i < n ==> #[trigger] resolved[i] is None,
        resolved[n] matches Some(Ok(_)),
    ensures
        forall|i: int| 0 <= i < n ==> #[trigger] rs[i] is Pending,
        rs[n] == inbound_of::<Sc, B, X, C>(schema, polled[n]),
        after_delegating(states[n + 1], polled[n]),
{
    assert forall|i: int| 0 <= i <= n implies #[trigger] states[i] is Uninit by {
        lemma_still_uninit(schema, states, rs, resolved, polled, i);
    }
    assert forall|i: int| 0 <= i < n implies #[trigger] rs[i] is Pending by {
        assert(states[i] is Uninit);
        assert(lazy_poll::<Sc, F, S, B, X, C>(schema, states[i], states[i + 1], rs[i], resolved[i], polled[i]));
    }
    assert(states[n] is Uninit);
    assert(lazy_poll::<Sc, F, S, B, X, C>(schema, states[n], states[n + 1], rs[n], resolved[n], polled[n]));
}

proof fn lemma_still_uninit<Sc, F, S, B, X, C>(
    schema: Arc<Sc>,
    states: Seq<AsyncRecordBatchStreamAdapterState<F, S>>,
    rs: Seq<PollNext<Result<RecordBatch<Sc, B>, Error<X, C>>>>,
    resolved: Seq<Option<Result<S, X>>>,
    polled: Seq<PollNext<Result<B, X>>>,
    k: int,
)
    requires
        lazy_run(schema, states, rs, resolved, polled),
        0 <= k <= rs.len(),
        forall|i: int| 0 <= i < k ==> #[trigger] resolved[i] is None,
    ensures
        states[k] is Uninit,
    decreases k,
{
    if k > 0 {
        lemma_still_uninit(schema, states, rs, resolved, polled, k - 1);
        assert(lazy_poll::<Sc, F, S, B, X, C>(
            schema,
            states[k - 1],
            states[(k - 1) + 1],
            rs[k - 1],
            resolved[k - 1],
            polled[k - 1],
        ));
    }
}

/// When the future fails, the lazy adapter returns the failure, as the
/// cause of one error item, on that same poll, and reports exhaustion on
/// every poll after it.
pub proof fn lazy_failure_then_exhausted<Sc, F, S, B, X, C>(
    schema: Arc<Sc>,
    states: Seq<AsyncRecordBatchStreamAdapterState<F, S>>,
    rs: Seq<PollNext<Result<RecordBatch<Sc, B>, Error<X, C>>>>,
    resolved: Seq<Option<Result<S, X>>>,
    polled: Seq<PollNext<Result<B, X>>>,
    n: int,
    x: X,
)
    requires
        lazy_run(schema, states, rs, resolved, polled),
        0 <= n < rs.len(),
        forall|i: int| 0 <= i < n ==> #[trigger] resolved[i] is None,
        resolved[n] == Some(Err::<S, X>(x)),
    ensures
        forall|i: int| 0 <= i < n ==> #[trigger] rs[i] is Pending,
        rs[n] == PollNext::<Result<RecordBatch<Sc, B>, Error<X, C>>>::Item(
            Err(Error::CreateRecordBatches { source: x }),
        ),
        forall|i: int| n < i < rs.len() ==> #[trigger] rs[i] is Exhausted,
{
    assert forall|i: int| 0 <= i <= n implies #[trigger] states[i] is Uninit by {
        lemma_still_uninit(schema, states, rs, resolved, polled, i);
    }
    assert forall|i: int| 0 <= i < n implies #[trigger] rs[i] is Pending by {
        assert(states[i] is Uninit);
        assert(lazy_poll::<Sc, F, S, B, X, C>(schema, states[i], states[i + 1], rs[i], resolved[i], polled[i]));
    }
    assert(states[n] is Uninit);
    assert(lazy_poll::<Sc, F, S, B, X, C>(schema, states[n], states[n + 1], rs[n], resolved[n], polled[n]));
    assert forall|i: int| n < i < rs.len() implies #[trigger] rs[i] is Exhausted by {
        lemma_stays_terminated(schema, states, rs, resolved, polled, n + 1, i);
        assert(lazy_poll::<Sc, F, S, B, X, C>(schema, states[i], states[i + 1], rs[i], resolved[i], polled[i]));
    }
}

proof fn lemma_stays_terminated<Sc, F, S, B, X, C>(
    schema: Arc<Sc>,
    states: Seq<AsyncRecordBatchStreamAdapterState<F, S>>,
    rs: Seq<PollNext<Result<RecordBatch<Sc, B>, Error<X, C>>>>,
    resolved: Seq<Option<Result<S, X>>>,
    polled: Seq<PollNext<Result<B, X>>>,
    from: int,
    k: int,
)
    requires
        lazy_run(schema, states, rs, resolved, polled),
        0 <= from <= k <= rs.len(),
        states[from] is Terminated,
    ensures
        states[k] is Terminated,
    decreases k - from,
{
    if k > from {
        lemma_stays_terminated(schema, states, rs, resolved, polled, from, k - 1);
        assert(lazy_poll::<Sc, F, S, B, X, C>(
            schema,
            states[k - 1],
            states[(k - 1) + 1],
            rs[k - 1],
            resolved[k - 1],
            polled[k - 1],
        ));
    }
}

/// Along a run of polls of an inbound adapter, each of which keeps the
/// schema (as `poll_next` ensures), the schema stays the one converted at
/// construction.
pub proof fn inbound_schema_stable<Sc, S>(adapters: Seq<RecordBatchStreamAdapter<Sc, S>>)
    requires
        forall|i: int|
            0 <= i < adapters.len() - 1 ==> #[trigger] adapters[i + 1].schema_view()
                == adapters[i].schema_view(),
    ensures
        forall|i: int|
            0 <= i < adapters.len() ==> #[trigger] adapters[i].schema_view()
                == adapters[0].schema_view(),
    decreases adapters.len(),
{
    if adapters.len() > 1 {
        let prefix = adapters.drop_last();
        assert forall|i: int| 0 <= i < prefix.len() - 1 implies #[trigger] prefix[i + 1].schema_view()
            == prefix[i].schema_view() by {
            assert(adapters[i + 1].schema_view() == adapters[i].schema_view());
        }
        inbound_schema_stable(prefix);
        let last = adapters.len() - 2;
        assert forall|i: int| 0 <= i < adapters.len() implies #[trigger] adapters[i].schema_view()
            == adapters[0].schema_view() by {
            assert(prefix[0] == adapters[0]);
            if i <= last {
                assert(prefix[i] == adapters[i]);
            } else {
                assert(prefix[last] == adapters[last]);
                assert(adapters[last + 1].schema_view() == adapters[last].schema_view());
            }
        }
    }
}

/// Along a run of polls of the lazy adapter, each of which keeps the schema
/// (as `poll_next` ensures), the schema stays the one given at construction,
/// whatever the state.
pub proof fn lazy_schema_stable<Sc, F, S>(adapters: Seq<AsyncRecordBatchStreamAdapter<Sc, F, S>>)
    requires
        forall|i: int|
            0 <= i < adapters.len() - 1 ==> #[trigger] adapters[i + 1].schema_view()
                == adapters[i].schema_view(),
    ensures
        forall|i: int|
            0 <= i < adapters.len() ==> #[trigger] adapters[i].schema_view()
                == adapters[0].schema_view(),
    decreases adapters.len(),
{
    if adapters.len() > 1 {
        let prefix = adapters.drop_last();
        assert forall|i: int| 0 <= i < prefix.len() - 1 implies #[trigger] prefix[i + 1].schema_view()
            == prefix[i].schema_view() by {
            assert(adapters[i + 1].schema_view() == adapters[i].schema_view());
        }
        lazy_schema_stable(prefix);
        let last = adapters.len() - 2;
        assert forall|i: int| 0 <= i < adapters.len() implies #[trigger] adapters[i].schema_view()
            == adapters[0].schema_view() by {
            assert(prefix[0] == adapters[0]);
            if i <= last {
                assert(prefix[i] == adapters[i]);
            } else {
                assert(prefix[last] == adapters[last]);
                assert(adapters[last + 1].schema_view() == adapters[last].schema_view());
            }
        }
    }
}

/// Once the lazy adapter has reported exhaustion, every later poll reports
/// exhaustion again, whatever the future or the stream would report.
pub proof fn lazy_exhausted_stays<Sc, F, S, B, X, C>(
    schema: Arc<Sc>,
    states: Seq<AsyncRecordBatchStreamAdapterState<F, S>>,
    rs: Seq<PollNext<Result<RecordBatch<Sc, B>, Error<X, C>>>>,
    resolved: Seq<Option<Result<S, X>>>,
    polled: Seq<PollNext<Result<B, X>>>,
    k: int,
)
    requires
        lazy_run(schema, states, rs, resolved, polled),
        0 <= k < rs.len(),
        rs[k] is Exhausted,
    ensures
        forall|i: int| k <= i < rs.len() ==> #[trigger] rs[i] is Exhausted,
{
    assert(lazy_poll::<Sc, F, S, B, X, C>(schema, states[k], states[k + 1], rs[k], resolved[k], polled[k]));
    assert forall|i: int| k < i < rs.len() implies #[trigger] rs[i] is Exhausted by {
        lemma_stays_terminated(schema, states, rs, resolved, polled, k + 1, i);
        assert(lazy_poll::<Sc, F, S, B, X, C>(schema, states[i], states[i + 1], rs[i], resolved[i], polled[i]));
    }
}

/// Along a run of polls of the outbound adapter, each of which keeps the
/// engine's form of the schema (as `poll_next` ensures), `schema()` keeps
/// returning the form converted at construction.
pub proof fn outbound_schema_stable<S, A>(adapters: Seq<DfRecordBatchStreamAdapter<S, A>>)
    requires
        forall|i: int|
            0 <= i < adapters.len() - 1 ==> #[trigger] adapters[i + 1].schema_view()
                == adapters[i].schema_view(),
    ensures
        forall|i: int|
            0 <= i < adapters.len() ==> #[trigger] adapters[i].schema_view()
                == adapters[0].schema_view(),
    decreases adapters.len(),
{
    if adapters.len() > 1 {
        let prefix = adapters.drop_last();
        assert forall|i: int| 0 <= i < prefix.len() - 1 implies #[trigger] prefix[i + 1].schema_view()
            == prefix[i].schema_view() by {
            assert(adapters[i + 1].schema_view() == adapters[i].schema_view());
        }
        outbound_schema_stable(prefix);
        let last = adapters.len() - 2;
        assert forall|i: int| 0 <= i < adapters.len() implies #[trigger] adapters[i].schema_view()
            == adapters[0].schema_view() by {
            assert(prefix[0] == adapters[0]);
            if i <= last {
                assert(prefix[i] == adapters[i]);
            } else {
                assert(prefix[last] == adapters[last]);
                assert(adapters[last + 1].schema_view() == adapters[last].schema_view());
            }
        }
    }
}

} // verus!
