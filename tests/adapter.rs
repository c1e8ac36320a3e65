use std::collections::VecDeque;
use std::sync::Arc;

use common_recordbatch::adapter::{
    inbound_item, lazy_resolved, outbound_item, AsyncRecordBatchStreamAdapter, AsyncRecordBatchStreamAdapterState,
    DfRecordBatchStreamAdapter, RecordBatchStreamAdapter,
};
use common_recordbatch::error::{Error, ExternalError};
use common_recordbatch::poll::PollNext;
use common_recordbatch::stream::{
    ArrowSchema, DfRecordBatchPoll, DfRecordBatchStream, RecordBatch, RecordBatchPoll,
    RecordBatchStream, StreamFuture,
};

/// Internal schema: column names; the engine's form is the names joined by commas.
#[derive(Debug, PartialEq, Eq)]
struct Columns(Vec<String>);

impl ArrowSchema for Columns {
    type Arrow = String;
    type ConversionError = String;

    fn arrow_schema(&self) -> Arc<String> {
        Arc::new(self.0.join(","))
    }

    fn try_from_arrow(schema: Arc<String>) -> Result<Self, String> {
        if schema.split(',').any(|c| c == "unsupported") {
            Err(format!("no internal type for {schema}"))
        } else {
            Ok(Columns(schema.split(',').map(|c| c.to_string()).collect()))
        }
    }
}

type InternalItem = PollNext<Result<RecordBatch<Columns, u32>, String>>;

struct InternalStream {
    schema: Arc<Columns>,
    items: VecDeque<InternalItem>,
    ended: bool,
}

impl InternalStream {
    fn new(schema: Arc<Columns>, items: Vec<InternalItem>) -> Self {
        InternalStream { schema, items: items.into(), ended: false }
    }
}

impl RecordBatchStream for InternalStream {
    type Schema = Columns;
    type Batch = u32;
    type Error = String;

    fn schema(&self) -> Arc<Columns> {
        self.schema.clone()
    }
}

impl RecordBatchPoll<()> for InternalStream {
    /// Not fused: after reporting exhaustion once it yields a batch of 99.
    fn poll_next(&mut self, _cx: &mut ()) -> InternalItem {
        match self.items.pop_front() {
            Some(item) => item,
            None if !self.ended => {
                self.ended = true;
                PollNext::Exhausted
            }
            None => batch(&self.schema, 99),
        }
    }

    fn size_hint(&self) -> (usize, Option<usize>) {
        (self.items.len(), Some(self.items.len() + 3))
    }
}

type EngineItem = PollNext<Result<u32, String>>;

struct EngineStream {
    schema: String,
    items: VecDeque<EngineItem>,
    ended: bool,
}

impl EngineStream {
    fn new(schema: &str, items: Vec<EngineItem>) -> Self {
        EngineStream { schema: schema.to_string(), items: items.into(), ended: false }
    }
}

impl DfRecordBatchStream for EngineStream {
    type Schema = Arc<String>;
    type Batch = u32;
    type Error = String;

    fn schema(&self) -> Arc<String> {
        Arc::new(self.schema.clone())
    }
}

impl DfRecordBatchPoll<()> for EngineStream {
    /// Not fused: after reporting exhaustion once it yields a batch of 99.
    fn poll_next(&mut self, _cx: &mut ()) -> EngineItem {
        match self.items.pop_front() {
            Some(item) => item,
            None if !self.ended => {
                self.ended = true;
                PollNext::Exhausted
            }
            None => PollNext::Item(Ok(99)),
        }
    }

    fn size_hint(&self) -> (usize, Option<usize>) {
        (1, Some(self.items.len()))
    }
}

/// Resolves to `output` after reporting pending `pending` times.
struct Delayed {
    pending: usize,
    output: Option<Result<EngineStream, String>>,
}

impl Delayed {
    fn new(pending: usize, output: Result<EngineStream, String>) -> Self {
        Delayed { pending, output: Some(output) }
    }
}

impl StreamFuture<()> for Delayed {
    type Output = Result<EngineStream, String>;

    fn poll(&mut self, _cx: &mut ()) -> Option<Self::Output> {
        if self.pending > 0 {
            self.pending -= 1;
            None
        } else {
            Some(self.output.take().expect("polled after completion"))
        }
    }
}

fn columns(names: &[&str]) -> Arc<Columns> {
    Arc::new(Columns(names.iter().map(|c| c.to_string()).collect()))
}

fn batch(schema: &Arc<Columns>, b: u32) -> InternalItem {
    PollNext::Item(Ok(RecordBatch { schema: schema.clone(), df_recordbatch: b }))
}

fn internal_ok(schema: &Arc<Columns>, b: u32) -> PollNext<Result<RecordBatch<Columns, u32>, Error<String, String>>> {
    PollNext::Item(Ok(RecordBatch { schema: schema.clone(), df_recordbatch: b }))
}

#[test]
fn outbound_yields_batches_in_order_then_exhausts() {
    let s = columns(&["host", "cpu"]);
    let inner = InternalStream::new(s.clone(), vec![batch(&s, 10), batch(&s, 20)]);
    let mut adapter = DfRecordBatchStreamAdapter::new(inner);
    assert_eq!(*DfRecordBatchStream::schema(&adapter), "host,cpu".to_string());
    assert_eq!(adapter.poll_next(&mut ()), PollNext::Item(Ok(10)));
    assert_eq!(adapter.poll_next(&mut ()), PollNext::Item(Ok(20)));
    assert_eq!(adapter.poll_next(&mut ()), PollNext::Exhausted);
    assert_eq!(*DfRecordBatchStream::schema(&adapter), "host,cpu".to_string());
}

#[test]
fn outbound_wraps_error_and_continues() {
    let s = columns(&["a"]);
    let items = vec![batch(&s, 1), PollNext::Item(Err("disk".to_string())), batch(&s, 2)];
    let mut adapter = DfRecordBatchStreamAdapter::new(InternalStream::new(s.clone(), items));
    assert_eq!(adapter.poll_next(&mut ()), PollNext::Item(Ok(1)));
    assert_eq!(
        adapter.poll_next(&mut ()),
        PollNext::Item(Err(ExternalError::External(String::new(), "disk".to_string())))
    );
    assert_eq!(adapter.poll_next(&mut ()), PollNext::Item(Ok(2)));
    assert_eq!(adapter.poll_next(&mut ()), PollNext::Exhausted);
}

#[test]
fn outbound_forwards_pending() {
    let s = columns(&["a"]);
    let items = vec![PollNext::Pending, batch(&s, 7)];
    let mut adapter = DfRecordBatchStreamAdapter::new(InternalStream::new(s.clone(), items));
    assert_eq!(adapter.poll_next(&mut ()), PollNext::Pending);
    assert_eq!(adapter.poll_next(&mut ()), PollNext::Item(Ok(7)));
}

#[test]
fn outbound_size_hint_is_the_wrapped_one() {
    let s = columns(&["a"]);
    let adapter = DfRecordBatchStreamAdapter::new(InternalStream::new(s.clone(), vec![batch(&s, 1)]));
    assert_eq!(adapter.size_hint(), (1, Some(4)));
}

#[test]
fn outbound_item_maps_each_outcome() {
    let s = columns(&["a"]);
    assert_eq!(outbound_item::<Columns, u32, String>(PollNext::Pending), PollNext::Pending);
    assert_eq!(outbound_item::<Columns, u32, String>(PollNext::Exhausted), PollNext::Exhausted);
    assert_eq!(outbound_item(batch(&s, 5)), PollNext::Item(Ok(5)));
    assert_eq!(
        outbound_item::<Columns, u32, String>(PollNext::Item(Err("x".to_string()))),
        PollNext::Item(Err(ExternalError::External(String::new(), "x".to_string())))
    );
}

#[test]
fn inbound_converts_schema_once_at_construction() {
    let engine = EngineStream::new("ts,value", vec![]);
    let adapter = RecordBatchStreamAdapter::<Columns, _>::try_new(engine).ok().unwrap();
    assert_eq!(RecordBatchStream::schema(&adapter), columns(&["ts", "value"]));
}

#[test]
fn inbound_construction_fails_on_unconvertible_schema() {
    let engine = EngineStream::new("ts,unsupported", vec![PollNext::Item(Ok(1))]);
    let r = RecordBatchStreamAdapter::<Columns, _>::try_new(engine);
    match r {
        Err(e) => assert_eq!(
            e,
            Error::SchemaConversion { source: "no internal type for ts,unsupported".to_string() }
        ),
        Ok(_) => panic!("an unconvertible schema gave an adapter"),
    }
}

#[test]
fn inbound_wraps_batches_with_the_converted_schema() {
    let engine = EngineStream::new("k", vec![PollNext::Item(Ok(3)), PollNext::Pending, PollNext::Item(Ok(4))]);
    let mut adapter = RecordBatchStreamAdapter::<Columns, _>::try_new(engine).ok().unwrap();
    let s = columns(&["k"]);
    assert_eq!(adapter.poll_next(&mut ()), internal_ok(&s, 3));
    assert_eq!(adapter.poll_next(&mut ()), PollNext::Pending);
    assert_eq!(adapter.poll_next(&mut ()), internal_ok(&s, 4));
    assert_eq!(adapter.poll_next(&mut ()), PollNext::Exhausted);
    assert_eq!(RecordBatchStream::schema(&adapter), s);
}

#[test]
fn inbound_wraps_error_and_continues() {
    let items = vec![PollNext::Item(Err("net".to_string())), PollNext::Item(Ok(9))];
    let mut adapter = RecordBatchStreamAdapter::<Columns, _>::try_new(EngineStream::new("k", items)).ok().unwrap();
    assert_eq!(
        adapter.poll_next(&mut ()),
        PollNext::Item(Err(Error::PollStream { source: "net".to_string() }))
    );
    assert_eq!(adapter.poll_next(&mut ()), internal_ok(&columns(&["k"]), 9));
}

#[test]
fn inbound_size_hint_is_the_wrapped_one() {
    let engine = EngineStream::new("k", vec![PollNext::Item(Ok(1)), PollNext::Item(Ok(2))]);
    let adapter = RecordBatchStreamAdapter::<Columns, _>::try_new(engine).ok().unwrap();
    assert_eq!(adapter.size_hint(), (1, Some(2)));
}

#[test]
fn inbound_from_converted_keeps_the_conversion_error() {
    let r = RecordBatchStreamAdapter::<Columns, EngineStream>::from_converted::<String, String>(
        EngineStream::new("k", vec![]),
        Err("bad".to_string()),
    );
    assert!(matches!(r, Err(Error::SchemaConversion { source }) if source == "bad"));
    let r = RecordBatchStreamAdapter::<Columns, EngineStream>::from_converted::<String, String>(
        EngineStream::new("k", vec![]),
        Ok(Columns(vec!["z".to_string()])),
    );
    assert_eq!(RecordBatchStream::schema(&r.ok().unwrap()), columns(&["z"]));
}

#[test]
fn inbound_item_maps_each_outcome() {
    let s = columns(&["a"]);
    assert_eq!(inbound_item::<Columns, u32, String, String>(&s, PollNext::Pending), PollNext::Pending);
    assert_eq!(inbound_item::<Columns, u32, String, String>(&s, PollNext::Exhausted), PollNext::Exhausted);
    assert_eq!(inbound_item::<Columns, u32, String, String>(&s, PollNext::Item(Ok(8))), internal_ok(&s, 8));
    assert_eq!(
        inbound_item::<Columns, u32, String, String>(&s, PollNext::Item(Err("e".to_string()))),
        PollNext::Item(Err(Error::PollStream { source: "e".to_string() }))
    );
}

#[test]
fn lazy_schema_is_known_before_the_first_poll() {
    let s = columns(&["x", "y"]);
    let future = Delayed::new(5, Ok(EngineStream::new("x,y", vec![])));
    let adapter = AsyncRecordBatchStreamAdapter::<Columns, Delayed, EngineStream>::new(s.clone(), future);
    assert_eq!(RecordBatchStream::schema(&adapter), s);
}

#[test]
fn lazy_pending_twice_then_item_then_error() {
    let s = columns(&["x"]);
    let engine = EngineStream::new("x", vec![PollNext::Item(Ok(42)), PollNext::Item(Err("E".to_string()))]);
    let mut adapter = AsyncRecordBatchStreamAdapter::new(s.clone(), Delayed::new(2, Ok(engine)));
    assert_eq!(adapter.poll_next(&mut ()), PollNext::Pending);
    assert_eq!(adapter.poll_next(&mut ()), PollNext::Pending);
    assert_eq!(adapter.poll_next(&mut ()), internal_ok(&s, 42));
    assert_eq!(
        adapter.poll_next(&mut ()),
        PollNext::Item(Err(Error::PollStream { source: "E".to_string() }))
    );
    assert_eq!(adapter.poll_next(&mut ()), PollNext::Exhausted);
    assert_eq!(RecordBatchStream::schema(&adapter), s);
}

#[test]
fn lazy_resolves_on_first_poll_without_extra_pending() {
    let s = columns(&["x"]);
    let engine = EngineStream::new("x", vec![PollNext::Item(Ok(1))]);
    let mut adapter = AsyncRecordBatchStreamAdapter::new(s.clone(), Delayed::new(0, Ok(engine)));
    assert_eq!(adapter.poll_next(&mut ()), internal_ok(&s, 1));
    assert_eq!(adapter.poll_next(&mut ()), PollNext::Exhausted);
}

#[test]
fn lazy_failure_yields_one_error_then_exhaustion() {
    let s = columns(&["x"]);
    let mut adapter = AsyncRecordBatchStreamAdapter::<Columns, Delayed, EngineStream>::new(
        s.clone(),
        Delayed::new(1, Err("open failed".to_string())),
    );
    assert_eq!(adapter.poll_next(&mut ()), PollNext::Pending);
    assert_eq!(
        adapter.poll_next(&mut ()),
        PollNext::Item(Err(Error::CreateRecordBatches { source: "open failed".to_string() }))
    );
    assert_eq!(adapter.poll_next(&mut ()), PollNext::Exhausted);
    assert_eq!(adapter.poll_next(&mut ()), PollNext::Exhausted);
}

#[test]
fn lazy_size_hint_is_unknown_in_every_state() {
    let s = columns(&["x"]);
    let engine = EngineStream::new("x", vec![PollNext::Item(Ok(1)), PollNext::Item(Ok(2))]);
    let mut adapter = AsyncRecordBatchStreamAdapter::new(s, Delayed::new(1, Ok(engine)));
    assert_eq!(adapter.size_hint(), (0, None));
    let _ = adapter.poll_next(&mut ());
    assert_eq!(adapter.size_hint(), (0, None));
    let _ = adapter.poll_next(&mut ());
    assert_eq!(adapter.size_hint(), (0, None));
}

#[test]
fn adapters_compose_round_trip() {
    let s = columns(&["a", "b"]);
    let inner = InternalStream::new(s.clone(), vec![batch(&s, 1), PollNext::Pending, batch(&s, 2)]);
    let outbound = DfRecordBatchStreamAdapter::new(inner);
    let mut back = RecordBatchStreamAdapter::<Columns, _>::try_new(outbound).ok().unwrap();
    assert_eq!(RecordBatchStream::schema(&back), s);
    assert_eq!(back.poll_next(&mut ()), PollNext::Item(Ok(RecordBatch { schema: s.clone(), df_recordbatch: 1 })));
    assert_eq!(back.poll_next(&mut ()), PollNext::Pending);
    assert_eq!(back.poll_next(&mut ()), PollNext::Item(Ok(RecordBatch { schema: s.clone(), df_recordbatch: 2 })));
    assert_eq!(back.poll_next(&mut ()), PollNext::Exhausted);
}

#[test]
fn outbound_stays_exhausted_over_an_unfused_stream() {
    let s = columns(&["a"]);
    let mut adapter = DfRecordBatchStreamAdapter::new(InternalStream::new(s.clone(), vec![batch(&s, 1)]));
    assert_eq!(adapter.poll_next(&mut ()), PollNext::Item(Ok(1)));
    assert_eq!(adapter.poll_next(&mut ()), PollNext::Exhausted);
    assert_eq!(adapter.poll_next(&mut ()), PollNext::Exhausted);
    assert_eq!(adapter.poll_next(&mut ()), PollNext::Exhausted);
}

#[test]
fn inbound_stays_exhausted_over_an_unfused_stream() {
    let engine = EngineStream::new("k", vec![PollNext::Item(Ok(5))]);
    let mut adapter = RecordBatchStreamAdapter::<Columns, _>::try_new(engine).ok().unwrap();
    assert_eq!(adapter.poll_next(&mut ()), internal_ok(&columns(&["k"]), 5));
    assert_eq!(adapter.poll_next(&mut ()), PollNext::Exhausted);
    assert_eq!(adapter.poll_next(&mut ()), PollNext::Exhausted);
}

#[test]
fn lazy_stays_exhausted_over_an_unfused_stream() {
    let s = columns(&["x"]);
    let engine = EngineStream::new("x", vec![]);
    let mut adapter = AsyncRecordBatchStreamAdapter::new(s, Delayed::new(1, Ok(engine)));
    assert_eq!(adapter.poll_next(&mut ()), PollNext::Pending);
    assert_eq!(adapter.poll_next(&mut ()), PollNext::Exhausted);
    assert_eq!(adapter.poll_next(&mut ()), PollNext::Exhausted);
}

#[test]
fn lazy_resolved_keeps_the_stream_or_yields_the_failure() {
    let (state, item) = lazy_resolved::<Columns, Delayed, EngineStream, u32, String, String>(Ok(
        EngineStream::new("x", vec![]),
    ));
    assert!(matches!(state, AsyncRecordBatchStreamAdapterState::Inited(st) if st.schema == "x"));
    assert!(item.is_none());
    let (state, item) =
        lazy_resolved::<Columns, Delayed, EngineStream, u32, String, String>(Err("gone".to_string()));
    assert!(matches!(state, AsyncRecordBatchStreamAdapterState::Terminated));
    assert_eq!(
        item,
        Some(PollNext::Item(Err(Error::CreateRecordBatches { source: "gone".to_string() })))
    );
}
