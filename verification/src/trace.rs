//! The trace builder: a trace identifier, a stack of open spans, and the
//! spans closed so far in the order of their closing.
use crate::buffer::buffer_bytes;
use crate::clock::current_time_unix_nano;
use crate::envelope::common::copy_bytes;
use crate::envelope::trace::{traces_data, traces_payload};
use crate::random::random_bytes;
use crate::record::{Attribute, AttributeValue, AttributeValueView, AttributeView};
use crate::record::{SpanRecord, SpanRecordView};
use crate::schema::trace::encode_traces;
use bytes::BytesMut;
use rand::rngs::ThreadRng;
use vstd::prelude::*;

verus! {

/// The number of bytes of a trace identifier.
pub const TRACE_ID_LEN: usize = 16;

/// The number of bytes of a span identifier.
pub const SPAN_ID_LEN: usize = 8;

/// Why the trace builder refused an operation.
#[derive(Debug, Clone, Copy, PartialEq, Eq)]
pub enum TraceError {
    /// A span was to be exited, or to receive an attribute, while none was open.
    NoOpenSpan,
}

/// What a trace builder holds.
pub struct TracesView {
    pub trace_id: Seq<u8>,
    /// The open spans, outermost first: the last one is the innermost.
    pub open: Seq<SpanRecordView>,
    /// The closed spans, in the order in which they were closed.
    pub closed: Seq<SpanRecordView>,
}

impl TracesView {
    /// A builder that has seen no span.
    pub open spec fn empty(trace_id: Seq<u8>) -> TracesView {
        TracesView { trace_id, open: Seq::empty(), closed: Seq::empty() }
    }

    /// The parent identifier that a span entered now would get: the
    /// identifier of the innermost open span, or nothing if none is open.
    pub open spec fn next_parent(self) -> Seq<u8> {
        if self.open.len() == 0 {
            Seq::empty()
        } else {
            self.open.last().span_id
        }
    }

    /// The span that `enter` opens.
    pub open spec fn entered(self, name: Seq<char>, span_id: Seq<u8>, now: u64) -> SpanRecordView {
        SpanRecordView {
            trace_id: self.trace_id,
            span_id,
            parent_span_id: self.next_parent(),
            name,
            start_time_unix_nano: now,
            end_time_unix_nano: 0,
            attributes: Seq::empty(),
        }
    }

    /// The builder after a span was entered at the time `now`.
    pub open spec fn enter(self, name: Seq<char>, span_id: Seq<u8>, now: u64) -> TracesView {
        TracesView { open: self.open.push(self.entered(name, span_id, now)), ..self }
    }

    /// The builder after the innermost open span was exited at the time `now`.
    pub open spec fn exit(self, now: u64) -> TracesView
        recommends
            self.open.len() > 0,
    {
        TracesView {
            open: self.open.drop_last(),
            closed: self.closed.push(
                SpanRecordView { end_time_unix_nano: now, ..self.open.last() },
            ),
            ..self
        }
    }

    /// The builder after `attribute` was attached to the innermost open span.
    pub open spec fn with_attribute(self, attribute: AttributeView) -> TracesView
        recommends
            self.open.len() > 0,
    {
        let top = self.open.last();
        TracesView {
            open: self.open.drop_last().push(
                SpanRecordView { attributes: top.attributes.push(attribute), ..top },
            ),
            ..self
        }
    }

    /// What holds of the open span at the depth `i`: it carries the builder's
    /// trace identifier, its own identifier has its length, it has no end
    /// yet, and it names the span beneath it as its parent, or none at the
    /// bottom.
    pub open spec fn open_span_ok(self, i: int) -> bool {
        &&& self.open[i].trace_id == self.trace_id
        &&& self.open[i].span_id.len() == SPAN_ID_LEN
        &&& self.open[i].end_time_unix_nano == 0
        &&& self.open[i].parent_span_id == if i == 0 {
            Seq::<u8>::empty()
        } else {
            self.open[i - 1].span_id
        }
    }

    /// What holds of the `i`-th closed span: it carries the builder's trace
    /// identifier, its own identifier has its length, and its parent
    /// identifier is absent or has that length.
    pub open spec fn closed_span_ok(self, i: int) -> bool {
        &&& self.closed[i].trace_id == self.trace_id
        &&& self.closed[i].span_id.len() == SPAN_ID_LEN
        &&& (self.closed[i].parent_span_id.len() == 0 || self.closed[i].parent_span_id.len()
            == SPAN_ID_LEN)
    }

    /// What holds of every builder.
    pub open spec fn well_formed(self) -> bool {
        &&& self.trace_id.len() == TRACE_ID_LEN
        &&& forall|i: int| 0 <= i < self.open.len() ==> #[trigger] self.open_span_ok(i)
        &&& forall|i: int| 0 <= i < self.closed.len() ==> #[trigger] self.closed_span_ok(i)
    }

    /// The builder without its open spans.
    pub open spec fn without_open(self) -> TracesView {
        TracesView { open: Seq::empty(), ..self }
    }
}

/// Dropping the open spans keeps a builder well-formed.
pub proof fn lemma_dropping_keeps_well_formed(v: TracesView)
    requires
        v.well_formed(),
    ensures
        v.without_open().well_formed(),
{
    let w = v.without_open();
    assert forall|i: int| 0 <= i < w.closed.len() implies #[trigger] w.closed_span_ok(i) by {
        assert(v.closed_span_ok(i));
    }
}

/// Entering a span keeps a builder well-formed.
pub proof fn lemma_enter_keeps_well_formed(
    v: TracesView,
    name: Seq<char>,
    span_id: Seq<u8>,
    now: u64,
)
    requires
        v.well_formed(),
        span_id.len() == SPAN_ID_LEN,
    ensures
        v.enter(name, span_id, now).well_formed(),
{
    let w = v.enter(name, span_id, now);
    assert forall|i: int| 0 <= i < w.open.len() implies #[trigger] w.open_span_ok(i) by {
        if i < v.open.len() {
            assert(v.open_span_ok(i));
        }
    }
    assert forall|i: int| 0 <= i < w.closed.len() implies #[trigger] w.closed_span_ok(i) by {
        assert(v.closed_span_ok(i));
    }
}

/// Exiting the innermost open span keeps a builder well-formed.
pub proof fn lemma_exit_keeps_well_formed(v: TracesView, now: u64)
    requires
        v.well_formed(),
        v.open.len() > 0,
    ensures
        v.exit(now).well_formed(),
{
    let w = v.exit(now);
    let top = v.open.len() - 1;
    assert(v.open_span_ok(top));
    if top > 0 {
        assert(v.open_span_ok(top - 1));
    }
    assert forall|i: int| 0 <= i < w.open.len() implies #[trigger] w.open_span_ok(i) by {
        assert(v.open_span_ok(i));
    }
    assert forall|i: int| 0 <= i < w.closed.len() implies #[trigger] w.closed_span_ok(i) by {
        if i < v.closed.len() {
            assert(v.closed_span_ok(i));
        }
    }
}

/// Attaching an attribute keeps a builder well-formed.
pub proof fn lemma_attribute_keeps_well_formed(v: TracesView, attribute: AttributeView)
    requires
        v.well_formed(),
        v.open.len() > 0,
    ensures
        v.with_attribute(attribute).well_formed(),
{
    let w = v.with_attribute(attribute);
    assert forall|i: int| 0 <= i < w.open.len() implies #[trigger] w.open_span_ok(i) by {
        assert(v.open_span_ok(i));
        if i > 0 {
            assert(v.open_span_ok(i - 1));
        }
    }
    assert forall|i: int| 0 <= i < w.closed.len() implies #[trigger] w.closed_span_ok(i) by {
        assert(v.closed_span_ok(i));
    }
}

/// The open and the closed spans of one trace. Every value of it is
/// well-formed. To change the spans, a method takes them out, which leaves a
/// well-formed value behind, and puts the changed spans back.
struct SpanStack {
    trace_id: Vec<u8>,
    context: Vec<SpanRecord>,
    spans: Vec<SpanRecord>,
}

impl View for SpanStack {
    type V = TracesView;

    closed spec fn view(&self) -> TracesView {
        TracesView {
            trace_id: self.trace_id@,
            open: self.context.deep_view(),
            closed: self.spans.deep_view(),
        }
    }
}

impl SpanStack {
    #[verifier::type_invariant]
    spec fn holds_well_formed(self) -> bool {
        self@.well_formed()
    }

    fn new(trace_id: Vec<u8>) -> (stack: SpanStack)
        requires
            trace_id@.len() == TRACE_ID_LEN,
        ensures
            stack@ == TracesView::empty(trace_id@),
    {
        let stack = SpanStack { trace_id, context: Vec::new(), spans: Vec::new() };
        assert(stack.context.deep_view() =~= Seq::empty());
        assert(stack.spans.deep_view() =~= Seq::empty());
        stack
    }

    /// Takes the open spans out and leaves none.
    fn take_open(&mut self) -> (context: Vec<SpanRecord>)
        ensures
            context.deep_view() == old(self)@.open,
            final(self)@ == old(self)@.without_open(),
            old(self)@.well_formed(),
    {
        proof {
            use_type_invariant(&*self);
            lemma_dropping_keeps_well_formed(self@);
        }
        let mut context: Vec<SpanRecord> = Vec::new();
        assert(context.deep_view() =~= Seq::empty());
        core::mem::swap(&mut self.context, &mut context);
        context
    }

    fn enter(&mut self, name: &str, span_id: Vec<u8>, now: u64)
        requires
            span_id@.len() == SPAN_ID_LEN,
        ensures
            final(self)@ == old(self)@.enter(name@, span_id@, now),
    {
        let mut context = self.take_open();
        let depth = context.len();
        let parent_span_id = if depth == 0 {
            Vec::new()
        } else {
            copy_bytes(&context[depth - 1].span_id)
        };
        let span = SpanRecord {
            trace_id: copy_bytes(&self.trace_id),
            span_id,
            parent_span_id,
            name: name.to_string(),
            start_time_unix_nano: now,
            end_time_unix_nano: 0,
            attributes: Vec::new(),
        };
        assert(span.attributes.deep_view() =~= Seq::empty());
        assert(span@ == old(self)@.entered(name@, span_id@, now));
        context.push(span);
        assert(context.deep_view() =~= old(self)@.open.push(span@));
        proof {
            lemma_enter_keeps_well_formed(old(self)@, name@, span_id@, now);
        }
        self.context = context;
    }

    fn exit(&mut self, now: u64) -> (result: Result<(), TraceError>)
        ensures
            old(self)@.open.len() == 0 ==> result == Err::<(), TraceError>(TraceError::NoOpenSpan)
                && final(self)@ == old(self)@,
            old(self)@.open.len() > 0 ==> result is Ok && final(self)@ == old(self)@.exit(now),
    {
        let mut context = self.take_open();
        match context.pop() {
            None => {
                self.context = context;
                Err(TraceError::NoOpenSpan)
            },
            Some(mut span) => {
                assert(context.deep_view() =~= old(self)@.open.drop_last());
                span.end_time_unix_nano = now;
                proof {
                    lemma_exit_keeps_well_formed(old(self)@, now);
                    lemma_dropping_keeps_well_formed(old(self)@.exit(now));
                    assert(TracesView::empty(old(self)@.trace_id).well_formed());
                }
                let mut spans: Vec<SpanRecord> = Vec::new();
                assert(spans.deep_view() =~= Seq::empty());
                core::mem::swap(&mut self.spans, &mut spans);
                spans.push(span);
                assert(spans.deep_view() =~= old(self)@.closed.push(span@));
                assert(old(self)@.exit(now).without_open() == TracesView {
                    trace_id: self.trace_id@,
                    open: self.context.deep_view(),
                    closed: spans.deep_view(),
                });
                self.spans = spans;
                self.context = context;
                Ok(())
            },
        }
    }

    fn attach(&mut self, attribute: Attribute) -> (result: Result<(), TraceError>)
        ensures
            old(self)@.open.len() == 0 ==> result == Err::<(), TraceError>(TraceError::NoOpenSpan)
                && final(self)@ == old(self)@,
            old(self)@.open.len() > 0 ==> result is Ok && final(self)@ == old(self)@.with_attribute(
                attribute@,
            ),
    {
        let mut context = self.take_open();
        match context.pop() {
            None => {
                self.context = context;
                Err(TraceError::NoOpenSpan)
            },
            Some(mut span) => {
                assert(context.deep_view() =~= old(self)@.open.drop_last());
                let ghost before = span@;
                span.attributes.push(attribute);
                assert(span.attributes.deep_view() =~= before.attributes.push(attribute@));
                context.push(span);
                assert(context.deep_view() =~= old(self)@.open.drop_last().push(span@));
                proof {
                    lemma_attribute_keeps_well_formed(old(self)@, attribute@);
                }
                self.context = context;
                Ok(())
            },
        }
    }
}

/// The trace builder.
pub struct Traces {
    rng: ThreadRng,
    stack: SpanStack,
}

impl View for Traces {
    type V = TracesView;

    closed spec fn view(&self) -> TracesView {
        self.stack@
    }
}

impl Traces {
    /// A builder with a fresh random trace identifier and no spans.
    pub fn new() -> (traces: Traces)
        ensures
            traces@ == TracesView::empty(traces@.trace_id),
            traces@.well_formed(),
    {
        let mut rng = rand::thread_rng();
        let trace_id = random_bytes(&mut rng, TRACE_ID_LEN);
        Traces { rng, stack: SpanStack::new(trace_id) }
    }

    /// Opens a span named `name` with the identifier `span_id` at the time
    /// `now`, as a child of the innermost open span.
    pub fn enter_span_at(&mut self, name: &str, span_id: Vec<u8>, now: u64)
        requires
            span_id@.len() == SPAN_ID_LEN,
        ensures
            final(self)@ == old(self)@.enter(name@, span_id@, now),
            final(self)@.well_formed(),
    {
        self.stack.enter(name, span_id, now);
        proof {
            use_type_invariant(&self.stack);
        }
    }

    /// Opens a span named `name` as a child of the innermost open span, with
    /// a fresh random identifier and the current time as its start.
    pub fn enter_span(&mut self, name: &str)
        ensures
            exists|span_id: Seq<u8>, now: u64|
                span_id.len() == SPAN_ID_LEN && final(self)@ == #[trigger] old(self)@.enter(
                    name@,
                    span_id,
                    now,
                ),
            final(self)@.well_formed(),
    {
        let span_id = self._gen_span_id();
        let now = current_time_unix_nano();
        self.enter_span_at(name, span_id, now);
    }

    /// Closes the innermost open span at the time `now` and appends it to the
    /// closed spans. With no span open, reports that and leaves the builder
    /// as it is.
    pub fn exit_span_at(&mut self, now: u64) -> (result: Result<(), TraceError>)
        ensures
            old(self)@.open.len() == 0 ==> result == Err::<(), TraceError>(TraceError::NoOpenSpan)
                && final(self)@ == old(self)@,
            old(self)@.open.len() > 0 ==> result is Ok && final(self)@ == old(self)@.exit(now),
            final(self)@.well_formed(),
    {
        let result = self.stack.exit(now);
        proof {
            use_type_invariant(&self.stack);
        }
        result
    }

    /// Closes the innermost open span, with the current time as its end.
    /// With no span open, reports that and leaves the builder as it is.
    pub fn exit_span(&mut self) -> (result: Result<(), TraceError>)
        ensures
            old(self)@.open.len() == 0 ==> result == Err::<(), TraceError>(TraceError::NoOpenSpan)
                && final(self)@ == old(self)@,
            old(self)@.open.len() > 0 ==> result is Ok && exists|now: u64|
                final(self)@ == #[trigger] old(self)@.exit(now),
            final(self)@.well_formed(),
    {
        let now = current_time_unix_nano();
        self.exit_span_at(now)
    }

    /// Attaches `attribute` to the innermost open span, after those it has.
    /// With no span open, reports that and leaves the builder as it is.
    pub fn add_attribute(&mut self, attribute: Attribute) -> (result: Result<(), TraceError>)
        ensures
            old(self)@.open.len() == 0 ==> result == Err::<(), TraceError>(TraceError::NoOpenSpan)
                && final(self)@ == old(self)@,
            old(self)@.open.len() > 0 ==> result is Ok && final(self)@ == old(self)@.with_attribute(
                attribute@,
            ),
            final(self)@.well_formed(),
    {
        let result = self.stack.attach(attribute);
        proof {
            use_type_invariant(&self.stack);
        }
        result
    }

    /// Attaches a text attribute to the innermost open span.
    pub fn add_string_attribute(&mut self, key: &str, value: &str) -> (result: Result<
        (),
        TraceError,
    >)
        ensures
            old(self)@.open.len() == 0 ==> result == Err::<(), TraceError>(TraceError::NoOpenSpan)
                && final(self)@ == old(self)@,
            old(self)@.open.len() > 0 ==> result is Ok && final(self)@ == old(self)@.with_attribute(
                AttributeView { key: key@, value: AttributeValueView::Text(value@) },
            ),
            final(self)@.well_formed(),
    {
        self.add_attribute(
            Attribute { key: key.to_string(), value: AttributeValue::Text(value.to_string()) },
        )
    }

    /// Attaches a boolean attribute to the innermost open span.
    pub fn add_bool_attribute(&mut self, key: &str, value: bool) -> (result: Result<(), TraceError>)
        ensures
            old(self)@.open.len() == 0 ==> result == Err::<(), TraceError>(TraceError::NoOpenSpan)
                && final(self)@ == old(self)@,
            old(self)@.open.len() > 0 ==> result is Ok && final(self)@ == old(self)@.with_attribute(
                AttributeView { key: key@, value: AttributeValueView::Bool(value) },
            ),
            final(self)@.well_formed(),
    {
        self.add_attribute(Attribute { key: key.to_string(), value: AttributeValue::Bool(value) })
    }

    /// Attaches a 64-bit signed integer attribute to the innermost open span.
    pub fn add_int64_attribute(&mut self, key: &str, value: i64) -> (result: Result<(), TraceError>)
        ensures
            old(self)@.open.len() == 0 ==> result == Err::<(), TraceError>(TraceError::NoOpenSpan)
                && final(self)@ == old(self)@,
            old(self)@.open.len() > 0 ==> result is Ok && final(self)@ == old(self)@.with_attribute(
                AttributeView { key: key@, value: AttributeValueView::Int(value) },
            ),
            final(self)@.well_formed(),
    {
        self.add_attribute(Attribute { key: key.to_string(), value: AttributeValue::Int(value) })
    }

    /// Attaches a 64-bit float attribute to the innermost open span. The
    /// float is given by its IEEE-754 bit pattern.
    pub fn add_double_attribute(&mut self, key: &str, value_bits: u64) -> (result: Result<
        (),
        TraceError,
    >)
        ensures
            old(self)@.open.len() == 0 ==> result == Err::<(), TraceError>(TraceError::NoOpenSpan)
                && final(self)@ == old(self)@,
            old(self)@.open.len() > 0 ==> result is Ok && final(self)@ == old(self)@.with_attribute(
                AttributeView { key: key@, value: AttributeValueView::Double(value_bits) },
            ),
            final(self)@.well_formed(),
    {
        self.add_attribute(
            Attribute { key: key.to_string(), value: AttributeValue::Double(value_bits) },
        )
    }

    /// Appends to `buf` the payload that carries the closed spans, and ends
    /// the builder. Spans that are still open are dropped.
    pub fn get_serialized(self, buf: &mut BytesMut)
        ensures
            buffer_bytes(*final(buf)) == buffer_bytes(*old(buf)) + traces_payload(self@.closed),
    {
        let data = traces_data(&self.stack.spans);
        let bytes = encode_traces(&data);
        buf.extend_from_slice(bytes.as_slice());
    }

    /// A fresh random span identifier.
    fn _gen_span_id(&mut self) -> (span_id: Vec<u8>)
        ensures
            span_id@.len() == SPAN_ID_LEN,
            final(self)@ == old(self)@,
    {
        random_bytes(&mut self.rng, SPAN_ID_LEN)
    }
}

} // verus!
