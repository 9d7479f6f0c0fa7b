//! Sequences of operations on a trace builder, and what nesting guarantees:
//! a span that is entered, worked in and exited has as its parent the span
//! that was innermost when it was entered, whatever happened in between.
use crate::record::{AttributeView, SpanRecordView};
use crate::trace::{
    lemma_attribute_keeps_well_formed, lemma_enter_keeps_well_formed,
    lemma_exit_keeps_well_formed, TracesView, SPAN_ID_LEN, TRACE_ID_LEN,
};
use vstd::prelude::*;

verus! {

/// One operation on a trace builder, with what the builder draws from
/// outside: the random identifier and the time.
pub enum TraceOp {
    Enter { name: Seq<char>, span_id: Seq<u8>, now: u64 },
    Exit { now: u64 },
    Attach { attribute: AttributeView },
}

impl TraceOp {
    /// By how much the operation changes the depth of the stack, where it succeeds.
    pub open spec fn depth_change(self) -> int {
        match self {
            TraceOp::Enter { .. } => 1,
            TraceOp::Exit { .. } => -1,
            TraceOp::Attach { .. } => 0,
        }
    }
}

impl TracesView {
    /// The builder after `op`. An exit or an attribute with no span open is
    /// refused and leaves the builder as it is.
    pub open spec fn apply(self, op: TraceOp) -> TracesView {
        match op {
            TraceOp::Enter { name, span_id, now } => self.enter(name, span_id, now),
            TraceOp::Exit { now } => if self.open.len() > 0 {
                self.exit(now)
            } else {
                self
            },
            TraceOp::Attach { attribute } => if self.open.len() > 0 {
                self.with_attribute(attribute)
            } else {
                self
            },
        }
    }

    /// The builder after the operations `ops`, first to last.
    pub open spec fn run(self, ops: Seq<TraceOp>) -> TracesView
        decreases ops.len(),
    {
        if ops.len() == 0 {
            self
        } else {
            self.run(ops.drop_last()).apply(ops.last())
        }
    }
}

/// The number of enters of `ops` less the number of its exits.
pub open spec fn depth_change(ops: Seq<TraceOp>) -> int
    decreases ops.len(),
{
    if ops.len() == 0 {
        0
    } else {
        depth_change(ops.drop_last()) + ops.last().depth_change()
    }
}

/// That `ops` never exits a span that it did not enter.
pub open spec fn nested(ops: Seq<TraceOp>) -> bool {
    forall|k: int| 0 <= k <= ops.len() ==> depth_change(#[trigger] ops.take(k)) >= 0
}

/// That `ops` is properly nested: it never exits a span that it did not
/// enter, and it exits every span that it entered.
pub open spec fn balanced(ops: Seq<TraceOp>) -> bool {
    nested(ops) && depth_change(ops) == 0
}

/// That two spans differ in their attributes at most.
pub open spec fn same_but_attributes(a: SpanRecordView, b: SpanRecordView) -> bool {
    a == (SpanRecordView { attributes: a.attributes, ..b })
}

/// An attribute goes to the innermost open span, after those it has, and to
/// no other: the spans beneath and the closed spans stay as they were. With
/// no span open it goes nowhere.
pub proof fn lemma_attribute_goes_to_innermost(v: TracesView, attribute: AttributeView)
    ensures
        v.open.len() == 0 ==> v.apply(TraceOp::Attach { attribute }) == v,
        v.open.len() > 0 ==> ({
            let w = v.apply(TraceOp::Attach { attribute });
            &&& w.closed == v.closed
            &&& w.open.len() == v.open.len()
            &&& w.open.drop_last() == v.open.drop_last()
            &&& w.open.last().attributes == v.open.last().attributes.push(attribute)
            &&& same_but_attributes(w.open.last(), v.open.last())
        }),
{
    if v.open.len() > 0 {
        let w = v.apply(TraceOp::Attach { attribute });
        assert(w.open.drop_last() =~= v.open.drop_last());
    }
}

/// What a nested sequence of operations leaves untouched in a builder with a
/// span open: the spans beneath the innermost one, all of the innermost one
/// but its attributes, and the spans closed before.
pub proof fn lemma_nested_run_keeps_what_is_beneath(v: TracesView, ops: Seq<TraceOp>)
    requires
        nested(ops),
        v.open.len() > 0,
    ensures
        ({
            let w = v.run(ops);
            let top = v.open.len() - 1;
            &&& w.trace_id == v.trace_id
            &&& w.open.len() == v.open.len() + depth_change(ops)
            &&& w.open.take(top) == v.open.take(top)
            &&& same_but_attributes(w.open[top], v.open[top])
            &&& w.closed.len() >= v.closed.len()
            &&& w.closed.take(v.closed.len() as int) == v.closed
        }),
    decreases ops.len(),
{
    let top = v.open.len() - 1;
    if ops.len() == 0 {
        assert(v.closed.take(v.closed.len() as int) =~= v.closed);
    } else {
        let before = ops.drop_last();
        assert forall|k: int| 0 <= k <= before.len() implies depth_change(
            #[trigger] before.take(k),
        ) >= 0 by {
            assert(before.take(k) =~= ops.take(k));
        }
        lemma_nested_run_keeps_what_is_beneath(v, before);
        assert(ops.take(ops.len() as int) =~= ops);
        assert(before.take(before.len() as int) =~= before);
        let u = v.run(before);
        let w = u.apply(ops.last());
        assert(w == v.run(ops));
        assert(u.open.len() > 0);
        match ops.last() {
            TraceOp::Enter { name, span_id, now } => {
                assert(w.open.take(top) =~= u.open.take(top));
            },
            TraceOp::Exit { now } => {
                assert(u.open.len() > v.open.len());
                assert(w.open.take(top) =~= u.open.take(top));
                assert(w.closed.take(v.closed.len() as int) =~= u.closed.take(
                    v.closed.len() as int,
                ));
            },
            TraceOp::Attach { attribute } => {
                assert(w.open.take(top) =~= u.open.take(top));
            },
        }
    }
}

/// A nested sequence of operations changes the depth of the stack by the
/// number of its enters less the number of its exits, and keeps the spans
/// closed before as they were. A properly nested one leaves the depth as it
/// was: run on a builder with no span open, it leaves none open.
pub proof fn lemma_nested_run_depth(v: TracesView, ops: Seq<TraceOp>)
    requires
        nested(ops),
    ensures
        v.run(ops).trace_id == v.trace_id,
        v.run(ops).open.len() == v.open.len() + depth_change(ops),
        v.run(ops).closed.len() >= v.closed.len(),
        v.run(ops).closed.take(v.closed.len() as int) == v.closed,
    decreases ops.len(),
{
    if ops.len() == 0 {
        assert(v.closed.take(v.closed.len() as int) =~= v.closed);
    } else {
        let before = ops.drop_last();
        assert forall|k: int| 0 <= k <= before.len() implies depth_change(
            #[trigger] before.take(k),
        ) >= 0 by {
            assert(before.take(k) =~= ops.take(k));
        }
        lemma_nested_run_depth(v, before);
        assert(ops.take(ops.len() as int) =~= ops);
        assert(before.take(before.len() as int) =~= before);
        let u = v.run(before);
        let w = u.apply(ops.last());
        assert(w.closed.take(v.closed.len() as int) =~= u.closed.take(v.closed.len() as int));
    }
}

/// That every span that `ops` enters gets an identifier of the right length.
pub open spec fn identifiers_fit(ops: Seq<TraceOp>) -> bool {
    forall|k: int|
        0 <= k < ops.len() ==> match #[trigger] ops[k] {
            TraceOp::Enter { span_id, .. } => span_id.len() == SPAN_ID_LEN,
            _ => true,
        }
}

/// Whatever the operations, a well-formed builder stays well-formed.
pub proof fn lemma_run_keeps_well_formed(v: TracesView, ops: Seq<TraceOp>)
    requires
        v.well_formed(),
        identifiers_fit(ops),
    ensures
        v.run(ops).well_formed(),
    decreases ops.len(),
{
    if ops.len() > 0 {
        let before = ops.drop_last();
        assert forall|k: int| 0 <= k < before.len() implies match #[trigger] before[k] {
            TraceOp::Enter { span_id, .. } => span_id.len() == SPAN_ID_LEN,
            _ => true,
        } by {
            assert(before[k] == ops[k]);
        }
        lemma_run_keeps_well_formed(v, before);
        let u = v.run(before);
        match ops.last() {
            TraceOp::Enter { name, span_id, now } => {
                assert(ops[ops.len() - 1] == ops.last());
                lemma_enter_keeps_well_formed(u, name, span_id, now);
            },
            TraceOp::Exit { now } => {
                if u.open.len() > 0 {
                    lemma_exit_keeps_well_formed(u, now);
                }
            },
            TraceOp::Attach { attribute } => {
                if u.open.len() > 0 {
                    lemma_attribute_keeps_well_formed(u, attribute);
                }
            },
        }
    }
}

/// A span that is entered and, after a properly nested sequence of
/// operations, exited is closed with the identifier it was entered with, and
/// its parent is the span that was innermost when it was entered, or none if
/// none was open. The stack then stands as before the span was entered, and
/// the spans closed before stay as they were.
pub proof fn lemma_parent_is_enclosing_span(
    v: TracesView,
    name: Seq<char>,
    span_id: Seq<u8>,
    start: u64,
    inner: Seq<TraceOp>,
    end: u64,
)
    requires
        balanced(inner),
    ensures
        ({
            let after = v.enter(name, span_id, start).run(inner).exit(end);
            let closed = after.closed.last();
            &&& after.open == v.open
            &&& after.closed.len() > v.closed.len()
            &&& after.closed.take(v.closed.len() as int) == v.closed
            &&& closed.trace_id == v.trace_id
            &&& closed.span_id == span_id
            &&& closed.parent_span_id == v.next_parent()
            &&& closed.name == name
            &&& closed.start_time_unix_nano == start
            &&& closed.end_time_unix_nano == end
        }),
{
    let entered = v.enter(name, span_id, start);
    lemma_nested_run_keeps_what_is_beneath(entered, inner);
    let w = entered.run(inner);
    let after = w.exit(end);
    let depth = v.open.len() as int;
    assert(entered.open.take(depth) =~= v.open);
    assert(after.open =~= w.open.take(depth));
    assert(after.closed.take(v.closed.len() as int) =~= w.closed.take(v.closed.len() as int));
}

/// That the parent of the `i`-th closed span is accounted for: the span has
/// none, or its parent was closed after it, or its parent is still open.
pub open spec fn parent_accounted(v: TracesView, i: int) -> bool {
    let parent = v.closed[i].parent_span_id;
    ||| parent.len() == 0
    ||| exists|j: int| i < j < v.closed.len() && (#[trigger] v.closed[j]).span_id == parent
    ||| exists|k: int| 0 <= k < v.open.len() && (#[trigger] v.open[k]).span_id == parent
}

/// That the parent of every closed span is accounted for.
pub open spec fn parents_accounted(v: TracesView) -> bool {
    forall|i: int| 0 <= i < v.closed.len() ==> #[trigger] parent_accounted(v, i)
}

/// One operation keeps the parents of the closed spans accounted for.
pub proof fn lemma_apply_keeps_parents_accounted(v: TracesView, op: TraceOp)
    requires
        v.well_formed(),
        parents_accounted(v),
    ensures
        parents_accounted(v.apply(op)),
{
    let w = v.apply(op);
    match op {
        TraceOp::Enter { name, span_id, now } => {
            assert forall|i: int| 0 <= i < w.closed.len() implies #[trigger] parent_accounted(
                w,
                i,
            ) by {
                assert(parent_accounted(v, i));
                let parent = v.closed[i].parent_span_id;
                if parent.len() != 0 && !(exists|j: int|
                    i < j < v.closed.len() && (#[trigger] v.closed[j]).span_id == parent) {
                    let k = choose|k: int|
                        0 <= k < v.open.len() && (#[trigger] v.open[k]).span_id == parent;
                    assert(w.open[k].span_id == parent);
                }
            }
        },
        TraceOp::Exit { now } => {
            if v.open.len() > 0 {
                let top = v.open.len() - 1;
                let last = v.closed.len() as int;
                assert(w.closed[last].span_id == v.open[top].span_id);
                assert forall|i: int| 0 <= i < w.closed.len() implies #[trigger] parent_accounted(
                    w,
                    i,
                ) by {
                    if i < last {
                        assert(parent_accounted(v, i));
                        let parent = v.closed[i].parent_span_id;
                        if parent.len() != 0 {
                            if exists|j: int|
                                i < j < v.closed.len() && (#[trigger] v.closed[j]).span_id
                                    == parent {
                                let j = choose|j: int|
                                    i < j < v.closed.len() && (#[trigger] v.closed[j]).span_id
                                        == parent;
                                assert(w.closed[j].span_id == parent);
                            } else {
                                let k = choose|k: int|
                                    0 <= k < v.open.len() && (#[trigger] v.open[k]).span_id
                                        == parent;
                                if k == top {
                                    assert(w.closed[last].span_id == parent);
                                } else {
                                    assert(w.open[k].span_id == parent);
                                }
                            }
                        }
                    } else {
                        assert(v.open_span_ok(top));
                        if top > 0 {
                            assert(w.open[top - 1].span_id == w.closed[i].parent_span_id);
                        }
                    }
                }
            }
        },
        TraceOp::Attach { attribute } => {
            if v.open.len() > 0 {
                assert forall|i: int| 0 <= i < w.closed.len() implies #[trigger] parent_accounted(
                    w,
                    i,
                ) by {
                    assert(parent_accounted(v, i));
                    let parent = v.closed[i].parent_span_id;
                    if parent.len() != 0 && !(exists|j: int|
                        i < j < v.closed.len() && (#[trigger] v.closed[j]).span_id == parent) {
                        let k = choose|k: int|
                            0 <= k < v.open.len() && (#[trigger] v.open[k]).span_id == parent;
                        assert(w.open[k].span_id == parent);
                    }
                }
            }
        },
    }
}

/// Whatever the operations, the parents of the closed spans stay accounted for.
pub proof fn lemma_run_keeps_parents_accounted(v: TracesView, ops: Seq<TraceOp>)
    requires
        v.well_formed(),
        parents_accounted(v),
        identifiers_fit(ops),
    ensures
        parents_accounted(v.run(ops)),
    decreases ops.len(),
{
    if ops.len() > 0 {
        let before = ops.drop_last();
        assert forall|k: int| 0 <= k < before.len() implies match #[trigger] before[k] {
            TraceOp::Enter { span_id, .. } => span_id.len() == SPAN_ID_LEN,
            _ => true,
        } by {
            assert(before[k] == ops[k]);
        }
        lemma_run_keeps_parents_accounted(v, before);
        lemma_run_keeps_well_formed(v, before);
        lemma_apply_keeps_parents_accounted(v.run(before), ops.last());
    }
}

/// A properly nested sequence of operations on a new builder leaves no span
/// open, and in the list of the closed spans every span either has no parent
/// or is followed by its parent: spans close inside out, and the chain of
/// parent identifiers is the nesting.
pub proof fn lemma_balanced_run_closes_inside_out(trace_id: Seq<u8>, ops: Seq<TraceOp>)
    requires
        trace_id.len() == TRACE_ID_LEN,
        balanced(ops),
        identifiers_fit(ops),
    ensures
        ({
            let after = TracesView::empty(trace_id).run(ops);
            &&& after.open.len() == 0
            &&& forall|i: int|
                0 <= i < after.closed.len() ==> {
                    ||| (#[trigger] after.closed[i]).parent_span_id.len() == 0
                    ||| exists|j: int|
                        i < j < after.closed.len() && (#[trigger] after.closed[j]).span_id
                            == after.closed[i].parent_span_id
                }
        }),
{
    let v = TracesView::empty(trace_id);
    lemma_nested_run_depth(v, ops);
    lemma_run_keeps_parents_accounted(v, ops);
    let after = v.run(ops);
    assert forall|i: int| 0 <= i < after.closed.len() implies {
        ||| (#[trigger] after.closed[i]).parent_span_id.len() == 0
        ||| exists|j: int|
            i < j < after.closed.len() && (#[trigger] after.closed[j]).span_id
                == after.closed[i].parent_span_id
    } by {
        assert(parent_accounted(after, i));
    }
}

} // verus!
