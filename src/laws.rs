use vstd::prelude::*;
use crate::context::{TelemetryContext, TelemetryScope};
use crate::log::{FieldView, SharedLog};
use crate::span::{SharedSpan, SpanView, Tracer};

verus! {

/// Restoration: installing a context over state `s0`, running work with it
/// active, and releasing the guard leaves the slot at `s0` again, whatever
/// state the work was given.
pub proof fn restoration(s0: TelemetryContext, c: TelemetryContext, g: TelemetryScope, during: TelemetryContext, after: TelemetryContext)
    requires
        during == c,
        g.prior() == s0,
        after == g.prior(),
    ensures
        after == s0,
{
}

/// Guard stacking: with `g1` acquired over state `s0` (making `c1` active)
/// and `g2` acquired over `c1` (making `c2` active), releasing `g2` brings
/// back `c1`, and releasing `g1` after it brings back `s0`.
pub proof fn guard_stacking(
    s0: TelemetryContext,
    c1: TelemetryContext,
    c2: TelemetryContext,
    g1: TelemetryScope,
    g2: TelemetryScope,
    after_g2: TelemetryContext,
    after_g1: TelemetryContext,
)
    requires
        g1.prior() == s0,
        g2.prior() == c1,
        after_g2 == g2.prior(),
        after_g1 == g1.prior(),
    ensures
        after_g2 == c1,
        after_g1 == s0,
{
}

/// Fork independence: an annotation written through one log handle leaves
/// what every other handle's sink holds unchanged, so a forked handle and the
/// one it was forked from never see each other's later annotations.
pub proof fn fork_independence(
    before: Seq<Seq<FieldView>>,
    after: Seq<Seq<FieldView>>,
    written: SharedLog,
    other: SharedLog,
    key: Seq<char>,
    value: Seq<char>,
)
    requires
        written != other,
        written.id < before.len(),
        other.id < before.len(),
        after == before.update(written.id as int, before[written.id as int].push((key, value))),
    ensures
        after[other.id as int] == before[other.id as int],
        after.len() == before.len(),
{
}

/// Span nesting: the span that a work unit wrapped under a new span runs
/// with has the context's span as its parent, and is a root when the
/// context had none.
pub proof fn span_nesting(
    before: Seq<SpanView>,
    after: Seq<SpanView>,
    c: TelemetryContext,
    wrapped: TelemetryContext,
    name: Seq<char>,
    tracer: Option<Tracer>,
)
    requires
        after == before.push((name, c.span, tracer)),
        wrapped == (TelemetryContext { span: Some(SharedSpan { id: before.len() as usize }), ..c }),
        before.len() < usize::MAX,
    ensures
        wrapped.span matches Some(s) && s.id < after.len() && after[s.id as int].1 == c.span
            && after[s.id as int].0 == name,
        c.span is None ==> after[wrapped.span.unwrap().id as int].1 is None,
        wrapped.log == c.log,
{
}

} // verus!
