use vstd::prelude::*;
use crate::log::{LogStore, SharedLog};
use crate::span::{SharedSpan, SpanStore, Tracer};

verus! {

/// A snapshot of the ambient state: the active log handle, the active span
/// (absent when no trace is running) and the test tracer override, if any.
/// Copying it copies the handles, never the slot it was taken from.
#[derive(Clone, Copy, Debug, PartialEq, Eq, Structural)]
pub struct TelemetryContext {
    pub log: SharedLog,
    pub span: Option<SharedSpan>,
    pub test_tracer: Option<Tracer>,
}

/// The ambient slot of one execution context: what is active there now.
/// Each task owns its own slot; only scope guards change it.
pub struct AmbientSlot {
    state: TelemetryContext,
}

impl AmbientSlot {
    pub closed spec fn view(&self) -> TelemetryContext {
        self.state
    }

    /// A slot in which `initial` is active.
    pub fn new(initial: TelemetryContext) -> (r: AmbientSlot)
        ensures
            r@ == initial,
    {
        AmbientSlot { state: initial }
    }
}

/// Guard over the log part of a slot; releasing it puts back the log that
/// was active before.
#[must_use]
pub struct LogScope {
    prior: SharedLog,
}

impl LogScope {
    pub closed spec fn prior(&self) -> SharedLog {
        self.prior
    }

    pub fn new(log: SharedLog, slot: &mut AmbientSlot) -> (r: LogScope)
        ensures
            r.prior() == old(slot)@.log,
            final(slot)@ == (TelemetryContext { log, ..old(slot)@ }),
    {
        let prior = slot.state.log;
        slot.state.log = log;
        LogScope { prior }
    }

    pub fn release(self, slot: &mut AmbientSlot)
        ensures
            final(slot)@ == (TelemetryContext { log: self.prior(), ..old(slot)@ }),
    {
        slot.state.log = self.prior;
    }
}

/// Guard over the span part of a slot.
#[must_use]
pub struct SpanScope {
    prior: Option<SharedSpan>,
}

impl SpanScope {
    pub closed spec fn prior(&self) -> Option<SharedSpan> {
        self.prior
    }

    pub fn new(span: Option<SharedSpan>, slot: &mut AmbientSlot) -> (r: SpanScope)
        ensures
            r.prior() == old(slot)@.span,
            final(slot)@ == (TelemetryContext { span, ..old(slot)@ }),
    {
        let prior = slot.state.span;
        slot.state.span = span;
        SpanScope { prior }
    }

    pub fn release(self, slot: &mut AmbientSlot)
        ensures
            final(slot)@ == (TelemetryContext { span: self.prior(), ..old(slot)@ }),
    {
        slot.state.span = self.prior;
    }
}

/// Guard over the test tracer part of a slot.
#[must_use]
pub struct TestTracerScope {
    prior: Option<Tracer>,
}

impl TestTracerScope {
    pub closed spec fn prior(&self) -> Option<Tracer> {
        self.prior
    }

    pub fn new(tracer: Option<Tracer>, slot: &mut AmbientSlot) -> (r: TestTracerScope)
        ensures
            r.prior() == old(slot)@.test_tracer,
            final(slot)@ == (TelemetryContext { test_tracer: tracer, ..old(slot)@ }),
    {
        let prior = slot.state.test_tracer;
        slot.state.test_tracer = tracer;
        TestTracerScope { prior }
    }

    pub fn release(self, slot: &mut AmbientSlot)
        ensures
            final(slot)@ == (TelemetryContext { test_tracer: self.prior(), ..old(slot)@ }),
    {
        slot.state.test_tracer = self.prior;
    }
}

/// The guards of one installed context. Releasing it restores the whole
/// state that was active before it was acquired.
#[must_use]
pub struct TelemetryScope {
    log_scope: LogScope,
    span_scope: SpanScope,
    test_tracer_scope: TestTracerScope,
}

impl TelemetryScope {
    /// The state that was active before this scope began.
    pub closed spec fn prior(&self) -> TelemetryContext {
        TelemetryContext {
            log: self.log_scope.prior(),
            span: self.span_scope.prior(),
            test_tracer: self.test_tracer_scope.prior(),
        }
    }

    pub fn release(self, slot: &mut AmbientSlot)
        ensures
            final(slot)@ == self.prior(),
    {
        let TelemetryScope { log_scope, span_scope, test_tracer_scope } = self;
        test_tracer_scope.release(slot);
        span_scope.release(slot);
        log_scope.release(slot);
    }
}

/// What one resumption of a unit of work gives: its output, or the work
/// itself, to be resumed later.
pub enum Step<W, T> {
    Ready(T),
    Pending(W),
}

/// A unit of work together with the context installed around each of its
/// resumptions.
pub struct WithTelemetryContext<W> {
    inner: W,
    ctx: TelemetryContext,
}

impl<W> WithTelemetryContext<W> {
    pub closed spec fn inner(&self) -> W {
        self.inner
    }

    pub closed spec fn context(&self) -> TelemetryContext {
        self.ctx
    }

    /// Resumes the work once by `step`, with this context active in `slot`
    /// for that resumption only. The work sees exactly this context, whatever
    /// `slot` held, and `slot` is back as it was afterwards.
    pub fn poll<T, F: FnOnce(W, &AmbientSlot) -> Step<W, T>>(self, slot: &mut AmbientSlot, step: F) -> (r: Step<WithTelemetryContext<W>, T>)
        requires
            forall|s: AmbientSlot| s@ == self.context() ==> step.requires((self.inner(), &s)),
        ensures
            final(slot)@ == old(slot)@,
            exists|s: AmbientSlot, o: Step<W, T>|
                s@ == self.context() && step.ensures((self.inner(), &s), o) && match (o, r) {
                    (Step::Ready(a), Step::Ready(b)) => a == b,
                    (Step::Pending(w), Step::Pending(x)) => x.inner() == w && x.context() == self.context(),
                    _ => false,
                },
    {
        let WithTelemetryContext { inner, ctx } = self;
        let guard = ctx.scope(slot);
        let ghost seen = *slot;
        let o = step(inner, slot);
        guard.release(slot);
        let r = match o {
            Step::Ready(t) => Step::Ready(t),
            Step::Pending(w) => Step::Pending(WithTelemetryContext { inner: w, ctx }),
        };
        assert(seen@ == ctx && step.ensures((inner, &seen), o));
        r
    }
}

impl TelemetryContext {
    /// What is active in `slot` now.
    pub fn current(slot: &AmbientSlot) -> (r: TelemetryContext)
        ensures
            r == slot@,
    {
        slot.state
    }

    /// Makes this context active in `slot` until the returned guard is
    /// released.
    pub fn scope(&self, slot: &mut AmbientSlot) -> (r: TelemetryScope)
        ensures
            final(slot)@ == *self,
            r.prior() == old(slot)@,
    {
        let log_scope = LogScope::new(self.log, slot);
        let span_scope = SpanScope::new(self.span, slot);
        let test_tracer_scope = TestTracerScope::new(self.test_tracer, slot);
        TelemetryScope { log_scope, span_scope, test_tracer_scope }
    }

    /// Attaches this context to `work`; each resumption runs with it.
    pub fn apply<W>(self, work: W) -> (r: WithTelemetryContext<W>)
        ensures
            r.inner() == work,
            r.context() == self,
    {
        WithTelemetryContext { inner: work, ctx: self }
    }

    /// Attaches this context to `work` under a new span named `span_name`.
    /// The new span is created while this context's own span is active in
    /// `slot`, so its parent is that span, or it is a root when there is
    /// none; the work then runs with the new span. `slot` ends as it began.
    pub fn apply_with_tracing_span<W>(
        self,
        span_name: &str,
        spans: &mut SpanStore,
        slot: &mut AmbientSlot,
        work: W,
    ) -> (r: WithTelemetryContext<W>)
        ensures
            final(spans)@ == old(spans)@.push((span_name@, self.span, old(slot)@.test_tracer)),
            final(spans).tracer_count() == old(spans).tracer_count(),
            final(slot)@ == old(slot)@,
            r.inner() == work,
            r.context() == (TelemetryContext { span: Some(SharedSpan { id: old(spans)@.len() as usize }), ..self }),
    {
        let mut ctx = self;
        let scope = SpanScope::new(ctx.span, slot);
        let span = create_span(spans, slot, span_name);
        scope.release(slot);
        ctx.span = Some(span);
        ctx.apply(work)
    }

    /// The same context with a forked log handle: later annotations through
    /// either handle stay invisible through the other.
    pub fn with_forked_log(&self, logs: &mut LogStore) -> (r: TelemetryContext)
        requires
            old(logs).valid(self.log),
        ensures
            r.log.id == old(logs)@.len(),
            r.log != self.log,
            r.span == self.span,
            r.test_tracer == self.test_tracer,
            final(logs)@ == old(logs)@.push(old(logs).config()),
            final(logs).config() == old(logs).config(),
    {
        TelemetryContext { log: logs.fork(self.log), span: self.span, test_tracer: self.test_tracer }
    }

    /// Installs an isolated context in `slot`: a fresh log forked from the
    /// active one, no span, and a fresh test tracer.
    pub fn test(logs: &mut LogStore, spans: &mut SpanStore, slot: &mut AmbientSlot) -> (r: TestTelemetryScope)
        requires
            old(logs).valid(old(slot)@.log),
            old(spans).tracer_count() < u64::MAX,
        ensures
            r.log().id == old(logs)@.len(),
            r.tracer().id == old(spans).tracer_count(),
            final(logs)@ == old(logs)@.push(old(logs).config()),
            final(logs).config() == old(logs).config(),
            final(spans)@ == old(spans)@,
            final(spans).tracer_count() == old(spans).tracer_count() + 1,
            final(slot)@ == (TelemetryContext { log: r.log(), span: None, test_tracer: Some(r.tracer()) }),
            r.prior() == old(slot)@,
    {
        let log = logs.fork(slot.state.log);
        let tracer = spans.new_tracer();
        let ctx = TelemetryContext { log, span: None, test_tracer: Some(tracer) };
        let scope = ctx.scope(slot);
        TestTelemetryScope { log, tracer, scope }
    }
}

/// Creates a span named `name` under the span active in `slot`, attached to
/// the test tracer active there.
pub fn create_span(spans: &mut SpanStore, slot: &AmbientSlot, name: &str) -> (r: SharedSpan)
    ensures
        r.id == old(spans)@.len(),
        final(spans)@ == old(spans)@.push((name@, slot@.span, slot@.test_tracer)),
        final(spans).tracer_count() == old(spans).tracer_count(),
{
    spans.create_span(name, slot.state.span, slot.state.test_tracer)
}

/// The isolated context of one test, installed until teardown.
#[must_use]
pub struct TestTelemetryScope {
    log: SharedLog,
    tracer: Tracer,
    scope: TelemetryScope,
}

impl TestTelemetryScope {
    pub closed spec fn log(&self) -> SharedLog {
        self.log
    }

    pub closed spec fn tracer(&self) -> Tracer {
        self.tracer
    }

    /// The state that was active before the test began.
    pub closed spec fn prior(&self) -> TelemetryContext {
        self.scope.prior()
    }

    /// The test's own log handle.
    pub fn get_log(&self) -> (r: SharedLog)
        ensures
            r == self.log(),
    {
        self.log
    }

    /// The test's own tracer.
    pub fn get_tracer(&self) -> (r: Tracer)
        ensures
            r == self.tracer(),
    {
        self.tracer
    }

    /// Ends the test scope, restoring what was active before it.
    pub fn teardown(self, slot: &mut AmbientSlot)
        ensures
            final(slot)@ == self.prior(),
    {
        self.scope.release(slot);
    }
}

} // verus!
