use bedrock::{
    init, AmbientSlot, BootstrapError, LogScope, LoggingSettings, ServiceInfo, SharedLog, SpanScope,
    Step, Telemetry, TelemetryContext, TelemetrySettings, TracingSettings, WithTelemetryContext,
};

fn s(x: &str) -> String {
    x.to_string()
}

fn settings(fields: Vec<(String, String)>) -> TelemetrySettings {
    TelemetrySettings {
        logging: LoggingSettings { fields },
        tracing: TracingSettings { enabled: true },
    }
}

fn boot() -> Telemetry {
    let info = ServiceInfo { name: s("svc"), version: s("1.0") };
    match init(info, &settings(vec![(s("env"), s("prod"))])) {
        Ok(t) => t,
        Err(_) => panic!("init failed"),
    }
}

fn observe(w: WithTelemetryContext<()>, slot: &mut AmbientSlot) -> TelemetryContext {
    match w.poll(slot, |_w: (), a: &AmbientSlot| Step::Ready(TelemetryContext::current(a))) {
        Step::Ready(c) => c,
        Step::Pending(_) => panic!("work should finish in one step"),
    }
}

#[test]
fn init_rejects_empty_service_name() {
    let info = ServiceInfo { name: s(""), version: s("1.0") };
    let r = init(info, &settings(vec![]));
    assert!(matches!(r, Err(BootstrapError::EmptyServiceName)));
}

#[test]
fn init_sets_root_log_and_no_span() {
    let t = boot();
    let c = TelemetryContext::current(&t.ambient);
    assert_eq!(c.log, SharedLog { id: 0 });
    assert_eq!(c.span, None);
    assert_eq!(c.test_tracer, None);
    assert!(t.tracing_enabled);
    let line = t.logs.line(c.log, s("hello"));
    assert_eq!(line.message, "hello");
    assert_eq!(line.field(&s("service")), Some(s("svc")));
    assert_eq!(line.field(&s("version")), Some(s("1.0")));
    assert_eq!(line.field(&s("env")), Some(s("prod")));
    assert_eq!(line.field(&s("missing")), None);
}

#[test]
fn root_span_scenario() {
    let mut t = boot();
    let c0 = TelemetryContext::current(&t.ambient);
    assert_eq!(c0.span, None);
    let w = c0.apply_with_tracing_span("req", &mut t.spans, &mut t.ambient, ());
    let seen = observe(w, &mut t.ambient);
    let span = seen.span.expect("work runs under a span");
    assert_eq!(t.spans.name(span), "req");
    assert_eq!(t.spans.parent(span), None);
    assert_eq!(seen.log, c0.log);
    let after = TelemetryContext::current(&t.ambient);
    assert_eq!(after.span, None);
    assert_eq!(after.log, c0.log);
}

#[test]
fn forked_log_does_not_leak_fields() {
    let mut t = boot();
    let c0 = TelemetryContext::current(&t.ambient);
    let c1 = c0.with_forked_log(&mut t.logs);
    assert_ne!(c1.log, c0.log);
    t.logs.set_field(c1.log, s("k"), s("v"));
    assert_eq!(t.logs.line(c0.log, s("after")).field(&s("k")), None);
    assert_eq!(t.logs.line(c1.log, s("after")).field(&s("k")), Some(s("v")));
}

#[test]
fn fork_independence_both_ways() {
    let mut t = boot();
    let c0 = TelemetryContext::current(&t.ambient);
    let c1 = c0.with_forked_log(&mut t.logs);
    assert_eq!(c1.span, c0.span);
    assert_eq!(c1.test_tracer, c0.test_tracer);
    t.logs.set_field(c0.log, s("parent"), s("1"));
    t.logs.set_field(c1.log, s("child"), s("2"));
    assert_eq!(t.logs.line(c1.log, s("x")).field(&s("parent")), None);
    assert_eq!(t.logs.line(c0.log, s("x")).field(&s("child")), None);
    // a fork starts from the static configuration
    assert_eq!(t.logs.line(c1.log, s("x")).field(&s("service")), Some(s("svc")));
}

#[test]
fn later_annotation_wins() {
    let mut t = boot();
    let c0 = TelemetryContext::current(&t.ambient);
    t.logs.set_field(c0.log, s("env"), s("staging"));
    assert_eq!(t.logs.line(c0.log, s("x")).field(&s("env")), Some(s("staging")));
}

#[test]
fn span_nests_under_context_span() {
    let mut t = boot();
    let c0 = TelemetryContext::current(&t.ambient);
    let outer = observe(c0.apply_with_tracing_span("outer", &mut t.spans, &mut t.ambient, ()), &mut t.ambient);
    let outer_span = outer.span.unwrap();
    let inner = observe(outer.apply_with_tracing_span("inner", &mut t.spans, &mut t.ambient, ()), &mut t.ambient);
    let inner_span = inner.span.unwrap();
    assert_ne!(inner_span, outer_span);
    assert_eq!(t.spans.parent(inner_span), Some(outer_span));
    assert_eq!(t.spans.name(inner_span), "inner");
    assert_eq!(TelemetryContext::current(&t.ambient).span, None);
}

#[test]
fn absent_context_span_gives_root_even_under_active_span() {
    let mut t = boot();
    let c0 = TelemetryContext::current(&t.ambient);
    let outer = observe(c0.apply_with_tracing_span("outer", &mut t.spans, &mut t.ambient, ()), &mut t.ambient);
    let g = outer.scope(&mut t.ambient);
    let w = c0.apply_with_tracing_span("detached", &mut t.spans, &mut t.ambient, ());
    let seen = observe(w, &mut t.ambient);
    assert_eq!(t.spans.parent(seen.span.unwrap()), None);
    assert_eq!(TelemetryContext::current(&t.ambient), outer);
    g.release(&mut t.ambient);
    assert_eq!(TelemetryContext::current(&t.ambient), c0);
}

#[test]
fn apply_restores_ambient_state() {
    let mut t = boot();
    let before = TelemetryContext::current(&t.ambient);
    let other = before.with_forked_log(&mut t.logs);
    let seen = observe(other.apply(()), &mut t.ambient);
    assert_eq!(seen, other);
    assert_eq!(TelemetryContext::current(&t.ambient), before);
}

#[test]
fn interleaved_units_see_their_own_context() {
    let mut t = boot();
    let ca = TelemetryContext::current(&t.ambient);
    let cb = ca.with_forked_log(&mut t.logs);
    let ambient_before = TelemetryContext::current(&t.ambient);
    let mut seen_a: Vec<TelemetryContext> = Vec::new();
    let mut seen_b: Vec<TelemetryContext> = Vec::new();
    let mut a = Some(ca.apply(3u32));
    let mut b = Some(cb.apply(2u32));
    let mut rounds = 0;
    while a.is_some() || b.is_some() {
        if let Some(w) = a.take() {
            let r = w.poll(&mut t.ambient, |n: u32, s: &AmbientSlot| {
                seen_a.push(TelemetryContext::current(s));
                if n == 0 { Step::Ready(()) } else { Step::Pending(n - 1) }
            });
            if let Step::Pending(next) = r {
                a = Some(next);
            }
        }
        if let Some(w) = b.take() {
            let r = w.poll(&mut t.ambient, |n: u32, s: &AmbientSlot| {
                seen_b.push(TelemetryContext::current(s));
                if n == 0 { Step::Ready(()) } else { Step::Pending(n - 1) }
            });
            if let Step::Pending(next) = r {
                b = Some(next);
            }
        }
        assert_eq!(TelemetryContext::current(&t.ambient), ambient_before);
        rounds += 1;
    }
    assert_eq!(rounds, 4);
    assert_eq!(seen_a.len(), 4);
    assert_eq!(seen_b.len(), 3);
    assert!(seen_a.iter().all(|c| *c == ca));
    assert!(seen_b.iter().all(|c| *c == cb));
}

#[test]
fn guards_released_in_reverse_order_restore_state() {
    let mut t = boot();
    let s0 = TelemetryContext::current(&t.ambient);
    let c1 = s0.with_forked_log(&mut t.logs);
    let c2 = observe(c1.apply_with_tracing_span("g2", &mut t.spans, &mut t.ambient, ()), &mut t.ambient);
    let g1 = c1.scope(&mut t.ambient);
    assert_eq!(TelemetryContext::current(&t.ambient), c1);
    let g2 = c2.scope(&mut t.ambient);
    assert_eq!(TelemetryContext::current(&t.ambient), c2);
    g2.release(&mut t.ambient);
    assert_eq!(TelemetryContext::current(&t.ambient), c1);
    g1.release(&mut t.ambient);
    assert_eq!(TelemetryContext::current(&t.ambient), s0);
}

#[test]
fn part_guards_swap_one_field() {
    let mut t = boot();
    let s0 = TelemetryContext::current(&t.ambient);
    let forked = s0.with_forked_log(&mut t.logs);
    let lg = LogScope::new(forked.log, &mut t.ambient);
    assert_eq!(TelemetryContext::current(&t.ambient).log, forked.log);
    assert_eq!(TelemetryContext::current(&t.ambient).span, None);
    lg.release(&mut t.ambient);
    let sg = SpanScope::new(None, &mut t.ambient);
    sg.release(&mut t.ambient);
    assert_eq!(TelemetryContext::current(&t.ambient), s0);
}

#[test]
fn test_scope_isolates_and_restores() {
    let mut t = boot();
    let before = TelemetryContext::current(&t.ambient);
    let ts = TelemetryContext::test(&mut t.logs, &mut t.spans, &mut t.ambient);
    let inside = TelemetryContext::current(&t.ambient);
    assert_eq!(inside.log, ts.get_log());
    assert_ne!(inside.log, before.log);
    assert_eq!(inside.span, None);
    assert_eq!(inside.test_tracer, Some(ts.get_tracer()));
    let seen = observe(inside.apply_with_tracing_span("root", &mut t.spans, &mut t.ambient, ()), &mut t.ambient);
    assert_eq!(t.spans.tracer(seen.span.unwrap()), Some(ts.get_tracer()));
    ts.teardown(&mut t.ambient);
    assert_eq!(TelemetryContext::current(&t.ambient), before);
}
