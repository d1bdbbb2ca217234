use vstd::prelude::*;
use crate::context::{AmbientSlot, TelemetryContext};
use crate::log::{fields_view, FieldView, LogStore, SharedLog};
use crate::span::SpanStore;

verus! {

/// Identity of the service, handed to the log sink as its first annotation.
pub struct ServiceInfo {
    pub name: String,
    pub version: String,
}

pub struct LoggingSettings {
    /// Annotations that every sink starts from.
    pub fields: Vec<(String, String)>,
}

pub struct TracingSettings {
    /// Whether spans are exported to a tracing backend.
    pub enabled: bool,
}

pub struct TelemetrySettings {
    pub logging: LoggingSettings,
    pub tracing: TracingSettings,
}

#[derive(Clone, Copy, Debug, PartialEq, Eq, Structural)]
pub enum BootstrapError {
    /// The service has no name to annotate its log lines with.
    EmptyServiceName,
}

/// Everything set up at startup: the log sinks, the span registry and the
/// ambient slot of the main execution context.
pub struct Telemetry {
    pub logs: LogStore,
    pub spans: SpanStore,
    pub ambient: AmbientSlot,
    /// Whether spans are exported; the span registry is kept either way.
    pub tracing_enabled: bool,
}

/// The static log configuration: the service's name and version, then the
/// configured annotations.
pub open spec fn log_config(service: Seq<char>, version: Seq<char>, fields: Seq<FieldView>) -> Seq<FieldView> {
    seq![("service"@, service), ("version"@, version)] + fields
}

/// Sets up the log sinks and the span registry from `settings`, with the
/// root log active and no span in the main slot.
pub fn init(service_info: ServiceInfo, settings: &TelemetrySettings) -> (r: Result<Telemetry, BootstrapError>)
    ensures
        service_info.name@.len() == 0 <==> r == Err::<Telemetry, BootstrapError>(BootstrapError::EmptyServiceName),
        r matches Ok(t) ==> {
            &&& t.logs.config() == log_config(service_info.name@, service_info.version@, fields_view(settings.logging.fields@))
            &&& t.logs@ == seq![t.logs.config()]
            &&& t.spans@.len() == 0
            &&& t.spans.tracer_count() == 0
            &&& t.tracing_enabled == settings.tracing.enabled
            &&& t.ambient@ == (TelemetryContext { log: SharedLog { id: 0 }, span: None, test_tracer: None })
        },
{
    if service_info.name.as_str().unicode_len() == 0 {
        return Err(BootstrapError::EmptyServiceName);
    }
    let ghost name = service_info.name@;
    let ghost version = service_info.version@;
    let mut config: Vec<(String, String)> = Vec::new();
    config.push(("service".to_owned(), service_info.name));
    config.push(("version".to_owned(), service_info.version));
    let mut i: usize = 0;
    while i < settings.logging.fields.len()
        invariant
            i <= settings.logging.fields.len(),
            fields_view(config@) =~= log_config(name, version, fields_view(settings.logging.fields@.subrange(0, i as int))),
        decreases settings.logging.fields.len() - i,
    {
        let k = settings.logging.fields[i].0.clone();
        let v = settings.logging.fields[i].1.clone();
        let ghost c0 = config@;
        config.push((k, v));
        assert(config@ =~= c0.push((k, v)));
        assert(settings.logging.fields@.subrange(0, i + 1) =~= settings.logging.fields@.subrange(0, i as int).push(settings.logging.fields@[i as int]));
        assert(fields_view(config@) =~= fields_view(c0).push((k@, v@)));
        assert(fields_view(settings.logging.fields@.subrange(0, i + 1)) =~= fields_view(settings.logging.fields@.subrange(0, i as int)).push((k@, v@)));
        i = i + 1;
    }
    assert(settings.logging.fields@.subrange(0, i as int) =~= settings.logging.fields@);
    let (logs, root) = LogStore::new(config);
    let ambient = AmbientSlot::new(TelemetryContext { log: root, span: None, test_tracer: None });
    Ok(Telemetry { logs, spans: SpanStore::new(), ambient, tracing_enabled: settings.tracing.enabled })
}

} // verus!
