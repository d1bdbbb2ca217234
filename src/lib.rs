//! Ambient telemetry context: which log handle and trace span are active for
//! the task that is running now, and how that changes as scopes nest and
//! tasks fork.

pub mod bootstrap;
pub mod context;
pub mod laws;
pub mod log;
pub mod span;

pub use crate::context::{
    AmbientSlot, LogScope, SpanScope, Step, TelemetryContext, TelemetryScope, TestTelemetryScope,
    TestTracerScope, WithTelemetryContext,
};
pub use crate::bootstrap::{
    init, BootstrapError, LoggingSettings, ServiceInfo, Telemetry, TelemetrySettings, TracingSettings,
};
pub use crate::log::{LogLine, LogStore, SharedLog};
pub use crate::span::{SharedSpan, SpanStore, Tracer};
