//! Telemetry settings: service identity, the OpenTelemetry export protocol,
//! and whether metrics and traces are exported.

pub mod config;

pub use self::config::{OtlpProtocol, TelemetryConfig};
