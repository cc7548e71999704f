use app_libs::telemetry::config::{
    otlp_protocol_from_env, telemetry_status, ExporterTransport,
};
use app_libs::telemetry::{OtlpProtocol, TelemetryConfig};
use app_libs::utils::env::{EnvError, Vars};

#[test]
fn protocols_are_parsed_by_name() {
    assert_eq!(OtlpProtocol::parse("grpc"), Ok(OtlpProtocol::Grpc));
    assert_eq!(OtlpProtocol::parse("http/protobuf"), Ok(OtlpProtocol::HttpProtobuf));
    assert_eq!(OtlpProtocol::parse("http/json"), Ok(OtlpProtocol::HttpJson));
    assert_eq!(OtlpProtocol::parse("GRPC"), Err(()));
    assert_eq!("http/json".parse::<OtlpProtocol>(), Ok(OtlpProtocol::HttpJson));
}

#[test]
fn default_configuration_without_protocol() {
    let c = TelemetryConfig::from_env(&Vars::new());
    assert_eq!(c.service_name, "unknown");
    assert_eq!(c.service_version, "0.1.0");
    assert_eq!(c.otlp_protocol, None);
    assert!(!c.enable_metrics);
    assert!(!c.enable_tracing);
}

#[test]
fn configuration_reads_the_protocol() {
    let mut vars = Vars::new();
    vars.set("OTEL_EXPORTER_OTLP_PROTOCOL".to_string(), "grpc".to_string());
    let c = TelemetryConfig::new("svc".to_string(), &vars)
        .with_service_version("1.2.3".to_string())
        .with_metrics(true)
        .with_tracing(true);
    assert_eq!(c.service_name, "svc");
    assert_eq!(c.service_version, "1.2.3");
    assert_eq!(c.otlp_protocol, Some(OtlpProtocol::Grpc));
    assert!(c.enable_metrics && c.enable_tracing);
    assert_eq!(c.exporter_transport(), Some(ExporterTransport::Tonic));
}

#[test]
fn unknown_protocol_is_reported_and_ignored() {
    let mut vars = Vars::new();
    vars.set("OTEL_EXPORTER_OTLP_PROTOCOL".to_string(), "udp".to_string());
    match otlp_protocol_from_env(&vars) {
        Err(EnvError::ParseFailed { key, value, error }) => {
            assert_eq!(key, "OTEL_EXPORTER_OTLP_PROTOCOL");
            assert_eq!(value, "udp");
            assert_eq!(error, "'grpc', 'http/protobuf' and 'http/json'");
        }
        other => panic!("unexpected {other:?}"),
    }
    let c = TelemetryConfig::new("svc".to_string(), &vars);
    assert_eq!(c.otlp_protocol, None);
    assert_eq!(c.exporter_transport(), None);
}

#[test]
fn http_protocols_use_binary_http_export() {
    let mut vars = Vars::new();
    vars.set("OTEL_EXPORTER_OTLP_PROTOCOL".to_string(), "http/json".to_string());
    let c = TelemetryConfig::new("svc".to_string(), &vars);
    assert_eq!(c.exporter_transport(), Some(ExporterTransport::HttpBinary));
}

#[test]
fn status_messages() {
    assert_eq!(telemetry_status(true, true), "Opentelemetry enabled: metrics and tracing");
    assert_eq!(telemetry_status(true, false), "Opentelemetry enabled: metrics");
    assert_eq!(telemetry_status(false, true), "Opentelemetry enabled: tracing");
    assert_eq!(
        telemetry_status(false, false),
        "OpenTelemetry not enabled: fallback to default tracing"
    );
}

#[test]
fn resource_carries_the_service_version() {
    let config = TelemetryConfig::new("svc".to_string(), &Vars::new())
        .with_service_version("1.2.3".to_string());
    let resource = config.get_resource();
    assert_eq!(
        resource.get(&opentelemetry::Key::from_static_str("service.version")),
        Some(opentelemetry::Value::from("1.2.3"))
    );
}
