//! Telemetry configuration.

use vstd::prelude::*;

use crate::text::{str_eq, to_owned_string};
use crate::utils::env::{get_env, spec_get_env, EnvError, EnvErrorView, VarError, Vars};

verus! {

/// How telemetry is sent to the OpenTelemetry collector.
#[derive(Debug, Clone, Copy, PartialEq, Eq, Structural)]
pub enum OtlpProtocol {
    /// `grpc`
    Grpc,
    /// `http/protobuf`
    HttpProtobuf,
    /// `http/json`
    HttpJson,
}

/// The protocol named by `s`.
pub open spec fn spec_parse_protocol(s: Seq<char>) -> Option<OtlpProtocol> {
    if s == "grpc"@ {
        Some(OtlpProtocol::Grpc)
    } else if s == "http/protobuf"@ {
        Some(OtlpProtocol::HttpProtobuf)
    } else if s == "http/json"@ {
        Some(OtlpProtocol::HttpJson)
    } else {
        None
    }
}

/// The environment variable that selects the protocol.
pub open spec fn protocol_key() -> Seq<char> {
    "OTEL_EXPORTER_OTLP_PROTOCOL"@
}

/// The message of the error for a protocol that is not known.
pub open spec fn protocol_choices() -> Seq<char> {
    "'grpc', 'http/protobuf' and 'http/json'"@
}

/// What [`otlp_protocol_from_env`] gives for the environment `vars`.
pub open spec fn spec_protocol_from_env(vars: Vars) -> Result<OtlpProtocol, EnvErrorView> {
    match spec_get_env(protocol_key(), vars.var(protocol_key())) {
        Ok(v) => match spec_parse_protocol(v) {
            Some(p) => Ok(p),
            None => Err(EnvErrorView::ParseFailed(protocol_key(), v, protocol_choices())),
        },
        Err(e) => Err(e),
    }
}

impl OtlpProtocol {
    /// The protocol named `grpc`, `http/protobuf` or `http/json`.
    pub fn parse(s: &str) -> (r: Result<OtlpProtocol, ()>)
        ensures
            match spec_parse_protocol(s@) {
                Some(p) => r == Ok::<OtlpProtocol, ()>(p),
                None => r is Err,
            },
    {
        if str_eq(s, "grpc") {
            Ok(OtlpProtocol::Grpc)
        } else if str_eq(s, "http/protobuf") {
            Ok(OtlpProtocol::HttpProtobuf)
        } else if str_eq(s, "http/json") {
            Ok(OtlpProtocol::HttpJson)
        } else {
            Err(())
        }
    }
}

impl std::str::FromStr for OtlpProtocol {
    type Err = ();

    fn from_str(s: &str) -> (r: Result<OtlpProtocol, ()>)
        ensures
            match spec_parse_protocol(s@) {
                Some(p) => r == Ok::<OtlpProtocol, ()>(p),
                None => r is Err,
            },
    {
        OtlpProtocol::parse(s)
    }
}

/// The name of a protocol in `OTEL_EXPORTER_OTLP_PROTOCOL`.
pub open spec fn protocol_name(p: OtlpProtocol) -> Seq<char> {
    match p {
        OtlpProtocol::Grpc => "grpc"@,
        OtlpProtocol::HttpProtobuf => "http/protobuf"@,
        OtlpProtocol::HttpJson => "http/json"@,
    }
}

/// Reading a protocol's name gives back that protocol, and a text reads as a
/// protocol only when it is that protocol's name.
pub proof fn lemma_parse_protocol_name(p: OtlpProtocol, s: Seq<char>)
    ensures
        spec_parse_protocol(protocol_name(p)) == Some(p),
        spec_parse_protocol(s) == Some(p) ==> s == protocol_name(p),
{
    reveal_strlit("grpc");
    reveal_strlit("http/protobuf");
    reveal_strlit("http/json");
    assert("grpc"@.len() == 4 && "http/protobuf"@.len() == 13 && "http/json"@.len() == 9);
    assert("grpc"@ != "http/protobuf"@ && "grpc"@ != "http/json"@ && "http/protobuf"@ != "http/json"@);
}

/// The protocol read from the environment is the one whose name the variable
/// holds; no protocol is read from a variable that names none.
pub proof fn lemma_protocol_from_env(vars: Vars)
    ensures
        forall|p: OtlpProtocol|
            vars.var(protocol_key()) == Ok::<Seq<char>, VarError>(#[trigger] protocol_name(p))
                ==> spec_protocol_from_env(vars) == Ok::<OtlpProtocol, EnvErrorView>(p),
        spec_protocol_from_env(vars) is Ok ==> vars.var(protocol_key()) == Ok::<
            Seq<char>,
            VarError,
        >(protocol_name(spec_protocol_from_env(vars)->Ok_0)),
{
    assert forall|p: OtlpProtocol|
        vars.var(protocol_key()) == Ok::<Seq<char>, VarError>(#[trigger] protocol_name(p))
            implies spec_protocol_from_env(vars) == Ok::<OtlpProtocol, EnvErrorView>(p) by {
        lemma_parse_protocol_name(p, protocol_name(p));
    }
    if spec_protocol_from_env(vars) is Ok {
        let p = spec_protocol_from_env(vars)->Ok_0;
        let v = vars.var(protocol_key())->Ok_0;
        lemma_parse_protocol_name(p, v);
    }
}

/// The protocol named by `OTEL_EXPORTER_OTLP_PROTOCOL`; a name that is not
/// known is reported with the accepted names.
pub fn otlp_protocol_from_env(vars: &Vars) -> (r: Result<OtlpProtocol, EnvError>)
    ensures
        match r {
            Ok(p) => spec_protocol_from_env(*vars) == Ok::<OtlpProtocol, EnvErrorView>(p),
            Err(e) => spec_protocol_from_env(*vars) == Err::<OtlpProtocol, EnvErrorView>(e@),
        },
        vars.var("OTEL_EXPORTER_OTLP_PROTOCOL"@) == Ok::<Seq<char>, VarError>("grpc"@) ==> r
            == Ok::<OtlpProtocol, EnvError>(OtlpProtocol::Grpc),
        vars.var("OTEL_EXPORTER_OTLP_PROTOCOL"@) == Ok::<Seq<char>, VarError>("http/protobuf"@)
            ==> r == Ok::<OtlpProtocol, EnvError>(OtlpProtocol::HttpProtobuf),
        vars.var("OTEL_EXPORTER_OTLP_PROTOCOL"@) == Ok::<Seq<char>, VarError>("http/json"@) ==> r
            == Ok::<OtlpProtocol, EnvError>(OtlpProtocol::HttpJson),
        r is Ok ==> vars.var("OTEL_EXPORTER_OTLP_PROTOCOL"@) == Ok::<Seq<char>, VarError>(
            protocol_name(r->Ok_0),
        ),
{
    proof {
        lemma_protocol_from_env(*vars);
        assert(protocol_name(OtlpProtocol::Grpc) == "grpc"@);
        assert(protocol_name(OtlpProtocol::HttpProtobuf) == "http/protobuf"@);
        assert(protocol_name(OtlpProtocol::HttpJson) == "http/json"@);
    }
    let key = "OTEL_EXPORTER_OTLP_PROTOCOL";
    match get_env(vars, key) {
        Ok(value) => match OtlpProtocol::parse(value.as_str()) {
            Ok(p) => Ok(p),
            Err(()) => Err(
                EnvError::ParseFailed {
                    key: to_owned_string(key),
                    value,
                    error: to_owned_string("'grpc', 'http/protobuf' and 'http/json'"),
                },
            ),
        },
        Err(e) => Err(e),
    }
}

#[verifier::external_type_specification]
#[verifier::external_body]
pub struct ExResource(::opentelemetry_sdk::Resource);

/// The attributes of a telemetry resource whose values are strings, by key.
pub uninterp spec fn resource_string_attributes(resource: ::opentelemetry_sdk::Resource) -> Map<
    Seq<char>,
    Seq<char>,
>;

/// A telemetry resource with the attribute `service.version` set to `version`
/// (`Resource::builder().with_attribute(KeyValue::new(..)).build()`). The
/// builder starts from the attributes that opentelemetry_sdk detects in the
/// process and its environment; an attribute added with `with_attribute` takes
/// priority over a detected one of the same key, so `service.version` holds
/// `version`. What else was detected is not stated.
#[verifier::external_body]
fn service_version_resource(version: String) -> (r: ::opentelemetry_sdk::Resource)
    ensures
        resource_string_attributes(r).contains_key("service.version"@),
        resource_string_attributes(r)["service.version"@] == version@,
{
    ::opentelemetry_sdk::Resource::builder().with_attribute(
        ::opentelemetry::KeyValue::new("service.version", version),
    ).build()
}

/// How the exporters reach the collector.
#[derive(Debug, Clone, Copy, PartialEq, Eq, Structural)]
pub enum ExporterTransport {
    /// gRPC through tonic.
    Tonic,
    /// HTTP with binary protobuf payloads.
    HttpBinary,
}

/// Identity of the service and what telemetry it exports.
#[derive(Debug, Clone)]
pub struct TelemetryConfig {
    pub service_name: String,
    pub service_version: String,
    /// The export protocol; exporters fall back to their defaults when `None`.
    pub otlp_protocol: Option<OtlpProtocol>,
    pub enable_metrics: bool,
    pub enable_tracing: bool,
}

/// The view of a [`TelemetryConfig`].
pub struct TelemetryConfigView {
    pub service_name: Seq<char>,
    pub service_version: Seq<char>,
    pub otlp_protocol: Option<OtlpProtocol>,
    pub enable_metrics: bool,
    pub enable_tracing: bool,
}

impl View for TelemetryConfig {
    type V = TelemetryConfigView;

    open spec fn view(&self) -> TelemetryConfigView {
        TelemetryConfigView {
            service_name: self.service_name@,
            service_version: self.service_version@,
            otlp_protocol: self.otlp_protocol,
            enable_metrics: self.enable_metrics,
            enable_tracing: self.enable_tracing,
        }
    }
}

/// The configuration of a service named `name` in the environment `vars`:
/// version `0.1.0`, the protocol of `OTEL_EXPORTER_OTLP_PROTOCOL` when it is
/// set to a known one, metrics and tracing off.
pub open spec fn spec_config(name: Seq<char>, vars: Vars) -> TelemetryConfigView {
    TelemetryConfigView {
        service_name: name,
        service_version: "0.1.0"@,
        otlp_protocol: match spec_protocol_from_env(vars) {
            Ok(p) => Some(p),
            Err(_) => None,
        },
        enable_metrics: false,
        enable_tracing: false,
    }
}

impl TelemetryConfig {
    /// The default configuration in the environment `vars`: service
    /// `unknown`, version `0.1.0`, the protocol of
    /// `OTEL_EXPORTER_OTLP_PROTOCOL` when it names a known one, metrics and
    /// tracing off.
    pub fn from_env(vars: &Vars) -> (c: TelemetryConfig)
        ensures
            c@ == spec_config("unknown"@, *vars),
            forall|p: OtlpProtocol|
                vars.var(protocol_key()) == Ok::<Seq<char>, VarError>(#[trigger] protocol_name(p))
                    ==> c.otlp_protocol == Some(p),
            c.otlp_protocol is Some ==> vars.var(protocol_key()) == Ok::<Seq<char>, VarError>(
                protocol_name(c.otlp_protocol->0),
            ),
    {
        proof {
            lemma_protocol_from_env(*vars);
        }
        Self::new(to_owned_string("unknown"), vars)
    }

    /// The default configuration for the service `name` in the environment
    /// `vars`.
    pub fn new(name: String, vars: &Vars) -> (c: TelemetryConfig)
        ensures
            c@ == spec_config(name@, *vars),
            forall|p: OtlpProtocol|
                vars.var(protocol_key()) == Ok::<Seq<char>, VarError>(#[trigger] protocol_name(p))
                    ==> c.otlp_protocol == Some(p),
            c.otlp_protocol is Some ==> vars.var(protocol_key()) == Ok::<Seq<char>, VarError>(
                protocol_name(c.otlp_protocol->0),
            ),
    {
        proof {
            lemma_protocol_from_env(*vars);
        }
        let otlp_protocol = match otlp_protocol_from_env(vars) {
            Ok(p) => Some(p),
            Err(_) => None,
        };
        TelemetryConfig {
            service_name: name,
            service_version: to_owned_string("0.1.0"),
            otlp_protocol,
            enable_metrics: false,
            enable_tracing: false,
        }
    }

    /// The same configuration with another service version.
    pub fn with_service_version(self, value: String) -> (c: TelemetryConfig)
        ensures
            c@ == (TelemetryConfigView { service_version: value@, ..self@ }),
    {
        let mut c = self;
        c.service_version = value;
        c
    }

    /// The same configuration with metrics on or off.
    pub fn with_metrics(self, value: bool) -> (c: TelemetryConfig)
        ensures
            c@ == (TelemetryConfigView { enable_metrics: value, ..self@ }),
    {
        let mut c = self;
        c.enable_metrics = value;
        c
    }

    /// The same configuration with tracing on or off.
    pub fn with_tracing(self, value: bool) -> (c: TelemetryConfig)
        ensures
            c@ == (TelemetryConfigView { enable_tracing: value, ..self@ }),
    {
        let mut c = self;
        c.enable_tracing = value;
        c
    }

    /// The telemetry resource that names the service version: its attribute
    /// `service.version` is this configuration's version.
    pub fn get_resource(&self) -> (r: ::opentelemetry_sdk::Resource)
        ensures
            resource_string_attributes(r).contains_key("service.version"@),
            resource_string_attributes(r)["service.version"@] == self.service_version@,
    {
        service_version_resource(self.service_version.clone())
    }

    /// How the metric and span exporters reach the collector: over gRPC for
    /// the `grpc` protocol, over HTTP with binary protobuf for the others;
    /// `None` leaves the exporters to their defaults.
    pub fn exporter_transport(&self) -> (t: Option<ExporterTransport>)
        ensures
            t == match self.otlp_protocol {
                Some(OtlpProtocol::Grpc) => Some(ExporterTransport::Tonic),
                Some(_) => Some(ExporterTransport::HttpBinary),
                None => None::<ExporterTransport>,
            },
    {
        match self.otlp_protocol {
            Some(OtlpProtocol::Grpc) => Some(ExporterTransport::Tonic),
            Some(_) => Some(ExporterTransport::HttpBinary),
            None => None,
        }
    }
}

/// What the tracing setup reports, given which exporters were started.
pub open spec fn spec_telemetry_status(metrics: bool, tracing: bool) -> Seq<char> {
    if metrics && tracing {
        "Opentelemetry enabled: metrics and tracing"@
    } else if metrics {
        "Opentelemetry enabled: metrics"@
    } else if tracing {
        "Opentelemetry enabled: tracing"@
    } else {
        "OpenTelemetry not enabled: fallback to default tracing"@
    }
}

/// What the tracing setup reports, given which exporters were started.
pub fn telemetry_status(metrics: bool, tracing: bool) -> (s: String)
    ensures
        s@ == spec_telemetry_status(metrics, tracing),
{
    if metrics && tracing {
        to_owned_string("Opentelemetry enabled: metrics and tracing")
    } else if metrics {
        to_owned_string("Opentelemetry enabled: metrics")
    } else if tracing {
        to_owned_string("Opentelemetry enabled: tracing")
    } else {
        to_owned_string("OpenTelemetry not enabled: fallback to default tracing")
    }
}

} // verus!
