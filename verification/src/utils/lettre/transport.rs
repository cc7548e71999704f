//! The SMTP transport that delivers messages.

use vstd::prelude::*;

use super::config::{spec_config_from_env, EmailConfig, EmailConfigView};
use super::error::{LettreError, LettreErrorView};
use crate::utils::env::Vars;

verus! {

#[verifier::external_type_specification]
#[verifier::external_body]
pub struct ExAsyncSmtpTransportBuilder(::lettre::transport::smtp::AsyncSmtpTransportBuilder);

#[verifier::external_type_specification]
#[verifier::external_body]
pub struct ExCredentials(::lettre::transport::smtp::authentication::Credentials);

/// The port of an unencrypted SMTP relay (lettre's `SMTP_PORT`).
pub const SMTP_PORT: u16 = 25;

/// The mail submission port, used with STARTTLS (lettre's `SUBMISSION_PORT`).
pub const SUBMISSION_PORT: u16 = 587;

/// What an SMTP transport is set up to do: the relay host and port, the
/// credentials it authenticates with, if any, and whether it requires
/// STARTTLS (otherwise it does not encrypt).
pub struct SmtpSettingsView {
    pub host: Seq<char>,
    pub port: u16,
    pub credentials: Option<(Seq<char>, Seq<char>)>,
    pub starttls_required: bool,
}

/// SMTP credentials: a user name and a password.
pub struct SmtpCredentials {
    inner: ::lettre::transport::smtp::authentication::Credentials,
    login: Ghost<(Seq<char>, Seq<char>)>,
}

impl View for SmtpCredentials {
    type V = (Seq<char>, Seq<char>);

    closed spec fn view(&self) -> (Seq<char>, Seq<char>) {
        self.login@
    }
}

/// The settings of an SMTP transport, as lettre holds them
/// (`AsyncSmtpTransportBuilder`), with what they were set to.
pub struct SmtpRelay {
    builder: ::lettre::transport::smtp::AsyncSmtpTransportBuilder,
    settings: Ghost<SmtpSettingsView>,
}

impl View for SmtpRelay {
    type V = SmtpSettingsView;

    closed spec fn view(&self) -> SmtpSettingsView {
        self.settings@
    }
}

impl SmtpRelay {
    /// The lettre builder that holds these settings.
    pub closed spec fn transport_builder(&self) -> ::lettre::transport::smtp::AsyncSmtpTransportBuilder {
        self.builder
    }

    /// The lettre builder that holds these settings; a transport is made from
    /// it with `build`.
    pub fn builder(&self) -> (b: &::lettre::transport::smtp::AsyncSmtpTransportBuilder)
        ensures
            *b == self.transport_builder(),
    {
        &self.builder
    }
}

/// SMTP credentials of `username` and `password` (`Credentials::new`, which
/// keeps both).
#[verifier::external_body]
fn smtp_credentials(username: String, password: String) -> (c: SmtpCredentials)
    ensures
        c@ == (username@, password@),
{
    SmtpCredentials {
        login: Ghost((username@, password@)),
        inner: ::lettre::transport::smtp::authentication::Credentials::new(username, password),
    }
}

/// A transport to `host` that requires STARTTLS, on the submission port,
/// without credentials (`AsyncSmtpTransport::starttls_relay`, which is
/// `builder_dangerous(host).port(SUBMISSION_PORT).tls(Tls::Required(..))`). It
/// fails, with the transport error's message, when the TLS parameters for the
/// host cannot be made; that depends on the system's TLS setup.
#[verifier::external_body]
fn starttls_relay(host: &str) -> (r: Result<SmtpRelay, String>)
    ensures
        r is Ok ==> r->Ok_0@ == (SmtpSettingsView {
            host: host@,
            port: SUBMISSION_PORT,
            credentials: None,
            starttls_required: true,
        }),
{
    match ::lettre::AsyncSmtpTransport::<::lettre::Tokio1Executor>::starttls_relay(host) {
        Ok(builder) => Ok(SmtpRelay { builder, settings: Ghost(SmtpSettingsView {
            host: host@,
            port: SUBMISSION_PORT,
            credentials: None,
            starttls_required: true,
        }) }),
        Err(e) => Err(e.to_string()),
    }
}

/// A transport to `host` on port 25, without encryption or credentials
/// (`AsyncSmtpTransport::builder_dangerous`).
#[verifier::external_body]
fn unencrypted_relay(host: &str) -> (r: SmtpRelay)
    ensures
        r@ == (SmtpSettingsView {
            host: host@,
            port: SMTP_PORT,
            credentials: None,
            starttls_required: false,
        }),
{
    SmtpRelay {
        builder: ::lettre::AsyncSmtpTransport::<::lettre::Tokio1Executor>::builder_dangerous(host),
        settings: Ghost(SmtpSettingsView { host: host@, port: SMTP_PORT, credentials: None, starttls_required: false }),
    }
}

/// The same settings with the given credentials
/// (`AsyncSmtpTransportBuilder::credentials`).
#[verifier::external_body]
fn with_credentials(r: SmtpRelay, c: SmtpCredentials) -> (s: SmtpRelay)
    ensures
        s@ == (SmtpSettingsView { credentials: Some(c@), ..r@ }),
{
    SmtpRelay {
        settings: Ghost(SmtpSettingsView { credentials: Some(c@), ..r@ }),
        builder: r.builder.credentials(c.inner),
    }
}

/// The same settings on the given port (`AsyncSmtpTransportBuilder::port`).
#[verifier::external_body]
fn with_port(r: SmtpRelay, port: u16) -> (s: SmtpRelay)
    ensures
        s@ == (SmtpSettingsView { port, ..r@ }),
{
    SmtpRelay { settings: Ghost(SmtpSettingsView { port, ..r@ }), builder: r.builder.port(port) }
}

/// The settings that a configuration asks for: its host; its port, else the
/// submission port with TLS and port 25 without; its user name and password;
/// STARTTLS required exactly when TLS is on.
pub open spec fn spec_smtp_settings(config: EmailConfigView) -> SmtpSettingsView {
    SmtpSettingsView {
        host: config.smtp_host,
        port: match config.smtp_port {
            Some(p) => p,
            None => if config.use_tls {
                SUBMISSION_PORT
            } else {
                SMTP_PORT
            },
        },
        credentials: Some((config.username, config.password)),
        starttls_required: config.use_tls,
    }
}

/// The settings asked for by a configuration relay to its host, authenticate
/// with its user name and password (in that order), require STARTTLS exactly
/// when TLS is on, and use its port, else 587 with TLS and 25 without.
pub proof fn lemma_smtp_settings(config: EmailConfigView)
    ensures
        spec_smtp_settings(config).host == config.smtp_host,
        spec_smtp_settings(config).credentials == Some((config.username, config.password)),
        spec_smtp_settings(config).starttls_required == config.use_tls,
        config.smtp_port is Some ==> spec_smtp_settings(config).port == config.smtp_port->0,
        config.smtp_port is None && config.use_tls ==> spec_smtp_settings(config).port == 587,
        config.smtp_port is None && !config.use_tls ==> spec_smtp_settings(config).port == 25,
{
}

/// The SMTP transport that sends e-mail, by its settings. The transport itself
/// is made from them where messages are sent.
pub struct Lettre(SmtpRelay);

impl View for Lettre {
    type V = SmtpSettingsView;

    /// The settings of the transport.
    closed spec fn view(&self) -> SmtpSettingsView {
        self.0@
    }
}

impl Lettre {
    /// The transport configured by the environment (see [`EmailConfig::from_env`]).
    pub fn init(vars: &Vars) -> (r: Result<Lettre, LettreError>)
        ensures
            spec_config_from_env(*vars) is Err ==> r is Err && Err::<
                EmailConfigView,
                LettreErrorView,
            >(r->Err_0@) == spec_config_from_env(*vars),
            spec_config_from_env(*vars) is Ok && !spec_config_from_env(*vars)->Ok_0.use_tls
                ==> r is Ok,
            r is Err ==> spec_config_from_env(*vars) is Err || (spec_config_from_env(
                *vars,
            )->Ok_0.use_tls && r->Err_0@ is Transport),
            r is Ok ==> spec_config_from_env(*vars) is Ok && r->Ok_0@ == spec_smtp_settings(
                spec_config_from_env(*vars)->Ok_0,
            ),
            r is Ok ==> r->Ok_0@.credentials == Some(
                (
                    spec_config_from_env(*vars)->Ok_0.username,
                    spec_config_from_env(*vars)->Ok_0.password,
                ),
            ),
            r is Ok ==> r->Ok_0@.host == spec_config_from_env(*vars)->Ok_0.smtp_host,
    {
        let config = match EmailConfig::from_env(vars) {
            Ok(c) => c,
            Err(e) => return Err(e),
        };
        match Self::init_with_config(config) {
            Ok(transport) => Ok(Lettre(transport)),
            Err(e) => Err(e),
        }
    }

    /// A transport to the configured host with the configured credentials:
    /// requiring STARTTLS, on the submission port unless another is set, when
    /// TLS is on; unencrypted, on port 25 unless another is set, otherwise.
    pub fn init_with_config(config: EmailConfig) -> (r: Result<SmtpRelay, LettreError>)
        ensures
            !config.use_tls ==> r is Ok,
            r is Err ==> config.use_tls && r->Err_0@ is Transport,
            r is Ok ==> r->Ok_0@ == spec_smtp_settings(config@),
            r is Ok ==> r->Ok_0@.host == config.smtp_host@,
            r is Ok ==> r->Ok_0@.credentials == Some((config.username@, config.password@)),
            r is Ok ==> r->Ok_0@.starttls_required == config.use_tls,
            r is Ok && config.smtp_port is Some ==> r->Ok_0@.port == config.smtp_port->0,
            r is Ok && config.smtp_port is None && config.use_tls ==> r->Ok_0@.port == 587,
            r is Ok && config.smtp_port is None && !config.use_tls ==> r->Ok_0@.port == 25,
    {
        let creds = smtp_credentials(config.username, config.password);
        let transport = if config.use_tls {
            match starttls_relay(config.smtp_host.as_str()) {
                Ok(b) => b,
                Err(m) => return Err(LettreError::Transport(m)),
            }
        } else {
            unencrypted_relay(config.smtp_host.as_str())
        };
        let transport = with_credentials(transport, creds);
        let transport = match config.smtp_port {
            Some(port) => with_port(transport, port),
            None => transport,
        };
        Ok(transport)
    }

    /// The transport's settings.
    pub fn settings(&self) -> (s: &SmtpRelay)
        ensures
            s@ == self@,
    {
        &self.0
    }
}

} // verus!
