//! Settings of the SMTP connection.

use vstd::prelude::*;

use super::error::{LettreError, LettreErrorView};
use crate::text::to_owned_string;
use crate::utils::env::{
    get_env, get_env_or_default, parse_bool, parse_u16, spec_get_env, spec_parse_bool,
    spec_parse_u16, EnvErrorView, VarError, Vars,
};

verus! {

/// Where and how to connect for sending e-mail.
#[derive(Debug, Clone)]
pub struct EmailConfig {
    pub smtp_host: String,
    /// The port; the transport's default when `None`.
    pub smtp_port: Option<u16>,
    pub username: String,
    pub password: String,
    /// Whether to require STARTTLS.
    pub use_tls: bool,
}

/// The view of an [`EmailConfig`].
pub struct EmailConfigView {
    pub smtp_host: Seq<char>,
    pub smtp_port: Option<u16>,
    pub username: Seq<char>,
    pub password: Seq<char>,
    pub use_tls: bool,
}

impl View for EmailConfig {
    type V = EmailConfigView;

    open spec fn view(&self) -> EmailConfigView {
        EmailConfigView {
            smtp_host: self.smtp_host@,
            smtp_port: self.smtp_port,
            username: self.username@,
            password: self.password@,
            use_tls: self.use_tls,
        }
    }
}

/// The port that `SMTP_PORT` gives: its value when it is set and reads as a
/// 16-bit number.
pub open spec fn spec_env_port(var: Result<Seq<char>, VarError>) -> Option<u16> {
    match var {
        Ok(v) => spec_parse_u16(v),
        Err(_) => None,
    }
}

/// Whether `SMTP_USE_TLS` asks for TLS: yes unless it is set to `false`.
pub open spec fn spec_env_use_tls(var: Result<Seq<char>, VarError>) -> bool {
    let text = match var {
        Ok(v) => v,
        Err(_) => "true"@,
    };
    match spec_parse_bool(text) {
        Some(b) => b,
        None => true,
    }
}

/// What [`EmailConfig::from_env`] gives for the environment `vars`.
pub open spec fn spec_config_from_env(vars: Vars) -> Result<EmailConfigView, LettreErrorView> {
    match spec_get_env("SMTP_HOST"@, vars.var("SMTP_HOST"@)) {
        Err(e) => Err(LettreErrorView::Environment(e)),
        Ok(host) => match spec_get_env("SMTP_USERNAME"@, vars.var("SMTP_USERNAME"@)) {
            Err(e) => Err(LettreErrorView::Environment(e)),
            Ok(username) => match spec_get_env("SMTP_PASSWORD"@, vars.var("SMTP_PASSWORD"@)) {
                Err(e) => Err(LettreErrorView::Environment(e)),
                Ok(password) => Ok(
                    EmailConfigView {
                        smtp_host: host,
                        smtp_port: spec_env_port(vars.var("SMTP_PORT"@)),
                        username,
                        password,
                        use_tls: spec_env_use_tls(vars.var("SMTP_USE_TLS"@)),
                    },
                ),
            },
        },
    }
}

/// The view of a configuration result.
pub open spec fn config_result(r: Result<EmailConfig, LettreError>) -> Result<
    EmailConfigView,
    LettreErrorView,
> {
    match r {
        Ok(c) => Ok(c@),
        Err(e) => Err(e@),
    }
}

impl EmailConfig {
    /// A configuration for the given host and credentials, on the default
    /// port, with TLS.
    pub fn new(smtp_host: String, username: String, password: String) -> (c: EmailConfig)
        ensures
            c@ == (EmailConfigView {
                smtp_host: smtp_host@,
                smtp_port: None,
                username: username@,
                password: password@,
                use_tls: true,
            }),
    {
        EmailConfig { smtp_host, smtp_port: None, username, password, use_tls: true }
    }

    /// The same configuration on the given port.
    pub fn with_port(self, port: u16) -> (c: EmailConfig)
        ensures
            c@ == (EmailConfigView { smtp_port: Some(port), ..self@ }),
    {
        let mut c = self;
        c.smtp_port = Some(port);
        c
    }

    /// The same configuration with TLS required or not.
    pub fn with_tls(self, use_tls: bool) -> (c: EmailConfig)
        ensures
            c@ == (EmailConfigView { use_tls, ..self@ }),
    {
        let mut c = self;
        c.use_tls = use_tls;
        c
    }

    /// The configuration given by the variables `SMTP_HOST`, `SMTP_PORT`,
    /// `SMTP_USERNAME`, `SMTP_PASSWORD` and `SMTP_USE_TLS`. Host, user name and
    /// password are required; a port that is missing or unreadable is left to
    /// the transport; TLS is used unless `SMTP_USE_TLS` is `false`.
    pub fn from_env(vars: &Vars) -> (r: Result<EmailConfig, LettreError>)
        ensures
            config_result(r) == spec_config_from_env(*vars),
    {
        let smtp_host = match get_env(vars, "SMTP_HOST") {
            Ok(v) => v,
            Err(e) => return Err(LettreError::Environment(e)),
        };
        let smtp_port = match get_env(vars, "SMTP_PORT") {
            Ok(v) => parse_u16(v.as_str()),
            Err(_) => None,
        };
        let username = match get_env(vars, "SMTP_USERNAME") {
            Ok(v) => v,
            Err(e) => return Err(LettreError::Environment(e)),
        };
        let password = match get_env(vars, "SMTP_PASSWORD") {
            Ok(v) => v,
            Err(e) => return Err(LettreError::Environment(e)),
        };
        let use_tls_text = get_env_or_default(vars, "SMTP_USE_TLS", to_owned_string("true"));
        let use_tls = match parse_bool(use_tls_text.as_str()) {
            Some(b) => b,
            None => true,
        };
        Ok(EmailConfig { smtp_host, smtp_port, username, password, use_tls })
    }
}

} // verus!
