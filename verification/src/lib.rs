//! Shared building blocks of a web service: identifier generation, environment
//! configuration, e-mail composition, client time-zone resolution, JSON Web Token
//! claims and telemetry configuration.

pub mod app_error;
pub mod identifiers;
pub mod telemetry;
pub mod text;
pub mod utils;
