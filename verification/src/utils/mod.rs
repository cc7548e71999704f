//! Environment configuration, JSON Web Token claims, e-mail composition and
//! client time-zone resolution.

pub mod env;
pub mod lettre;
pub mod maxminddb;
pub mod jsonwebtoken;
