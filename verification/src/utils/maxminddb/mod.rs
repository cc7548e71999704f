//! Client information for requests: the client's address and time zone, read
//! from request headers or looked up in a MaxMind GeoLite2 city database.

pub mod archive;
pub mod client;
pub mod error;
pub mod headers;
pub mod timezone;

pub use self::client::{get_client_ip_header, MaxMindDB};
pub use self::headers::get_header_value;
pub use self::timezone::Tz;
