//! E-mail: composing messages and configuring an SMTP transport.

pub mod builder;
pub mod config;
pub mod error;
pub mod mailbox;
pub mod transport;

pub use self::builder::{ContentKind, EmailBuilder, EmailMessage};
pub use self::error::{AddressErrorKind, LettreError, MessageError};
pub use self::mailbox::Mailbox;
pub use self::config::EmailConfig;
pub use self::transport::Lettre;
