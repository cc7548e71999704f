//! Errors of e-mail composition and delivery.

use vstd::prelude::*;

use crate::utils::env::{EnvError, EnvErrorView};

verus! {

/// Why an e-mail address or mailbox was not accepted.
#[derive(Debug, Clone, Copy, PartialEq, Eq, Structural)]
pub enum AddressErrorKind {
    /// The address has no `@` separating user and domain.
    MissingParts,
    /// An angle bracket is not closed.
    Unbalanced,
    /// The user part is not a valid local part.
    InvalidUser,
    /// The domain part is neither a valid domain nor an IP address.
    InvalidDomain,
    /// The text is not a mailbox.
    InvalidInput,
}

/// Why a message could not be put together.
#[derive(Debug)]
pub enum MessageError {
    MissingFrom,
    MissingTo,
    TooManyFrom,
    EmailMissingAt,
    EmailMissingLocalPart,
    EmailMissingDomain,
    CannotParseFilename,
    /// An input or output error, by its message.
    Io(String),
    NonAsciiChars,
}

/// The view of a [`MessageError`].
pub enum MessageErrorView {
    MissingFrom,
    MissingTo,
    TooManyFrom,
    EmailMissingAt,
    EmailMissingLocalPart,
    EmailMissingDomain,
    CannotParseFilename,
    Io(Seq<char>),
    NonAsciiChars,
}

impl View for MessageError {
    type V = MessageErrorView;

    open spec fn view(&self) -> MessageErrorView {
        match self {
            MessageError::MissingFrom => MessageErrorView::MissingFrom,
            MessageError::MissingTo => MessageErrorView::MissingTo,
            MessageError::TooManyFrom => MessageErrorView::TooManyFrom,
            MessageError::EmailMissingAt => MessageErrorView::EmailMissingAt,
            MessageError::EmailMissingLocalPart => MessageErrorView::EmailMissingLocalPart,
            MessageError::EmailMissingDomain => MessageErrorView::EmailMissingDomain,
            MessageError::CannotParseFilename => MessageErrorView::CannotParseFilename,
            MessageError::Io(m) => MessageErrorView::Io(m@),
            MessageError::NonAsciiChars => MessageErrorView::NonAsciiChars,
        }
    }
}

/// Why composing, configuring or sending e-mail failed.
#[derive(Debug)]
pub enum LettreError {
    /// The message could not be put together.
    MessageBuilder(MessageError),
    /// The SMTP transport failed, by its message.
    Transport(String),
    /// An address was not accepted.
    InvalidAddress(AddressErrorKind),
    /// The configuration could not be read from the environment.
    Environment(EnvError),
}

/// The view of a [`LettreError`].
pub enum LettreErrorView {
    MessageBuilder(MessageErrorView),
    Transport(Seq<char>),
    InvalidAddress(AddressErrorKind),
    Environment(EnvErrorView),
}

impl View for LettreError {
    type V = LettreErrorView;

    open spec fn view(&self) -> LettreErrorView {
        match self {
            LettreError::MessageBuilder(e) => LettreErrorView::MessageBuilder(e@),
            LettreError::Transport(m) => LettreErrorView::Transport(m@),
            LettreError::InvalidAddress(e) => LettreErrorView::InvalidAddress(*e),
            LettreError::Environment(e) => LettreErrorView::Environment(e@),
        }
    }
}

} // verus!
