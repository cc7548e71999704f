//! Mailboxes (an optional display name and an address) and how text is read as one.

use vstd::prelude::*;

use super::error::AddressErrorKind;

verus! {

/// An e-mail address with an optional display name, such as
/// `Alice <alice@example.com>`.
pub struct Mailbox {
    /// The display name, if any.
    pub name: Option<String>,
    /// The part of the address before the `@`.
    pub user: String,
    /// The part of the address after the `@`.
    pub domain: String,
}

/// The view of a [`Mailbox`]: display name, user and domain.
pub type MailboxView = (Option<Seq<char>>, Seq<char>, Seq<char>);

impl View for Mailbox {
    type V = MailboxView;

    open spec fn view(&self) -> MailboxView {
        (
            match self.name {
                Some(n) => Some(n@),
                None => None,
            },
            self.user@,
            self.domain@,
        )
    }
}

/// The view of a mailbox result.
pub open spec fn mailbox_result(r: Result<Mailbox, AddressErrorKind>) -> Result<
    MailboxView,
    AddressErrorKind,
> {
    match r {
        Ok(m) => Ok(m@),
        Err(e) => Err(e),
    }
}

/// The view of an address result: user and domain.
pub open spec fn address_result(r: Result<(String, String), AddressErrorKind>) -> Result<
    (Seq<char>, Seq<char>),
    AddressErrorKind,
> {
    match r {
        Ok((user, domain)) => Ok((user@, domain@)),
        Err(e) => Err(e),
    }
}

/// What lettre reads from a mailbox text such as `Alice <alice@example.com>` or
/// `alice@example.com`: display name, user and domain, or why it is refused.
pub uninterp spec fn spec_parse_mailbox(text: Seq<char>) -> Result<MailboxView, AddressErrorKind>;

/// What lettre reads from an address text such as `alice@example.com`: user and
/// domain, or why it is refused.
pub uninterp spec fn spec_parse_address(text: Seq<char>) -> Result<
    (Seq<char>, Seq<char>),
    AddressErrorKind,
>;

#[verifier::external_type_specification]
#[verifier::external_body]
pub struct ExLettreAddressError(::lettre::address::AddressError);

/// The library's name for a lettre address error, variant for variant
/// (`lettre::address::AddressErrorKind` is `non_exhaustive`; the version used has
/// exactly these five variants).
#[verifier::external_body]
fn address_error(e: ::lettre::address::AddressError) -> AddressErrorKind {
    match e {
        ::lettre::address::AddressError::MissingParts => AddressErrorKind::MissingParts,
        ::lettre::address::AddressError::Unbalanced => AddressErrorKind::Unbalanced,
        ::lettre::address::AddressError::InvalidUser => AddressErrorKind::InvalidUser,
        ::lettre::address::AddressError::InvalidDomain => AddressErrorKind::InvalidDomain,
        _ => AddressErrorKind::InvalidInput,
    }
}

/// Whether a display name has no line break (carriage return or line feed).
pub open spec fn no_line_break(name: Seq<char>) -> bool {
    !name.contains('\r') && !name.contains('\n')
}

/// Reads a mailbox text (`lettre::message::Mailbox`'s `FromStr`); the result is
/// named by [`spec_parse_mailbox`]. The display name that lettre's parser reads
/// is made of atoms, quoted-string contents, `.`, spaces and tabs, none of
/// which admits a carriage return or a line feed.
#[verifier::external_body]
pub(crate) fn parse_mailbox(text: &str) -> (r: Result<Mailbox, AddressErrorKind>)
    ensures
        mailbox_result(r) == spec_parse_mailbox(text@),
        r is Ok && r->Ok_0.name is Some ==> no_line_break(r->Ok_0.name->0@),
{
    match text.parse::<::lettre::message::Mailbox>() {
        Ok(m) => Ok(
            Mailbox { name: m.name, user: m.email.user().to_string(), domain: m.email.domain().to_string() },
        ),
        Err(e) => Err(address_error(e)),
    }
}

/// Reads an address text (`lettre::Address`'s `FromStr`); the result is named
/// by [`spec_parse_address`]. lettre splits the text at its last `@`: a text
/// without `@` is refused as `MissingParts`, and an accepted text is the user,
/// the `@` and the domain.
#[verifier::external_body]
pub(crate) fn parse_address(text: &str) -> (r: Result<(String, String), AddressErrorKind>)
    ensures
        address_result(r) == spec_parse_address(text@),
        !text@.contains('@') ==> r is Err && r->Err_0 == AddressErrorKind::MissingParts,
        r is Ok ==> text@ == r->Ok_0.0@ + seq!['@'] + r->Ok_0.1@,
{
    match text.parse::<::lettre::Address>() {
        Ok(a) => Ok((a.user().to_string(), a.domain().to_string())),
        Err(e) => Err(address_error(e)),
    }
}

} // verus!
