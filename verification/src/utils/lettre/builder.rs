//! Putting an e-mail message together step by step.

use vstd::prelude::*;

use super::error::{AddressErrorKind, LettreError, LettreErrorView, MessageError, MessageErrorView};
use super::mailbox::{
    no_line_break, parse_address, parse_mailbox, spec_parse_address, spec_parse_mailbox, Mailbox,
    MailboxView,
};
use crate::text::{lemma_trim_contains, to_owned_string, trim};

verus! {

#[verifier::external_type_specification]
#[verifier::external_body]
pub struct ExMessage(::lettre::Message);

#[verifier::external_type_specification]
#[verifier::external_body]
pub struct ExMessageBuilder(::lettre::message::MessageBuilder);

#[verifier::external_type_specification]
#[verifier::external_body]
pub struct ExEmailError(::lettre::error::Error);

/// How the body of a message is to be read.
#[derive(Debug, Clone, Copy, PartialEq, Eq, Structural)]
pub enum ContentKind {
    /// `text/plain; charset=utf-8`
    Plain,
    /// `text/html; charset=utf-8`
    Html,
}

/// Collects the parts of an e-mail message; [`EmailBuilder::build`] turns them
/// into a message.
pub struct EmailBuilder {
    from: Option<Mailbox>,
    to: Vec<Mailbox>,
    cc: Vec<Mailbox>,
    bcc: Vec<Mailbox>,
    reply_to: Option<Mailbox>,
    subject: Option<String>,
    body: Option<String>,
    is_html: bool,
}

/// The view of an [`EmailBuilder`].
pub struct EmailBuilderView {
    pub from: Option<MailboxView>,
    pub to: Seq<MailboxView>,
    pub cc: Seq<MailboxView>,
    pub bcc: Seq<MailboxView>,
    pub reply_to: Option<MailboxView>,
    pub subject: Option<Seq<char>>,
    pub body: Option<Seq<char>>,
    pub is_html: bool,
}

/// The views of a list of mailboxes.
pub open spec fn mailboxes_view(v: Seq<Mailbox>) -> Seq<MailboxView> {
    v.map_values(|m: Mailbox| m@)
}

/// The view of an optional mailbox.
pub open spec fn option_mailbox_view(m: Option<Mailbox>) -> Option<MailboxView> {
    match m {
        Some(m) => Some(m@),
        None => None,
    }
}

/// The view of an optional string.
pub open spec fn option_string_view(s: Option<String>) -> Option<Seq<char>> {
    match s {
        Some(s) => Some(s@),
        None => None,
    }
}

impl View for EmailBuilder {
    type V = EmailBuilderView;

    closed spec fn view(&self) -> EmailBuilderView {
        EmailBuilderView {
            from: option_mailbox_view(self.from),
            to: mailboxes_view(self.to@),
            cc: mailboxes_view(self.cc@),
            bcc: mailboxes_view(self.bcc@),
            reply_to: option_mailbox_view(self.reply_to),
            subject: option_string_view(self.subject),
            body: option_string_view(self.body),
            is_html: self.is_html,
        }
    }
}

/// A builder whose step succeeded with view `v`, or that failed with `e`.
pub open spec fn builder_result(r: Result<EmailBuilder, LettreError>) -> Result<
    EmailBuilderView,
    LettreErrorView,
> {
    match r {
        Ok(b) => Ok(b@),
        Err(e) => Err(e@),
    }
}

/// What a step that adds a parsed mailbox gives: the builder changed by `add`
/// when `parsed` succeeded, the address error otherwise.
pub open spec fn added<T>(
    parsed: Result<T, AddressErrorKind>,
    step: spec_fn(T) -> EmailBuilderView,
) -> Result<EmailBuilderView, LettreErrorView> {
    match parsed {
        Ok(m) => Ok(step(m)),
        Err(e) => Err(LettreErrorView::InvalidAddress(e)),
    }
}

/// The mailbox made of a display name and a parsed address.
pub open spec fn named_mailbox(name: Seq<char>, address: (Seq<char>, Seq<char>)) -> MailboxView {
    (Some(name), address.0, address.1)
}

/// Whether lettre can write a display name into a header: it writes the name
/// trimmed, and a line break inside it makes the header's text fail to format,
/// on which lettre panics.
pub open spec fn writable_name(name: Option<Seq<char>>) -> bool {
    match name {
        Some(n) => no_line_break(trim(n)),
        None => true,
    }
}

/// The display name of a mailbox.
pub open spec fn display_name(m: MailboxView) -> Option<Seq<char>> {
    m.0
}

/// Whether every mailbox of a list has a writable display name.
pub open spec fn all_writable(ms: Seq<MailboxView>) -> bool {
    forall|i: int| 0 <= i < ms.len() ==> writable_name(display_name(#[trigger] ms[i]))
}

/// Whether every mailbox that a builder holds has a writable display name.
pub open spec fn builder_writable(b: EmailBuilderView) -> bool {
    &&& b.from is Some ==> writable_name(display_name(b.from->0))
    &&& all_writable(b.to)
    &&& all_writable(b.cc)
    &&& all_writable(b.bcc)
    &&& b.reply_to is Some ==> writable_name(display_name(b.reply_to->0))
}

/// What lettre reads back from the text that it writes for a non-empty list
/// of mailboxes in an address header: the list's `Display` (each display name
/// trimmed, and quoted where it is not an atom; mailboxes joined by `, `) read
/// by `Mailboxes`'s `FromStr` (lettre's RFC 2822 parser, then
/// `Address::new`), or nothing when that text does not read.
pub uninterp spec fn spec_read_back(mailboxes: Seq<MailboxView>) -> Option<Seq<MailboxView>>;

/// What an address header holds after a mailbox is added to it, as the list
/// whose text the header holds (`MessageBuilder::mailbox`): a new header of
/// that mailbox when there was none; else the mailboxes lettre reads back from
/// the header followed by the new one, or the new one alone when the header
/// does not read back.
pub open spec fn add_mailbox(header: Seq<MailboxView>, m: MailboxView) -> Seq<MailboxView> {
    if header.len() == 0 {
        seq![m]
    } else {
        match spec_read_back(header) {
            Some(kept) => kept.push(m),
            None => seq![m],
        }
    }
}

/// An address header after the mailboxes `ms` are added to it in order.
pub open spec fn add_mailboxes(header: Seq<MailboxView>, ms: Seq<MailboxView>) -> Seq<MailboxView>
    decreases ms.len(),
{
    if ms.len() == 0 {
        header
    } else {
        add_mailbox(add_mailboxes(header, ms.drop_last()), ms.last())
    }
}

/// Whether lettre reads every non-empty prefix of a list of mailboxes back
/// unchanged.
pub open spec fn reads_back(ms: Seq<MailboxView>) -> bool {
    forall|k: int| 1 <= k <= ms.len() ==> #[trigger] spec_read_back(ms.take(k)) == Some(ms.take(k))
}

/// The mailboxes that lettre reads from an address header: none when the
/// header is absent or does not read back.
pub open spec fn header_mailboxes(header: Seq<MailboxView>) -> Seq<MailboxView> {
    if header.len() == 0 {
        Seq::empty()
    } else {
        match spec_read_back(header) {
            Some(ms) => ms,
            None => Seq::empty(),
        }
    }
}

/// The address of a mailbox: user and domain.
pub open spec fn mailbox_address(m: MailboxView) -> (Seq<char>, Seq<char>) {
    (m.1, m.2)
}

/// The addresses of a list of mailboxes.
pub open spec fn mailbox_addresses(ms: Seq<MailboxView>) -> Seq<(Seq<char>, Seq<char>)> {
    ms.map_values(|m: MailboxView| mailbox_address(m))
}

/// What a lettre message builder holds: the mailboxes whose text each address
/// header holds (see [`add_mailbox`]), the subject and the content type, if
/// set. It holds no other header and no explicit envelope.
pub struct DraftView {
    pub from: Seq<MailboxView>,
    pub to: Seq<MailboxView>,
    pub cc: Seq<MailboxView>,
    pub bcc: Seq<MailboxView>,
    pub reply_to: Seq<MailboxView>,
    pub subject: Option<Seq<char>>,
    pub content_type: Option<ContentKind>,
}

/// A lettre message builder with what it holds.
pub struct MessageDraft {
    builder: ::lettre::message::MessageBuilder,
    parts: Ghost<DraftView>,
}

impl View for MessageDraft {
    type V = DraftView;

    closed spec fn view(&self) -> DraftView {
        self.parts@
    }
}

/// An e-mail message: the mailboxes whose text its `From`, `To`, `Cc` and
/// `Reply-To` headers hold, its `Bcc` header (always absent, so empty), its
/// subject, content type and body, and its envelope: the sender's address and
/// the recipients' addresses. It also carries a `Date` header and the body's
/// transfer encoding.
pub struct MessageView {
    pub from: Seq<MailboxView>,
    pub to: Seq<MailboxView>,
    pub cc: Seq<MailboxView>,
    pub reply_to: Seq<MailboxView>,
    pub bcc_header: Seq<MailboxView>,
    pub subject: Option<Seq<char>>,
    pub content_type: Option<ContentKind>,
    pub body: Seq<char>,
    pub envelope_from: (Seq<char>, Seq<char>),
    pub envelope_to: Seq<(Seq<char>, Seq<char>)>,
}

/// An e-mail message (`lettre::Message`) with what it holds.
pub struct EmailMessage {
    message: ::lettre::Message,
    parts: Ghost<MessageView>,
}

impl View for EmailMessage {
    type V = MessageView;

    closed spec fn view(&self) -> MessageView {
        self.parts@
    }
}

impl EmailMessage {
    /// The lettre message.
    pub closed spec fn lettre_message(&self) -> ::lettre::Message {
        self.message
    }

    /// The lettre message, to be sent or formatted.
    pub fn message(&self) -> (m: &::lettre::Message)
        ensures
            *m == self.lettre_message(),
    {
        &self.message
    }

    /// The lettre message, to be sent.
    pub fn into_message(self) -> (m: ::lettre::Message)
        ensures
            m == self.lettre_message(),
    {
        self.message
    }
}

/// What finishing a builder with a body gives (`MessageBuilder::body`): lettre
/// reads the `From` header back and requires exactly one sender; the envelope's
/// recipients are the addresses that it reads back from the `To`, `Cc` and
/// `Bcc` headers, in that order, and there must be one; the `Bcc` header is
/// then dropped.
pub open spec fn spec_finish(d: DraftView, body: Seq<char>) -> Result<MessageView, MessageErrorView> {
    if d.from.len() == 0 || spec_read_back(d.from) is None {
        Err(MessageErrorView::MissingFrom)
    } else if spec_read_back(d.from)->0.len() > 1 {
        Err(MessageErrorView::TooManyFrom)
    } else {
        let recipients = mailbox_addresses(
            header_mailboxes(d.to) + header_mailboxes(d.cc) + header_mailboxes(d.bcc),
        );
        if recipients.len() == 0 {
            Err(MessageErrorView::MissingTo)
        } else {
            Ok(
                MessageView {
                    from: d.from,
                    to: d.to,
                    cc: d.cc,
                    reply_to: d.reply_to,
                    bcc_header: Seq::empty(),
                    subject: d.subject,
                    content_type: d.content_type,
                    body,
                    envelope_from: mailbox_address(spec_read_back(d.from)->0[0]),
                    envelope_to: recipients,
                },
            )
        }
    }
}

/// The view of a finished message.
pub open spec fn finished(r: Result<EmailMessage, MessageError>) -> Result<MessageView, MessageErrorView> {
    match r {
        Ok(m) => Ok(m@),
        Err(e) => Err(e@),
    }
}

/// A new message builder, holding nothing yet (`lettre::Message::builder`,
/// which starts with no header).
#[verifier::external_body]
fn message_builder() -> (d: MessageDraft)
    ensures
        d@ == (DraftView {
            from: Seq::empty(),
            to: Seq::empty(),
            cc: Seq::empty(),
            bcc: Seq::empty(),
            reply_to: Seq::empty(),
            subject: None,
            content_type: None,
        }),
{
    MessageDraft {
        builder: ::lettre::Message::builder(),
        parts: Ghost(DraftView {
            from: Seq::empty(),
            to: Seq::empty(),
            cc: Seq::empty(),
            bcc: Seq::empty(),
            reply_to: Seq::empty(),
            subject: None,
            content_type: None,
        }),
    }
}

/// Adds a sender (`MessageBuilder::from`, see [`add_mailbox`]). lettre formats
/// the header at once, and panics on a display name with a line break. The
/// text of a non-empty header is never read back as an empty list (the
/// parser requires the whole text to be mailboxes).
#[verifier::external_body]
fn builder_from(d: MessageDraft, m: &Mailbox) -> (r: MessageDraft)
    requires
        writable_name(display_name(m@)),
    ensures
        r@ == (DraftView { from: add_mailbox(d@.from, m@), ..d@ }),
        spec_read_back(r@.from) is Some ==> spec_read_back(r@.from)->0.len() > 0,
{
    MessageDraft {
        parts: Ghost(DraftView { from: add_mailbox(d@.from, m@), ..d@ }),
        builder: d.builder.from(::lettre::message::Mailbox::new(m.name.clone(), ::lettre::Address::new_dangerous(m.user.as_str(), m.domain.as_str()))),
    }
}

/// Sets the subject (`MessageBuilder::subject`, which replaces it).
#[verifier::external_body]
fn builder_subject(d: MessageDraft, s: String) -> (r: MessageDraft)
    ensures
        r@ == (DraftView { subject: Some(s@), ..d@ }),
{
    MessageDraft { parts: Ghost(DraftView { subject: Some(s@), ..d@ }), builder: d.builder.subject(s) }
}

/// Adds a recipient (`MessageBuilder::to`, see [`add_mailbox`]). lettre panics
/// on a display name with a line break.
#[verifier::external_body]
fn builder_to(d: MessageDraft, m: &Mailbox) -> (r: MessageDraft)
    requires
        writable_name(display_name(m@)),
    ensures
        r@ == (DraftView { to: add_mailbox(d@.to, m@), ..d@ }),
{
    MessageDraft {
        parts: Ghost(DraftView { to: add_mailbox(d@.to, m@), ..d@ }),
        builder: d.builder.to(::lettre::message::Mailbox::new(m.name.clone(), ::lettre::Address::new_dangerous(m.user.as_str(), m.domain.as_str()))),
    }
}

/// Adds a carbon-copy recipient (`MessageBuilder::cc`, see [`add_mailbox`]).
/// lettre panics on a display name with a line break.
#[verifier::external_body]
fn builder_cc(d: MessageDraft, m: &Mailbox) -> (r: MessageDraft)
    requires
        writable_name(display_name(m@)),
    ensures
        r@ == (DraftView { cc: add_mailbox(d@.cc, m@), ..d@ }),
{
    MessageDraft {
        parts: Ghost(DraftView { cc: add_mailbox(d@.cc, m@), ..d@ }),
        builder: d.builder.cc(::lettre::message::Mailbox::new(m.name.clone(), ::lettre::Address::new_dangerous(m.user.as_str(), m.domain.as_str()))),
    }
}

/// Adds a blind carbon-copy recipient (`MessageBuilder::bcc`, see
/// [`add_mailbox`]). lettre panics on a display name with a line break.
#[verifier::external_body]
fn builder_bcc(d: MessageDraft, m: &Mailbox) -> (r: MessageDraft)
    requires
        writable_name(display_name(m@)),
    ensures
        r@ == (DraftView { bcc: add_mailbox(d@.bcc, m@), ..d@ }),
{
    MessageDraft {
        parts: Ghost(DraftView { bcc: add_mailbox(d@.bcc, m@), ..d@ }),
        builder: d.builder.bcc(::lettre::message::Mailbox::new(m.name.clone(), ::lettre::Address::new_dangerous(m.user.as_str(), m.domain.as_str()))),
    }
}

/// Adds a reply address (`MessageBuilder::reply_to`, see [`add_mailbox`]).
/// lettre panics on a display name with a line break.
#[verifier::external_body]
fn builder_reply_to(d: MessageDraft, m: &Mailbox) -> (r: MessageDraft)
    requires
        writable_name(display_name(m@)),
    ensures
        r@ == (DraftView { reply_to: add_mailbox(d@.reply_to, m@), ..d@ }),
{
    MessageDraft {
        parts: Ghost(DraftView { reply_to: add_mailbox(d@.reply_to, m@), ..d@ }),
        builder: d.builder.reply_to(::lettre::message::Mailbox::new(m.name.clone(), ::lettre::Address::new_dangerous(m.user.as_str(), m.domain.as_str()))),
    }
}

/// Sets the `Content-Type` header (`MessageBuilder::header` with
/// `ContentType::TEXT_PLAIN` or `ContentType::TEXT_HTML`).
#[verifier::external_body]
fn builder_content_type(d: MessageDraft, kind: ContentKind) -> (r: MessageDraft)
    ensures
        r@ == (DraftView { content_type: Some(kind), ..d@ }),
{
    MessageDraft {
        parts: Ghost(DraftView { content_type: Some(kind), ..d@ }),
        builder: d.builder.header(
            match kind {
                ContentKind::Plain => ::lettre::message::header::ContentType::TEXT_PLAIN,
                ContentKind::Html => ::lettre::message::header::ContentType::TEXT_HTML,
            },
        ),
    }
}

/// The library's name for a lettre message error, variant for variant; an
/// input or output error is kept by its message.
#[verifier::external_body]
fn message_error(e: ::lettre::error::Error) -> MessageError {
    match e {
        ::lettre::error::Error::MissingFrom => MessageError::MissingFrom,
        ::lettre::error::Error::MissingTo => MessageError::MissingTo,
        ::lettre::error::Error::TooManyFrom => MessageError::TooManyFrom,
        ::lettre::error::Error::EmailMissingAt => MessageError::EmailMissingAt,
        ::lettre::error::Error::EmailMissingLocalPart => MessageError::EmailMissingLocalPart,
        ::lettre::error::Error::EmailMissingDomain => MessageError::EmailMissingDomain,
        ::lettre::error::Error::CannotParseFilename => MessageError::CannotParseFilename,
        ::lettre::error::Error::Io(io) => MessageError::Io(io.to_string()),
        ::lettre::error::Error::NonAsciiChars => MessageError::NonAsciiChars,
    }
}

/// Finishes the message with a body (`MessageBuilder::body`, see
/// [`spec_finish`]): the body is stored with a transfer encoding chosen for it
/// (no `Content-Transfer-Encoding` header was set, so none is imposed) and a
/// `Date` header of the current time is added. A sender list that reads back
/// empty would make lettre panic; it cannot occur (see [`builder_from`]).
#[verifier::external_body]
fn builder_body(d: MessageDraft, body: String) -> (r: Result<EmailMessage, MessageError>)
    requires
        d@.from.len() > 0 && spec_read_back(d@.from) is Some ==> spec_read_back(d@.from)->0.len()
            > 0,
    ensures
        finished(r) == spec_finish(d@, body@),
{
    let parts = Ghost(spec_finish(d@, body@)->Ok_0);
    match d.builder.body(body) {
        Ok(message) => Ok(EmailMessage { message, parts }),
        Err(e) => Err(message_error(e)),
    }
}

/// What a builder is handed for its message: the sender, the recipients,
/// carbon-copy and blind carbon-copy recipients added in order (see
/// [`add_mailboxes`]), the reply address if any, the subject (empty when not
/// set) and the content type its body selects.
pub open spec fn spec_draft(b: EmailBuilderView) -> DraftView {
    DraftView {
        from: seq![b.from->0],
        to: add_mailboxes(Seq::empty(), b.to),
        cc: add_mailboxes(Seq::empty(), b.cc),
        bcc: add_mailboxes(Seq::empty(), b.bcc),
        reply_to: match b.reply_to {
            Some(m) => seq![m],
            None => Seq::empty(),
        },
        subject: Some(
            match b.subject {
                Some(s) => s,
                None => Seq::empty(),
            },
        ),
        content_type: Some(
            if b.is_html {
                ContentKind::Html
            } else {
                ContentKind::Plain
            },
        ),
    }
}

/// The body of a builder's message: empty when not set.
pub open spec fn spec_body(b: EmailBuilderView) -> Seq<char> {
    match b.body {
        Some(s) => s,
        None => Seq::empty(),
    }
}

/// The message of a builder whose every address header reads back unchanged:
/// headers as given, envelope from the sender's address to the addresses of
/// the recipients, carbon-copy and blind carbon-copy recipients, in order.
pub open spec fn spec_message_parts(b: EmailBuilderView) -> MessageView {
    MessageView {
        from: seq![b.from->0],
        to: b.to,
        cc: b.cc,
        reply_to: spec_draft(b).reply_to,
        bcc_header: Seq::empty(),
        subject: spec_draft(b).subject,
        content_type: spec_draft(b).content_type,
        body: spec_body(b),
        envelope_from: mailbox_address(b.from->0),
        envelope_to: mailbox_addresses(b.to + b.cc + b.bcc),
    }
}

/// Adding mailboxes that read back to an empty header gives them unchanged.
proof fn lemma_add_reads_back(ms: Seq<MailboxView>)
    requires
        reads_back(ms),
    ensures
        add_mailboxes(Seq::empty(), ms) == ms,
    decreases ms.len(),
{
    if ms.len() > 0 {
        let p = ms.drop_last();
        assert forall|k: int| 1 <= k <= p.len() implies #[trigger] spec_read_back(p.take(k)) == Some(
            p.take(k),
        ) by {
            assert(p.take(k) =~= ms.take(k));
            assert(spec_read_back(ms.take(k)) == Some(ms.take(k)));
        }
        lemma_add_reads_back(p);
        if p.len() > 0 {
            assert(ms.take(p.len() as int) =~= p);
            assert(spec_read_back(ms.take(p.len() as int)) == Some(ms.take(p.len() as int)));
        }
        assert(p.push(ms.last()) =~= ms);
    }
}

/// A mailbox that lettre's parser read has a writable display name.
proof fn lemma_parsed_writable(m: Mailbox)
    requires
        m.name is Some ==> no_line_break(m.name->0@),
    ensures
        writable_name(display_name(m@)),
{
    if let Some(n) = m.name {
        lemma_trim_contains(n@, '\r');
        lemma_trim_contains(n@, '\n');
    }
}

/// Adding a mailbox with a writable display name to a list of them keeps it so.
proof fn lemma_push_writable(ms: Seq<MailboxView>, m: MailboxView)
    requires
        all_writable(ms),
        writable_name(display_name(m)),
    ensures
        all_writable(ms.push(m)),
{
    assert forall|i: int| 0 <= i < ms.push(m).len() implies writable_name(
        display_name(#[trigger] ms.push(m)[i]),
    ) by {
        if i < ms.len() {
            assert(ms.push(m)[i] == ms[i]);
        }
    }
}

impl EmailBuilder {
    /// An empty builder: no sender, recipients, reply address, subject or body;
    /// plain text.
    pub fn new() -> (b: EmailBuilder)
        ensures
            b@.from is None,
            b@.to.len() == 0,
            b@.cc.len() == 0,
            b@.bcc.len() == 0,
            b@.reply_to is None,
            b@.subject is None,
            b@.body is None,
            !b@.is_html,
    {
        EmailBuilder {
            from: None,
            to: Vec::new(),
            cc: Vec::new(),
            bcc: Vec::new(),
            reply_to: None,
            subject: None,
            body: None,
            is_html: false,
        }
    }

    /// Sets the sender to the mailbox written in `email`.
    pub fn from(self, email: &str) -> (r: Result<EmailBuilder, LettreError>)
        ensures
            builder_result(r) == added(
                spec_parse_mailbox(email@),
                |m: MailboxView| EmailBuilderView { from: Some(m), ..self@ },
            ),
            r is Ok && builder_writable(self@) ==> builder_writable(r->Ok_0@),
    {
        let mut b = self;
        match parse_mailbox(email) {
            Ok(m) => {
                proof {
                    lemma_parsed_writable(m);
                }
                b.from = Some(m);
                Ok(b)
            },
            Err(e) => Err(LettreError::InvalidAddress(e)),
        }
    }

    /// Sets the sender to the address `email` with the display name `name`.
    pub fn from_with_name(self, name: &str, email: &str) -> (r: Result<EmailBuilder, LettreError>)
        ensures
            builder_result(r) == added(
                spec_parse_address(email@),
                |a: (Seq<char>, Seq<char>)|
                    EmailBuilderView { from: Some(named_mailbox(name@, a)), ..self@ },
            ),
            r is Ok && builder_writable(self@) && writable_name(Some(name@)) ==> builder_writable(
                r->Ok_0@,
            ),
    {
        let mut b = self;
        match parse_address(email) {
            Ok((user, domain)) => {
                b.from = Some(Mailbox { name: Some(to_owned_string(name)), user, domain });
                Ok(b)
            },
            Err(e) => Err(LettreError::InvalidAddress(e)),
        }
    }

    /// Adds the mailbox written in `email` to the recipients.
    pub fn to(self, email: &str) -> (r: Result<EmailBuilder, LettreError>)
        ensures
            builder_result(r) == added(
                spec_parse_mailbox(email@),
                |m: MailboxView| EmailBuilderView { to: self@.to.push(m), ..self@ },
            ),
            r is Ok && builder_writable(self@) ==> builder_writable(r->Ok_0@),
    {
        let mut b = self;
        match parse_mailbox(email) {
            Ok(m) => {
                proof {
                    lemma_parsed_writable(m);
                    if builder_writable(self@) {
                        lemma_push_writable(self@.to, m@);
                    }
                }
                b.to.push(m);
                proof {
                    assert(mailboxes_view(b.to@) =~= self@.to.push(m@));
                }
                Ok(b)
            },
            Err(e) => Err(LettreError::InvalidAddress(e)),
        }
    }

    /// Adds the address `email` with the display name `name` to the recipients.
    pub fn to_with_name(self, name: &str, email: &str) -> (r: Result<EmailBuilder, LettreError>)
        ensures
            builder_result(r) == added(
                spec_parse_address(email@),
                |a: (Seq<char>, Seq<char>)|
                    EmailBuilderView { to: self@.to.push(named_mailbox(name@, a)), ..self@ },
            ),
            r is Ok && builder_writable(self@) && writable_name(Some(name@)) ==> builder_writable(
                r->Ok_0@,
            ),
    {
        let mut b = self;
        match parse_address(email) {
            Ok((user, domain)) => {
                let m = Mailbox { name: Some(to_owned_string(name)), user, domain };
                b.to.push(m);
                proof {
                    assert(mailboxes_view(b.to@) =~= self@.to.push(m@));
                }
                Ok(b)
            },
            Err(e) => Err(LettreError::InvalidAddress(e)),
        }
    }

    /// Adds the mailbox written in `email` to the carbon-copy recipients.
    pub fn cc(self, email: &str) -> (r: Result<EmailBuilder, LettreError>)
        ensures
            builder_result(r) == added(
                spec_parse_mailbox(email@),
                |m: MailboxView| EmailBuilderView { cc: self@.cc.push(m), ..self@ },
            ),
            r is Ok && builder_writable(self@) ==> builder_writable(r->Ok_0@),
    {
        let mut b = self;
        match parse_mailbox(email) {
            Ok(m) => {
                proof {
                    lemma_parsed_writable(m);
                    if builder_writable(self@) {
                        lemma_push_writable(self@.cc, m@);
                    }
                }
                b.cc.push(m);
                proof {
                    assert(mailboxes_view(b.cc@) =~= self@.cc.push(m@));
                }
                Ok(b)
            },
            Err(e) => Err(LettreError::InvalidAddress(e)),
        }
    }

    /// Adds the mailbox written in `email` to the blind carbon-copy recipients.
    pub fn bcc(self, email: &str) -> (r: Result<EmailBuilder, LettreError>)
        ensures
            builder_result(r) == added(
                spec_parse_mailbox(email@),
                |m: MailboxView| EmailBuilderView { bcc: self@.bcc.push(m), ..self@ },
            ),
            r is Ok && builder_writable(self@) ==> builder_writable(r->Ok_0@),
    {
        let mut b = self;
        match parse_mailbox(email) {
            Ok(m) => {
                proof {
                    lemma_parsed_writable(m);
                    if builder_writable(self@) {
                        lemma_push_writable(self@.bcc, m@);
                    }
                }
                b.bcc.push(m);
                proof {
                    assert(mailboxes_view(b.bcc@) =~= self@.bcc.push(m@));
                }
                Ok(b)
            },
            Err(e) => Err(LettreError::InvalidAddress(e)),
        }
    }

    /// Sets the reply address to the mailbox written in `email`.
    pub fn reply_to(self, email: &str) -> (r: Result<EmailBuilder, LettreError>)
        ensures
            builder_result(r) == added(
                spec_parse_mailbox(email@),
                |m: MailboxView| EmailBuilderView { reply_to: Some(m), ..self@ },
            ),
            r is Ok && builder_writable(self@) ==> builder_writable(r->Ok_0@),
    {
        let mut b = self;
        match parse_mailbox(email) {
            Ok(m) => {
                proof {
                    lemma_parsed_writable(m);
                }
                b.reply_to = Some(m);
                Ok(b)
            },
            Err(e) => Err(LettreError::InvalidAddress(e)),
        }
    }

    /// Sets the subject.
    pub fn subject(self, subject: &str) -> (b: EmailBuilder)
        ensures
            b@ == (EmailBuilderView { subject: Some(subject@), ..self@ }),
    {
        let mut b = self;
        b.subject = Some(to_owned_string(subject));
        b
    }

    /// Sets a plain-text body.
    pub fn text_body(self, body: &str) -> (b: EmailBuilder)
        ensures
            b@ == (EmailBuilderView { body: Some(body@), is_html: false, ..self@ }),
    {
        let mut b = self;
        b.body = Some(to_owned_string(body));
        b.is_html = false;
        b
    }

    /// Sets an HTML body.
    pub fn html_body(self, body: &str) -> (b: EmailBuilder)
        ensures
            b@ == (EmailBuilderView { body: Some(body@), is_html: true, ..self@ }),
    {
        let mut b = self;
        b.body = Some(to_owned_string(body));
        b.is_html = true;
        b
    }

    /// Puts the message together: the sender, every recipient, carbon-copy and
    /// blind carbon-copy recipient in the order they were added, the reply
    /// address if any, the subject and the body (empty when not set), and a
    /// plain-text or HTML content type.
    ///
    /// A message needs a sender and at least one recipient. lettre reads each
    /// address header back from the text it wrote (see [`spec_finish`]): when
    /// every header reads back unchanged, a sender and a recipient make the
    /// message; a display name that does not read back (one with a NUL
    /// character, say) loses mailboxes, and can leave no sender or recipient.
    pub fn build(self) -> (r: Result<EmailMessage, LettreError>)
        requires
            builder_writable(self@),
        ensures
            self@.from is None ==> r is Err && r->Err_0@ == LettreErrorView::MessageBuilder(
                MessageErrorView::MissingFrom,
            ),
            self@.from is Some && self@.to.len() == 0 ==> r is Err && r->Err_0@
                == LettreErrorView::MessageBuilder(MessageErrorView::MissingTo),
            self@.from is Some && self@.to.len() > 0 ==> match spec_finish(
                spec_draft(self@),
                spec_body(self@),
            ) {
                Ok(m) => r is Ok && r->Ok_0@ == m,
                Err(e) => r is Err && r->Err_0@ == LettreErrorView::MessageBuilder(e),
            },
            self@.from is Some && self@.to.len() > 0 && reads_back(seq![self@.from->0])
                && reads_back(self@.to) && reads_back(self@.cc) && reads_back(self@.bcc) ==> r is Ok
                && r->Ok_0@ == spec_message_parts(self@),
    {
        let from = match &self.from {
            Some(f) => f,
            None => return Err(LettreError::MessageBuilder(MessageError::MissingFrom)),
        };
        if self.to.len() == 0 {
            return Err(LettreError::MessageBuilder(MessageError::MissingTo));
        }
        let ghost b = self@;
        let subject = match &self.subject {
            Some(s) => s.clone(),
            None => String::new(),
        };
        let body = match &self.body {
            Some(s) => s.clone(),
            None => String::new(),
        };
        let mut d = builder_subject(builder_from(message_builder(), from), subject);
        let ghost from_header = d@.from;
        assert(from_header == seq![from@]);
        let mut i: usize = 0;
        assert(mailboxes_view(self.to@.take(0)) =~= Seq::<MailboxView>::empty());
        while i < self.to.len()
            invariant
                b == self@,
                builder_writable(b),
                i <= self.to@.len(),
                d@.from == from_header,
                from_header == seq![from@],
                spec_read_back(from_header) is Some ==> spec_read_back(from_header)->0.len() > 0,
                d@.to == add_mailboxes(Seq::empty(), mailboxes_view(self.to@.take(i as int))),
                d@.cc.len() == 0,
                d@.bcc.len() == 0,
                d@.reply_to.len() == 0,
                d@.subject == Some(subject@),
                d@.content_type is None,
            decreases self.to.len() - i,
        {
            assert(b.to[i as int] == self.to@[i as int]@);
            d = builder_to(d, &self.to[i]);
            assert(mailboxes_view(self.to@.take(i + 1)).drop_last() =~= mailboxes_view(self.to@.take(i as int)));
            assert(mailboxes_view(self.to@.take(i + 1)).last() == self.to@[i as int]@);
            i = i + 1;
        }
        assert(self.to@.take(self.to@.len() as int) =~= self.to@);
        let mut i: usize = 0;
        assert(mailboxes_view(self.cc@.take(0)) =~= Seq::<MailboxView>::empty());
        while i < self.cc.len()
            invariant
                b == self@,
                builder_writable(b),
                i <= self.cc@.len(),
                d@.from == from_header,
                from_header == seq![from@],
                spec_read_back(from_header) is Some ==> spec_read_back(from_header)->0.len() > 0,
                d@.to == add_mailboxes(Seq::empty(), b.to),
                d@.cc == add_mailboxes(Seq::empty(), mailboxes_view(self.cc@.take(i as int))),
                d@.bcc.len() == 0,
                d@.reply_to.len() == 0,
                d@.subject == Some(subject@),
                d@.content_type is None,
            decreases self.cc.len() - i,
        {
            assert(b.cc[i as int] == self.cc@[i as int]@);
            d = builder_cc(d, &self.cc[i]);
            assert(mailboxes_view(self.cc@.take(i + 1)).drop_last() =~= mailboxes_view(self.cc@.take(i as int)));
            assert(mailboxes_view(self.cc@.take(i + 1)).last() == self.cc@[i as int]@);
            i = i + 1;
        }
        assert(self.cc@.take(self.cc@.len() as int) =~= self.cc@);
        let mut i: usize = 0;
        assert(mailboxes_view(self.bcc@.take(0)) =~= Seq::<MailboxView>::empty());
        while i < self.bcc.len()
            invariant
                b == self@,
                builder_writable(b),
                i <= self.bcc@.len(),
                d@.from == from_header,
                from_header == seq![from@],
                spec_read_back(from_header) is Some ==> spec_read_back(from_header)->0.len() > 0,
                d@.to == add_mailboxes(Seq::empty(), b.to),
                d@.cc == add_mailboxes(Seq::empty(), b.cc),
                d@.bcc == add_mailboxes(Seq::empty(), mailboxes_view(self.bcc@.take(i as int))),
                d@.reply_to.len() == 0,
                d@.subject == Some(subject@),
                d@.content_type is None,
            decreases self.bcc.len() - i,
        {
            assert(b.bcc[i as int] == self.bcc@[i as int]@);
            d = builder_bcc(d, &self.bcc[i]);
            assert(mailboxes_view(self.bcc@.take(i + 1)).drop_last() =~= mailboxes_view(self.bcc@.take(i as int)));
            assert(mailboxes_view(self.bcc@.take(i + 1)).last() == self.bcc@[i as int]@);
            i = i + 1;
        }
        assert(self.bcc@.take(self.bcc@.len() as int) =~= self.bcc@);
        if let Some(reply_to) = &self.reply_to {
            d = builder_reply_to(d, reply_to);
            assert(d@.reply_to =~= seq![reply_to@]);
        } else {
            assert(d@.reply_to =~= Seq::<MailboxView>::empty());
        }
        let kind = if self.is_html {
            ContentKind::Html
        } else {
            ContentKind::Plain
        };
        d = builder_content_type(d, kind);
        assert(d@.from == spec_draft(b).from);
        assert(d@.to == spec_draft(b).to);
        assert(d@.cc == spec_draft(b).cc);
        assert(d@.bcc == spec_draft(b).bcc);
        assert(d@.reply_to == spec_draft(b).reply_to);
        assert(d@.subject == spec_draft(b).subject);
        assert(d@.content_type == spec_draft(b).content_type);
        assert(d@ == spec_draft(b));
        assert(body@ == spec_body(b));
        proof {
            if reads_back(seq![b.from->0]) && reads_back(b.to) && reads_back(b.cc) && reads_back(b.bcc) {
                lemma_add_reads_back(b.to);
                lemma_add_reads_back(b.cc);
                lemma_add_reads_back(b.bcc);
                assert(seq![b.from->0].take(1) =~= seq![b.from->0]);
                assert(spec_read_back(seq![b.from->0].take(1)) == Some(seq![b.from->0].take(1)));
                assert(b.to.take(b.to.len() as int) =~= b.to);
                assert(spec_read_back(b.to.take(b.to.len() as int)) == Some(b.to.take(b.to.len() as int)));
                if b.cc.len() > 0 {
                    assert(b.cc.take(b.cc.len() as int) =~= b.cc);
                    assert(spec_read_back(b.cc.take(b.cc.len() as int)) == Some(b.cc.take(b.cc.len() as int)));
                }
                if b.bcc.len() > 0 {
                    assert(b.bcc.take(b.bcc.len() as int) =~= b.bcc);
                    assert(spec_read_back(b.bcc.take(b.bcc.len() as int)) == Some(b.bcc.take(b.bcc.len() as int)));
                }
                assert(header_mailboxes(spec_draft(b).to) == b.to);
                assert(header_mailboxes(spec_draft(b).cc) =~= b.cc);
                assert(header_mailboxes(spec_draft(b).bcc) =~= b.bcc);
                assert(mailbox_addresses(b.to + b.cc + b.bcc).len() > 0);
                assert(spec_finish(spec_draft(b), spec_body(b)) == Ok::<MessageView, MessageErrorView>(
                    spec_message_parts(b),
                ));
            }
        }
        match builder_body(d, body) {
            Ok(m) => Ok(m),
            Err(e) => Err(LettreError::MessageBuilder(e)),
        }
    }
}

impl Default for EmailBuilder {
    fn default() -> (b: EmailBuilder)
        ensures
            b@.from is None,
            b@.to.len() == 0,
            b@.cc.len() == 0,
            b@.bcc.len() == 0,
            b@.reply_to is None,
            b@.subject is None,
            b@.body is None,
            !b@.is_html,
    {
        EmailBuilder::new()
    }
}

} // verus!
