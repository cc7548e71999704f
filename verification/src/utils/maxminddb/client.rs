//! The client-information service: which headers to read, and the time zone to
//! use when the client's cannot be found.

use vstd::prelude::*;

use super::error::MaxmindDbError;
use super::headers::{get_header_value, option_text, spec_get_header_value, header_entries};
use super::timezone::{is_tz_name, Tz};
use crate::text::{string_result, to_owned_string};
use crate::utils::env::{get_env, get_env_or_default, Vars};

verus! {

/// The header that carries the client's address when `CLIENT_IP_HEADER` does
/// not name one.
pub open spec fn default_client_ip_header() -> Seq<char> {
    "x-forwarded-for"@
}

/// What [`get_client_ip_header`] gives for the environment `vars`.
pub open spec fn spec_client_ip_header(vars: Vars) -> Seq<char> {
    match vars.var("CLIENT_IP_HEADER"@) {
        Ok(v) => v,
        Err(_) => default_client_ip_header(),
    }
}

/// The comma-separated names of the headers that carry the client's address:
/// `CLIENT_IP_HEADER`, or `x-forwarded-for` when it is not set.
pub fn get_client_ip_header(vars: &Vars) -> (r: String)
    ensures
        r@ == spec_client_ip_header(*vars),
{
    get_env_or_default(vars, "CLIENT_IP_HEADER", to_owned_string("x-forwarded-for"))
}

/// Finds the client's address and time zone for a request.
#[derive(Debug)]
pub struct MaxMindDB {
    client_ip_header: String,
    client_timezone_header: Option<String>,
    default_timezone: Tz,
}

/// The view of a [`MaxMindDB`]: address headers, time-zone headers and the
/// default time zone.
pub struct MaxMindDBView {
    pub client_ip_header: Seq<char>,
    pub client_timezone_header: Option<Seq<char>>,
    pub default_timezone: Seq<char>,
}

impl View for MaxMindDB {
    type V = MaxMindDBView;

    closed spec fn view(&self) -> MaxMindDBView {
        MaxMindDBView {
            client_ip_header: self.client_ip_header@,
            client_timezone_header: option_text(self.client_timezone_header),
            default_timezone: self.default_timezone@,
        }
    }
}

/// The time zone that a found time-zone name gives, and whether the default
/// was used because none was found: the named zone when it is known, the
/// default otherwise; the fallback flag is set only when no name was found.
pub open spec fn spec_timezone_choice(default: Seq<char>, found: Option<Seq<char>>) -> (
    Seq<char>,
    bool,
) {
    match found {
        Some(name) => (if is_tz_name(name) {
            name
        } else {
            default
        }, false),
        None => (default, true),
    }
}

/// Where the time zone of a request is to be found.
#[derive(Debug)]
pub enum TimezoneSource {
    /// A time-zone header names it.
    Header(String),
    /// No time-zone header names it; the city of this client address may.
    ClientIp(String),
    /// Neither a time-zone header nor a client address is present.
    Unknown,
}

/// The view of a [`TimezoneSource`].
pub enum TimezoneSourceView {
    Header(Seq<char>),
    ClientIp(Seq<char>),
    Unknown,
}

impl View for TimezoneSource {
    type V = TimezoneSourceView;

    open spec fn view(&self) -> TimezoneSourceView {
        match self {
            TimezoneSource::Header(t) => TimezoneSourceView::Header(t@),
            TimezoneSource::ClientIp(a) => TimezoneSourceView::ClientIp(a@),
            TimezoneSource::Unknown => TimezoneSourceView::Unknown,
        }
    }
}

/// Where the service looks for the time zone of a request with the headers
/// `entries`: a time-zone header first, then the client's address.
pub open spec fn spec_timezone_source(
    db: MaxMindDBView,
    entries: Map<Seq<u8>, Seq<Seq<u8>>>,
) -> TimezoneSourceView {
    let from_header = match db.client_timezone_header {
        Some(names) => spec_get_header_value(entries, names),
        None => None,
    };
    match from_header {
        Some(tz) => TimezoneSourceView::Header(tz),
        None => match spec_get_header_value(entries, db.client_ip_header) {
            Some(ip) => TimezoneSourceView::ClientIp(ip),
            None => TimezoneSourceView::Unknown,
        },
    }
}

/// Whether no configured time-zone header names a zone: none is configured,
/// or none of the configured ones is present and readable.
pub open spec fn no_timezone_header_value(
    db: MaxMindDBView,
    entries: Map<Seq<u8>, Seq<Seq<u8>>>,
) -> bool {
    db.client_timezone_header is None || spec_get_header_value(
        entries,
        db.client_timezone_header->0,
    ) is None
}

/// Where the time zone is looked for: a time-zone header that names one wins;
/// otherwise the client's address, whenever the address headers give one,
/// whether or not time-zone headers are configured; otherwise nowhere.
pub proof fn lemma_timezone_source(db: MaxMindDBView, entries: Map<Seq<u8>, Seq<Seq<u8>>>)
    ensures
        db.client_timezone_header is Some && spec_get_header_value(
            entries,
            db.client_timezone_header->0,
        ) is Some ==> spec_timezone_source(db, entries) == TimezoneSourceView::Header(
            spec_get_header_value(entries, db.client_timezone_header->0)->0,
        ),
        no_timezone_header_value(db, entries) && spec_get_header_value(
            entries,
            db.client_ip_header,
        ) is Some ==> spec_timezone_source(db, entries) == TimezoneSourceView::ClientIp(
            spec_get_header_value(entries, db.client_ip_header)->0,
        ),
        no_timezone_header_value(db, entries) && spec_get_header_value(
            entries,
            db.client_ip_header,
        ) is None ==> spec_timezone_source(db, entries) is Unknown,
{
}

impl MaxMindDB {
    /// The service configured by the environment: the address headers of
    /// [`get_client_ip_header`], the time-zone headers named by
    /// `CLIENT_TIMEZONE_HEADER` if it is set, and UTC as the default time zone.
    pub fn init(vars: &Vars) -> (db: MaxMindDB)
        ensures
            db@.client_ip_header == spec_client_ip_header(*vars),
            db@.client_timezone_header == match vars.var("CLIENT_TIMEZONE_HEADER"@) {
                Ok(v) => Some(v),
                Err(_) => None,
            },
            db@.default_timezone == "UTC"@,
    {
        let client_timezone_header = match get_env(vars, "CLIENT_TIMEZONE_HEADER") {
            Ok(v) => Some(v),
            Err(_) => None,
        };
        MaxMindDB {
            client_ip_header: get_client_ip_header(vars),
            client_timezone_header,
            default_timezone: Tz::utc(),
        }
    }

    /// The same service with another default time zone, given by its IANA name.
    pub fn with_default_timezone(self, timezone: &str) -> (r: Result<MaxMindDB, MaxmindDbError>)
        ensures
            is_tz_name(timezone@) ==> r is Ok && r->Ok_0@ == (MaxMindDBView {
                default_timezone: timezone@,
                ..self@
            }),
            !is_tz_name(timezone@) ==> r is Err && r->Err_0 is ParseError,
    {
        match Tz::parse(timezone) {
            Some(tz) => {
                let mut db = self;
                db.default_timezone = tz;
                Ok(db)
            },
            None => Err(MaxmindDbError::ParseError),
        }
    }

    /// The first address item of the headers that carry the client's address.
    pub fn client_ip_text(&self, headers: &::http::HeaderMap<::http::HeaderValue>) -> (r: Option<
        String,
    >)
        ensures
            option_text(r) == spec_get_header_value(
                header_entries(*headers),
                self@.client_ip_header,
            ),
    {
        get_header_value(headers, self.client_ip_header.as_str())
    }

    /// The time-zone name carried by the configured time-zone headers, if any.
    pub fn header_timezone(&self, headers: &::http::HeaderMap<::http::HeaderValue>) -> (r: Option<
        String,
    >)
        ensures
            self@.client_timezone_header is None ==> r is None,
            self@.client_timezone_header is Some ==> option_text(r) == spec_get_header_value(
                header_entries(*headers),
                self@.client_timezone_header->0,
            ),
    {
        match &self.client_timezone_header {
            Some(names) => get_header_value(headers, names.as_str()),
            None => None,
        }
    }

    /// Where to find the time zone of a request: the time-zone headers when
    /// one of them is present, else the client's address, whose city may
    /// name a zone.
    pub fn timezone_source(&self, headers: &::http::HeaderMap<::http::HeaderValue>) -> (s:
        TimezoneSource)
        ensures
            s@ == spec_timezone_source(
                self@,
                header_entries(*headers),
            ),
            self@.client_timezone_header is Some && spec_get_header_value(
                header_entries(*headers),
                self@.client_timezone_header->0,
            ) is Some ==> s@ == TimezoneSourceView::Header(
                spec_get_header_value(header_entries(*headers), self@.client_timezone_header->0)->0,
            ),
            no_timezone_header_value(self@, header_entries(*headers)) && spec_get_header_value(
                header_entries(*headers),
                self@.client_ip_header,
            ) is Some ==> s@ == TimezoneSourceView::ClientIp(
                spec_get_header_value(header_entries(*headers), self@.client_ip_header)->0,
            ),
            no_timezone_header_value(self@, header_entries(*headers)) && spec_get_header_value(
                header_entries(*headers),
                self@.client_ip_header,
            ) is None ==> s@ is Unknown,
    {
        proof {
            lemma_timezone_source(self@, header_entries(*headers));
        }
        match self.header_timezone(headers) {
            Some(tz) => TimezoneSource::Header(tz),
            None => match self.client_ip_text(headers) {
                Some(ip) => TimezoneSource::ClientIp(ip),
                None => TimezoneSource::Unknown,
            },
        }
    }

    /// The time zone for a request given the time-zone name found for it (from
    /// a header or from the client's city), and whether the default was used
    /// because no name was found. A name that is not a known zone gives the
    /// default.
    pub fn choose_timezone(&self, found: Option<String>) -> (r: (Tz, bool))
        ensures
            (r.0@, r.1) == spec_timezone_choice(self@.default_timezone, option_text(found)),
    {
        match found {
            Some(name) => match Tz::parse(name.as_str()) {
                Some(tz) => (tz, false),
                None => (self.default_timezone.duplicate(), false),
            },
            None => (self.default_timezone.duplicate(), true),
        }
    }

    /// The default time zone.
    pub fn default_timezone(&self) -> (tz: &Tz)
        ensures
            tz@ == self@.default_timezone,
    {
        &self.default_timezone
    }
}

} // verus!
