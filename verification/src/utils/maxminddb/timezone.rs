//! IANA time zones, as chrono-tz knows them.

use vstd::prelude::*;

verus! {

/// A time zone of the IANA database, by its name (such as `Europe/Paris`).
#[derive(Debug)]
pub struct Tz {
    name: String,
}

impl View for Tz {
    type V = Seq<char>;

    closed spec fn view(&self) -> Seq<char> {
        self.name@
    }
}

/// Whether chrono-tz knows a time zone of this name.
pub uninterp spec fn is_tz_name(name: Seq<char>) -> bool;

/// The time zone named `name` (`chrono_tz::Tz`'s `FromStr`, an exact lookup
/// of the name; `Tz::name` gives back the name that was looked up).
#[verifier::external_body]
fn lookup_tz(name: &str) -> (r: Option<Tz>)
    ensures
        r is Some == is_tz_name(name@),
        r is Some ==> r->0@ == name@,
{
    name.parse::<::chrono_tz::Tz>().ok().map(|tz| Tz { name: tz.name().to_string() })
}

/// Coordinated Universal Time (`chrono_tz::UTC`).
#[verifier::external_body]
fn utc_tz() -> (tz: Tz)
    ensures
        tz@ == "UTC"@,
{
    Tz { name: ::chrono_tz::UTC.name().to_string() }
}

impl Tz {
    /// Coordinated Universal Time.
    pub fn utc() -> (tz: Tz)
        ensures
            tz@ == "UTC"@,
    {
        utc_tz()
    }

    /// The time zone of this IANA name, if chrono-tz knows it.
    pub fn parse(name: &str) -> (r: Option<Tz>)
        ensures
            r is Some == is_tz_name(name@),
            r is Some ==> r->0@ == name@,
    {
        lookup_tz(name)
    }

    /// The IANA name of this time zone.
    pub fn name(&self) -> (s: &str)
        ensures
            s@ == self@,
    {
        self.name.as_str()
    }

    /// A copy of this time zone.
    pub fn duplicate(&self) -> (tz: Tz)
        ensures
            tz@ == self@,
    {
        Tz { name: self.name.clone() }
    }
}

} // verus!
