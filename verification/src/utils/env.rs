//! Reading configuration from environment variables.
//!
//! The process environment is handed to the functions here as a [`Vars`]
//! snapshot: what the process reported for each variable that was looked up.

use vstd::prelude::*;

use crate::text::{is_digit, str_eq, string_result, to_owned_string};

verus! {

/// Why the process could not give the value of a variable.
#[derive(Debug, Clone, Copy, PartialEq, Eq, Structural)]
pub enum VarError {
    /// The variable is not set.
    NotPresent,
    /// The variable is set, but its value is not valid Unicode.
    NotUnicode,
}

/// What the process reported for each recorded variable; the last record of a
/// name is the one that counts.
pub struct Vars {
    entries: Vec<(String, Result<String, VarError>)>,
}

/// The value recorded last for `key` in `entries`.
pub open spec fn spec_lookup(
    entries: Seq<(Seq<char>, Result<Seq<char>, VarError>)>,
    key: Seq<char>,
) -> Result<Seq<char>, VarError>
    decreases entries.len(),
{
    if entries.len() == 0 {
        Err(VarError::NotPresent)
    } else if entries.last().0 == key {
        entries.last().1
    } else {
        spec_lookup(entries.drop_last(), key)
    }
}

/// The view of one recorded entry.
pub open spec fn entry_view(e: (String, Result<String, VarError>)) -> (
    Seq<char>,
    Result<Seq<char>, VarError>,
) {
    (e.0@, string_result(e.1))
}

impl View for Vars {
    type V = Seq<(Seq<char>, Result<Seq<char>, VarError>)>;

    closed spec fn view(&self) -> Self::V {
        self.entries@.map_values(|e: (String, Result<String, VarError>)| entry_view(e))
    }
}

impl Vars {
    /// What the process reports for `key`.
    pub open spec fn var(&self, key: Seq<char>) -> Result<Seq<char>, VarError> {
        spec_lookup(self@, key)
    }

    /// A snapshot in which no variable is set.
    pub fn new() -> (r: Vars)
        ensures
            forall|k: Seq<char>| r.var(k) == Err::<Seq<char>, VarError>(VarError::NotPresent),
    {
        let r = Vars { entries: Vec::new() };
        assert(r@ =~= Seq::empty());
        r
    }

    /// Records what the process reported for `key`.
    pub fn record(&mut self, key: String, value: Result<String, VarError>)
        ensures
            final(self).var(key@) == string_result(value),
            forall|k: Seq<char>| k != key@ ==> final(self).var(k) == old(self).var(k),
    {
        let ghost before = self@;
        self.entries.push((key, value));
        assert(self@.drop_last() =~= before);
    }

    /// Records the value of a variable that is set.
    pub fn set(&mut self, key: String, value: String)
        ensures
            final(self).var(key@) == Ok::<Seq<char>, VarError>(value@),
            forall|k: Seq<char>| k != key@ ==> final(self).var(k) == old(self).var(k),
    {
        self.record(key, Ok(value));
    }

    /// What the process reports for `key`.
    pub fn get(&self, key: &str) -> (r: Result<String, VarError>)
        ensures
            string_result(r) == self.var(key@),
    {
        let mut i = self.entries.len();
        assert(self@.take(i as int) =~= self@);
        while i > 0
            invariant
                i <= self.entries@.len(),
                spec_lookup(self@, key@) == spec_lookup(self@.take(i as int), key@),
            decreases i,
        {
            let e = &self.entries[i - 1];
            assert(self@.take(i as int).last() == entry_view(self.entries@[i - 1]));
            if str_eq(e.0.as_str(), key) {
                return match &e.1 {
                    Ok(v) => Ok(v.clone()),
                    Err(err) => Err(*err),
                };
            }
            assert(self@.take(i as int).drop_last() =~= self@.take(i - 1));
            i = i - 1;
        }
        Err(VarError::NotPresent)
    }
}

/// Why a configuration value could not be had from the environment.
#[derive(Debug, Clone)]
pub enum EnvError {
    /// The variable is not set.
    NotFound { key: String },
    /// The variable's value is not valid UTF-8.
    InvalidUtf8 { key: String },
    /// The variable's value could not be parsed.
    ParseFailed { key: String, value: String, error: String },
}

/// The view of an [`EnvError`].
pub enum EnvErrorView {
    NotFound(Seq<char>),
    InvalidUtf8(Seq<char>),
    ParseFailed(Seq<char>, Seq<char>, Seq<char>),
}

impl View for EnvError {
    type V = EnvErrorView;

    open spec fn view(&self) -> EnvErrorView {
        match self {
            EnvError::NotFound { key } => EnvErrorView::NotFound(key@),
            EnvError::InvalidUtf8 { key } => EnvErrorView::InvalidUtf8(key@),
            EnvError::ParseFailed { key, value, error } => EnvErrorView::ParseFailed(
                key@,
                value@,
                error@,
            ),
        }
    }
}

/// The text that describes an environment error.
pub open spec fn spec_env_error_message(e: EnvErrorView) -> Seq<char> {
    match e {
        EnvErrorView::NotFound(key) => "Environment variable not found: '"@ + key + "'"@,
        EnvErrorView::InvalidUtf8(key) => "Environment variable not valid UTF-8: '"@ + key
            + "'"@,
        EnvErrorView::ParseFailed(key, value, error) => "Failed to parse environment variable '"@
            + key + "' with value '"@ + value + "': "@ + error,
    }
}

impl EnvError {
    /// The text that describes this error.
    pub fn message(&self) -> (s: String)
        ensures
            s@ == spec_env_error_message(self@),
    {
        match self {
            EnvError::NotFound { key } => {
                let mut s = to_owned_string("Environment variable not found: '");
                s.append(key.as_str());
                s.append("'");
                s
            },
            EnvError::InvalidUtf8 { key } => {
                let mut s = to_owned_string("Environment variable not valid UTF-8: '");
                s.append(key.as_str());
                s.append("'");
                s
            },
            EnvError::ParseFailed { key, value, error } => {
                let mut s = to_owned_string("Failed to parse environment variable '");
                s.append(key.as_str());
                s.append("' with value '");
                s.append(value.as_str());
                s.append("': ");
                s.append(error.as_str());
                s
            },
        }
    }

    /// A copy of this error.
    pub fn duplicate(&self) -> (r: EnvError)
        ensures
            r@ == self@,
    {
        match self {
            EnvError::NotFound { key } => EnvError::NotFound { key: key.clone() },
            EnvError::InvalidUtf8 { key } => EnvError::InvalidUtf8 { key: key.clone() },
            EnvError::ParseFailed { key, value, error } => EnvError::ParseFailed {
                key: key.clone(),
                value: value.clone(),
                error: error.clone(),
            },
        }
    }
}

/// The view of a string result whose error is an [`EnvError`].
pub open spec fn env_result(r: Result<String, EnvError>) -> Result<Seq<char>, EnvErrorView> {
    match r {
        Ok(v) => Ok(v@),
        Err(e) => Err(e@),
    }
}

/// What [`get_env`] gives for `key` when the process reported `var` for it.
pub open spec fn spec_get_env(key: Seq<char>, var: Result<Seq<char>, VarError>) -> Result<
    Seq<char>,
    EnvErrorView,
> {
    match var {
        Ok(v) => Ok(v),
        Err(VarError::NotPresent) => Err(EnvErrorView::NotFound(key)),
        Err(VarError::NotUnicode) => Err(EnvErrorView::InvalidUtf8(key)),
    }
}

/// The value of the variable `key`.
pub fn get_env(vars: &Vars, key: &str) -> (r: Result<String, EnvError>)
    ensures
        env_result(r) == spec_get_env(key@, vars.var(key@)),
{
    match vars.get(key) {
        Ok(v) => Ok(v),
        Err(VarError::NotPresent) => Err(EnvError::NotFound { key: to_owned_string(key) }),
        Err(VarError::NotUnicode) => Err(EnvError::InvalidUtf8 { key: to_owned_string(key) }),
    }
}

/// The value of the variable `key`, or `default` when it cannot be had.
pub fn get_env_or_default(vars: &Vars, key: &str, default: String) -> (r: String)
    ensures
        r@ == match vars.var(key@) {
            Ok(v) => v,
            Err(_) => default@,
        },
{
    match get_env(vars, key) {
        Ok(v) => v,
        Err(_) => default,
    }
}

/// The value of the variable `key`, parsed by `parse`; a parse failure is
/// reported with the key, the value and the parser's message.
pub fn get_env_parsed<T, F: Fn(&str) -> Result<T, String>>(vars: &Vars, key: &str, parse: F) -> (r:
    Result<T, EnvError>)
    requires
        forall|s: &str| call_requires(parse, (s,)),
    ensures
        match vars.var(key@) {
            Ok(v) => exists|s: &str, out: Result<T, String>|
                #![trigger call_ensures(parse, (s,), out)]
                s@ == v && call_ensures(parse, (s,), out) && match out {
                    Ok(x) => r == Ok::<T, EnvError>(x),
                    Err(m) => r is Err && r->Err_0@ == EnvErrorView::ParseFailed(key@, v, m@),
                },
            Err(_) => r is Err && Err::<Seq<char>, EnvErrorView>(r->Err_0@) == spec_get_env(
                key@,
                vars.var(key@),
            ),
        },
{
    let value = match get_env(vars, key) {
        Ok(v) => v,
        Err(e) => return Err(e),
    };
    let out = parse(value.as_str());
    match out {
        Ok(x) => Ok(x),
        Err(m) => Err(EnvError::ParseFailed { key: to_owned_string(key), value, error: m }),
    }
}

/// The number written by a string of ASCII decimal digits.
pub open spec fn decimal_value(s: Seq<char>) -> nat
    decreases s.len(),
{
    if s.len() == 0 {
        0
    } else {
        (10 * decimal_value(s.drop_last()) + (s.last() as int - '0' as int)) as nat
    }
}

/// The digits of an unsigned number: the text after an optional leading `+`.
pub open spec fn unsigned_digits(s: Seq<char>) -> Seq<char> {
    if s.len() > 0 && s[0] == '+' {
        s.drop_first()
    } else {
        s
    }
}

/// What `str::parse::<u16>` accepts: an optional `+` followed by one or more
/// ASCII digits whose value fits in 16 bits.
pub open spec fn spec_parse_u16(s: Seq<char>) -> Option<u16> {
    let digits = unsigned_digits(s);
    if digits.len() > 0 && (forall|i: int| 0 <= i < digits.len() ==> is_digit(#[trigger] digits[i]))
        && decimal_value(digits) <= u16::MAX {
        Some(decimal_value(digits) as u16)
    } else {
        None
    }
}

/// What `str::parse::<bool>` accepts: exactly `true` and `false`.
pub open spec fn spec_parse_bool(s: Seq<char>) -> Option<bool> {
    if s == "true"@ {
        Some(true)
    } else if s == "false"@ {
        Some(false)
    } else {
        None
    }
}

/// A digit string is worth at least as much as any of its prefixes.
proof fn lemma_decimal_value_prefix(s: Seq<char>, k: int)
    requires
        0 <= k <= s.len(),
        forall|i: int| 0 <= i < s.len() ==> is_digit(#[trigger] s[i]),
    ensures
        decimal_value(s.take(k)) <= decimal_value(s),
    decreases s.len(),
{
    if k < s.len() {
        assert(s.drop_last().take(k) =~= s.take(k));
        lemma_decimal_value_prefix(s.drop_last(), k);
    } else {
        assert(s.take(k) =~= s);
    }
}

/// Reads a decimal 16-bit number the way `str::parse::<u16>` does: an
/// optional `+` followed by one or more ASCII digits whose value fits.
pub(crate) fn parse_u16(s: &str) -> (r: Option<u16>)
    ensures
        r == spec_parse_u16(s@),
{
    let n = s.unicode_len();
    let start: usize = if n > 0 && s.get_char(0) == '+' {
        1
    } else {
        0
    };
    let ghost digits = s@.skip(start as int);
    assert(digits =~= unsigned_digits(s@));
    if start == n {
        return None;
    }
    let mut value: u32 = 0;
    let mut i: usize = start;
    assert(digits.take(0) =~= Seq::<char>::empty());
    while i < n
        invariant
            n == s@.len(),
            start < n,
            start <= i <= n,
            digits == s@.skip(start as int),
            digits == unsigned_digits(s@),
            value == decimal_value(digits.take(i - start)),
            value <= u16::MAX,
            forall|j: int| 0 <= j < i - start ==> is_digit(#[trigger] digits[j]),
        decreases n - i,
    {
        let c = s.get_char(i);
        assert(digits[i - start] == c);
        if !('0' <= c && c <= '9') {
            return None;
        }
        let d: u32 = (c as u32) - ('0' as u32);
        assert(digits.take(i - start + 1).drop_last() =~= digits.take(i - start));
        assert(digits.take(i - start + 1).last() == c);
        value = value * 10 + d;
        if value > 65535 {
            proof {
                if forall|j: int| 0 <= j < digits.len() ==> is_digit(#[trigger] digits[j]) {
                    lemma_decimal_value_prefix(digits, i - start + 1);
                }
            }
            return None;
        }
        i = i + 1;
    }
    assert(digits.take(n - start) =~= digits);
    Some(value as u16)
}

/// Reads a boolean the way `str::parse::<bool>` does: exactly `true` or
/// `false`.
pub(crate) fn parse_bool(s: &str) -> (r: Option<bool>)
    ensures
        r == spec_parse_bool(s@),
{
    if str_eq(s, "true") {
        Some(true)
    } else if str_eq(s, "false") {
        Some(false)
    } else {
        None
    }
}

} // verus!
