//! Reading client information from HTTP request headers.

use vstd::prelude::*;

use crate::text::{
    is_ascii_alphanumeric, is_upper, lemma_split_on_nonempty, push_char, split_on,
    split_on_char, trim, trim_str,
};

verus! {

#[verifier::external_type_specification]
#[verifier::external_body]
#[verifier::reject_recursive_types(T)]
pub struct ExHeaderMap<T>(::http::HeaderMap<T>);

#[verifier::external_type_specification]
#[verifier::external_body]
pub struct ExHeaderValue(::http::HeaderValue);

/// What a header map holds: for each header name (as stored, in lower case),
/// its values in the order they were added.
pub uninterp spec fn header_entries(headers: ::http::HeaderMap<::http::HeaderValue>) -> Map<
    Seq<u8>,
    Seq<Seq<u8>>,
>;

/// Whether `c` may stand in a header name.
pub open spec fn is_header_name_char(c: char) -> bool {
    is_ascii_alphanumeric(c) || c == '!' || c == '#' || c == '$' || c == '%' || c == '&' || c
        == '\'' || c == '*' || c == '+' || c == '-' || c == '.' || c == '^' || c == '_' || c == '`'
        || c == '|' || c == '~'
}

/// The byte of an ASCII character in lower case.
pub open spec fn lower_byte(c: char) -> u8 {
    if is_upper(c) {
        (c as int + 32) as u8
    } else {
        c as u8
    }
}

/// The largest length of a header name (`http`'s `MAX_HEADER_NAME_LEN`).
pub const MAX_HEADER_NAME_LEN: usize = 65535;

/// The stored form of a header name: its bytes in lower case, when it is not
/// empty, not too long, and every character may stand in a header name.
pub open spec fn header_key(name: Seq<char>) -> Option<Seq<u8>> {
    if 1 <= name.len() <= MAX_HEADER_NAME_LEN && forall|i: int|
        0 <= i < name.len() ==> is_header_name_char(#[trigger] name[i]) {
        Some(Seq::new(name.len(), |i: int| lower_byte(name[i])))
    } else {
        None
    }
}

/// The first value of the header `name` in `entries`.
pub open spec fn spec_header_get(entries: Map<Seq<u8>, Seq<Seq<u8>>>, name: Seq<char>) -> Option<
    Seq<u8>,
> {
    match header_key(name) {
        Some(k) => if entries.contains_key(k) && entries[k].len() > 0 {
            Some(entries[k][0])
        } else {
            None
        },
        None => None,
    }
}

/// The view of an optional byte vector.
pub open spec fn option_bytes(v: Option<Vec<u8>>) -> Option<Seq<u8>> {
    match v {
        Some(b) => Some(b@),
        None => None,
    }
}

/// The bytes of the first value of a header (`HeaderMap::get` with a string
/// name, then `HeaderValue::as_bytes`). For a name of at most 64 bytes the
/// source maps each byte through its table of header-name characters (to
/// lower case; any other byte to 0, which refuses the name) and looks the
/// result up; for a longer name, up to `MAX_HEADER_NAME_LEN` bytes, it hashes
/// and compares through the same table against the stored names, which hold
/// only lower-case header-name characters, so the lookup finds the same key;
/// a longer name is refused.
#[verifier::external_body]
fn header_get(headers: &::http::HeaderMap<::http::HeaderValue>, name: &str) -> (r: Option<Vec<u8>>)
    ensures
        option_bytes(r) == spec_header_get(header_entries(*headers), name@),
{
    headers.get(name).map(|v| v.as_bytes().to_vec())
}

/// Whether a header value byte is visible ASCII or a tab.
pub open spec fn is_visible_ascii(b: u8) -> bool {
    (32 <= b && b < 127) || b == 9
}

/// The text of a header value: its bytes as characters when all are visible
/// ASCII or tabs (`HeaderValue::to_str`), nothing otherwise.
pub open spec fn spec_header_text(bytes: Seq<u8>) -> Option<Seq<char>> {
    if forall|i: int| 0 <= i < bytes.len() ==> is_visible_ascii(#[trigger] bytes[i]) {
        Some(bytes.map_values(|b: u8| b as char))
    } else {
        None
    }
}

/// The text of a header value when all its bytes are visible ASCII or tabs.
pub fn header_text(bytes: &Vec<u8>) -> (r: Option<String>)
    ensures
        match r {
            Some(s) => spec_header_text(bytes@) == Some(s@),
            None => spec_header_text(bytes@) is None,
        },
{
    let mut s = String::new();
    let mut i: usize = 0;
    while i < bytes.len()
        invariant
            i <= bytes@.len(),
            s@ == bytes@.take(i as int).map_values(|b: u8| b as char),
            forall|j: int| 0 <= j < i ==> is_visible_ascii(#[trigger] bytes@[j]),
        decreases bytes@.len() - i,
    {
        let b = bytes[i];
        if !((32 <= b && b < 127) || b == 9) {
            return None;
        }
        push_char(&mut s, b as char);
        assert(bytes@.take(i + 1).map_values(|b: u8| b as char) =~= bytes@.take(i as int).map_values(
            |b: u8| b as char,
        ).push(b as char));
        i = i + 1;
    }
    assert(bytes@.take(bytes@.len() as int) =~= bytes@);
    Some(s)
}

/// The text of the first value of the header `name`, if it is readable.
pub open spec fn spec_header_value_text(
    entries: Map<Seq<u8>, Seq<Seq<u8>>>,
    name: Seq<char>,
) -> Option<Seq<char>> {
    match spec_header_get(entries, name) {
        Some(b) => spec_header_text(b),
        None => None,
    }
}

/// The first item of a comma-separated header value, without surrounding
/// whitespace.
pub open spec fn first_item(text: Seq<char>) -> Seq<char> {
    trim(split_on(text, ',')[0])
}

/// The first item of the first readable header among `names`, in order.
pub open spec fn spec_first_header_value(
    entries: Map<Seq<u8>, Seq<Seq<u8>>>,
    names: Seq<Seq<char>>,
) -> Option<Seq<char>>
    decreases names.len(),
{
    if names.len() == 0 {
        None
    } else {
        match spec_header_value_text(entries, names[0]) {
            Some(text) => Some(first_item(text)),
            None => spec_first_header_value(entries, names.drop_first()),
        }
    }
}

/// What [`get_header_value`] gives: the first item of the value of the first
/// readable header among the comma-separated `header_names`.
pub open spec fn spec_get_header_value(
    entries: Map<Seq<u8>, Seq<Seq<u8>>>,
    header_names: Seq<char>,
) -> Option<Seq<char>> {
    spec_first_header_value(entries, split_on(header_names, ','))
}

/// The view of an optional string.
pub open spec fn option_text(s: Option<String>) -> Option<Seq<char>> {
    match s {
        Some(s) => Some(s@),
        None => None,
    }
}

/// Looks up the headers named in the comma-separated `header_string`, in
/// order, and gives, for the first one present with a readable value, the
/// first comma-separated item of that value with surrounding whitespace
/// removed.
pub fn get_header_value(headers: &::http::HeaderMap<::http::HeaderValue>, header_string: &str) -> (r:
    Option<String>)
    ensures
        option_text(r) == spec_get_header_value(
            header_entries(*headers),
            header_string@,
        ),
{
    let names = split_on_char(header_string, ',');
    let ghost entries = header_entries(*headers);
    let ghost all = names.deep_view();
    let mut i: usize = 0;
    assert(all.skip(0) =~= all);
    while i < names.len()
        invariant
            all == names.deep_view(),
            all == split_on(header_string@, ','),
            i <= names@.len(),
            spec_first_header_value(entries, all) == spec_first_header_value(entries, all.skip(i as int)),
            entries == header_entries(*headers),
        decreases names@.len() - i,
    {
        let name = &names[i];
        assert(all.skip(i as int)[0] == name@);
        assert(all.skip(i as int).drop_first() =~= all.skip(i + 1));
        let found = header_get(headers, name.as_str());
        if let Some(bytes) = found {
            if let Some(text) = header_text(&bytes) {
                let parts = split_on_char(text.as_str(), ',');
                proof {
                    lemma_split_on_nonempty(text@, ',');
                }
                let item = trim_str(parts[0].as_str());
                assert(spec_header_value_text(entries, name@) == Some(text@));
                return Some(item);
            }
        }
        assert(spec_header_value_text(entries, name@) is None);
        i = i + 1;
    }
    None
}

} // verus!
