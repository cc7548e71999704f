//! UUID version 7 (RFC 9562): a 48-bit Unix timestamp in milliseconds, the
//! version and variant fields, and random data; written in the standard
//! hyphenated form `8-4-4-4-12` of lower-case hexadecimal digits.

use vstd::prelude::*;

use super::digits::{digit, lemma_digit_bound, lemma_digits_order, power};
use crate::text::{is_digit, lex_less};

verus! {

/// The hexadecimal digit at position `j` (0 is the most significant) of the
/// 32-digit representation of `value`.
pub open spec fn uuid_hex_digit(value: u128, j: int) -> nat {
    digit(value as nat, 16, 32, j)
}

/// The lower-case hexadecimal character of the digit `d` (`0 <= d < 16`).
pub open spec fn hex_char(d: int) -> char {
    if d < 10 {
        ('0' as int + d) as char
    } else {
        ('a' as int + (d - 10)) as char
    }
}

/// Whether position `p` of the hyphenated form holds a hyphen.
pub open spec fn is_hyphen_position(p: int) -> bool {
    p == 8 || p == 13 || p == 18 || p == 23
}

/// The index of the hexadecimal digit shown at position `p` of the hyphenated
/// form (for a position that holds no hyphen).
pub open spec fn hex_index(p: int) -> int {
    if p < 8 {
        p
    } else if p < 13 {
        p - 1
    } else if p < 18 {
        p - 2
    } else if p < 23 {
        p - 3
    } else {
        p - 4
    }
}

/// The hyphenated text of the UUID with the given value.
pub open spec fn uuid_text(value: u128) -> Seq<char> {
    Seq::new(
        36,
        |p: int|
            if is_hyphen_position(p) {
                '-'
            } else {
                hex_char(uuid_hex_digit(value, hex_index(p)) as int)
            },
    )
}

/// The version number field of a UUID: its 13th hexadecimal digit.
pub open spec fn version_num(value: u128) -> nat {
    uuid_hex_digit(value, 12)
}

/// Whether the variant field of a UUID is the one of RFC 9562 (`0b10`).
pub open spec fn is_rfc_variant(value: u128) -> bool {
    8 <= uuid_hex_digit(value, 16) < 12
}

/// The version of a UUID, as the number of its `Version` (0 for the nil
/// UUID, 15 for the max UUID), when the version field holds a known version.
pub open spec fn spec_version_code(value: u128) -> Option<u8> {
    let num = version_num(value);
    if num == 0 && value == 0 {
        Some(0u8)
    } else if 1 <= num <= 8 {
        Some(num as u8)
    } else if num == 15 && value == u128::MAX {
        Some(15u8)
    } else {
        None
    }
}

/// The algorithm that generated a UUID.
#[derive(Debug, Clone, Copy, PartialEq, Eq, Structural)]
pub enum Version {
    Nil,
    Mac,
    Dce,
    Md5,
    Random,
    Sha1,
    SortMac,
    SortRand,
    Custom,
    Max,
}

/// The version named by a version number.
pub open spec fn version_of_code(code: u8) -> Option<Version> {
    if code == 0 {
        Some(Version::Nil)
    } else if code == 1 {
        Some(Version::Mac)
    } else if code == 2 {
        Some(Version::Dce)
    } else if code == 3 {
        Some(Version::Md5)
    } else if code == 4 {
        Some(Version::Random)
    } else if code == 5 {
        Some(Version::Sha1)
    } else if code == 6 {
        Some(Version::SortMac)
    } else if code == 7 {
        Some(Version::SortRand)
    } else if code == 8 {
        Some(Version::Custom)
    } else if code == 15 {
        Some(Version::Max)
    } else {
        None
    }
}

/// The version of the UUID with the given value.
pub open spec fn spec_version(value: u128) -> Option<Version> {
    match spec_version_code(value) {
        Some(code) => version_of_code(code),
        None => None,
    }
}

/// A UUID, held as its 128-bit value (most significant byte first).
#[derive(Debug, Clone, Copy, PartialEq, Eq, Structural)]
pub struct Id {
    value: u128,
}

impl View for Id {
    type V = u128;

    closed spec fn view(&self) -> u128 {
        self.value
    }
}

/// A fresh version 7 UUID from the current time (`uuid::Uuid::now_v7`), as
/// its value. The source sets the version field to 7 and the variant field to
/// the one of RFC 9562; the timestamp and random parts are not promised.
#[verifier::external_body]
fn new_v7_value() -> (value: u128)
    ensures
        version_num(value) == 7,
        is_rfc_variant(value),
{
    ::uuid::Uuid::now_v7().as_u128()
}

/// The version number of a UUID as `uuid::Uuid::get_version` names it
/// (`Version` is `repr(u8)` with the discriminants of `spec_version_code`).
#[verifier::external_body]
fn version_code(value: u128) -> (code: Option<u8>)
    ensures
        code == spec_version_code(value),
{
    ::uuid::Uuid::from_u128(value).get_version().map(|v| v as u8)
}

/// The hyphenated lower-case text of a UUID (`uuid::Uuid`'s `to_string`).
#[verifier::external_body]
fn uuid_value_text(value: u128) -> (s: String)
    ensures
        s@ == uuid_text(value),
{
    ::uuid::Uuid::from_u128(value).to_string()
}

/// Every UUID text has 36 characters: hyphens at positions 8, 13, 18 and 23,
/// lower-case hexadecimal digits elsewhere.
pub proof fn lemma_uuid_text_shape(value: u128)
    ensures
        uuid_text(value).len() == 36,
        forall|p: int|
            0 <= p < 36 ==> (#[trigger] uuid_text(value)[p] == '-' <==> is_hyphen_position(p)),
        forall|p: int|
            0 <= p < 36 && !is_hyphen_position(p) ==> is_digit(#[trigger] uuid_text(value)[p]) || (
            'a' <= uuid_text(value)[p] && uuid_text(value)[p] <= 'f'),
{
    assert forall|p: int| 0 <= p < 36 && !is_hyphen_position(p) implies uuid_hex_digit(
        value,
        hex_index(p),
    ) < 16 by {
        lemma_digit_bound(value as nat, 16, 32, hex_index(p));
    }
}

/// Version 7 UUIDs sort by creation time because the text of a smaller value
/// comes first in lexicographic order.
pub proof fn lemma_uuid_text_sorts_like_value(a: u128, b: u128)
    requires
        a < b,
    ensures
        lex_less(uuid_text(a), uuid_text(b)),
{
    assert(power(16, 32) == 340282366920938463463374607431768211456nat) by {
        reveal_with_fuel(power, 33);
    }
    let k = lemma_digits_order(a as nat, b as nat, 16, 32);
    lemma_digit_bound(a as nat, 16, 32, k);
    lemma_digit_bound(b as nat, 16, 32, k);
    let p = if k < 8 {
        k
    } else if k < 12 {
        k + 1
    } else if k < 16 {
        k + 2
    } else if k < 20 {
        k + 3
    } else {
        k + 4
    };
    let ta = uuid_text(a);
    let tb = uuid_text(b);
    assert(!is_hyphen_position(p) && hex_index(p) == k);
    assert(ta[p] < tb[p]);
    assert forall|q: int| 0 <= q < p implies ta[q] == tb[q] by {
        if !is_hyphen_position(q) {
            assert(hex_index(q) < k);
            assert(uuid_hex_digit(a, hex_index(q)) == uuid_hex_digit(b, hex_index(q)));
        }
    }
}

impl Id {
    /// The UUID with the given value.
    pub fn from_u128(value: u128) -> (id: Id)
        ensures
            id@ == value,
    {
        Id { value }
    }

    /// The value of this UUID.
    pub fn as_u128(&self) -> (value: u128)
        ensures
            value == self@,
    {
        self.value
    }

    /// The version of this UUID, when its version field holds a known one.
    pub fn get_version(&self) -> (v: Option<Version>)
        ensures
            v == spec_version(self@),
    {
        match version_code(self.value) {
            Some(0) => Some(Version::Nil),
            Some(1) => Some(Version::Mac),
            Some(2) => Some(Version::Dce),
            Some(3) => Some(Version::Md5),
            Some(4) => Some(Version::Random),
            Some(5) => Some(Version::Sha1),
            Some(6) => Some(Version::SortMac),
            Some(7) => Some(Version::SortRand),
            Some(8) => Some(Version::Custom),
            Some(15) => Some(Version::Max),
            _ => None,
        }
    }

    /// The hyphenated lower-case text of this UUID, such as
    /// `017f22e2-79b0-7cc3-98c4-dc0c0c07398f`.
    pub fn to_string(&self) -> (s: String)
        ensures
            s@ == uuid_text(self@),
            s@.len() == 36,
            forall|p: int| 0 <= p < 36 ==> (#[trigger] s@[p] == '-' <==> is_hyphen_position(p)),
    {
        proof {
            lemma_uuid_text_shape(self.value);
        }
        uuid_value_text(self.value)
    }
}

/// Generates a new version 7 UUID from the current time and random data.
pub fn generate() -> (id: Id)
    ensures
        version_num(id@) == 7,
        is_rfc_variant(id@),
        spec_version(id@) == Some(Version::SortRand),
{
    let value = new_v7_value();
    Id { value }
}

} // verus!
