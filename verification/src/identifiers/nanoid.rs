//! NanoID: compact, URL-safe random identifiers of 21 characters drawn from the
//! 62 ASCII letters and digits.

use vstd::prelude::*;

use crate::text::is_ascii_alphanumeric;

verus! {

/// A NanoID in its text form.
pub type Id = String;

/// The number of characters in a generated NanoID.
pub const NANOID_LEN: usize = 21;

/// The alphabet of generated NanoIDs: digits, upper-case and lower-case ASCII
/// letters, 62 characters in all.
pub const ALPHANUMERIC_ALPHABET: [char; 62] = [
    '0', '1', '2', '3', '4', '5', '6', '7', '8', '9', 'A', 'B', 'C', 'D', 'E', 'F', 'G', 'H', 'I',
    'J', 'K', 'L', 'M', 'N', 'O', 'P', 'Q', 'R', 'S', 'T', 'U', 'V', 'W', 'X', 'Y', 'Z', 'a', 'b',
    'c', 'd', 'e', 'f', 'g', 'h', 'i', 'j', 'k', 'l', 'm', 'n', 'o', 'p', 'q', 'r', 's', 't', 'u',
    'v', 'w', 'x', 'y', 'z',
];

/// A random string of `size` characters of `alphabet`, drawn with the secure
/// default random source (`nanoid::format` with `nanoid::rngs::default`).
/// The characters are random; what is promised is the length and that every
/// character is one of the alphabet's. The alphabet must be non-empty, of at
/// most 255 characters, all ASCII, and `size` positive: otherwise
/// `nanoid::format` panics or does not return.
#[verifier::external_body]
fn random_string(alphabet: &[char], size: usize) -> (id: String)
    requires
        1 <= alphabet@.len() <= 255,
        size >= 1,
        forall|i: int| 0 <= i < alphabet@.len() ==> (#[trigger] alphabet@[i] as u32) < 128,
    ensures
        id@.len() == size,
        forall|i: int| 0 <= i < size ==> alphabet@.contains(#[trigger] id@[i]),
{
    ::nanoid::format(::nanoid::rngs::default, alphabet, size)
}

/// Generates a new 21-character NanoID of ASCII letters and digits.
pub fn generate() -> (id: Id)
    ensures
        id@.len() == NANOID_LEN,
        forall|i: int| 0 <= i < id@.len() ==> is_ascii_alphanumeric(#[trigger] id@[i]),
{
    let alphabet = vstd::array::array_as_slice(&ALPHANUMERIC_ALPHABET);
    assert forall|i: int| 0 <= i < alphabet@.len() implies is_ascii_alphanumeric(
        #[trigger] alphabet@[i],
    ) && (alphabet@[i] as u32) < 128 by {
    }
    let id = random_string(alphabet, NANOID_LEN);
    assert forall|i: int| 0 <= i < id@.len() implies is_ascii_alphanumeric(#[trigger] id@[i]) by {
        let j = choose|j: int| 0 <= j < alphabet@.len() && alphabet@[j] == id@[i];
        assert(is_ascii_alphanumeric(alphabet@[j]));
    }
    id
}

} // verus!
