//! ULID: 128-bit identifiers, 48 bits of millisecond timestamp followed by 80
//! random bits, written as 26 characters of Crockford's base 32.
//!
//! The text of a ULID sorts like its value, so ULIDs sort by the time at which
//! they were made.

use vstd::prelude::*;

use super::digits::{digit, lemma_digit_bound, lemma_digits_order, lemma_power_positive, power};
use vstd::arithmetic::div_mod::lemma_div_denominator;
use crate::text::{is_digit, is_upper, lex_less};

verus! {

/// A ULID in its canonical text form.
pub type Id = String;

/// The number of characters in the text of a ULID.
pub const ULID_LEN: usize = 26;

/// The character of Crockford's base-32 alphabet (`0123456789ABCDEFGHJKMNPQRSTVWXYZ`)
/// for the digit `d` (`0 <= d < 32`).
pub open spec fn crockford_char(d: int) -> char {
    if d < 10 {
        ('0' as int + d) as char
    } else if d < 18 {
        ('A' as int + (d - 10)) as char
    } else if d < 20 {
        ('J' as int + (d - 18)) as char
    } else if d < 22 {
        ('M' as int + (d - 20)) as char
    } else if d < 27 {
        ('P' as int + (d - 22)) as char
    } else {
        ('V' as int + (d - 27)) as char
    }
}

/// The base-32 digit at position `i` (0 is the most significant) of the
/// 26-digit representation of `value`.
pub open spec fn ulid_digit(value: u128, i: int) -> nat {
    digit(value as nat, 32, 26, i)
}

/// The canonical text of the ULID with the given value.
pub open spec fn ulid_text(value: u128) -> Seq<char> {
    Seq::new(26, |i: int| crockford_char(ulid_digit(value, i) as int))
}

/// A fresh ULID value from the current time and the system's random source
/// (`ulid::Ulid::generate`). Nothing is promised of the value.
#[verifier::external_body]
fn new_ulid_value() -> u128 {
    ::ulid::Ulid::generate().0
}

/// The canonical text of a ULID value (`ulid::Ulid::to_string`): the 26
/// base-32 digits of the value, most significant first, in Crockford's alphabet.
#[verifier::external_body]
fn ulid_value_text(value: u128) -> (s: String)
    ensures
        s@ == ulid_text(value),
{
    ::ulid::Ulid(value).to_string()
}

/// A digit of the alphabet is an ASCII digit or upper-case letter, and the
/// alphabet is in strictly increasing character order.
proof fn lemma_crockford_char(d: int, e: int)
    requires
        0 <= d < 32,
        0 <= e < 32,
    ensures
        is_digit(crockford_char(d)) || is_upper(crockford_char(d)),
        d < e ==> crockford_char(d) < crockford_char(e),
{
}

/// Every ULID text has 26 characters, each an ASCII digit or upper-case letter.
pub proof fn lemma_ulid_text_shape(value: u128)
    ensures
        ulid_text(value).len() == 26,
        forall|i: int|
            0 <= i < 26 ==> is_digit(#[trigger] ulid_text(value)[i]) || is_upper(
                ulid_text(value)[i],
            ),
{
    assert forall|i: int| 0 <= i < 26 implies is_digit(#[trigger] ulid_text(value)[i]) || is_upper(
        ulid_text(value)[i],
    ) by {
        lemma_digit_bound(value as nat, 32, 26, i);
        lemma_crockford_char(ulid_digit(value, i) as int, 0);
    }
}

/// ULIDs are lexicographically sortable: the text of a smaller value comes
/// first in lexicographic order.
pub proof fn lemma_ulid_text_sorts_like_value(a: u128, b: u128)
    requires
        a < b,
    ensures
        lex_less(ulid_text(a), ulid_text(b)),
{
    assert(power(32, 26) == 1361129467683753853853498429727072845824nat) by {
        reveal_with_fuel(power, 27);
    }
    let k = lemma_digits_order(a as nat, b as nat, 32, 26);
    lemma_digit_bound(a as nat, 32, 26, k);
    lemma_digit_bound(b as nat, 32, 26, k);
    lemma_crockford_char(ulid_digit(a, k) as int, ulid_digit(b, k) as int);
    let ta = ulid_text(a);
    let tb = ulid_text(b);
    assert(ta[k] < tb[k]);
    assert forall|j: int| 0 <= j < k implies ta[j] == tb[j] by {
        assert(ulid_digit(a, j) == ulid_digit(b, j));
    }
}

/// The millisecond timestamp that a ULID carries: its top 48 bits.
pub open spec fn ulid_timestamp(value: u128) -> u128 {
    value >> 80
}

/// The 10 base-32 characters of a 48-bit millisecond timestamp, most
/// significant first.
pub open spec fn timestamp_text(ms: u128) -> Seq<char> {
    Seq::new(10, |i: int| crockford_char(digit(ms as nat, 32, 10, i) as int))
}

/// Powers add their exponents.
proof fn lemma_power_add(base: nat, m: nat, n: nat)
    ensures
        power(base, m + n) == power(base, m) * power(base, n),
    decreases m,
{
    if m > 0 {
        let k = (m - 1) as nat;
        lemma_power_add(base, k, n);
        assert((m + n) as nat == (k + n + 1) as nat);
        assert(power(base, (k + n + 1) as nat) == base * power(base, (k + n) as nat));
        assert(power(base, m) == base * power(base, k));
        let pk = power(base, k);
        let pn = power(base, n);
        assert(base * (pk * pn) == (base * pk) * pn) by (nonlinear_arith);
    } else {
        assert(power(base, 0) == 1);
        assert((m + n) as nat == n);
    }
}

/// The first 10 characters of a ULID's text are its millisecond timestamp in
/// base 32; the other 16 carry its random part.
pub proof fn lemma_ulid_text_starts_with_timestamp(value: u128)
    ensures
        ulid_text(value).take(10) == timestamp_text(ulid_timestamp(value)),
{
    let ms = ulid_timestamp(value);
    assert(value >> 80u128 == value / 0x1_0000_0000_0000_0000_0000u128) by (bit_vector);
    assert(power(32, 16) == 0x1_0000_0000_0000_0000_0000nat) by {
        reveal_with_fuel(power, 17);
    }
    lemma_power_positive(32, 16);
    assert forall|i: int| 0 <= i < 10 implies #[trigger] ulid_digit(value, i) == digit(
        ms as nat,
        32,
        10,
        i,
    ) by {
        let n = (9 - i) as nat;
        lemma_power_positive(32, n);
        lemma_power_add(32, 16, n);
        assert((25 - i) as nat == 16 + n);
        lemma_div_denominator(value as int, power(32, 16) as int, power(32, n) as int);
    }
    assert(ulid_text(value).take(10) =~= timestamp_text(ms));
}

/// ULIDs sort by creation time: of two ULIDs, the one made in a later
/// millisecond has the greater text, whatever their random parts.
pub proof fn lemma_ulid_later_timestamp_sorts_after(a: u128, b: u128)
    requires
        ulid_timestamp(a) < ulid_timestamp(b),
    ensures
        lex_less(ulid_text(a), ulid_text(b)),
{
    assert(a >> 80u128 < b >> 80u128 ==> a < b) by (bit_vector);
    lemma_ulid_text_sorts_like_value(a, b);
}

/// Generates a new ULID from the current time and random data, in its
/// canonical text form.
pub fn generate() -> (id: Id)
    ensures
        exists|value: u128| id@ == ulid_text(value),
        id@.len() == 26,
        forall|i: int| 0 <= i < id@.len() ==> is_digit(#[trigger] id@[i]) || is_upper(id@[i]),
{
    let value = new_ulid_value();
    let id = ulid_value_text(value);
    proof {
        lemma_ulid_text_shape(value);
    }
    id
}

} // verus!
