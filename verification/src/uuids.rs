//! Player identifiers: UUIDs, held as the 128-bit number that they spell.

use uuid::Error as UuidError;
use vstd::arithmetic::power::*;
use vstd::prelude::*;
use vstd::string::*;

verus! {

/// What `uuid::Uuid::parse_str` reports on a text that is no UUID. Opaque here.
#[verifier::external_type_specification]
#[verifier::external_body]
pub struct ExUuidError(UuidError);

/// The text is no UUID.
#[derive(Clone, Copy, Debug, PartialEq, Eq, Structural)]
pub struct InvalidUuid;

/// The UUID that a text spells, in any of the forms that `uuid::Uuid::parse_str` reads, if it
/// spells one.
pub uninterp spec fn uuid_of_text(text: Seq<char>) -> Option<u128>;

/// The lower-case hexadecimal digits.
pub open spec fn hex_digits() -> Seq<char> {
    seq!['0', '1', '2', '3', '4', '5', '6', '7', '8', '9', 'a', 'b', 'c', 'd', 'e', 'f']
}

/// A hyphen stands at this position of a hyphenated UUID.
pub open spec fn is_hyphen_position(i: int) -> bool {
    i == 8 || i == 13 || i == 18 || i == 23
}

/// How many hyphens stand before this position of a hyphenated UUID.
pub open spec fn hyphens_before(i: int) -> int {
    if i <= 8 {
        0
    } else if i <= 13 {
        1
    } else if i <= 18 {
        2
    } else if i <= 23 {
        3
    } else {
        4
    }
}

/// The hyphenated lower-case form: 32 hexadecimal digits, the most significant first, in groups of
/// 8, 4, 4, 4 and 12.
pub open spec fn hyphenated(uuid: u128) -> Seq<char> {
    Seq::new(
        36,
        |i: int|
            if is_hyphen_position(i) {
                '-'
            } else {
                hex_digits()[(uuid as int / pow(16, (31 - (i - hyphens_before(i))) as nat)) % 16]
            },
    )
}

/// The version bits say "random" and the variant bits say "RFC 4122".
pub open spec fn is_random_uuid(uuid: u128) -> bool {
    (uuid >> 76) & 0xf == 4 && (uuid >> 62) & 3 == 2
}

/// Reads a UUID with `uuid::Uuid::parse_str`. Trusted: the outcome is a function of the text alone,
/// namely [`uuid_of_text`]. Nothing is said of which texts spell a UUID, nor of the error.
#[verifier::external_body]
fn parse_str(text: &str) -> (parsed: Result<u128, UuidError>)
    ensures
        match parsed {
            Ok(uuid) => uuid_of_text(text@) == Some(uuid),
            Err(_) => uuid_of_text(text@) is None,
        },
{
    uuid::Uuid::parse_str(text).map(|uuid| uuid.as_u128())
}

/// Writes a UUID with the `Display` of `uuid::Uuid`. Trusted: the text is the hyphenated
/// lower-case form, and `uuid::Uuid::parse_str` reads it back as the same UUID.
#[verifier::external_body]
fn display(uuid: u128) -> (text: String)
    ensures
        text@ == hyphenated(uuid),
        uuid_of_text(text@) == Some(uuid),
{
    uuid::Uuid::from_u128(uuid).to_string()
}

/// Draws a UUID with `uuid::Uuid::new_v4`. Trusted: version and variant bits are those of a random
/// UUID; the other bits are left to chance. The crate panics if the system has no randomness to
/// give.
#[verifier::external_body]
fn new_v4() -> (uuid: u128)
    ensures
        is_random_uuid(uuid),
{
    uuid::Uuid::new_v4().as_u128()
}

/// The UUID that the text spells.
pub fn parse_uuid(text: &str) -> (parsed: Result<u128, InvalidUuid>)
    ensures
        parsed == match uuid_of_text(text@) {
            Some(uuid) => Ok::<u128, InvalidUuid>(uuid),
            None => Err::<u128, InvalidUuid>(InvalidUuid),
        },
{
    match parse_str(text) {
        Ok(uuid) => Ok(uuid),
        Err(_) => Err(InvalidUuid),
    }
}

/// The hyphenated lower-case form of the UUID.
pub fn uuid_text(uuid: u128) -> (text: String)
    ensures
        text@ == hyphenated(uuid),
        uuid_of_text(text@) == Some(uuid),
{
    display(uuid)
}

/// The UUID is one that was drawn: no other is a fresh one.
pub closed spec fn was_drawn(uuid: u128) -> bool {
    call_ensures(new_v4, (), uuid)
}

/// A fresh random UUID.
pub fn fresh_uuid() -> (uuid: u128)
    ensures
        is_random_uuid(uuid),
        was_drawn(uuid),
{
    new_v4()
}

/// A UUID is written in 36 characters and without a slash, so that it can stand as one segment of
/// a URL.
pub proof fn law_uuid_text_is_one_segment(uuid: u128)
    ensures
        hyphenated(uuid).len() == 36,
        !hyphenated(uuid).contains('/'),
{
    let text = hyphenated(uuid);
    assert forall|i: int| 0 <= i < text.len() implies text[i] != '/' by {
        if !is_hyphen_position(i) {
            let power = pow(16, (31 - (i - hyphens_before(i))) as nat);
            let digit = (uuid as int / power) % 16;
            assert(0 <= digit < 16);
            assert(hex_digits()[digit] != '/');
        }
    }
}

} // verus!
