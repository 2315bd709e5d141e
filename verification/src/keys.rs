//! Stream and admin keys: how they are hashed for storage, and how a key is held against a stored
//! hash.

use argon2::password_hash::Error as HashError;
use argon2::password_hash::{Encoding, Salt, SaltString};
use argon2::{Argon2, PasswordHash};
use vstd::prelude::*;
use vstd::string::*;
use vstd::utf8::*;

use crate::text::chars_of;

verus! {

/// What the password-hashing crate reports on a failure. Opaque here.
#[verifier::external_type_specification]
#[verifier::external_body]
pub struct ExPasswordHashError(HashError);

/// The longest key, in bytes, that the hash function takes.
pub const MAX_KEY_BYTES: usize = 0xffff_ffff;

/// `PasswordHash::parse` reads the text as a password hash in PHC string format.
pub uninterp spec fn hash_text_parses(text: Seq<char>) -> bool;

/// `PasswordHash::verify_password`, with Argon2, accepts the key for the hash that the text
/// spells.
pub uninterp spec fn key_matches_hash(hash: Seq<char>, key: Seq<char>) -> bool;

/// The PHC string that `PasswordHash::generate`, with Argon2 and its default parameters, makes of
/// a key and a salt in B64, if it makes one.
pub uninterp spec fn hashed_key(key: Seq<char>, salt: Seq<char>) -> Option<Seq<char>>;

/// A decimal digit.
pub open spec fn is_digit(c: char) -> bool {
    '0' <= c && c <= '9'
}

/// A parameter field `p=`, the number of lanes, starts behind this position.
pub open spec fn lanes_field_at(text: Seq<char>, i: int) -> bool {
    0 <= i && i + 3 <= text.len() && (text[i] == '$' || text[i] == ',') && text[i + 1] == 'p'
        && text[i + 2] == '='
}

/// The nine characters behind the field's `=` are digits.
pub open spec fn nine_digits_behind(text: Seq<char>, i: int) -> bool {
    i + 12 <= text.len() && forall|j: int| i + 3 <= j < i + 12 ==> is_digit(#[trigger] text[j])
}

/// The hash text names its number of lanes with nine digits or more: the last field `p=` counts.
/// Argon2 takes no more than 16777215 lanes, so no key is ever accepted for such a hash.
pub open spec fn overlong_lanes(text: Seq<char>) -> bool {
    exists|i: int|
        #![trigger lanes_field_at(text, i)]
        lanes_field_at(text, i) && nine_digits_behind(text, i) && forall|j: int|
            i < j ==> !lanes_field_at(text, j)
}

/// The key opens what the hash protects.
pub open spec fn key_opens(hash: Seq<char>, key: Seq<char>) -> bool {
    !overlong_lanes(hash) && key_matches_hash(hash, key)
}

/// A character of the B64 alphabet.
pub open spec fn is_b64_char(c: char) -> bool {
    ('A' <= c && c <= 'Z') || ('a' <= c && c <= 'z') || is_digit(c) || c == '+' || c == '/'
}

/// Sixteen bytes in B64 without padding: 22 characters, of which the last holds two bits.
pub open spec fn is_salt_text(salt: Seq<char>) -> bool {
    salt.len() == 22 && (forall|i: int| 0 <= i < 22 ==> is_b64_char(#[trigger] salt[i])) && (
    salt[21] == 'A' || salt[21] == 'Q' || salt[21] == 'g' || salt[21] == 'w')
}

/// Reads a password hash with `PasswordHash::parse`, and drops what it read. Trusted: whether it
/// succeeds is a function of the text alone, namely [`hash_text_parses`].
#[verifier::external_body]
fn parse_hash(text: &str) -> (parsed: Result<(), HashError>)
    ensures
        parsed is Ok == hash_text_parses(text@),
{
    PasswordHash::parse(text, Encoding::B64).map(|_| ())
}

/// Holds a key against a hash with `PasswordHash::verify_password` and `Argon2::default()`.
/// Trusted: the outcome is a function of the two texts alone, namely [`key_matches_hash`].
/// The text has to parse, and its number of lanes must not have nine digits or more: where overflow
/// is checked, the crate panics on eight times a number of lanes over 536870911. The memory that
/// the hash asks for in its parameter `m` is allocated; that it can be had is not stated.
#[verifier::external_body]
fn verify_password(hash: &str, key: &str) -> (verified: Result<(), HashError>)
    requires
        hash_text_parses(hash@),
        !overlong_lanes(hash@),
    ensures
        verified is Ok == key_matches_hash(hash@, key@),
{
    PasswordHash::parse(hash, Encoding::B64)?.verify_password(&[&Argon2::default()], key)
}

/// Draws a salt with `SaltString::generate` from the thread's random number generator. Trusted:
/// the salt is sixteen bytes in B64; which bytes is left to chance. The generator panics if the
/// system has no randomness to give.
#[verifier::external_body]
fn draw_salt() -> (salt: String)
    ensures
        is_salt_text(salt@),
{
    SaltString::generate(rand::thread_rng()).as_str().to_string()
}

/// Hashes a key with `PasswordHash::generate` and `Argon2::default()`, and writes the hash in PHC
/// string format. Trusted: the text is a function of key and salt alone, namely [`hashed_key`]; it
/// is made of every key of at most [`MAX_KEY_BYTES`] bytes and every salt of sixteen bytes; it
/// parses again, names one lane, and the key that it was made of is accepted for it. That no other
/// key is accepted is not stated: nothing in the crate rules out a collision.
#[verifier::external_body]
fn generate_hash(key: &str, salt: &str) -> (made: Result<String, HashError>)
    ensures
        match made {
            Ok(hash) => hashed_key(key@, salt@) == Some(hash@) && hash_text_parses(hash@)
                && !overlong_lanes(hash@) && key_matches_hash(hash@, key@),
            Err(_) => hashed_key(key@, salt@) is None,
        },
        is_salt_text(salt@) && encode_utf8(key@).len() <= MAX_KEY_BYTES ==> made is Ok,
{
    Ok(PasswordHash::generate(Argon2::default(), key, Salt::from_b64(salt)?)?.serialize().to_string())
}

/// Whether the text is a password hash in PHC string format.
pub fn is_hash_text(text: &str) -> (parses: bool)
    ensures
        parses == hash_text_parses(text@),
{
    match parse_hash(text) {
        Ok(()) => true,
        Err(_) => false,
    }
}

/// Whether the nine characters behind the field at `i` are digits.
fn has_nine_digits_behind(chars: &Vec<char>, i: usize) -> (found: bool)
    requires
        lanes_field_at(chars@, i as int),
    ensures
        found == nine_digits_behind(chars@, i as int),
{
    if chars.len() - i < 12 {
        return false;
    }
    let mut j: usize = i + 3;
    while j < i + 12
        invariant
            i + 12 <= chars.len(),
            i + 3 <= j <= i + 12,
            forall|k: int| i + 3 <= k < j ==> is_digit(#[trigger] chars@[k]),
        decreases i + 12 - j,
    {
        if chars[j] < '0' || chars[j] > '9' {
            assert(!is_digit(chars@[j as int]));
            return false;
        }
        j = j + 1;
    }
    true
}

/// Whether the hash text names its number of lanes with nine digits or more.
pub fn has_overlong_lanes(text: &str) -> (found: bool)
    ensures
        found == overlong_lanes(text@),
{
    let chars = chars_of(text);
    let mut i: usize = chars.len();
    while i > 0
        invariant
            chars@ == text@,
            i <= chars.len(),
            forall|j: int| i <= j ==> !lanes_field_at(text@, j),
        decreases i,
    {
        i = i - 1;
        if chars.len() - i >= 3 && (chars[i] == '$' || chars[i] == ',') && chars[i + 1] == 'p'
            && chars[i + 2] == '=' {
            let found: bool = has_nine_digits_behind(&chars, i);
            assert(lanes_field_at(text@, i as int));
            return found;
        }
    }
    false
}

/// Whether the key opens what the hash protects, the hash being one that parses.
pub(crate) fn opens(hash: &str, key: &str) -> (accepted: bool)
    requires
        hash_text_parses(hash@),
    ensures
        accepted == key_opens(hash@, key@),
{
    if has_overlong_lanes(hash) {
        return false;
    }
    match verify_password(hash, key) {
        Ok(()) => true,
        Err(_) => false,
    }
}

/// Whether the key opens what the hash protects, or `None` where the text is no password hash.
pub fn check_key(hash: &str, key: &str) -> (accepted: Option<bool>)
    ensures
        accepted == if hash_text_parses(hash@) {
            Some(key_opens(hash@, key@))
        } else {
            None
        },
{
    if is_hash_text(hash) {
        Some(opens(hash, key))
    } else {
        None
    }
}

/// The salt is one that was drawn: no other is a fresh one.
pub closed spec fn salt_was_drawn(salt: Seq<char>) -> bool {
    exists|drawn: String| #[trigger] call_ensures(draw_salt, (), drawn) && drawn@ == salt
}

/// A fresh salt.
pub fn fresh_salt() -> (salt: String)
    ensures
        is_salt_text(salt@),
        salt_was_drawn(salt@),
{
    draw_salt()
}

/// The hash under which a key is stored.
pub fn hash_key(key: &str, salt: &str) -> (hash: String)
    requires
        encode_utf8(key@).len() <= MAX_KEY_BYTES,
        is_salt_text(salt@),
    ensures
        hashed_key(key@, salt@) == Some(hash@),
        hash_text_parses(hash@),
        key_opens(hash@, key@),
{
    match generate_hash(key, salt) {
        Ok(hash) => hash,
        // Every key of this length is hashed with such a salt.
        Err(_) => String::new(),
    }
}

} // verus!
