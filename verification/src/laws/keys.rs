//! Laws of keys: who is let in with which key.

use vstd::prelude::*;
use vstd::string::*;
use vstd::utf8::*;

use crate::admin::{
    auth_as_admin, create_stream, new_stream, try_auth_as_admin, AdminError, CreateStreamQuery,
    NewStream,
};
use crate::config::{auth_as_streamer, try_auth_as_streamer, Config, Error, StreamConfig};
use crate::keys::{
    check_key, fresh_salt, has_overlong_lanes, hash_key, hash_text_parses, hashed_key, is_digit,
    is_hash_text, key_matches_hash, lanes_field_at, nine_digits_behind, overlong_lanes,
    salt_was_drawn,
};

verus! {

/// `$p=` or `,p=` stands in the text at this position.
pub open spec fn spells_lanes(text: Seq<char>, i: int) -> bool {
    0 <= i <= text.len() - 3 && (text.subrange(i, i + 3) =~= seq!['$', 'p', '='] || text.subrange(
        i,
        i + 3,
    ) =~= seq![',', 'p', '='])
}

/// A salt is 22 letters, digits or signs, of which the last is one of four; a fresh salt is one, and
/// with one every key that is not too long is hashed.
pub proof fn law_salts(salt: String, key: &str, text: &str)
    requires
        call_ensures(fresh_salt, (), salt),
    ensures
        salt_was_drawn(salt@),
        salt@.len() == 22,
        forall|i: int|
            0 <= i < 22 ==> ('A' <= #[trigger] salt@[i] <= 'Z' || 'a' <= salt@[i] <= 'z' || '0'
                <= salt@[i] <= '9' || salt@[i] == '+' || salt@[i] == '/'),
        salt@[21] == 'A' || salt@[21] == 'Q' || salt@[21] == 'g' || salt@[21] == 'w',
        text@ == salt@ && encode_utf8(key@).len() <= 0xffff_ffff ==> call_requires(
            hash_key,
            (key, text),
        ),
{
}

/// A key is accepted for the hash that was made of it, with whatever salt: the whole key is hashed,
/// and the whole key is checked.
pub proof fn law_key_opens_its_hash(key: &str, salt: &str, made: String, hash: &str, accepted: Option<
    bool,
>)
    requires
        call_ensures(hash_key, (key, salt), made),
        hash@ == made@,
        call_ensures(check_key, (hash, key), accepted),
    ensures
        hashed_key(key@, salt@) == Some(hash@),
        accepted == Some(true),
{
}

/// What the hash function says of the whole hash and the whole key decides, where the hash does not
/// name its lanes with nine digits or more.
pub proof fn law_check_is_of_whole_hash_and_key(
    hash: &str,
    key: &str,
    parses: bool,
    accepted: Option<bool>,
)
    requires
        call_ensures(is_hash_text, (hash,), parses),
        call_ensures(check_key, (hash, key), accepted),
    ensures
        parses == hash_text_parses(hash@),
        parses == accepted is Some,
        accepted == Some(true) ==> key_matches_hash(hash@, key@),
        parses && key_matches_hash(hash@, key@) && (forall|i: int|
            0 <= i <= hash@.len() - 12 ==> !(((#[trigger] hash@[i]) == '$' || hash@[i] == ',')
                && hash@[i + 1] == 'p' && hash@[i + 2] == '=' && forall|j: int|
                i + 3 <= j < i + 12 ==> '0' <= #[trigger] hash@[j] <= '9')) ==> accepted == Some(
            true,
        ),
{
    if overlong_lanes(hash@) {
        let i = choose|i: int|
            #![trigger lanes_field_at(hash@, i)]
            lanes_field_at(hash@, i) && nine_digits_behind(hash@, i) && forall|j: int|
                i < j ==> !lanes_field_at(hash@, j);
        assert forall|j: int| i + 3 <= j < i + 12 implies '0' <= #[trigger] hash@[j] <= '9' by {
            assert(is_digit(hash@[j]));
        }
        assert(hash@[i] == '$' || hash@[i] == ',');
    }
}

/// No key is accepted for a hash that names its lanes with nine digits or more in its last field
/// for them; for any other hash, what the hash function says decides.
pub proof fn law_overlong_lanes_open_nothing(
    hash: &str,
    key: &str,
    overlong: bool,
    accepted: Option<bool>,
)
    requires
        call_ensures(has_overlong_lanes, (hash,), overlong),
        call_ensures(check_key, (hash, key), accepted),
    ensures
        accepted is Some ==> accepted == Some(!overlong && key_matches_hash(hash@, key@)),
        overlong <==> exists|i: int| #[trigger]
            spells_lanes(hash@, i) && i + 12 <= hash@.len() && (forall|j: int|
                i + 3 <= j < i + 12 ==> '0' <= #[trigger] hash@[j] <= '9') && forall|j: int|
                i < j ==> !#[trigger] spells_lanes(hash@, j),
{
    assert forall|i: int| spells_lanes(hash@, i) == lanes_field_at(hash@, i) by {}
    if overlong {
        let i = choose|i: int|
            #![trigger lanes_field_at(hash@, i)]
            lanes_field_at(hash@, i) && nine_digits_behind(hash@, i) && forall|j: int|
                i < j ==> !lanes_field_at(hash@, j);
        assert forall|j: int| i + 3 <= j < i + 12 implies '0' <= #[trigger] hash@[j] <= '9' by {
            assert(is_digit(hash@[j]));
        }
        assert(spells_lanes(hash@, i));
    }
    if exists|i: int| #[trigger]
        spells_lanes(hash@, i) && i + 12 <= hash@.len() && (forall|j: int|
            i + 3 <= j < i + 12 ==> '0' <= #[trigger] hash@[j] <= '9') && forall|j: int|
            i < j ==> !#[trigger] spells_lanes(hash@, j) {
        let i = choose|i: int| #[trigger]
            spells_lanes(hash@, i) && i + 12 <= hash@.len() && (forall|j: int|
                i + 3 <= j < i + 12 ==> '0' <= #[trigger] hash@[j] <= '9') && forall|j: int|
                i < j ==> !#[trigger] spells_lanes(hash@, j);
        assert(lanes_field_at(hash@, i));
    }
}

/// The admin is let in exactly if the name is the admin's and the key is accepted for the
/// configured hash; a wrong name is reported before a wrong key.
pub proof fn law_admin_needs_name_and_whole_key(
    config: &Config,
    id: &str,
    key: &str,
    hash: &str,
    outcome: Result<(), AdminError>,
    tried: Option<Result<(), AdminError>>,
    accepted: Option<bool>,
)
    requires
        hash@ == config.admin_key_hash@,
        call_ensures(auth_as_admin, (config, id, key), outcome),
        call_ensures(try_auth_as_admin, (config, id, key), tried),
        call_ensures(check_key, (hash, key), accepted),
        accepted is Some,
    ensures
        outcome is Ok <==> id@ == config.admin_id@ && accepted == Some(true),
        id@ != config.admin_id@ <==> outcome == Err::<(), AdminError>(AdminError::InvalidId),
        id@ == config.admin_id@ && accepted != Some(true) <==> outcome == Err::<(), AdminError>(
            AdminError::InvalidKey,
        ),
        tried == Some(outcome),
{
}

/// Nothing is decided on an admin while the configured hash is malformed, and something is
/// otherwise.
pub proof fn law_admin_hash_is_read_first(
    config: &Config,
    id: &str,
    key: &str,
    hash: &str,
    parses: bool,
    tried: Option<Result<(), AdminError>>,
)
    requires
        hash@ == config.admin_key_hash@,
        call_ensures(is_hash_text, (hash,), parses),
        call_ensures(try_auth_as_admin, (config, id, key), tried),
    ensures
        tried is Some <==> parses,
        parses ==> call_requires(auth_as_admin, (config, id, key)),
{
}

/// The admin whose key was hashed into the configuration logs in with that key, however long it is.
pub proof fn law_admin_logs_in_with_the_configured_key(
    config: &Config,
    id: &str,
    key: &str,
    salt: &str,
    made: String,
    outcome: Result<(), AdminError>,
)
    requires
        call_ensures(hash_key, (key, salt), made),
        config.admin_key_hash@ == made@,
        id@ == config.admin_id@,
        call_ensures(auth_as_admin, (config, id, key), outcome),
    ensures
        call_requires(auth_as_admin, (config, id, key)),
        outcome is Ok,
{
}

/// A streamer is let in exactly if the stream was found and the key is accepted for its hash; every
/// other streamer is unauthorized.
pub proof fn law_streamer_needs_stream_and_whole_key(
    stream: &Option<StreamConfig>,
    key: &str,
    hash: &str,
    outcome: Result<(), Error>,
    tried: Option<Result<(), Error>>,
    accepted: Option<bool>,
)
    requires
        stream matches Some(stream) ==> hash@ == stream.key_hash@,
        call_ensures(auth_as_streamer, (stream, key), outcome),
        call_ensures(try_auth_as_streamer, (stream, key), tried),
        call_ensures(check_key, (hash, key), accepted),
        stream is Some ==> accepted is Some,
    ensures
        outcome is Ok <==> stream is Some && accepted == Some(true),
        outcome is Err ==> outcome == Err::<(), Error>(Error::Unauthorized),
        tried == Some(outcome),
{
}

/// Nothing is decided on a streamer while the stored hash is malformed, and something is otherwise.
pub proof fn law_stored_hash_is_read_first(
    stream: &Option<StreamConfig>,
    key: &str,
    hash: &str,
    parses: bool,
    tried: Option<Result<(), Error>>,
)
    requires
        stream matches Some(stream) ==> hash@ == stream.key_hash@,
        call_ensures(is_hash_text, (hash,), parses),
        call_ensures(try_auth_as_streamer, (stream, key), tried),
    ensures
        tried is Some <==> stream is None || parses,
        stream is None || parses ==> call_requires(auth_as_streamer, (stream, key)),
{
}

/// A new stream is stored under its name with a hash of its whole key, and the manager is told that
/// name; the key opens it.
pub proof fn law_new_stream_is_stored_and_opens(
    form: &CreateStreamQuery,
    salt: &str,
    key: &str,
    new: NewStream,
    made: String,
    hash: &str,
    accepted: Option<bool>,
)
    requires
        call_ensures(new_stream, (form, salt), new),
        key@ == form.stream_key@,
        call_ensures(hash_key, (key, salt), made),
        hash@ == new.row.key_hash@,
        call_ensures(check_key, (hash, key), accepted),
    ensures
        new.row.id@ == form.stream_id@,
        new.row.key_hash@ == made@,
        new.message.stream@ == form.stream_id@,
        accepted == Some(true),
{
}

/// A stream is created exactly for an admin who is let in, whatever the form holds; it is stored
/// with a hash of its whole key and a salt that was drawn, and the key opens it. Anybody else gets the error.
pub proof fn law_only_the_admin_creates(
    auth: Result<(), AdminError>,
    form: &CreateStreamQuery,
    key: &str,
    new: Result<NewStream, AdminError>,
    hash: &str,
    accepted: Option<bool>,
)
    requires
        call_ensures(create_stream, (auth, form), new),
        key@ == form.stream_key@,
        new matches Ok(new) ==> hash@ == new.row.key_hash@,
        call_ensures(check_key, (hash, key), accepted),
    ensures
        encode_utf8(form.stream_key@).len() <= 0xffff_ffff ==> call_requires(
            create_stream,
            (auth, form),
        ),
        auth matches Err(error) ==> new == Err::<NewStream, AdminError>(error),
        auth is Ok ==> new is Ok,
        new matches Ok(new) ==> {
            &&& new.row.id@ == form.stream_id@
            &&& new.message.stream@ == form.stream_id@
            &&& exists|salt: Seq<char>|
                salt_was_drawn(salt) && #[trigger] hashed_key(form.stream_key@, salt) == Some(
                    new.row.key_hash@,
                )
            &&& accepted == Some(true)
        },
{
}

} // verus!
