//! The admin's pages: creating and removing streams.

use vstd::prelude::*;
use vstd::string::*;
use vstd::utf8::*;

use crate::config::{
    stored_hash_parses, stream_names, streamer_outcome, Config, Credentials, Error, StreamConfig,
};
use crate::keys::{
    fresh_salt, hash_key, hash_text_parses, hashed_key, is_hash_text, is_salt_text, key_opens,
    opens, salt_was_drawn, MAX_KEY_BYTES,
};
use crate::manager::{StreamCreated, StreamRemoved};
use crate::text::{same_text, texts_view};

verus! {

/// The page on which an admin logs in.
#[derive(Debug)]
pub struct Index;

/// The page on which an admin names a new stream and its key.
#[derive(Debug)]
pub struct CreateStreamMenu<'a> {
    pub id: &'a str,
    pub key: &'a str,
}

/// The page that lists the streams.
#[derive(Debug)]
pub struct Dashboard<'a> {
    pub streams: &'a [String],
    pub id: &'a str,
    pub key: &'a str,
}

/// The stream that is to go.
#[derive(Debug)]
pub struct StreamIdQuery {
    pub stream_id: String,
}

/// The stream that is to come, and the key that it is published with.
#[derive(Debug)]
pub struct CreateStreamQuery {
    pub stream_id: String,
    pub stream_key: String,
}

/// Why an admin is not let in.
#[derive(Clone, Copy, Debug, PartialEq, Eq, Structural)]
pub enum AdminError {
    InvalidId,
    InvalidKey,
}

/// A stream that is to be stored, and what the manager is told once it is.
#[derive(Debug)]
pub struct NewStream {
    pub row: StreamConfig,
    pub message: StreamCreated,
}

/// The name of a stream that is to be deleted, and what the manager is told once it is.
#[derive(Debug)]
pub struct OldStream {
    pub id: String,
    pub message: StreamRemoved,
}

/// What an admin who is not let in is answered.
pub open spec fn admin_error_message(error: AdminError) -> Seq<char> {
    match error {
        AdminError::InvalidId => "Invalid admin ID"@,
        AdminError::InvalidKey => "Invalid admin key"@,
    }
}

/// What is decided on somebody who presents this name and this key as the admin's.
pub open spec fn admin_outcome(config: Config, id: Seq<char>, key: Seq<char>) -> Result<
    (),
    AdminError,
> {
    if id != config.admin_id@ {
        Err(AdminError::InvalidId)
    } else if key_opens(config.admin_key_hash@, key) {
        Ok(())
    } else {
        Err(AdminError::InvalidKey)
    }
}

/// The stream is stored under its name with a hash of its key and this salt, and the manager is
/// told its name.
pub open spec fn stores(new: NewStream, form: CreateStreamQuery, salt: Seq<char>) -> bool {
    &&& new.row.id@ == form.stream_id@
    &&& hashed_key(form.stream_key@, salt) == Some(new.row.key_hash@)
    &&& new.message.stream@ == form.stream_id@
}

/// The key opens the stream that was stored with it.
pub open spec fn opens_with(row: StreamConfig, key: Seq<char>) -> bool {
    stored_hash_parses(Some(row)) && streamer_outcome(Some(row), key) == Ok::<(), Error>(())
}

impl AdminError {
    /// The text that is sent with the answer that the admin is not authorized.
    pub fn message(&self) -> (text: String)
        ensures
            text@ == admin_error_message(*self),
    {
        match self {
            AdminError::InvalidId => "Invalid admin ID".to_owned(),
            AdminError::InvalidKey => "Invalid admin key".to_owned(),
        }
    }

    /// The HTTP status of the answer: not authorized.
    pub fn status(&self) -> (status: u16)
        ensures
            status == 401,
    {
        401
    }
}

/// Lets the admin in who presents the admin's name and key.
pub fn auth_as_admin(config: &Config, id: &str, key: &str) -> (outcome: Result<(), AdminError>)
    requires
        hash_text_parses(config.admin_key_hash@),
    ensures
        outcome == admin_outcome(*config, id@, key@),
{
    if !same_text(id, config.admin_id.as_str()) {
        Err(AdminError::InvalidId)
    } else if opens(config.admin_key_hash.as_str(), key) {
        Ok(())
    } else {
        Err(AdminError::InvalidKey)
    }
}

/// As [`auth_as_admin`], or `None` where the configured hash is malformed.
pub fn try_auth_as_admin(config: &Config, id: &str, key: &str) -> (outcome: Option<
    Result<(), AdminError>,
>)
    ensures
        outcome == if hash_text_parses(config.admin_key_hash@) {
            Some(admin_outcome(*config, id@, key@))
        } else {
            None
        },
{
    if is_hash_text(config.admin_key_hash.as_str()) {
        Some(auth_as_admin(config, id, key))
    } else {
        None
    }
}

/// The page on which the admin names a new stream.
pub fn create_stream_menu<'a>(credentials: &'a Credentials) -> (page: CreateStreamMenu<'a>)
    ensures
        page.id@ == credentials.id@,
        page.key@ == credentials.key@,
{
    CreateStreamMenu { id: credentials.id.as_str(), key: credentials.key.as_str() }
}

/// The stream that the form asks for, its key hashed with the salt.
pub fn new_stream(form: &CreateStreamQuery, salt: &str) -> (new: NewStream)
    requires
        encode_utf8(form.stream_key@).len() <= MAX_KEY_BYTES,
        is_salt_text(salt@),
    ensures
        stores(new, *form, salt@),
        opens_with(new.row, form.stream_key@),
{
    let key_hash: String = hash_key(form.stream_key.as_str(), salt);
    NewStream {
        row: StreamConfig { id: form.stream_id.clone(), key_hash },
        message: StreamCreated { stream: form.stream_id.clone() },
    }
}

/// Creates a stream for an admin who is let in: what is to be stored, with the key hashed with a
/// fresh salt, and what the manager is told. An admin who is not let in gets the error.
pub fn create_stream(auth: Result<(), AdminError>, form: &CreateStreamQuery) -> (new: Result<
    NewStream,
    AdminError,
>)
    requires
        auth is Ok ==> encode_utf8(form.stream_key@).len() <= MAX_KEY_BYTES,
    ensures
        match new {
            Ok(new) => {
                &&& auth is Ok
                &&& exists|salt: Seq<char>|
                    is_salt_text(salt) && salt_was_drawn(salt) && #[trigger] stores(
                        new,
                        *form,
                        salt,
                    )
                &&& opens_with(new.row, form.stream_key@)
            },
            Err(error) => auth == Err::<(), AdminError>(error),
        },
{
    match auth {
        Ok(()) => {
            let salt: String = fresh_salt();
            Ok(new_stream(form, salt.as_str()))
        },
        Err(error) => Err(error),
    }
}

/// Removes a stream for an admin who is let in: what is to be deleted, and what the manager is
/// told. An admin who is not let in gets the error.
pub fn remove_stream(auth: Result<(), AdminError>, query: &StreamIdQuery) -> (gone: Result<
    OldStream,
    AdminError,
>)
    ensures
        match gone {
            Ok(gone) => auth is Ok && gone.id@ == query.stream_id@ && gone.message.stream@
                == query.stream_id@,
            Err(error) => auth == Err::<(), AdminError>(error),
        },
{
    match auth {
        Ok(()) => Ok(
            OldStream {
                id: query.stream_id.clone(),
                message: StreamRemoved { stream: query.stream_id.clone() },
            },
        ),
        Err(error) => Err(error),
    }
}

/// The names of the streams, in the order in which they are stored.
pub fn stream_ids(streams: &Vec<StreamConfig>) -> (ids: Vec<String>)
    ensures
        texts_view(ids@) == stream_names(streams@),
{
    let mut ids: Vec<String> = Vec::new();
    let mut i: usize = 0;
    while i < streams.len()
        invariant
            i <= streams.len(),
            ids@.len() == i,
            forall|j: int| 0 <= j < i ==> (#[trigger] ids@[j])@ == streams@[j].id@,
        decreases streams.len() - i,
    {
        ids.push(streams[i].id.clone());
        i = i + 1;
    }
    assert(texts_view(ids@) =~= stream_names(streams@));
    ids
}

/// The page that lists the streams.
pub fn dashboard_inner<'a>(ids: &'a Vec<String>, credentials: &'a Credentials) -> (page: Dashboard<
    'a,
>)
    ensures
        page.streams@ == ids@,
        page.id@ == credentials.id@,
        page.key@ == credentials.key@,
{
    Dashboard {
        streams: ids.as_slice(),
        id: credentials.id.as_str(),
        key: credentials.key.as_str(),
    }
}

/// The page that lists the streams, for an admin who is let in. One who is not let in gets the
/// error.
pub fn dashboard<'a>(
    auth: Result<(), AdminError>,
    ids: &'a Vec<String>,
    credentials: &'a Credentials,
) -> (page: Result<Dashboard<'a>, AdminError>)
    ensures
        match page {
            Ok(page) => {
                &&& auth is Ok
                &&& page.streams@ == ids@
                &&& page.id@ == credentials.id@
                &&& page.key@ == credentials.key@
            },
            Err(error) => auth == Err::<(), AdminError>(error),
        },
{
    match auth {
        Ok(()) => Ok(dashboard_inner(ids, credentials)),
        Err(error) => Err(error),
    }
}

} // verus!
