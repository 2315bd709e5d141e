//! Configuration, credentials, stored streams, and what a refused request is answered.

use vstd::prelude::*;
use vstd::string::*;

use crate::keys::{hash_text_parses, is_hash_text, key_opens, opens};

verus! {

/// A stream as it is stored: its name, and the hash of the key with which it is published.
#[derive(Debug)]
pub struct StreamConfig {
    pub id: String,
    pub key_hash: String,
}

/// The name and the key that a streamer or an admin presents.
#[derive(Debug)]
pub struct Credentials {
    pub id: String,
    pub key: String,
}

/// What the server is started with.
#[derive(Debug)]
pub struct Config {
    pub db_url: String,
    pub bind: String,
    pub ome_host: String,
    pub ome_api_host: String,
    pub ome_api_credentials: String,
    pub admin_id: String,
    pub admin_key_hash: String,
}

impl Clone for Config {
    fn clone(&self) -> (copy: Self)
        ensures
            copy == *self,
    {
        Config {
            db_url: self.db_url.clone(),
            bind: self.bind.clone(),
            ome_host: self.ome_host.clone(),
            ome_api_host: self.ome_api_host.clone(),
            ome_api_credentials: self.ome_api_credentials.clone(),
            admin_id: self.admin_id.clone(),
            admin_key_hash: self.admin_key_hash.clone(),
        }
    }
}

/// Why a request is refused.
#[derive(Clone, Copy, Debug, PartialEq, Eq, Structural)]
pub enum Error {
    Unauthorized,
    BadRequest,
    InternalError,
}

/// What a refused request is answered.
pub open spec fn error_message(error: Error) -> Seq<char> {
    match error {
        Error::Unauthorized => "Unauthorized"@,
        Error::BadRequest => "Bad request"@,
        Error::InternalError => "Internal server error"@,
    }
}

impl Error {
    /// The text that the refused client is sent.
    pub fn message(&self) -> (text: String)
        ensures
            text@ == error_message(*self),
    {
        match self {
            Error::Unauthorized => "Unauthorized".to_owned(),
            Error::BadRequest => "Bad request".to_owned(),
            Error::InternalError => "Internal server error".to_owned(),
        }
    }

    /// The HTTP status of the answer: an internal server error, whatever the reason.
    pub fn status(&self) -> (status: u16)
        ensures
            status == 500,
    {
        500
    }
}

/// A rendered page.
#[derive(Debug)]
pub struct Html(pub String);

/// A page as it is sent: the HTTP status, the type that is announced for the page, and its text.
#[derive(Debug)]
pub struct HtmlResponse {
    pub status: u16,
    pub content_type: String,
    pub body: String,
}

impl Html {
    /// The page as it is sent.
    pub fn respond_to(self) -> (response: HtmlResponse)
        ensures
            response.status == 200,
            response.content_type@ == "text/html; charset=utf-8"@,
            response.body == self.0,
    {
        HtmlResponse {
            status: 200,
            content_type: "text/html; charset=utf-8".to_owned(),
            body: self.0,
        }
    }
}

/// The names of the streams, in the order in which they are stored.
pub open spec fn stream_names(streams: Seq<StreamConfig>) -> Seq<Seq<char>> {
    Seq::new(streams.len(), |i: int| streams[i].id@)
}

/// The stream that was looked up is there, and the key opens it.
pub open spec fn streamer_accepted(stream: Option<StreamConfig>, key: Seq<char>) -> bool {
    match stream {
        Some(stream) => key_opens(stream.key_hash@, key),
        None => false,
    }
}

/// What a streamer with this key is answered, the stream being what was found under the name that
/// the streamer gave.
pub open spec fn streamer_outcome(stream: Option<StreamConfig>, key: Seq<char>) -> Result<
    (),
    Error,
> {
    if streamer_accepted(stream, key) {
        Ok(())
    } else {
        Err(Error::Unauthorized)
    }
}

/// The hash of the stream that was found, if one was found, is well-formed.
pub open spec fn stored_hash_parses(stream: Option<StreamConfig>) -> bool {
    match stream {
        Some(stream) => hash_text_parses(stream.key_hash@),
        None => true,
    }
}

/// Lets a streamer in who presents the key of the stream that was found under the streamer's name.
pub fn auth_as_streamer(stream: &Option<StreamConfig>, key: &str) -> (outcome: Result<(), Error>)
    requires
        stored_hash_parses(*stream),
    ensures
        outcome == streamer_outcome(*stream, key@),
{
    match stream {
        Some(stream) => {
            if opens(stream.key_hash.as_str(), key) {
                Ok(())
            } else {
                Err(Error::Unauthorized)
            }
        },
        None => Err(Error::Unauthorized),
    }
}

/// As [`auth_as_streamer`], or `None` where the stored hash is malformed.
pub fn try_auth_as_streamer(stream: &Option<StreamConfig>, key: &str) -> (outcome: Option<
    Result<(), Error>,
>)
    ensures
        outcome == if stored_hash_parses(*stream) {
            Some(streamer_outcome(*stream, key@))
        } else {
            None
        },
{
    let parses: bool = match stream {
        Some(stream) => is_hash_text(stream.key_hash.as_str()),
        None => true,
    };
    if parses {
        Some(auth_as_streamer(stream, key))
    } else {
        None
    }
}

} // verus!
