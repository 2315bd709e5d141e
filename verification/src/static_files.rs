//! The files that are served as they are.

use vstd::prelude::*;
use vstd::string::*;

verus! {

/// A file as it is sent: the HTTP status, the type that is announced for the file, and where its
/// content lies.
#[derive(Debug)]
pub struct StaticFile {
    pub status: u16,
    pub content_type: String,
    pub path: String,
}

/// The sound that announces a new player.
pub fn notification() -> (file: StaticFile)
    ensures
        file.status == 200,
        file.content_type@ == "audio/wav"@,
        file.path@ == "res/Oi.wav"@,
{
    StaticFile {
        status: 200,
        content_type: "audio/wav".to_owned(),
        path: "res/Oi.wav".to_owned(),
    }
}

/// An animation.
pub fn haroldium() -> (file: StaticFile)
    ensures
        file.status == 200,
        file.content_type@ == "image/gif"@,
        file.path@ == "res/haroldium.gif"@,
{
    StaticFile {
        status: 200,
        content_type: "image/gif".to_owned(),
        path: "res/haroldium.gif".to_owned(),
    }
}

/// A picture.
pub fn killmeplz() -> (file: StaticFile)
    ensures
        file.status == 200,
        file.content_type@ == "image/webp"@,
        file.path@ == "res/killmeplz.webp"@,
{
    StaticFile {
        status: 200,
        content_type: "image/webp".to_owned(),
        path: "res/killmeplz.webp".to_owned(),
    }
}

} // verus!
