//! The player: the list of streams to watch, and the socket over which a player waits to be let
//! in.

use vstd::prelude::*;
use vstd::string::*;

use crate::config::{Error, StreamConfig};
use crate::heartbeat;
use crate::manager;
use crate::statistics::OmeStatisticsResponse;
use crate::uuids::{fresh_uuid, hyphenated, is_random_uuid, uuid_of_text, uuid_text, was_drawn};

verus! {

/// The page that lists the streams that are on air.
#[derive(Debug)]
pub struct Index<'a> {
    pub streams: &'a [&'a String],
}

/// The page on which a player waits for a stream.
#[derive(Debug)]
pub struct Enqueue<'a> {
    pub stream: &'a str,
}

/// The page on which a player watches: the stream, the media server, and the player's UUID in its
/// hyphenated form.
#[derive(Debug)]
pub struct Player<'a> {
    pub stream: &'a str,
    pub host: &'a str,
    pub uuid: String,
}

/// The page of a player who was denied.
#[derive(Debug)]
pub struct Denied;

/// The streamer's decision, as the player is told it.
#[derive(Clone, Copy, Debug, PartialEq, Eq, Structural)]
pub struct Handle(pub bool);

/// The player is to go.
#[derive(Clone, Copy, Debug, PartialEq, Eq, Structural)]
pub struct Stop;

/// The stream that a player asks for.
#[derive(Debug)]
pub struct StreamQuery {
    pub stream: String,
}

/// The socket over which a player waits. `id` is the number by which the manager knows it.
#[derive(Debug)]
pub struct QueueWebSocket {
    pub hb: u128,
    pub uuid: u128,
    pub id: u64,
    pub ip_addr: String,
    pub ome_host: String,
    pub stream: String,
}

/// What is due when the streamer decided on the player.
#[derive(Debug)]
pub enum Verdict<'a> {
    /// Show the page on which the player watches.
    Show(Player<'a>),
    /// Show that the player was denied, then close the socket.
    Dismiss(Denied),
}

/// What is due when the player is to go.
#[derive(Clone, Copy, Debug, PartialEq, Eq, Structural)]
pub enum StopAction {
    /// Close the socket.
    Close,
}

/// The names of the streams of which the media server had statistics, in order. The replies are in
/// the order of the streams.
pub open spec fn names_on_air(
    streams: Seq<StreamConfig>,
    replies: Seq<Result<OmeStatisticsResponse, Error>>,
) -> Seq<Seq<char>>
    decreases streams.len(),
{
    if streams.len() == 0 {
        Seq::empty()
    } else {
        let before = names_on_air(streams.drop_last(), replies.drop_last());
        if replies.last() is Ok {
            before.push(streams.last().id@)
        } else {
            before
        }
    }
}

/// The texts that the references point to.
pub open spec fn referenced(texts: Seq<&String>) -> Seq<Seq<char>> {
    Seq::new(texts.len(), |i: int| texts[i]@)
}

/// The address that a player is shown under: what the proxy says it is, else the peer's, else that
/// there is none.
pub open spec fn player_address(
    real_ip: Option<Seq<char>>,
    peer_ip: Option<Seq<char>>,
) -> Seq<char> {
    match real_ip {
        Some(real_ip) => real_ip,
        None => match peer_ip {
            Some(peer_ip) => peer_ip,
            None => "N/A"@,
        },
    }
}

/// A stream is listed exactly if it is stored and the media server has statistics of it.
pub proof fn law_listed_is_on_air(
    streams: Seq<StreamConfig>,
    replies: Seq<Result<OmeStatisticsResponse, Error>>,
    name: Seq<char>,
)
    requires
        streams.len() == replies.len(),
    ensures
        names_on_air(streams, replies).contains(name) <==> exists|i: int|
            0 <= i < streams.len() && (#[trigger] streams[i]).id@ == name && replies[i] is Ok,
    decreases streams.len(),
{
    if streams.len() > 0 {
        let last = streams.len() - 1;
        let fewer = streams.drop_last();
        let earlier = replies.drop_last();
        let before = names_on_air(fewer, earlier);
        let now = names_on_air(streams, replies);
        law_listed_is_on_air(fewer, earlier, name);
        if now.contains(name) {
            let k = now.index_of(name);
            if replies.last() is Ok && k == before.len() {
                assert(streams[last].id@ == name);
            } else {
                assert(before[k] == name);
                assert(before.contains(name));
                let i = choose|i: int|
                    0 <= i < fewer.len() && (#[trigger] fewer[i]).id@ == name && earlier[i] is Ok;
                assert(streams[i].id@ == name && replies[i] is Ok);
            }
        }
        if exists|i: int|
            0 <= i < streams.len() && (#[trigger] streams[i]).id@ == name && replies[i] is Ok {
            let i = choose|i: int|
                0 <= i < streams.len() && (#[trigger] streams[i]).id@ == name && replies[i] is Ok;
            if i < last {
                assert(fewer[i].id@ == name && earlier[i] is Ok);
                let k = before.index_of(name);
                assert(now[k] == name);
            } else {
                assert(now[before.len() as int] == name);
            }
        }
    }
}

/// The names of the streams that are on air.
pub fn index<'a>(
    streams: &'a Vec<StreamConfig>,
    replies: &Vec<Result<OmeStatisticsResponse, Error>>,
) -> (names: Vec<&'a String>)
    requires
        streams@.len() == replies@.len(),
    ensures
        referenced(names@) == names_on_air(streams@, replies@),
{
    let mut names: Vec<&'a String> = Vec::new();
    let mut i: usize = 0;
    assert(referenced(names@) =~= names_on_air(streams@.take(0), replies@.take(0)));
    while i < streams.len()
        invariant
            i <= streams.len(),
            streams@.len() == replies@.len(),
            referenced(names@) == names_on_air(streams@.take(i as int), replies@.take(i as int)),
        decreases streams.len() - i,
    {
        assert(streams@.take(i + 1).drop_last() =~= streams@.take(i as int));
        assert(replies@.take(i + 1).drop_last() =~= replies@.take(i as int));
        let ghost before = referenced(names@);
        if replies[i].is_ok() {
            names.push(&streams[i].id);
            assert(referenced(names@) =~= before.push(streams@[i as int].id@));
        }
        i = i + 1;
    }
    assert(streams@.take(i as int) =~= streams@);
    assert(replies@.take(i as int) =~= replies@);
    names
}

/// The page that lists the streams.
pub fn index_page<'a>(names: &'a Vec<&'a String>) -> (page: Index<'a>)
    ensures
        page.streams@ == names@,
{
    Index { streams: names.as_slice() }
}

/// The page on which a player waits for the stream that it asked for.
pub fn enqueue<'a>(query: &'a StreamQuery) -> (page: Enqueue<'a>)
    ensures
        page.stream@ == query.stream@,
{
    Enqueue { stream: query.stream.as_str() }
}

/// The address that a player is shown under. `real_ip` is what the header `X-Real-IP` holds,
/// `peer_ip` where the connection comes from.
pub fn client_address(real_ip: Option<String>, peer_ip: Option<String>) -> (address: String)
    ensures
        address@ == player_address(
            crate::admission::text_view(real_ip),
            crate::admission::text_view(peer_ip),
        ),
{
    match real_ip {
        Some(real_ip) => real_ip,
        None => match peer_ip {
            Some(peer_ip) => peer_ip,
            None => "N/A".to_owned(),
        },
    }
}

impl QueueWebSocket {
    /// A socket that has just been opened, for a player who gets a fresh UUID.
    pub fn new(id: u64, ome_host: String, ip_addr: String, stream: String, now: u128) -> (socket:
        Self)
        ensures
            socket == (QueueWebSocket {
                hb: now,
                uuid: socket.uuid,
                id,
                ip_addr,
                ome_host,
                stream,
            }),
            is_random_uuid(socket.uuid),
            was_drawn(socket.uuid),
    {
        QueueWebSocket { hb: now, uuid: fresh_uuid(), id, ip_addr, ome_host, stream }
    }

    /// What is due at a beat: a player who has been silent for too long is given up.
    pub fn hb(&self, now: u128) -> (due: heartbeat::Beat)
        ensures
            due == if heartbeat::timed_out(self.hb, now) {
                heartbeat::Beat::Stop
            } else {
                heartbeat::Beat::Ping
            },
    {
        heartbeat::beat(self.hb, now)
    }

    /// What the manager is told when the socket starts.
    pub fn started(&self) -> (msg: manager::PlayerConnect)
        ensures
            msg == (manager::PlayerConnect {
                uuid: self.uuid,
                ip_addr: self.ip_addr,
                addr: self.id,
                stream: self.stream,
            }),
    {
        manager::PlayerConnect {
            uuid: self.uuid,
            ip_addr: self.ip_addr.clone(),
            addr: self.id,
            stream: self.stream.clone(),
        }
    }

    /// What the manager is told when the socket has stopped.
    pub fn stopped(&self) -> (msg: manager::PlayerDisconnect)
        ensures
            msg == (manager::PlayerDisconnect { uuid: self.uuid, stream: self.stream }),
    {
        manager::PlayerDisconnect { uuid: self.uuid, stream: self.stream.clone() }
    }

    /// What is due when the streamer decided: a player who was allowed is shown the stream, one who
    /// was denied is told so and dismissed.
    pub fn handle(&self, msg: Handle) -> (due: Verdict)
        ensures
            match due {
                Verdict::Show(page) => {
                    &&& msg.0
                    &&& page.stream@ == self.stream@
                    &&& page.host@ == self.ome_host@
                    &&& page.uuid@ == hyphenated(self.uuid)
                    &&& uuid_of_text(page.uuid@) == Some(self.uuid)
                },
                Verdict::Dismiss(_) => !msg.0,
            },
    {
        if msg.0 {
            Verdict::Show(
                Player {
                    stream: self.stream.as_str(),
                    host: self.ome_host.as_str(),
                    uuid: uuid_text(self.uuid),
                },
            )
        } else {
            Verdict::Dismiss(Denied)
        }
    }

    /// What is due when the player is to go.
    pub fn handle_stop(&self, _msg: Stop) -> (due: StopAction)
        ensures
            due == StopAction::Close,
    {
        StopAction::Close
    }

    /// What is due for a frame.
    pub fn handle_frame(&mut self, item: heartbeat::Frame, now: u128) -> (due:
        heartbeat::FrameAction)
        ensures
            *final(self) == (QueueWebSocket {
                hb: heartbeat::heard_of(old(self).hb, item, now),
                ..*old(self)
            }),
            due == match item {
                heartbeat::Frame::Ping(msg) => heartbeat::FrameAction::Pong(msg),
                heartbeat::Frame::Pong => heartbeat::FrameAction::Nothing,
                heartbeat::Frame::Other => heartbeat::FrameAction::Stop,
            },
    {
        heartbeat::handle_frame(&mut self.hb, item, now)
    }
}

} // verus!
