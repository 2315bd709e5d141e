//! The streamer's dashboard: the queue of the stream, with a button to allow and one to deny each
//! player, and the stream's statistics.

use vstd::prelude::*;
use vstd::string::*;

use crate::config::{Config, Credentials, Error};
use crate::heartbeat;
use crate::manager;
use crate::statistics::{statistics_request, statistics_url, OmeStatisticsResponse, StatisticsRequest};

verus! {

/// The page on which a streamer logs in.
#[derive(Debug)]
pub struct Index;

/// The page from which a streamer who logged in follows the stream.
#[derive(Debug)]
pub struct Dashboard<'a> {
    pub id: &'a str,
    pub key: &'a str,
}

/// The part of the page that shows the queue.
#[derive(Debug)]
pub struct Queue<'a> {
    pub queue: Vec<QueuedConnection<'a>>,
}

/// A queued player as the page shows it, with what its two buttons send.
#[derive(Debug)]
pub struct QueuedConnection<'a> {
    pub address: &'a str,
    pub uuid: u128,
    pub new: bool,
    pub allow: manager::Handle,
    pub deny: manager::Handle,
}

/// The part of the page that shows the statistics, if they can be had.
#[derive(Debug)]
pub struct Statistics {
    pub statistics: Option<OmeStatisticsResponse>,
}

/// The queue of a stream, and which of its players is new.
#[derive(Debug)]
pub struct Refresh {
    pub queue: Vec<(u128, manager::QueuedPlayer)>,
    pub new: Option<u128>,
}

/// The socket over which a dashboard follows the queue of a stream. `id` is the number by which the
/// manager knows it.
#[derive(Debug)]
pub struct QueueWebSocket {
    pub hb: u128,
    pub id: u64,
    pub stream: String,
}

/// What a dashboard sends over the socket of the queue.
#[derive(Debug)]
pub enum QueueFrame {
    /// A ping, with what the client wants to get back.
    Ping(Vec<u8>),
    /// A decision on a player.
    Text(manager::Handle),
    /// The answer to a ping.
    Pong,
    /// Anything else, a broken frame and the end of the connection among them.
    Other,
}

/// What is due for a frame on the socket of the queue.
#[derive(Debug)]
pub enum QueueAction {
    /// Send this back.
    Pong(Vec<u8>),
    /// Hand the decision to the manager.
    Decide(manager::Handle),
    /// Nothing.
    Nothing,
    /// Stop the socket.
    Stop,
}

/// What is due at a beat of the socket of the queue.
#[derive(Debug)]
pub enum QueueBeat {
    /// Ping the client.
    Ping,
    /// Tell the manager that the dashboard went away, then stop the socket.
    Leave(manager::RecipientDisconnected),
}

/// The socket over which a dashboard is sent statistics.
#[derive(Debug)]
pub struct StatisticsWebSocket {
    pub hb: u128,
    pub stream: String,
}

/// What is due at a beat of the socket of the statistics.
#[derive(Debug)]
pub enum StatisticsBeat {
    /// Ping the client, then make this request and show what comes back.
    Report(StatisticsRequest),
    /// Stop the socket.
    Stop,
}

/// The decision is on this player of this stream.
pub open spec fn decides(
    msg: manager::Handle,
    uuid: u128,
    allow: bool,
    stream: Seq<char>,
) -> bool {
    msg.uuid == uuid && msg.allow == allow && msg.stream@ == stream
}

/// The connection shows the queued player, and its buttons decide on that player of that stream.
pub open spec fn shows(
    connection: QueuedConnection,
    entry: (u128, manager::QueuedPlayer),
    new: Option<u128>,
    stream: Seq<char>,
) -> bool {
    &&& connection.address@ == entry.1.ip_addr@
    &&& connection.uuid == entry.0
    &&& connection.new == (new == Some(entry.0))
    &&& decides(connection.allow, entry.0, true, stream)
    &&& decides(connection.deny, entry.0, false, stream)
}

/// The page shows all players of the list, in order.
pub open spec fn shows_queue(
    page: Queue,
    list: Seq<(u128, manager::QueuedPlayer)>,
    new: Option<u128>,
    stream: Seq<char>,
) -> bool {
    &&& page.queue@.len() == list.len()
    &&& forall|i: int| 0 <= i < list.len() ==> shows(#[trigger] page.queue@[i], list[i], new, stream)
}

/// The buttons do what they say: for every player on the page of a stream, the button that allows
/// lets that player watch that stream, and the other leaves the permissions as they are; either
/// takes the player off the queue.
pub proof fn law_buttons_decide(
    streams: manager::Streams,
    stream: Seq<char>,
    list: Seq<(u128, manager::QueuedPlayer)>,
    new: Option<u128>,
    page: Queue,
    i: int,
)
    requires
        streams.contains_key(stream),
        manager::lists_queue(list, streams[stream].queue),
        shows_queue(page, list, new, stream),
        0 <= i < page.queue@.len(),
    ensures
        ({
            let connection = page.queue@[i];
            let allow = connection.allow;
            let deny = connection.deny;
            let allowed = manager::after_handle(streams, allow.stream@, allow.uuid, allow.allow);
            let denied = manager::after_handle(streams, deny.stream@, deny.uuid, deny.allow);
            &&& manager::is_queued(streams, stream, connection.uuid)
            &&& manager::is_authorized(allowed, stream, connection.uuid)
            &&& !manager::is_queued(allowed, stream, connection.uuid)
            &&& denied[stream].authorized == streams[stream].authorized
            &&& !manager::is_queued(denied, stream, connection.uuid)
        }),
{
    assert(shows(page.queue@[i], list[i], new, stream));
    assert(streams[stream].queue.contains_key(list[i].0));
}

/// Everybody who waits is on the page, once.
pub proof fn law_page_shows_all(
    queue: Map<u128, manager::QueuedPlayer>,
    list: Seq<(u128, manager::QueuedPlayer)>,
    new: Option<u128>,
    stream: Seq<char>,
    page: Queue,
    uuid: u128,
)
    requires
        manager::lists_queue(list, queue),
        shows_queue(page, list, new, stream),
        queue.contains_key(uuid),
    ensures
        exists|i: int|
            0 <= i < page.queue@.len() && (#[trigger] page.queue@[i]).uuid == uuid
                && page.queue@[i].address@ == queue[uuid].ip_addr@ && forall|j: int|
                0 <= j < page.queue@.len() && j != i ==> (#[trigger] page.queue@[j]).uuid != uuid,
{
    let i = choose|i: int| 0 <= i < list.len() && #[trigger] list[i] == (uuid, queue[uuid]);
    assert(shows(page.queue@[i], list[i], new, stream));
    assert forall|j: int| 0 <= j < page.queue@.len() && j != i implies (
    #[trigger] page.queue@[j]).uuid != uuid by {
        assert(shows(page.queue@[j], list[j], new, stream));
        assert(list[i].0 != list[j].0);
    }
}

impl QueueWebSocket {
    /// A socket that has just been opened.
    pub fn new(id: u64, stream: String, now: u128) -> (socket: Self)
        ensures
            socket == (QueueWebSocket { hb: now, id, stream }),
    {
        QueueWebSocket { hb: now, id, stream }
    }

    /// What is due at a beat: a dashboard that has been silent for too long is given up.
    pub fn hb(&self, now: u128) -> (due: QueueBeat)
        ensures
            match due {
                QueueBeat::Ping => !heartbeat::timed_out(self.hb, now),
                QueueBeat::Leave(msg) => heartbeat::timed_out(self.hb, now) && msg == (
                manager::RecipientDisconnected { stream: self.stream, recipient: self.id }),
            },
    {
        if heartbeat::is_timed_out(self.hb, now) {
            QueueBeat::Leave(self.stopped())
        } else {
            QueueBeat::Ping
        }
    }

    /// The page of the queue, with the player `new` marked as new.
    pub fn refresh<'a>(
        &self,
        queue: &'a [(u128, manager::QueuedPlayer)],
        new: Option<u128>,
    ) -> (page: Queue<'a>)
        ensures
            shows_queue(page, queue@, new, self.stream@),
    {
        let mut connections: Vec<QueuedConnection<'a>> = Vec::new();
        let mut i: usize = 0;
        while i < queue.len()
            invariant
                i <= queue.len(),
                connections@.len() == i,
                forall|j: int|
                    0 <= j < i ==> shows(#[trigger] connections@[j], queue@[j], new, self.stream@),
            decreases queue.len() - i,
        {
            let uuid: u128 = queue[i].0;
            let is_new: bool = match new {
                Some(new) => new == uuid,
                None => false,
            };
            connections.push(
                QueuedConnection {
                    address: queue[i].1.ip_addr.as_str(),
                    uuid,
                    new: is_new,
                    allow: manager::Handle { uuid, allow: true, stream: self.stream.clone() },
                    deny: manager::Handle { uuid, allow: false, stream: self.stream.clone() },
                },
            );
            i = i + 1;
        }
        Queue { queue: connections }
    }

    /// What the manager is told when the socket starts.
    pub fn started(&self) -> (msg: manager::NewRecipient)
        ensures
            msg == (manager::NewRecipient { stream: self.stream, recipient: self.id }),
    {
        manager::NewRecipient { stream: self.stream.clone(), recipient: self.id }
    }

    /// What the manager is told when the socket has stopped.
    pub fn stopped(&self) -> (msg: manager::RecipientDisconnected)
        ensures
            msg == (manager::RecipientDisconnected { stream: self.stream, recipient: self.id }),
    {
        manager::RecipientDisconnected { stream: self.stream.clone(), recipient: self.id }
    }

    /// What is due for a frame. A decision is handed on; it is no sign of life.
    pub fn handle(&mut self, item: QueueFrame, now: u128) -> (due: QueueAction)
        ensures
            final(self).id == old(self).id,
            final(self).stream == old(self).stream,
            final(self).hb == if item is Ping || item is Pong {
                now
            } else {
                old(self).hb
            },
            due == match item {
                QueueFrame::Ping(msg) => QueueAction::Pong(msg),
                QueueFrame::Text(msg) => QueueAction::Decide(msg),
                QueueFrame::Pong => QueueAction::Nothing,
                QueueFrame::Other => QueueAction::Stop,
            },
    {
        match item {
            QueueFrame::Ping(msg) => {
                self.hb = now;
                QueueAction::Pong(msg)
            },
            QueueFrame::Text(msg) => QueueAction::Decide(msg),
            QueueFrame::Pong => {
                self.hb = now;
                QueueAction::Nothing
            },
            QueueFrame::Other => QueueAction::Stop,
        }
    }

    /// The page that a refresh is shown on.
    pub fn handle_refresh<'a>(&self, msg: &'a Refresh) -> (page: Queue<'a>)
        ensures
            shows_queue(page, msg.queue@, msg.new, self.stream@),
    {
        self.refresh(msg.queue.as_slice(), msg.new)
    }
}

impl StatisticsWebSocket {
    /// A socket that has just been opened.
    pub fn new(stream: String, now: u128) -> (socket: Self)
        ensures
            socket == (StatisticsWebSocket { hb: now, stream }),
    {
        StatisticsWebSocket { hb: now, stream }
    }

    /// What is due at a beat: a dashboard that has been silent for too long is given up, any other
    /// is sent the statistics.
    pub fn hb(&self, config: &Config, now: u128) -> (due: StatisticsBeat)
        ensures
            match due {
                StatisticsBeat::Report(request) => {
                    &&& !heartbeat::timed_out(self.hb, now)
                    &&& request.url@ == statistics_url(config.ome_api_host@, self.stream@)
                    &&& request.header@ == "Authorization"@
                    &&& request.value@ == config.ome_api_credentials@
                },
                StatisticsBeat::Stop => heartbeat::timed_out(self.hb, now),
            },
    {
        if heartbeat::is_timed_out(self.hb, now) {
            StatisticsBeat::Stop
        } else {
            StatisticsBeat::Report(statistics_request(config, self.stream.as_str()))
        }
    }

    /// What is due for a frame.
    pub fn handle(&mut self, item: heartbeat::Frame, now: u128) -> (due: heartbeat::FrameAction)
        ensures
            final(self).stream == old(self).stream,
            final(self).hb == heartbeat::heard_of(old(self).hb, item, now),
            due == match item {
                heartbeat::Frame::Ping(msg) => heartbeat::FrameAction::Pong(msg),
                heartbeat::Frame::Pong => heartbeat::FrameAction::Nothing,
                heartbeat::Frame::Other => heartbeat::FrameAction::Stop,
            },
    {
        heartbeat::handle_frame(&mut self.hb, item, now)
    }
}

/// The page of the statistics: empty where they cannot be had.
pub fn statistics_page(statistics: Result<OmeStatisticsResponse, Error>) -> (page: Statistics)
    ensures
        page.statistics == match statistics {
            Ok(statistics) => Some(statistics),
            Err(_) => None,
        },
{
    match statistics {
        Ok(statistics) => Statistics { statistics: Some(statistics) },
        Err(_) => Statistics { statistics: None },
    }
}

/// The socket of the queue of the streamer's stream, for a streamer who is let in. One who is not
/// let in gets the error. `id` is the number by which the manager will know the socket.
pub fn queue(auth: Result<(), Error>, credentials: &Credentials, id: u64, now: u128) -> (socket:
    Result<QueueWebSocket, Error>)
    ensures
        match socket {
            Ok(socket) => auth is Ok && socket == (QueueWebSocket {
                hb: now,
                id,
                stream: credentials.id,
            }),
            Err(error) => auth == Err::<(), Error>(error),
        },
{
    match auth {
        Ok(()) => Ok(QueueWebSocket::new(id, credentials.id.clone(), now)),
        Err(error) => Err(error),
    }
}

/// The socket of the statistics of the streamer's stream, for a streamer who is let in. One who is
/// not let in gets the error.
pub fn statistics(auth: Result<(), Error>, credentials: &Credentials, now: u128) -> (socket: Result<
    StatisticsWebSocket,
    Error,
>)
    ensures
        match socket {
            Ok(socket) => auth is Ok && socket == (StatisticsWebSocket {
                hb: now,
                stream: credentials.id,
            }),
            Err(error) => auth == Err::<(), Error>(error),
        },
{
    match auth {
        Ok(()) => Ok(StatisticsWebSocket::new(credentials.id.clone(), now)),
        Err(error) => Err(error),
    }
}

/// The page of a streamer who is let in. One who is not let in gets the error.
pub fn dashboard<'a>(auth: Result<(), Error>, credentials: &'a Credentials) -> (page: Result<
    Dashboard<'a>,
    Error,
>)
    ensures
        match page {
            Ok(page) => auth is Ok && page.id@ == credentials.id@ && page.key@ == credentials.key@,
            Err(error) => auth == Err::<(), Error>(error),
        },
{
    match auth {
        Ok(()) => Ok(Dashboard { id: credentials.id.as_str(), key: credentials.key.as_str() }),
        Err(error) => Err(error),
    }
}

} // verus!
