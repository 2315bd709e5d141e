//! The manager: who waits for which stream, who may watch it, and which dashboards look on.
//!
//! A player who wants to watch waits in the queue of the stream until the streamer allows or
//! denies it. The manager keeps the books and says which messages are due; sending them is the
//! caller's part. Sockets are known by number: `addr` is a player's socket, `recipient` a
//! dashboard's.

use std::collections::HashMap;
use std::collections::HashSet;

use vstd::prelude::*;
use vstd::std_specs::iter::IteratorSpec;
use vstd::string::*;

use crate::dashboard;
use crate::player;
use crate::table::Table;
use crate::text::{lemma_take_one_more, texts_view};
use crate::uuids::{parse_uuid, uuid_of_text, InvalidUuid};

verus! {

broadcast use vstd::std_specs::hash::group_hash_axioms;

/// The streamer's decision on a queued player.
#[derive(Debug)]
pub struct Handle {
    pub uuid: u128,
    pub allow: bool,
    pub stream: String,
}

/// A player joined the queue of a stream.
#[derive(Debug)]
pub struct PlayerConnect {
    pub uuid: u128,
    pub ip_addr: String,
    pub addr: u64,
    pub stream: String,
}

/// A player went away.
#[derive(Debug)]
pub struct PlayerDisconnect {
    pub uuid: u128,
    pub stream: String,
}

/// The question whether a player may watch a stream.
#[derive(Debug)]
pub struct IsAuthorized {
    pub uuid: u128,
    pub stream: String,
}

/// A dashboard wants to be told of the queue of a stream.
#[derive(Debug)]
pub struct NewRecipient {
    pub stream: String,
    pub recipient: u64,
}

/// A dashboard went away.
#[derive(Debug)]
pub struct RecipientDisconnected {
    pub stream: String,
    pub recipient: u64,
}

/// A stream was created.
#[derive(Debug)]
pub struct StreamCreated {
    pub stream: String,
}

/// A stream was removed.
#[derive(Debug)]
pub struct StreamRemoved {
    pub stream: String,
}

/// A player in the queue: where it connected from, and its socket.
#[derive(Debug)]
pub struct QueuedPlayer {
    pub ip_addr: String,
    pub addr: u64,
}

impl Clone for QueuedPlayer {
    fn clone(&self) -> (copy: Self)
        ensures
            copy == *self,
    {
        QueuedPlayer { ip_addr: self.ip_addr.clone(), addr: self.addr }
    }
}

/// A refresh that is due to every one of the recipients, in this order.
#[derive(Debug)]
pub struct Broadcast {
    pub recipients: Vec<u64>,
    pub refresh: dashboard::Refresh,
}

/// What is due when a queued player was allowed or denied: first the player is told, then the
/// dashboards.
#[derive(Debug)]
pub struct Handled {
    pub addr: u64,
    pub notice: player::Handle,
    pub broadcast: Broadcast,
}

/// What is kept of one stream.
#[derive(Debug)]
struct StreamData {
    queue: HashMap<u128, QueuedPlayer>,
    authorized_players: HashSet<u128>,
    queue_recipients: Vec<u64>,
}

/// The manager of all streams.
#[derive(Debug)]
pub struct Manager {
    streams: Table<String, StreamData>,
}

/// One stream: the players that wait, the players that may watch, and the dashboards that look on,
/// in the order in which they came.
#[verifier::ext_equal]
pub struct StreamState {
    pub queue: Map<u128, QueuedPlayer>,
    pub authorized: Set<u128>,
    pub recipients: Seq<u64>,
}

/// All streams by name.
pub type Streams = Map<Seq<char>, StreamState>;

impl StreamData {
    spec fn state(self) -> StreamState {
        StreamState {
            queue: self.queue@,
            authorized: self.authorized_players@,
            recipients: self.queue_recipients@,
        }
    }

    /// A stream for which nobody waits and at which nobody looks.
    fn default() -> (data: StreamData)
        ensures
            data.state() == empty_stream(),
    {
        StreamData {
            queue: HashMap::new(),
            authorized_players: HashSet::new(),
            queue_recipients: Vec::new(),
        }
    }
}

/// A stream for which nobody waits and at which nobody looks.
pub open spec fn empty_stream() -> StreamState {
    StreamState { queue: Map::empty(), authorized: Set::empty(), recipients: Seq::empty() }
}

/// The streams of a new manager: one for each name.
pub open spec fn after_new(names: Seq<Seq<char>>) -> Streams {
    Map::new(|name: Seq<char>| names.contains(name), |name: Seq<char>| empty_stream())
}

/// The player waits for the stream.
pub open spec fn is_queued(streams: Streams, stream: Seq<char>, uuid: u128) -> bool {
    streams.contains_key(stream) && streams[stream].queue.contains_key(uuid)
}

/// The player may watch the stream.
pub open spec fn is_authorized(streams: Streams, stream: Seq<char>, uuid: u128) -> bool {
    streams.contains_key(stream) && streams[stream].authorized.contains(uuid)
}

/// A queued player leaves the queue, and may watch if it is allowed to.
pub open spec fn after_handle(
    streams: Streams,
    stream: Seq<char>,
    uuid: u128,
    allow: bool,
) -> Streams {
    let state = streams[stream];
    if is_queued(streams, stream, uuid) {
        streams.insert(
            stream,
            StreamState {
                queue: state.queue.remove(uuid),
                authorized: if allow {
                    state.authorized.insert(uuid)
                } else {
                    state.authorized
                },
                recipients: state.recipients,
            },
        )
    } else {
        streams
    }
}

/// The player joins the queue of a stream that exists.
pub open spec fn after_connect(
    streams: Streams,
    stream: Seq<char>,
    uuid: u128,
    player: QueuedPlayer,
) -> Streams {
    let state = streams[stream];
    if streams.contains_key(stream) {
        streams.insert(
            stream,
            StreamState {
                queue: state.queue.insert(uuid, player),
                authorized: state.authorized,
                recipients: state.recipients,
            },
        )
    } else {
        streams
    }
}

/// The player neither waits nor may watch any more.
pub open spec fn after_disconnect(streams: Streams, stream: Seq<char>, uuid: u128) -> Streams {
    let state = streams[stream];
    if streams.contains_key(stream) {
        streams.insert(
            stream,
            StreamState {
                queue: state.queue.remove(uuid),
                authorized: state.authorized.remove(uuid),
                recipients: state.recipients,
            },
        )
    } else {
        streams
    }
}

/// The dashboard looks on, behind those that did already.
pub open spec fn after_new_recipient(streams: Streams, stream: Seq<char>, recipient: u64) -> Streams {
    let state = streams[stream];
    if streams.contains_key(stream) {
        streams.insert(
            stream,
            StreamState {
                queue: state.queue,
                authorized: state.authorized,
                recipients: state.recipients.push(recipient),
            },
        )
    } else {
        streams
    }
}

/// All numbers but one.
pub open spec fn differs_from(number: u64) -> spec_fn(u64) -> bool {
    |other: u64| other != number
}

/// The dashboard no longer looks on.
pub open spec fn after_recipient_disconnected(
    streams: Streams,
    stream: Seq<char>,
    recipient: u64,
) -> Streams {
    let state = streams[stream];
    if streams.contains_key(stream) {
        streams.insert(
            stream,
            StreamState {
                queue: state.queue,
                authorized: state.authorized,
                recipients: state.recipients.filter(differs_from(recipient)),
            },
        )
    } else {
        streams
    }
}

/// The stream is there, and empty.
pub open spec fn after_created(streams: Streams, stream: Seq<char>) -> Streams {
    streams.insert(stream, empty_stream())
}

/// The stream is gone.
pub open spec fn after_removed(streams: Streams, stream: Seq<char>) -> Streams {
    streams.remove(stream)
}

/// The list holds every player of the queue once, under its UUID, and nothing else. The order is
/// open.
pub open spec fn lists_queue(
    list: Seq<(u128, QueuedPlayer)>,
    queue: Map<u128, QueuedPlayer>,
) -> bool {
    &&& forall|i: int|
        0 <= i < list.len() ==> queue.contains_key((#[trigger] list[i]).0) && queue[list[i].0]
            == list[i].1
    &&& forall|i: int, j: int|
        0 <= i < j < list.len() ==> (#[trigger] list[i]).0 != (#[trigger] list[j]).0
    &&& forall|uuid: u128| #[trigger]
        queue.contains_key(uuid) ==> exists|i: int| 0 <= i < list.len() && #[trigger] list[i] == (
            uuid,
            queue[uuid],
        )
}

/// The broadcast tells every dashboard of the stream, in order, of the stream's queue, and which
/// player is new.
pub open spec fn refreshes(broadcast: Broadcast, state: StreamState, new: Option<u128>) -> bool {
    &&& broadcast.recipients@ == state.recipients
    &&& lists_queue(broadcast.refresh.queue@, state.queue)
    &&& broadcast.refresh.new == new
}

spec fn states(streams: Map<Seq<char>, StreamData>) -> Streams {
    Map::new(
        |name: Seq<char>| streams.contains_key(name),
        |name: Seq<char>| streams[name].state(),
    )
}

proof fn lemma_states_insert(streams: Map<Seq<char>, StreamData>, name: Seq<char>, data: StreamData)
    ensures
        states(streams.insert(name, data)) == states(streams).insert(name, data.state()),
        states(streams.remove(name).insert(name, data)) == states(streams).insert(
            name,
            data.state(),
        ),
{
    assert(states(streams.insert(name, data)) =~= states(streams).insert(name, data.state()));
    assert(streams.remove(name).insert(name, data) =~= streams.insert(name, data));
}

proof fn lemma_states_remove(streams: Map<Seq<char>, StreamData>, name: Seq<char>)
    ensures
        states(streams.remove(name)) == states(streams).remove(name),
        !streams.contains_key(name) ==> states(streams.remove(name)) == states(streams),
{
    assert(states(streams.remove(name)) =~= states(streams).remove(name));
    if !streams.contains_key(name) {
        assert(streams.remove(name) =~= streams);
    }
}

/// The players of a queue, in no particular order.
fn list_queue(queue: &HashMap<u128, QueuedPlayer>) -> (list: Vec<(u128, QueuedPlayer)>)
    ensures
        lists_queue(list@, queue@),
{
    let mut list: Vec<(u128, QueuedPlayer)> = Vec::new();
    let iter = queue.iter();
    let ghost pairs = iter.remaining();
    for pair in it: iter
        invariant
            it.seq() == pairs,
            list@.len() == it.index(),
            forall|i: int|
                0 <= i < list@.len() ==> #[trigger] list@[i] == (*pairs[i].0, *pairs[i].1),
    {
        list.push((*pair.0, pair.1.clone()));
    }
    proof {
        assert forall|i: int, j: int| 0 <= i < j < list@.len() implies (#[trigger] list@[i]).0 != (
        #[trigger] list@[j]).0 by {
            assert(pairs[i] != pairs[j]);
            assert(queue@[*pairs[i].0] == *pairs[i].1);
            assert(queue@[*pairs[j].0] == *pairs[j].1);
        }
        assert forall|uuid: u128| #[trigger] queue@.contains_key(uuid) implies exists|i: int|
            0 <= i < list@.len() && #[trigger] list@[i] == (uuid, queue@[uuid]) by {
            assert(pairs.contains((&uuid, &queue@[uuid])));
            let i = choose|i: int| 0 <= i < pairs.len() && pairs[i] == (&uuid, &queue@[uuid]);
            assert(list@[i] == (uuid, queue@[uuid]));
        }
    }
    list
}

/// The same numbers again.
pub(crate) fn copy_numbers(numbers: &Vec<u64>) -> (copy: Vec<u64>)
    ensures
        copy@ == numbers@,
{
    let mut copy: Vec<u64> = Vec::new();
    let mut i: usize = 0;
    while i < numbers.len()
        invariant
            i <= numbers.len(),
            copy@ == numbers@.take(i as int),
        decreases numbers.len() - i,
    {
        copy.push(numbers[i]);
        i = i + 1;
        assert(numbers@.take(i as int) =~= numbers@.take(i - 1).push(numbers@[i - 1]));
    }
    assert(numbers@.take(i as int) =~= numbers@);
    copy
}

/// The numbers other than `gone`, in order.
pub(crate) fn numbers_without(numbers: &Vec<u64>, gone: u64) -> (kept: Vec<u64>)
    ensures
        kept@ == numbers@.filter(differs_from(gone)),
{
    let ghost stays = differs_from(gone);
    let mut kept: Vec<u64> = Vec::new();
    let mut i: usize = 0;
    reveal(Seq::filter);
    assert(numbers@.take(0).filter(stays) =~= Seq::<u64>::empty());
    while i < numbers.len()
        invariant
            i <= numbers.len(),
            stays == differs_from(gone),
            kept@ == numbers@.take(i as int).filter(stays),
        decreases numbers.len() - i,
    {
        reveal(Seq::filter);
        assert(numbers@.take(i + 1).drop_last() =~= numbers@.take(i as int));
        if numbers[i] != gone {
            kept.push(numbers[i]);
        }
        i = i + 1;
    }
    assert(numbers@.take(i as int) =~= numbers@);
    kept
}

impl StreamData {
    /// The refresh that is due to the dashboards of the stream.
    fn refresh_sockets(&self, new: Option<u128>) -> (broadcast: Broadcast)
        ensures
            refreshes(broadcast, self.state(), new),
    {
        Broadcast {
            recipients: copy_numbers(&self.queue_recipients),
            refresh: dashboard::Refresh { queue: list_queue(&self.queue), new },
        }
    }
}

impl Manager {
    /// The streams by name.
    pub closed spec fn view(&self) -> Streams {
        states(self.streams@)
    }

    /// No stream is kept twice.
    pub closed spec fn wf(&self) -> bool {
        self.streams.wf()
    }

    /// A manager of the named streams. A name that is given twice counts once.
    pub fn new(streams: &[String]) -> (manager: Self)
        ensures
            manager.wf(),
            manager@ == after_new(texts_view(streams@)),
    {
        let mut manager = Manager { streams: Table::new() };
        let mut i: usize = 0;
        let ghost names = texts_view(streams@);
        assert(manager@ =~= after_new(names.take(0)));
        while i < streams.len()
            invariant
                i <= streams.len(),
                names == texts_view(streams@),
                manager.wf(),
                manager@ == after_new(names.take(i as int)),
            decreases streams.len() - i,
        {
            manager.handle_stream_created(StreamCreated { stream: streams[i].clone() });
            proof {
                lemma_take_one_more(names, i as int);
                assert(names[i as int] == streams@[i as int]@);
                assert(manager@ =~= after_new(names.take(i + 1)));
            }
            i = i + 1;
        }
        assert(names.take(i as int) =~= names);
        manager
    }

    /// Whether there is a stream of this name.
    pub fn has_stream(&self, stream: &String) -> (found: bool)
        requires
            self.wf(),
        ensures
            found == self@.contains_key(stream@),
    {
        self.streams.contains(stream)
    }

    /// The streamer allowed or denied a player. A player who waits is taken out of the queue, may
    /// watch from now on if it is allowed to, and is told; the dashboards are told too. A player
    /// who does not wait is left alone.
    pub fn handle(&mut self, msg: Handle) -> (due: Option<Handled>)
        requires
            old(self).wf(),
            old(self)@.contains_key(msg.stream@),
        ensures
            final(self).wf(),
            final(self)@ == after_handle(old(self)@, msg.stream@, msg.uuid, msg.allow),
            match due {
                Some(due) => {
                    &&& is_queued(old(self)@, msg.stream@, msg.uuid)
                    &&& due.addr == old(self)@[msg.stream@].queue[msg.uuid].addr
                    &&& due.notice == player::Handle(msg.allow)
                    &&& refreshes(due.broadcast, final(self)@[msg.stream@], None)
                },
                None => !is_queued(old(self)@, msg.stream@, msg.uuid),
            },
    {
        let mut due: Option<Handled> = None;
        if let Some(mut data) = self.streams.remove(&msg.stream) {
            let ghost queue = data.queue@;
            if let Some(queued_player) = data.queue.remove(&msg.uuid) {
                if msg.allow {
                    data.authorized_players.insert(msg.uuid);
                }
                due = Some(
                    Handled {
                        addr: queued_player.addr,
                        notice: player::Handle(msg.allow),
                        broadcast: data.refresh_sockets(None),
                    },
                );
            } else {
                assert(data.queue@ =~= queue);
            }
            proof {
                lemma_states_insert(old(self).streams@, msg.stream@, data);
                assert(due is None ==> old(self)@.insert(msg.stream@, data.state())
                    =~= old(self)@);
            }
            self.streams.insert(msg.stream, data);
        }
        due
    }

    /// A player joins the queue of a stream that exists, and the dashboards are told that it is
    /// new. A player who waits already is kept with what it connected with last.
    pub fn handle_player_connect(&mut self, msg: PlayerConnect) -> (due: Option<Broadcast>)
        requires
            old(self).wf(),
        ensures
            final(self).wf(),
            final(self)@ == after_connect(
                old(self)@,
                msg.stream@,
                msg.uuid,
                (QueuedPlayer { ip_addr: msg.ip_addr, addr: msg.addr }),
            ),
            match due {
                Some(broadcast) => old(self)@.contains_key(msg.stream@) && refreshes(
                    broadcast,
                    final(self)@[msg.stream@],
                    Some(msg.uuid),
                ),
                None => !old(self)@.contains_key(msg.stream@),
            },
    {
        match self.streams.remove(&msg.stream) {
            Some(mut data) => {
                data.queue.insert(
                    msg.uuid,
                    QueuedPlayer { ip_addr: msg.ip_addr, addr: msg.addr },
                );
                let broadcast = data.refresh_sockets(Some(msg.uuid));
                proof {
                    lemma_states_insert(old(self).streams@, msg.stream@, data);
                }
                self.streams.insert(msg.stream, data);
                Some(broadcast)
            },
            None => {
                proof {
                    lemma_states_remove(old(self).streams@, msg.stream@);
                }
                None
            },
        }
    }

    /// A player went away: it neither waits nor may watch any more, and the dashboards are told.
    pub fn handle_player_disconnect(&mut self, msg: PlayerDisconnect) -> (due: Option<Broadcast>)
        requires
            old(self).wf(),
        ensures
            final(self).wf(),
            final(self)@ == after_disconnect(old(self)@, msg.stream@, msg.uuid),
            match due {
                Some(broadcast) => old(self)@.contains_key(msg.stream@) && refreshes(
                    broadcast,
                    final(self)@[msg.stream@],
                    None,
                ),
                None => !old(self)@.contains_key(msg.stream@),
            },
    {
        match self.streams.remove(&msg.stream) {
            Some(mut data) => {
                data.queue.remove(&msg.uuid);
                data.authorized_players.remove(&msg.uuid);
                let broadcast = data.refresh_sockets(None);
                proof {
                    lemma_states_insert(old(self).streams@, msg.stream@, data);
                }
                self.streams.insert(msg.stream, data);
                Some(broadcast)
            },
            None => {
                proof {
                    lemma_states_remove(old(self).streams@, msg.stream@);
                }
                None
            },
        }
    }

    /// A dashboard looks on from now on. It is due the queue as it stands.
    pub fn handle_new_recipient(&mut self, msg: NewRecipient) -> (due: dashboard::Refresh)
        requires
            old(self).wf(),
            old(self)@.contains_key(msg.stream@),
        ensures
            final(self).wf(),
            final(self)@ == after_new_recipient(old(self)@, msg.stream@, msg.recipient),
            lists_queue(due.queue@, old(self)@[msg.stream@].queue),
            due.new is None,
    {
        let mut queue: Vec<(u128, QueuedPlayer)> = Vec::new();
        if let Some(mut data) = self.streams.remove(&msg.stream) {
            queue = list_queue(&data.queue);
            data.queue_recipients.push(msg.recipient);
            proof {
                lemma_states_insert(old(self).streams@, msg.stream@, data);
            }
            self.streams.insert(msg.stream, data);
        }
        dashboard::Refresh { queue, new: None }
    }

    /// A dashboard went away.
    pub fn handle_recipient_disconnected(&mut self, msg: RecipientDisconnected)
        requires
            old(self).wf(),
        ensures
            final(self).wf(),
            final(self)@ == after_recipient_disconnected(old(self)@, msg.stream@, msg.recipient),
    {
        proof {
            lemma_states_remove(self.streams@, msg.stream@);
        }
        if let Some(mut data) = self.streams.remove(&msg.stream) {
            data.queue_recipients = numbers_without(&data.queue_recipients, msg.recipient);
            proof {
                lemma_states_insert(old(self).streams@, msg.stream@, data);
            }
            self.streams.insert(msg.stream, data);
        }
    }

    /// Whether the player may watch the stream.
    pub fn handle_is_authorized(&self, msg: &IsAuthorized) -> (authorized: bool)
        requires
            self.wf(),
        ensures
            authorized == is_authorized(self@, msg.stream@, msg.uuid),
    {
        match self.streams.get(&msg.stream) {
            Some(data) => data.authorized_players.contains(&msg.uuid),
            None => false,
        }
    }

    /// A stream starts anew: it is there, nobody waits for it and nobody may watch it.
    pub fn handle_stream_created(&mut self, msg: StreamCreated)
        requires
            old(self).wf(),
        ensures
            final(self).wf(),
            final(self)@ == after_created(old(self)@, msg.stream@),
    {
        let data = StreamData::default();
        proof {
            lemma_states_insert(self.streams@, msg.stream@, data);
        }
        self.streams.insert(msg.stream, data);
    }

    /// A stream is gone, and with it all that was kept of it.
    pub fn handle_stream_removed(&mut self, msg: StreamRemoved)
        requires
            old(self).wf(),
        ensures
            final(self).wf(),
            final(self)@ == after_removed(old(self)@, msg.stream@),
    {
        proof {
            lemma_states_remove(self.streams@, msg.stream@);
        }
        self.streams.remove(&msg.stream);
    }
}

/// The question whether the player that a URL names by the text `uuid` may watch the stream.
pub fn player_query(stream: String, uuid: &str) -> (query: Result<IsAuthorized, InvalidUuid>)
    ensures
        match query {
            Ok(query) => uuid_of_text(uuid@) == Some(query.uuid) && query.stream == stream,
            Err(_) => uuid_of_text(uuid@) is None,
        },
{
    match parse_uuid(uuid) {
        Ok(uuid) => Ok(IsAuthorized { uuid, stream }),
        Err(error) => Err(error),
    }
}

/// A message to the manager that changes something.
pub enum Event {
    Handle { stream: Seq<char>, uuid: u128, allow: bool },
    PlayerConnect { stream: Seq<char>, uuid: u128, player: QueuedPlayer },
    PlayerDisconnect { stream: Seq<char>, uuid: u128 },
    NewRecipient { stream: Seq<char>, recipient: u64 },
    RecipientDisconnected { stream: Seq<char>, recipient: u64 },
    StreamCreated { stream: Seq<char> },
    StreamRemoved { stream: Seq<char> },
}

/// The stream that a message is about.
pub open spec fn event_stream(event: Event) -> Seq<char> {
    match event {
        Event::Handle { stream, uuid, allow } => stream,
        Event::PlayerConnect { stream, uuid, player } => stream,
        Event::PlayerDisconnect { stream, uuid } => stream,
        Event::NewRecipient { stream, recipient } => stream,
        Event::RecipientDisconnected { stream, recipient } => stream,
        Event::StreamCreated { stream } => stream,
        Event::StreamRemoved { stream } => stream,
    }
}

/// The streams after one message.
pub open spec fn after_event(streams: Streams, event: Event) -> Streams {
    match event {
        Event::Handle { stream, uuid, allow } => after_handle(streams, stream, uuid, allow),
        Event::PlayerConnect { stream, uuid, player } => after_connect(
            streams,
            stream,
            uuid,
            player,
        ),
        Event::PlayerDisconnect { stream, uuid } => after_disconnect(streams, stream, uuid),
        Event::NewRecipient { stream, recipient } => after_new_recipient(
            streams,
            stream,
            recipient,
        ),
        Event::RecipientDisconnected { stream, recipient } => after_recipient_disconnected(
            streams,
            stream,
            recipient,
        ),
        Event::StreamCreated { stream } => after_created(streams, stream),
        Event::StreamRemoved { stream } => after_removed(streams, stream),
    }
}

/// The streams after all the messages, in order.
pub open spec fn after_events(streams: Streams, events: Seq<Event>) -> Streams
    decreases events.len(),
{
    if events.len() == 0 {
        streams
    } else {
        after_event(after_events(streams, events.drop_last()), events.last())
    }
}

/// The message allows the player to watch the stream.
pub open spec fn allows(event: Event, stream: Seq<char>, uuid: u128) -> bool {
    event == (Event::Handle { stream, uuid, allow: true })
}

/// The message takes from the player what it was allowed: the player goes away, or the stream is
/// removed or starts anew.
pub open spec fn revokes(event: Event, stream: Seq<char>, uuid: u128) -> bool {
    ||| event == (Event::PlayerDisconnect { stream, uuid })
    ||| event == (Event::StreamCreated { stream })
    ||| event == (Event::StreamRemoved { stream })
}

/// Only the streamer lets a player in: a player who may watch after a message and could not before
/// was waiting, and the message allows it.
pub proof fn law_only_allowing_authorizes(
    streams: Streams,
    event: Event,
    stream: Seq<char>,
    uuid: u128,
)
    requires
        is_authorized(after_event(streams, event), stream, uuid),
        !is_authorized(streams, stream, uuid),
    ensures
        allows(event, stream, uuid),
        is_queued(streams, stream, uuid),
{
}

/// A player keeps what it was allowed until the player goes away, or the stream is removed or
/// starts anew; and any of these takes it.
pub proof fn law_only_revoking_withdraws(
    streams: Streams,
    event: Event,
    stream: Seq<char>,
    uuid: u128,
)
    ensures
        is_authorized(streams, stream, uuid) && !revokes(event, stream, uuid) ==> is_authorized(
            after_event(streams, event),
            stream,
            uuid,
        ),
        revokes(event, stream, uuid) ==> !is_authorized(after_event(streams, event), stream, uuid)
            && !is_queued(after_event(streams, event), stream, uuid),
{
}

/// Whoever may watch was let in: whatever messages a new manager got, a player who may watch was
/// allowed to by one of them, at which time the player was waiting, and none since took it back.
pub proof fn law_authorized_was_allowed(
    names: Seq<Seq<char>>,
    events: Seq<Event>,
    stream: Seq<char>,
    uuid: u128,
)
    requires
        is_authorized(after_events(after_new(names), events), stream, uuid),
    ensures
        exists|k: int|
            #![trigger events[k]]
            0 <= k < events.len() && allows(events[k], stream, uuid) && is_queued(
                after_events(after_new(names), events.take(k)),
                stream,
                uuid,
            ) && forall|j: int| k < j < events.len() ==> !revokes(#[trigger] events[j], stream, uuid),
    decreases events.len(),
{
    let start = after_new(names);
    if events.len() > 0 {
        let front = events.drop_last();
        let last = events.len() - 1;
        let before = after_events(start, front);
        assert(front =~= events.take(last));
        assert(events[last] == events.last());
        if is_authorized(before, stream, uuid) {
            law_authorized_was_allowed(names, front, stream, uuid);
            let k = choose|k: int|
                #![trigger front[k]]
                0 <= k < front.len() && allows(front[k], stream, uuid) && is_queued(
                    after_events(start, front.take(k)),
                    stream,
                    uuid,
                ) && forall|j: int|
                    k < j < front.len() ==> !revokes(#[trigger] front[j], stream, uuid);
            assert(front.take(k) =~= events.take(k));
            assert(events[k] == front[k]);
            law_only_revoking_withdraws(before, events.last(), stream, uuid);
            assert forall|j: int| k < j < events.len() implies !revokes(
                #[trigger] events[j],
                stream,
                uuid,
            ) by {
                if j < last {
                    assert(events[j] == front[j]);
                }
            }
        } else {
            law_only_allowing_authorizes(before, events.last(), stream, uuid);
            assert(allows(events[last], stream, uuid));
        }
    }
}

/// A message about one stream leaves every other stream as it is.
pub proof fn law_streams_are_independent(streams: Streams, event: Event, other: Seq<char>)
    requires
        other != event_stream(event),
    ensures
        after_event(streams, event).contains_key(other) == streams.contains_key(other),
        streams.contains_key(other) ==> after_event(streams, event)[other] == streams[other],
{
}

/// A player who joins a stream that exists waits; once allowed it may watch and waits no more;
/// once denied it waits no more and may watch only if it could before.
pub proof fn law_decision_ends_waiting(
    streams: Streams,
    stream: Seq<char>,
    uuid: u128,
    player: QueuedPlayer,
)
    requires
        streams.contains_key(stream),
    ensures
        ({
            let waiting = after_connect(streams, stream, uuid, player);
            let allowed = after_handle(waiting, stream, uuid, true);
            let denied = after_handle(waiting, stream, uuid, false);
            &&& is_queued(waiting, stream, uuid)
            &&& waiting[stream].queue[uuid] == player
            &&& is_authorized(allowed, stream, uuid)
            &&& !is_queued(allowed, stream, uuid)
            &&& !is_queued(denied, stream, uuid)
            &&& is_authorized(denied, stream, uuid) == is_authorized(streams, stream, uuid)
        }),
{
}

/// A decision is taken once: a second decision on the same player changes nothing.
pub proof fn law_second_decision_is_void(
    streams: Streams,
    stream: Seq<char>,
    uuid: u128,
    first: bool,
    second: bool,
)
    ensures
        ({
            let decided = after_handle(streams, stream, uuid, first);
            after_handle(decided, stream, uuid, second) == decided
        }),
{
}

/// A player leaves no trace: one who joins, is allowed or denied or neither, and goes away again
/// leaves everything as it was before.
pub proof fn law_player_comes_and_goes(
    streams: Streams,
    stream: Seq<char>,
    uuid: u128,
    player: QueuedPlayer,
    allow: bool,
)
    requires
        streams.contains_key(stream),
        !is_queued(streams, stream, uuid),
        !is_authorized(streams, stream, uuid),
    ensures
        ({
            let waiting = after_connect(streams, stream, uuid, player);
            let decided = after_handle(waiting, stream, uuid, allow);
            &&& after_disconnect(waiting, stream, uuid) == streams
            &&& after_disconnect(decided, stream, uuid) == streams
        }),
{
    let waiting = after_connect(streams, stream, uuid, player);
    let decided = after_handle(waiting, stream, uuid, allow);
    assert(after_disconnect(waiting, stream, uuid)[stream] =~= streams[stream]);
    assert(after_disconnect(decided, stream, uuid)[stream] =~= streams[stream]);
    assert(after_disconnect(waiting, stream, uuid) =~= streams);
    assert(after_disconnect(decided, stream, uuid) =~= streams);
}

/// A dashboard that went away is told no more, and every other one is told as before.
pub proof fn law_gone_dashboard_is_not_told(
    streams: Streams,
    stream: Seq<char>,
    recipient: u64,
    other: u64,
)
    requires
        streams.contains_key(stream),
        other != recipient,
    ensures
        ({
            let recipients = after_recipient_disconnected(
                streams,
                stream,
                recipient,
            )[stream].recipients;
            &&& !recipients.contains(recipient)
            &&& recipients.contains(other) == streams[stream].recipients.contains(other)
        }),
{
    let before = streams[stream].recipients;
    let stays = differs_from(recipient);
    let kept = before.filter(stays);
    if kept.contains(recipient) {
        before.lemma_filter_pred(stays, kept.index_of(recipient));
    }
    if kept.contains(other) {
        before.lemma_filter_contains_rev(stays, other);
    }
    if before.contains(other) {
        before.lemma_filter_contains(stays, before.index_of(other));
    }
}

/// A dashboard that goes away again leaves those that looked on before it, if it was not among
/// them.
pub proof fn law_recipient_comes_and_goes(streams: Streams, stream: Seq<char>, recipient: u64)
    requires
        streams.contains_key(stream),
        !streams[stream].recipients.contains(recipient),
    ensures
        after_recipient_disconnected(
            after_new_recipient(streams, stream, recipient),
            stream,
            recipient,
        ) == streams,
{
    let stays = differs_from(recipient);
    let recipients = streams[stream].recipients;
    lemma_filter_keeps_all(recipients, stays);
    reveal(Seq::filter);
    assert(recipients.push(recipient).drop_last() =~= recipients);
    assert(recipients.push(recipient).filter(stays) =~= recipients);
    let after = after_recipient_disconnected(
        after_new_recipient(streams, stream, recipient),
        stream,
        recipient,
    );
    assert(after[stream] =~= streams[stream]);
    assert(after =~= streams);
}

proof fn lemma_filter_keeps_all(numbers: Seq<u64>, stays: spec_fn(u64) -> bool)
    requires
        forall|i: int| 0 <= i < numbers.len() ==> stays(#[trigger] numbers[i]),
    ensures
        numbers.filter(stays) == numbers,
    decreases numbers.len(),
{
    reveal(Seq::filter);
    if numbers.len() > 0 {
        assert forall|i: int| 0 <= i < numbers.drop_last().len() implies stays(
            #[trigger] numbers.drop_last()[i],
        ) by {
            assert(numbers.drop_last()[i] == numbers[i]);
        }
        lemma_filter_keeps_all(numbers.drop_last(), stays);
        assert(stays(numbers[numbers.len() - 1]));
        assert(numbers.drop_last().push(numbers.last()) =~= numbers);
    }
}

} // verus!
