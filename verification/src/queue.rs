//! A queue of connections: clients of the media server that wait until somebody allows or denies
//! them, by stream, and the dashboards that look on.
//!
//! The queue keeps the books and says which messages are due; sending them is the caller's part. A
//! dashboard is known by a number, and so is the `sender` through which a waiting request is
//! answered. Times are nanoseconds on one clock.

use vstd::prelude::*;
use vstd::string::*;

use crate::admission::{Client, ClientView};
use crate::heartbeat;
use crate::manager::{copy_numbers, differs_from, numbers_without};
use crate::table::{lists_map, Key, Table};
use crate::text::{lemma_take_one_more, texts_view};

verus! {

/// A request that waits: when it came, and through what it is answered.
#[derive(Clone, Copy, Debug, PartialEq, Eq, Structural)]
pub struct QueuedRequest {
    pub instant: u128,
    pub sender: u64,
}

/// The socket over which a dashboard follows the queue of a stream.
#[derive(Debug)]
pub struct QueueWebSocket {
    pub hb: u128,
    pub id: u64,
    pub stream: String,
}

/// The queue of a stream, the latest request first.
#[derive(Debug)]
pub struct Refresh(pub Vec<(Client, QueuedRequest)>);

/// The decision on a client that waits.
#[derive(Debug)]
pub struct Handle {
    pub client: Client,
    pub allow: bool,
    pub stream: String,
}

/// A client that wants to connect.
#[derive(Debug)]
pub struct NewConnection {
    pub client: Client,
    pub request: QueuedRequest,
    pub stream: String,
}

/// A dashboard wants to be told of the queue of a stream.
#[derive(Debug)]
pub struct NewRecipient {
    pub stream: String,
    pub recipient: u64,
}

/// A dashboard went away.
#[derive(Debug)]
pub struct RecipientDisconnected {
    pub stream: String,
    pub recipient: u64,
}

/// What is due at a beat of a dashboard's socket.
#[derive(Debug)]
pub enum QueueBeat {
    /// Ping the client.
    Ping,
    /// Tell the queue that the dashboard went away, then stop the socket.
    Leave(RecipientDisconnected),
}

/// A refresh that is due to every one of the recipients, in this order.
#[derive(Debug)]
pub struct Broadcast {
    pub recipients: Vec<u64>,
    pub refresh: Refresh,
}

/// What is due when a client that waited was allowed or denied: first the request is answered, then
/// the dashboards are told.
#[derive(Debug)]
pub struct Handled {
    pub sender: u64,
    pub allow: bool,
    pub broadcast: Broadcast,
}

/// What is kept of one stream.
#[derive(Debug)]
pub struct StreamData {
    pub queue: Table<Client, QueuedRequest>,
    pub queue_recipients: Vec<u64>,
}

/// The queues of all streams.
#[derive(Debug)]
pub struct QueueActor {
    pub streams: Table<String, StreamData>,
}

/// One stream: the requests that wait, by client, and the dashboards that look on, in the order in
/// which they came.
#[verifier::ext_equal]
pub struct QueueState {
    pub queue: Map<ClientView, QueuedRequest>,
    pub recipients: Seq<u64>,
}

/// All streams by name.
pub type Queues = Map<Seq<char>, QueueState>;

impl StreamData {
    /// The stream as a map and a sequence.
    pub open spec fn state(self) -> QueueState {
        QueueState { queue: self.queue@, recipients: self.queue_recipients@ }
    }

    /// A stream for which nobody waits and at which nobody looks.
    pub fn default() -> (data: StreamData)
        ensures
            data.queue.wf(),
            data.state() == empty_queue(),
    {
        StreamData { queue: Table::new(), queue_recipients: Vec::new() }
    }
}

/// A stream for which nobody waits and at which nobody looks.
pub open spec fn empty_queue() -> QueueState {
    QueueState { queue: Map::empty(), recipients: Seq::empty() }
}

/// The states of the streams.
pub open spec fn queue_states(streams: Map<Seq<char>, StreamData>) -> Queues {
    Map::new(
        |name: Seq<char>| streams.contains_key(name),
        |name: Seq<char>| streams[name].state(),
    )
}

/// The streams of a new queue: one for each name.
pub open spec fn queues_of(names: Seq<Seq<char>>) -> Queues {
    Map::new(|name: Seq<char>| names.contains(name), |name: Seq<char>| empty_queue())
}

/// The client no longer waits.
pub open spec fn without_client(state: QueueState, client: ClientView) -> QueueState {
    QueueState { queue: state.queue.remove(client), recipients: state.recipients }
}

/// The dashboard looks on, behind those that did already.
pub open spec fn with_recipient(state: QueueState, recipient: u64) -> QueueState {
    QueueState { queue: state.queue, recipients: state.recipients.push(recipient) }
}

/// The dashboard no longer looks on.
pub open spec fn without_recipient(state: QueueState, recipient: u64) -> QueueState {
    QueueState {
        queue: state.queue,
        recipients: state.recipients.filter(differs_from(recipient)),
    }
}

/// No request stands behind one that came before it.
pub open spec fn latest_first(list: Seq<(Client, QueuedRequest)>) -> bool {
    forall|i: int, j: int|
        0 <= i < j < list.len() ==> (#[trigger] list[i]).1.instant >= (
        #[trigger] list[j]).1.instant
}

/// The broadcast tells every dashboard of the stream, in order, of the stream's queue, the latest
/// request first.
pub open spec fn refreshes(broadcast: Broadcast, state: QueueState) -> bool {
    &&& broadcast.recipients@ == state.recipients
    &&& lists_map(broadcast.refresh.0@, state.queue)
    &&& latest_first(broadcast.refresh.0@)
}

proof fn lemma_states_insert(streams: Map<Seq<char>, StreamData>, name: Seq<char>, data: StreamData)
    ensures
        queue_states(streams.insert(name, data)) == queue_states(streams).insert(
            name,
            data.state(),
        ),
        queue_states(streams.remove(name).insert(name, data)) == queue_states(streams).insert(
            name,
            data.state(),
        ),
{
    assert(queue_states(streams.insert(name, data)) =~= queue_states(streams).insert(
        name,
        data.state(),
    ));
    assert(streams.remove(name).insert(name, data) =~= streams.insert(name, data));
}

/// A list of the same entries in another order lists the same map.
proof fn lemma_reordered(
    list: Seq<(Client, QueuedRequest)>,
    other: Seq<(Client, QueuedRequest)>,
    queue: Map<ClientView, QueuedRequest>,
)
    requires
        lists_map(list, queue),
        list.to_multiset() == other.to_multiset(),
    ensures
        lists_map(other, queue),
{
    broadcast use vstd::seq_lib::group_to_multiset_ensures;

    assert(list.no_duplicates()) by {
        assert forall|i: int, j: int|
            0 <= i < list.len() && 0 <= j < list.len() && i != j implies list[i] != list[j] by {
            if i < j {
                assert(list[i].0.key() != list[j].0.key());
            } else {
                assert(list[j].0.key() != list[i].0.key());
            }
        }
    }
    list.lemma_multiset_has_no_duplicates();
    other.lemma_multiset_has_no_duplicates_conv();
    assert forall|i: int| 0 <= i < other.len() implies list.contains(#[trigger] other[i]) by {
        assert(other.contains(other[i]));
        assert(other.to_multiset().count(other[i]) > 0);
    }
    assert forall|i: int| 0 <= i < list.len() implies other.contains(#[trigger] list[i]) by {
        assert(list.contains(list[i]));
        assert(list.to_multiset().count(list[i]) > 0);
    }
    assert forall|i: int| 0 <= i < other.len() implies queue.contains_key(
        (#[trigger] other[i]).0.key(),
    ) && queue[other[i].0.key()] == other[i].1 by {
        let k = list.index_of(other[i]);
        assert(list[k] == other[i]);
    }
    assert forall|i: int, j: int| 0 <= i < j < other.len() implies (#[trigger] other[i]).0.key()
        != (#[trigger] other[j]).0.key() by {
        let k = list.index_of(other[i]);
        let m = list.index_of(other[j]);
        assert(list[k] == other[i] && list[m] == other[j]);
        if k < m {
            assert(list[k].0.key() != list[m].0.key());
        } else if m < k {
            assert(list[m].0.key() != list[k].0.key());
        }
    }
    assert forall|key: ClientView| #[trigger] queue.contains_key(key) implies exists|i: int|
        0 <= i < other.len() && (#[trigger] other[i]).0.key() == key by {
        let k = choose|k: int| 0 <= k < list.len() && (#[trigger] list[k]).0.key() == key;
        let i = other.index_of(list[k]);
        assert(other[i].0.key() == key);
    }
}

/// The same requests, the latest first.
pub fn sort_latest_first(list: &Vec<(Client, QueuedRequest)>) -> (sorted: Vec<
    (Client, QueuedRequest),
>)
    ensures
        sorted@.to_multiset() == list@.to_multiset(),
        latest_first(sorted@),
{
    let mut sorted: Vec<(Client, QueuedRequest)> = Vec::new();
    let mut i: usize = 0;
    assert(list@.take(0) =~= sorted@);
    while i < list.len()
        invariant
            i <= list.len(),
            sorted@.to_multiset() == list@.take(i as int).to_multiset(),
            latest_first(sorted@),
        decreases list.len() - i,
    {
        let entry: (Client, QueuedRequest) = (list[i].0.clone(), list[i].1);
        let mut at: usize = 0;
        while at < sorted.len() && sorted[at].1.instant >= entry.1.instant
            invariant
                at <= sorted.len(),
                forall|j: int|
                    0 <= j < at ==> (#[trigger] sorted@[j]).1.instant >= entry.1.instant,
            decreases sorted.len() - at,
        {
            at = at + 1;
        }
        let ghost before = sorted@;
        sorted.insert(at, entry);
        proof {
            assert(list@.take(i + 1) =~= list@.take(i as int).push(list@[i as int]));
            assert(sorted@ =~= before.insert(at as int, entry));
            assert(entry == list@[i as int]);
            vstd::seq_lib::to_multiset_insert(before, at as int, entry);
            vstd::seq_lib::to_multiset_build(list@.take(i as int), entry);
            assert forall|a: int, b: int| 0 <= a < b < sorted@.len() implies (
            #[trigger] sorted@[a]).1.instant >= (#[trigger] sorted@[b]).1.instant by {
                let a0 = if a < at {
                    a
                } else {
                    a - 1
                };
                let b0 = if b < at {
                    b
                } else {
                    b - 1
                };
                if a == at {
                    assert(before[at as int].1.instant >= before[b0].1.instant);
                } else if b == at {
                    assert(sorted@[a] == before[a]);
                } else {
                    assert(sorted@[a] == before[a0] && sorted@[b] == before[b0]);
                }
            }
        }
        i = i + 1;
    }
    assert(list@.take(i as int) =~= list@);
    sorted
}

impl StreamData {
    /// The refresh that is due to the dashboards of the stream.
    fn refresh_sockets(&self) -> (broadcast: Broadcast)
        requires
            self.queue.wf(),
        ensures
            refreshes(broadcast, self.state()),
    {
        let list = self.queue.list();
        let sorted = sort_latest_first(list);
        proof {
            lemma_reordered(list@, sorted@, self.queue@);
        }
        Broadcast {
            recipients: copy_numbers(&self.queue_recipients),
            refresh: Refresh(sorted),
        }
    }
}

impl QueueActor {
    /// The streams by name.
    pub open spec fn view(&self) -> Queues {
        queue_states(self.streams@)
    }

    /// No stream is kept twice, and no client waits twice for a stream.
    pub open spec fn wf(&self) -> bool {
        &&& self.streams.wf()
        &&& forall|name: Seq<char>| #[trigger]
            self.streams@.contains_key(name) ==> self.streams@[name].queue.wf()
    }

    /// A queue for each of the named streams. A name that is given twice counts once.
    pub fn new(streams: &[String]) -> (actor: Self)
        ensures
            actor.wf(),
            actor@ == queues_of(texts_view(streams@)),
    {
        let mut actor = QueueActor { streams: Table::new() };
        let mut i: usize = 0;
        let ghost names = texts_view(streams@);
        assert(actor@ =~= queues_of(names.take(0)));
        while i < streams.len()
            invariant
                i <= streams.len(),
                names == texts_view(streams@),
                actor.wf(),
                actor@ == queues_of(names.take(i as int)),
            decreases streams.len() - i,
        {
            let data = StreamData::default();
            proof {
                lemma_states_insert(actor.streams@, streams@[i as int]@, data);
            }
            actor.streams.insert(streams[i].clone(), data);
            proof {
                lemma_take_one_more(names, i as int);
                assert(names[i as int] == streams@[i as int]@);
                assert(actor@ =~= queues_of(names.take(i + 1)));
            }
            i = i + 1;
        }
        assert(names.take(i as int) =~= names);
        actor
    }

    /// Whether there is a stream of this name.
    pub fn has_stream(&self, stream: &String) -> (found: bool)
        requires
            self.wf(),
        ensures
            found == self@.contains_key(stream@),
    {
        self.streams.contains(stream)
    }

    /// A client was allowed or denied. If it waits, it waits no more, its request is answered, and
    /// the dashboards are told; else nothing happens.
    pub fn handle(&mut self, msg: Handle) -> (due: Option<Handled>)
        requires
            old(self).wf(),
            old(self)@.contains_key(msg.stream@),
        ensures
            final(self).wf(),
            final(self)@ == old(self)@.insert(
                msg.stream@,
                without_client(old(self)@[msg.stream@], msg.client@),
            ),
            match due {
                Some(due) => {
                    let state = old(self)@[msg.stream@];
                    &&& state.queue.contains_key(msg.client@)
                    &&& due.sender == state.queue[msg.client@].sender
                    &&& due.allow == msg.allow
                    &&& refreshes(due.broadcast, final(self)@[msg.stream@])
                },
                None => !old(self)@[msg.stream@].queue.contains_key(msg.client@),
            },
    {
        let mut due: Option<Handled> = None;
        if let Some(mut data) = self.streams.remove(&msg.stream) {
            if let Some(request) = data.queue.remove(&msg.client) {
                due = Some(
                    Handled {
                        sender: request.sender,
                        allow: msg.allow,
                        broadcast: data.refresh_sockets(),
                    },
                );
            }
            proof {
                lemma_states_insert(old(self).streams@, msg.stream@, data);
            }
            self.streams.insert(msg.stream, data);
        }
        due
    }

    /// A dashboard looks on from now on.
    pub fn handle_new_recipient(&mut self, msg: NewRecipient)
        requires
            old(self).wf(),
            old(self)@.contains_key(msg.stream@),
        ensures
            final(self).wf(),
            final(self)@ == old(self)@.insert(
                msg.stream@,
                with_recipient(old(self)@[msg.stream@], msg.recipient),
            ),
    {
        if let Some(mut data) = self.streams.remove(&msg.stream) {
            data.queue_recipients.push(msg.recipient);
            proof {
                lemma_states_insert(old(self).streams@, msg.stream@, data);
            }
            self.streams.insert(msg.stream, data);
        }
    }

    /// A dashboard went away.
    pub fn handle_recipient_disconnected(&mut self, msg: RecipientDisconnected)
        requires
            old(self).wf(),
            old(self)@.contains_key(msg.stream@),
        ensures
            final(self).wf(),
            final(self)@ == old(self)@.insert(
                msg.stream@,
                without_recipient(old(self)@[msg.stream@], msg.recipient),
            ),
    {
        if let Some(mut data) = self.streams.remove(&msg.stream) {
            data.queue_recipients = numbers_without(&data.queue_recipients, msg.recipient);
            proof {
                lemma_states_insert(old(self).streams@, msg.stream@, data);
            }
            self.streams.insert(msg.stream, data);
        }
    }
}

impl QueueWebSocket {
    /// A socket that has just been opened.
    pub fn new(id: u64, stream: String, now: u128) -> (socket: Self)
        ensures
            socket == (QueueWebSocket { hb: now, id, stream }),
    {
        QueueWebSocket { hb: now, id, stream }
    }

    /// What is due at a beat: a dashboard that has been silent for too long is given up.
    pub fn hb(&self, now: u128) -> (due: QueueBeat)
        ensures
            match due {
                QueueBeat::Ping => !heartbeat::timed_out(self.hb, now),
                QueueBeat::Leave(msg) => heartbeat::timed_out(self.hb, now) && msg == (
                RecipientDisconnected { stream: self.stream, recipient: self.id }),
            },
    {
        if heartbeat::is_timed_out(self.hb, now) {
            QueueBeat::Leave(
                RecipientDisconnected { stream: self.stream.clone(), recipient: self.id },
            )
        } else {
            QueueBeat::Ping
        }
    }

    /// What the queue is told when the socket starts.
    pub fn started(&self) -> (msg: NewRecipient)
        ensures
            msg == (NewRecipient { stream: self.stream, recipient: self.id }),
    {
        NewRecipient { stream: self.stream.clone(), recipient: self.id }
    }

    /// What is due for a frame.
    pub fn handle(&mut self, item: heartbeat::Frame, now: u128) -> (due: heartbeat::FrameAction)
        ensures
            *final(self) == (QueueWebSocket {
                hb: heartbeat::heard_of(old(self).hb, item, now),
                ..*old(self)
            }),
            due == match item {
                heartbeat::Frame::Ping(msg) => heartbeat::FrameAction::Pong(msg),
                heartbeat::Frame::Pong => heartbeat::FrameAction::Nothing,
                heartbeat::Frame::Other => heartbeat::FrameAction::Stop,
            },
    {
        heartbeat::handle_frame(&mut self.hb, item, now)
    }
}

} // verus!
