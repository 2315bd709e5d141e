//! Laws of the queue of connections: who waits, who is answered, and who is told.

use vstd::prelude::*;
use vstd::string::*;

use crate::admission::{Client, ClientView};
use crate::heartbeat::{Frame, FrameAction};
use crate::manager::differs_from;
use crate::queue::{
    sort_latest_first, Handle, Handled, NewRecipient, QueueActor, QueueBeat,
    QueueWebSocket, QueuedRequest, RecipientDisconnected, StreamData,
};
use crate::table::{lists_map, Key};
use crate::text::texts_view;

verus! {

/// The list holds exactly the requests that wait, each with its client, none twice, and none behind
/// one that came before it.
pub open spec fn tells_latest_first(
    list: Seq<(Client, QueuedRequest)>,
    queue: Map<ClientView, QueuedRequest>,
) -> bool {
    &&& forall|client: ClientView| #[trigger]
        queue.contains_key(client) <==> exists|i: int|
            0 <= i < list.len() && (#[trigger] list[i]).0@ == client
    &&& forall|i: int| 0 <= i < list.len() ==> (#[trigger] list[i]).1 == queue[list[i].0@]
    &&& forall|i: int, j: int|
        0 <= i < list.len() && 0 <= j < list.len() && i != j ==> (#[trigger] list[i]).0@ != (
        #[trigger] list[j]).0@
    &&& forall|i: int, j: int|
        0 <= i < j < list.len() ==> (#[trigger] list[i]).1.instant >= (
        #[trigger] list[j]).1.instant
}

proof fn lemma_tells_latest_first(
    list: Seq<(Client, QueuedRequest)>,
    queue: Map<ClientView, QueuedRequest>,
)
    requires
        lists_map(list, queue),
        crate::queue::latest_first(list),
    ensures
        tells_latest_first(list, queue),
{
    assert forall|client: ClientView| #[trigger]
        queue.contains_key(client) <==> exists|i: int|
        0 <= i < list.len() && (#[trigger] list[i]).0@ == client by {
        if queue.contains_key(client) {
            let i = choose|i: int| 0 <= i < list.len() && (#[trigger] list[i]).0.key() == client;
            assert(list[i].0@ == client);
        }
        if exists|i: int| 0 <= i < list.len() && (#[trigger] list[i]).0@ == client {
            let i = choose|i: int| 0 <= i < list.len() && (#[trigger] list[i]).0@ == client;
            assert(queue.contains_key(list[i].0.key()));
        }
    }
    assert forall|i: int| 0 <= i < list.len() implies (#[trigger] list[i]).1 == queue[list[i].0@] by {
        assert(queue[list[i].0.key()] == list[i].1);
    }
    assert forall|i: int, j: int| 0 <= i < list.len() && 0 <= j < list.len() && i != j implies (
    #[trigger] list[i]).0@ != (#[trigger] list[j]).0@ by {
        if i < j {
            assert(list[i].0.key() != list[j].0.key());
        } else {
            assert(list[j].0.key() != list[i].0.key());
        }
    }
}

/// A new queue has exactly the named streams, for which nobody waits and at which nobody looks; a
/// stream is known exactly if it is there.
pub proof fn law_new_queue(
    names: &[String],
    actor: QueueActor,
    stream: Seq<char>,
    data: StreamData,
    asked: &QueueActor,
    name: &String,
    found: bool,
)
    requires
        call_ensures(QueueActor::new, (names,), actor),
        call_ensures(StreamData::default, (), data),
        call_ensures(QueueActor::has_stream, (asked, name), found),
    ensures
        actor.wf(),
        actor@.contains_key(stream) <==> exists|i: int|
            0 <= i < names@.len() && (#[trigger] names@[i])@ == stream,
        actor@.contains_key(stream) ==> actor@[stream].queue == Map::<
            ClientView,
            QueuedRequest,
        >::empty() && actor@[stream].recipients.len() == 0,
        data.queue@ == Map::<ClientView, QueuedRequest>::empty(),
        data.queue_recipients@.len() == 0,
        found <==> asked.streams@.contains_key(name@),
{
    let texts = texts_view(names@);
    if actor@.contains_key(stream) {
        let i = texts.index_of(stream);
        assert(names@[i]@ == stream);
    }
    if exists|i: int| 0 <= i < names@.len() && (#[trigger] names@[i])@ == stream {
        let i = choose|i: int| 0 <= i < names@.len() && (#[trigger] names@[i])@ == stream;
        assert(texts[i] == stream);
    }
}

/// What is known of a stream is what is kept of it: its queue and its dashboards.
pub proof fn law_queue_is_what_is_kept(actor: &QueueActor, stream: Seq<char>)
    ensures
        actor@.contains_key(stream) == actor.streams@.contains_key(stream),
        actor@.contains_key(stream) ==> actor@[stream].queue == actor.streams@[stream].queue@
            && actor@[stream].recipients == actor.streams@[stream].queue_recipients@,
{
}

/// A decision is on one client of one stream: if that client waits, it waits no more, its request is
/// answered with the decision, and the dashboards of the stream are told who waits now, the latest
/// first. Nothing else changes; and if the client does not wait, nothing does.
pub proof fn law_connection_is_decided_on(
    actor: &mut QueueActor,
    msg: Handle,
    due: Option<Handled>,
    stream: Seq<char>,
    client: ClientView,
)
    requires
        old(actor).wf(),
        old(actor)@.contains_key(msg.stream@),
        call_ensures(QueueActor::handle, (actor, msg), due),
    ensures
        call_requires(QueueActor::handle, (actor, msg)),
        final(actor).wf(),
        final(actor)@.contains_key(stream) == old(actor)@.contains_key(stream),
        old(actor)@.contains_key(stream) ==> {
            let before = old(actor)@[stream];
            let after = final(actor)@[stream];
            let meant = stream == msg.stream@ && client == msg.client@;
            &&& after.queue.contains_key(client) <==> before.queue.contains_key(client) && !meant
            &&& after.queue.contains_key(client) ==> after.queue[client] == before.queue[client]
            &&& after.recipients == before.recipients
        },
        due is Some <==> old(actor)@[msg.stream@].queue.contains_key(msg.client@),
        due matches Some(due) ==> {
            &&& due.sender == old(actor)@[msg.stream@].queue[msg.client@].sender
            &&& due.allow == msg.allow
            &&& due.broadcast.recipients@ == old(actor)@[msg.stream@].recipients
            &&& tells_latest_first(due.broadcast.refresh.0@, final(actor)@[msg.stream@].queue)
        },
{
    if due is Some {
        lemma_tells_latest_first(
            due->Some_0.broadcast.refresh.0@,
            final(actor)@[msg.stream@].queue,
        );
    }
}

/// A dashboard that is opened looks on behind those that did already, and one that goes away looks
/// on no more while the others keep their order. Nothing else changes.
pub proof fn law_dashboards_come_and_go(
    one: &mut QueueActor,
    opened: NewRecipient,
    two: &mut QueueActor,
    gone: RecipientDisconnected,
    stream: Seq<char>,
)
    requires
        old(one).wf(),
        old(one)@.contains_key(opened.stream@),
        call_ensures(QueueActor::handle_new_recipient, (one, opened), ()),
        old(two).wf(),
        old(two)@.contains_key(gone.stream@),
        call_ensures(QueueActor::handle_recipient_disconnected, (two, gone), ()),
    ensures
        final(one).wf() && final(two).wf(),
        final(one)@.contains_key(stream) == old(one)@.contains_key(stream),
        final(two)@.contains_key(stream) == old(two)@.contains_key(stream),
        old(one)@.contains_key(stream) ==> {
            let before = old(one)@[stream];
            let after = final(one)@[stream];
            &&& after.queue == before.queue
            &&& stream == opened.stream@ ==> after.recipients == before.recipients + seq![
                opened.recipient,
            ]
            &&& stream != opened.stream@ ==> after.recipients == before.recipients
        },
        old(two)@.contains_key(stream) ==> {
            let before = old(two)@[stream];
            let after = final(two)@[stream];
            &&& after.queue == before.queue
            &&& stream == gone.stream@ ==> after.recipients == before.recipients.filter(
                |other: u64| other != gone.recipient,
            )
            &&& stream != gone.stream@ ==> after.recipients == before.recipients
        },
{
    assert(differs_from(gone.recipient) =~= (|other: u64| other != gone.recipient));
}

/// Sorting keeps the requests, and puts none behind one that came before it.
pub proof fn law_sorting(
    list: &Vec<(Client, QueuedRequest)>,
    sorted: Vec<(Client, QueuedRequest)>,
    i: int,
    j: int,
)
    requires
        call_ensures(sort_latest_first, (list,), sorted),
    ensures
        sorted@.to_multiset() == list@.to_multiset(),
        0 <= i < j < sorted@.len() ==> sorted@[i].1.instant >= sorted@[j].1.instant,
{
}

/// A dashboard's socket is of the stream and the number that it was opened with, says so when it
/// starts and when it is given up after more than ten seconds of silence, and handles frames as any
/// socket does.
pub proof fn law_connection_socket(
    id: u64,
    stream: String,
    then: u128,
    socket: &QueueWebSocket,
    now: u128,
    start: NewRecipient,
    due: QueueBeat,
    heard: &mut QueueWebSocket,
    item: Frame,
    action: FrameAction,
)
    requires
        call_ensures(QueueWebSocket::new, (id, stream, then), *socket),
        call_ensures(QueueWebSocket::started, (socket,), start),
        call_ensures(QueueWebSocket::hb, (socket, now), due),
        call_ensures(QueueWebSocket::handle, (heard, item, now), action),
    ensures
        start.stream@ == stream@ && start.recipient == id,
        due is Leave <==> now > then + 10_000_000_000,
        due matches QueueBeat::Leave(msg) ==> msg.stream@ == stream@ && msg.recipient == id,
        final(heard).id == old(heard).id,
        final(heard).stream@ == old(heard).stream@,
        item matches Frame::Ping(msg) ==> action == FrameAction::Pong(msg) && final(heard).hb == now,
        item is Pong ==> action is Nothing && final(heard).hb == now,
        item is Other ==> action is Stop && final(heard).hb == old(heard).hb,
{
}

} // verus!
