//! Laws of the manager: who waits, who may watch, and who is told.

use vstd::prelude::*;
use vstd::string::*;

use crate::dashboard;
use crate::manager::{
    differs_from, lists_queue, Broadcast, Handle, Handled, IsAuthorized, Manager, NewRecipient,
    PlayerConnect, PlayerDisconnect, QueuedPlayer, RecipientDisconnected, StreamCreated,
    StreamRemoved,
};
use crate::text::texts_view;

verus! {

/// The list holds exactly the players of the queue, each with its UUID, and none twice.
pub open spec fn tells_all(list: Seq<(u128, QueuedPlayer)>, queue: Map<u128, QueuedPlayer>) -> bool {
    &&& list.no_duplicates()
    &&& forall|uuid: u128, player: QueuedPlayer| #[trigger]
        list.contains((uuid, player)) <==> queue.contains_key(uuid) && queue[uuid] == player
}

proof fn lemma_tells_all(list: Seq<(u128, QueuedPlayer)>, queue: Map<u128, QueuedPlayer>)
    requires
        lists_queue(list, queue),
    ensures
        tells_all(list, queue),
{
    assert forall|i: int, j: int|
        0 <= i < list.len() && 0 <= j < list.len() && i != j implies list[i] != list[j] by {
        if i < j {
            assert(list[i].0 != list[j].0);
        } else {
            assert(list[j].0 != list[i].0);
        }
    }
    assert forall|uuid: u128, player: QueuedPlayer| #[trigger]
        list.contains((uuid, player)) <==> queue.contains_key(uuid) && queue[uuid] == player by {
        if list.contains((uuid, player)) {
            let i = list.index_of((uuid, player));
            assert(queue.contains_key(list[i].0));
        }
        if queue.contains_key(uuid) && queue[uuid] == player {
            let i = choose|i: int| 0 <= i < list.len() && #[trigger] list[i] == (uuid, queue[uuid]);
            assert(list[i] == (uuid, player));
        }
    }
}

/// A new manager has exactly the named streams; nobody waits, nobody may watch and nobody looks on.
pub proof fn law_new_manager(names: &[String], m: Manager, stream: Seq<char>)
    requires
        call_ensures(Manager::new, (names,), m),
    ensures
        m.wf(),
        m@.contains_key(stream) <==> exists|i: int|
            0 <= i < names@.len() && (#[trigger] names@[i])@ == stream,
        m@.contains_key(stream) ==> {
            &&& m@[stream].queue == Map::<u128, QueuedPlayer>::empty()
            &&& m@[stream].authorized == Set::<u128>::empty()
            &&& m@[stream].recipients.len() == 0
        },
{
    let texts = texts_view(names@);
    if m@.contains_key(stream) {
        let i = texts.index_of(stream);
        assert(names@[i]@ == stream);
    }
    if exists|i: int| 0 <= i < names@.len() && (#[trigger] names@[i])@ == stream {
        let i = choose|i: int| 0 <= i < names@.len() && (#[trigger] names@[i])@ == stream;
        assert(texts[i] == stream);
    }
}

/// A stream is known exactly if it is there, and a player may watch exactly if it is among those
/// who may watch that stream.
pub proof fn law_manager_is_asked(
    m: &Manager,
    stream: &String,
    msg: &IsAuthorized,
    found: bool,
    authorized: bool,
)
    requires
        call_ensures(Manager::has_stream, (m, stream), found),
        call_ensures(Manager::handle_is_authorized, (m, msg), authorized),
    ensures
        m.wf() ==> call_requires(Manager::has_stream, (m, stream)),
        m.wf() ==> call_requires(Manager::handle_is_authorized, (m, msg)),
        found <==> m@.contains_key(stream@),
        authorized <==> m@.contains_key(msg.stream@) && m@[msg.stream@].authorized.contains(
            msg.uuid,
        ),
{
}

/// A decision is on one player of one stream: if that player waits, it waits no more, may watch if
/// it is allowed to, is told the decision, and the dashboards of the stream are told who waits now.
/// Nothing else changes; and if the player does not wait, nothing does.
pub proof fn law_decision(
    m: &mut Manager,
    msg: Handle,
    due: Option<Handled>,
    stream: Seq<char>,
    uuid: u128,
)
    requires
        old(m).wf(),
        old(m)@.contains_key(msg.stream@),
        call_ensures(Manager::handle, (m, msg), due),
    ensures
        call_requires(Manager::handle, (m, msg)),
        final(m).wf(),
        final(m)@.contains_key(stream) == old(m)@.contains_key(stream),
        old(m)@.contains_key(stream) ==> {
            let before = old(m)@[stream];
            let after = final(m)@[stream];
            let meant = stream == msg.stream@ && uuid == msg.uuid;
            &&& after.queue.contains_key(uuid) <==> before.queue.contains_key(uuid) && !meant
            &&& after.queue.contains_key(uuid) ==> after.queue[uuid] == before.queue[uuid]
            &&& after.authorized.contains(uuid) <==> before.authorized.contains(uuid) || (meant
                && msg.allow && before.queue.contains_key(uuid))
            &&& after.recipients == before.recipients
        },
        due is Some <==> old(m)@[msg.stream@].queue.contains_key(msg.uuid),
        due matches Some(due) ==> {
            &&& due.addr == old(m)@[msg.stream@].queue[msg.uuid].addr
            &&& due.notice.0 == msg.allow
            &&& due.broadcast.recipients@ == old(m)@[msg.stream@].recipients
            &&& tells_all(due.broadcast.refresh.queue@, final(m)@[msg.stream@].queue)
            &&& due.broadcast.refresh.new is None
        },
{
    if due is Some {
        lemma_tells_all(due->Some_0.broadcast.refresh.queue@, final(m)@[msg.stream@].queue);
    }
}

/// A player who connects waits for the stream, if there is such a stream, with the address and the
/// socket it came with, and the dashboards of the stream are told who waits and that this player is
/// new. Nothing else changes; and if there is no such stream, nothing does.
pub proof fn law_connect(
    m: &mut Manager,
    msg: PlayerConnect,
    due: Option<Broadcast>,
    stream: Seq<char>,
    uuid: u128,
)
    requires
        old(m).wf(),
        call_ensures(Manager::handle_player_connect, (m, msg), due),
    ensures
        call_requires(Manager::handle_player_connect, (m, msg)),
        final(m).wf(),
        final(m)@.contains_key(stream) == old(m)@.contains_key(stream),
        old(m)@.contains_key(stream) ==> {
            let before = old(m)@[stream];
            let after = final(m)@[stream];
            let meant = stream == msg.stream@ && uuid == msg.uuid;
            &&& after.queue.contains_key(uuid) <==> before.queue.contains_key(uuid) || meant
            &&& meant ==> after.queue[uuid].ip_addr@ == msg.ip_addr@ && after.queue[uuid].addr
                == msg.addr
            &&& !meant && before.queue.contains_key(uuid) ==> after.queue[uuid]
                == before.queue[uuid]
            &&& after.authorized == before.authorized
            &&& after.recipients == before.recipients
        },
        due is Some <==> old(m)@.contains_key(msg.stream@),
        due matches Some(due) ==> {
            &&& due.recipients@ == old(m)@[msg.stream@].recipients
            &&& tells_all(due.refresh.queue@, final(m)@[msg.stream@].queue)
            &&& due.refresh.new == Some(msg.uuid)
        },
{
    if due is Some {
        lemma_tells_all(due->Some_0.refresh.queue@, final(m)@[msg.stream@].queue);
    }
}

/// A player who disconnects neither waits for the stream nor may watch it, and the dashboards of the
/// stream are told who waits now. Nothing else changes.
pub proof fn law_disconnect(
    m: &mut Manager,
    msg: PlayerDisconnect,
    due: Option<Broadcast>,
    stream: Seq<char>,
    uuid: u128,
)
    requires
        old(m).wf(),
        call_ensures(Manager::handle_player_disconnect, (m, msg), due),
    ensures
        call_requires(Manager::handle_player_disconnect, (m, msg)),
        final(m).wf(),
        final(m)@.contains_key(stream) == old(m)@.contains_key(stream),
        old(m)@.contains_key(stream) ==> {
            let before = old(m)@[stream];
            let after = final(m)@[stream];
            let meant = stream == msg.stream@ && uuid == msg.uuid;
            &&& after.queue.contains_key(uuid) <==> before.queue.contains_key(uuid) && !meant
            &&& after.queue.contains_key(uuid) ==> after.queue[uuid] == before.queue[uuid]
            &&& after.authorized.contains(uuid) <==> before.authorized.contains(uuid) && !meant
            &&& after.recipients == before.recipients
        },
        due is Some <==> old(m)@.contains_key(msg.stream@),
        due matches Some(due) ==> {
            &&& due.recipients@ == old(m)@[msg.stream@].recipients
            &&& tells_all(due.refresh.queue@, final(m)@[msg.stream@].queue)
            &&& due.refresh.new is None
        },
{
    if due is Some {
        lemma_tells_all(due->Some_0.refresh.queue@, final(m)@[msg.stream@].queue);
    }
}

/// A dashboard that is opened looks on from then on, behind those that did already, whoever waits
/// and whoever may watch; it is sent the queue as it stands. Nothing else changes.
pub proof fn law_new_dashboard(
    m: &mut Manager,
    msg: NewRecipient,
    due: dashboard::Refresh,
    stream: Seq<char>,
)
    requires
        old(m).wf(),
        old(m)@.contains_key(msg.stream@),
        call_ensures(Manager::handle_new_recipient, (m, msg), due),
    ensures
        call_requires(Manager::handle_new_recipient, (m, msg)),
        final(m).wf(),
        final(m)@.contains_key(stream) == old(m)@.contains_key(stream),
        old(m)@.contains_key(stream) ==> {
            let before = old(m)@[stream];
            let after = final(m)@[stream];
            &&& after.queue == before.queue
            &&& after.authorized == before.authorized
            &&& stream == msg.stream@ ==> after.recipients == before.recipients + seq![msg.recipient]
            &&& stream != msg.stream@ ==> after.recipients == before.recipients
        },
        tells_all(due.queue@, old(m)@[msg.stream@].queue),
        due.new is None,
{
    lemma_tells_all(due.queue@, old(m)@[msg.stream@].queue);
}

/// A dashboard that goes away no longer looks on at the stream; the others look on in the same
/// order as before. Nothing else changes.
pub proof fn law_dashboard_goes(m: &mut Manager, msg: RecipientDisconnected, stream: Seq<char>)
    requires
        old(m).wf(),
        call_ensures(Manager::handle_recipient_disconnected, (m, msg), ()),
    ensures
        call_requires(Manager::handle_recipient_disconnected, (m, msg)),
        final(m).wf(),
        final(m)@.contains_key(stream) == old(m)@.contains_key(stream),
        old(m)@.contains_key(stream) ==> {
            let before = old(m)@[stream];
            let after = final(m)@[stream];
            &&& after.queue == before.queue
            &&& after.authorized == before.authorized
            &&& stream == msg.stream@ ==> after.recipients == before.recipients.filter(
                |other: u64| other != msg.recipient,
            )
            &&& stream != msg.stream@ ==> after.recipients == before.recipients
        },
{
    assert(differs_from(msg.recipient) =~= (|other: u64| other != msg.recipient));
}

/// A stream that is created is there, and nobody waits for it, may watch it or looks on, whatever
/// was kept of a stream of that name. Every other stream is as before.
pub proof fn law_stream_comes(m: &mut Manager, msg: StreamCreated, stream: Seq<char>)
    requires
        old(m).wf(),
        call_ensures(Manager::handle_stream_created, (m, msg), ()),
    ensures
        call_requires(Manager::handle_stream_created, (m, msg)),
        final(m).wf(),
        final(m)@.contains_key(msg.stream@),
        final(m)@[msg.stream@].queue == Map::<u128, QueuedPlayer>::empty(),
        final(m)@[msg.stream@].authorized == Set::<u128>::empty(),
        final(m)@[msg.stream@].recipients.len() == 0,
        stream != msg.stream@ ==> final(m)@.contains_key(stream) == old(m)@.contains_key(stream),
        stream != msg.stream@ && old(m)@.contains_key(stream) ==> final(m)@[stream]
            == old(m)@[stream],
{
}

/// A stream that is removed is gone, whoever waits, may watch or looks on. Every other stream is as
/// before.
pub proof fn law_stream_goes(m: &mut Manager, msg: StreamRemoved, stream: Seq<char>)
    requires
        old(m).wf(),
        call_ensures(Manager::handle_stream_removed, (m, msg), ()),
    ensures
        call_requires(Manager::handle_stream_removed, (m, msg)),
        final(m).wf(),
        !final(m)@.contains_key(msg.stream@),
        stream != msg.stream@ ==> final(m)@.contains_key(stream) == old(m)@.contains_key(stream),
        stream != msg.stream@ && old(m)@.contains_key(stream) ==> final(m)@[stream]
            == old(m)@[stream],
{
}

/// A dashboard that was opened is told of the next player who connects: it is among those that are
/// sent the queue, and the queue names the player as new, with the address that it came from.
pub proof fn law_opened_dashboard_hears_of_new_player(
    m: &mut Manager,
    opened: NewRecipient,
    first: dashboard::Refresh,
    n: &mut Manager,
    player: PlayerConnect,
    due: Option<Broadcast>,
)
    requires
        old(m).wf(),
        old(m)@.contains_key(opened.stream@),
        call_ensures(Manager::handle_new_recipient, (m, opened), first),
        *old(n) == *final(m),
        player.stream@ == opened.stream@,
        call_ensures(Manager::handle_player_connect, (n, player), due),
    ensures
        due matches Some(due) && {
            &&& due.recipients@.contains(opened.recipient)
            &&& due.refresh.new == Some(player.uuid)
            &&& exists|i: int|
                0 <= i < due.refresh.queue@.len() && (#[trigger] due.refresh.queue@[i]).0
                    == player.uuid && due.refresh.queue@[i].1.ip_addr@ == player.ip_addr@
                    && due.refresh.queue@[i].1.addr == player.addr
        },
{
    law_new_dashboard(m, opened, first, opened.stream@);
    law_connect(n, player, due, player.stream@, player.uuid);
    let told = due->Some_0;
    let entry = final(n)@[player.stream@].queue[player.uuid];
    assert(told.recipients@ == old(m)@[opened.stream@].recipients + seq![opened.recipient]);
    assert(told.recipients@[told.recipients@.len() - 1] == opened.recipient);
    assert(told.refresh.queue@.contains((player.uuid, entry)));
    let i = told.refresh.queue@.index_of((player.uuid, entry));
    assert(told.refresh.queue@[i].0 == player.uuid);
}

/// A removed stream takes no players and lets nobody watch: it is not known, a player who connects
/// is ignored, and nobody has permission, until the stream is created again.
pub proof fn law_removed_stream_is_closed(
    m: &mut Manager,
    gone: StreamRemoved,
    n: &mut Manager,
    player: PlayerConnect,
    due: Option<Broadcast>,
    after: &Manager,
    name: &String,
    found: bool,
    msg: &IsAuthorized,
    authorized: bool,
)
    requires
        old(m).wf(),
        call_ensures(Manager::handle_stream_removed, (m, gone), ()),
        *old(n) == *final(m),
        player.stream@ == gone.stream@,
        call_ensures(Manager::handle_player_connect, (n, player), due),
        *after == *final(n),
        name@ == gone.stream@,
        msg.stream@ == gone.stream@,
        call_ensures(Manager::has_stream, (after, name), found),
        call_ensures(Manager::handle_is_authorized, (after, msg), authorized),
    ensures
        due is None,
        !found,
        !authorized,
{
    law_stream_goes(m, gone, gone.stream@);
    law_connect(n, player, due, player.stream@, player.uuid);
}

/// A player who connects, is decided on and asks, may watch exactly if the decision was to allow it
/// or it could watch before; and once it disconnects it may watch no more.
pub proof fn law_player_is_decided_on(
    m: &mut Manager,
    player: PlayerConnect,
    told: Option<Broadcast>,
    n: &mut Manager,
    decision: Handle,
    due: Option<Handled>,
    query: &IsAuthorized,
    decided: &Manager,
    authorized: bool,
    o: &mut Manager,
    gone: PlayerDisconnect,
    last: Option<Broadcast>,
    left: &Manager,
    still: bool,
)
    requires
        old(m).wf(),
        old(m)@.contains_key(player.stream@),
        call_ensures(Manager::handle_player_connect, (m, player), told),
        *old(n) == *final(m),
        decision.stream@ == player.stream@,
        decision.uuid == player.uuid,
        call_ensures(Manager::handle, (n, decision), due),
        query.stream@ == player.stream@,
        query.uuid == player.uuid,
        *decided == *final(n),
        call_ensures(Manager::handle_is_authorized, (decided, query), authorized),
        *old(o) == *final(n),
        gone.stream@ == player.stream@,
        gone.uuid == player.uuid,
        call_ensures(Manager::handle_player_disconnect, (o, gone), last),
        *left == *final(o),
        call_ensures(Manager::handle_is_authorized, (left, query), still),
    ensures
        due matches Some(due) && due.addr == player.addr && due.notice.0 == decision.allow,
        authorized <==> decision.allow || old(m)@[player.stream@].authorized.contains(player.uuid),
        !still,
{
    law_connect(m, player, told, player.stream@, player.uuid);
    law_decision(n, decision, due, player.stream@, player.uuid);
    law_disconnect(o, gone, last, player.stream@, player.uuid);
}

} // verus!
