//! Laws of the sockets: what they are due, and how long a silent client is kept.

use vstd::prelude::*;
use vstd::string::*;

use crate::config::Config;
use crate::dashboard;
use crate::heartbeat::{beat, handle_frame, is_timed_out, Beat, Frame, FrameAction};
use crate::manager;
use crate::player;
use crate::uuids::{uuid_of_text, uuid_text, was_drawn};

verus! {

/// A client is given up exactly if it has been silent for more than ten seconds.
pub proof fn law_ten_seconds_of_silence(hb: u128, now: u128, late: bool, due: Beat)
    requires
        call_ensures(is_timed_out, (hb, now), late),
        call_ensures(beat, (hb, now), due),
    ensures
        late <==> now > hb + 10_000_000_000,
        due is Stop <==> late,
{
}

/// A ping is sent back as it came, a pong is answered with nothing, and anything else stops the
/// socket. The first two are signs of life, the last is none.
pub proof fn law_frames(hb: &mut u128, frame: Frame, now: u128, due: FrameAction)
    requires
        call_ensures(handle_frame, (hb, frame, now), due),
    ensures
        frame matches Frame::Ping(msg) ==> due == FrameAction::Pong(msg) && *final(hb) == now,
        frame is Pong ==> due is Nothing && *final(hb) == now,
        frame is Other ==> due is Stop && *final(hb) == *old(hb),
{
}

/// A dashboard's socket is of the stream and the number that it was opened with, and its client
/// counts as just heard of.
pub proof fn law_opened_sockets(
    id: u64,
    stream: String,
    now: u128,
    queue: dashboard::QueueWebSocket,
    statistics: dashboard::StatisticsWebSocket,
)
    requires
        call_ensures(dashboard::QueueWebSocket::new, (id, stream, now), queue),
        call_ensures(dashboard::StatisticsWebSocket::new, (stream, now), statistics),
    ensures
        queue.id == id && queue.stream@ == stream@ && queue.hb == now,
        statistics.stream@ == stream@ && statistics.hb == now,
{
}

/// A dashboard says which stream it looks at and which socket it is when it starts, when it stops,
/// and when it is given up after more than ten seconds of silence; until then it is pinged.
pub proof fn law_dashboard_socket(
    socket: &dashboard::QueueWebSocket,
    now: u128,
    start: manager::NewRecipient,
    stop: manager::RecipientDisconnected,
    due: dashboard::QueueBeat,
)
    requires
        call_ensures(dashboard::QueueWebSocket::started, (socket,), start),
        call_ensures(dashboard::QueueWebSocket::stopped, (socket,), stop),
        call_ensures(dashboard::QueueWebSocket::hb, (socket, now), due),
    ensures
        start.stream@ == socket.stream@ && start.recipient == socket.id,
        stop.stream@ == socket.stream@ && stop.recipient == socket.id,
        due is Leave <==> now > socket.hb + 10_000_000_000,
        due matches dashboard::QueueBeat::Leave(msg) ==> msg.stream@ == socket.stream@
            && msg.recipient == socket.id,
{
}

/// What a dashboard sends: pings come back, decisions are handed on as they are and are no sign of
/// life, and anything that is none of these stops the socket. The socket stays the same socket.
pub proof fn law_dashboard_frames(
    socket: &mut dashboard::QueueWebSocket,
    item: dashboard::QueueFrame,
    now: u128,
    due: dashboard::QueueAction,
)
    requires
        call_ensures(dashboard::QueueWebSocket::handle, (socket, item, now), due),
    ensures
        final(socket).id == old(socket).id,
        final(socket).stream@ == old(socket).stream@,
        item matches dashboard::QueueFrame::Ping(msg) ==> due == dashboard::QueueAction::Pong(msg)
            && final(socket).hb == now,
        item is Pong ==> due is Nothing && final(socket).hb == now,
        item matches dashboard::QueueFrame::Text(msg) ==> due == dashboard::QueueAction::Decide(msg)
            && final(socket).hb == old(socket).hb,
        item is Other ==> due is Stop && final(socket).hb == old(socket).hb,
{
}

/// The socket of the statistics asks for the statistics of its stream at every beat, until its
/// client has been silent for more than ten seconds; pings and pongs are signs of life.
pub proof fn law_statistics_socket(
    socket: &dashboard::StatisticsWebSocket,
    config: &Config,
    now: u128,
    due: dashboard::StatisticsBeat,
    heard: &mut dashboard::StatisticsWebSocket,
    item: Frame,
    action: FrameAction,
)
    requires
        call_ensures(dashboard::StatisticsWebSocket::hb, (socket, config, now), due),
        call_ensures(dashboard::StatisticsWebSocket::handle, (heard, item, now), action),
    ensures
        due is Stop <==> now > socket.hb + 10_000_000_000,
        due matches dashboard::StatisticsBeat::Report(request) ==> {
            &&& request.url@ == config.ome_api_host@
                + "/v1/stats/current/vhosts/default/apps/app/streams/"@ + socket.stream@
            &&& request.header@ == "Authorization"@
            &&& request.value@ == config.ome_api_credentials@
        },
        final(heard).stream@ == old(heard).stream@,
        item matches Frame::Ping(msg) ==> action == FrameAction::Pong(msg) && final(heard).hb == now,
        item is Pong ==> action is Nothing && final(heard).hb == now,
        item is Other ==> action is Stop && final(heard).hb == old(heard).hb,
{
}

/// A player's socket is of the stream, the host, the address and the number that it was opened
/// with. It says so when it starts and when it stops, and its client is given up after more than
/// ten seconds of silence.
pub proof fn law_player_socket(
    id: u64,
    ome_host: String,
    ip_addr: String,
    stream: String,
    then: u128,
    socket: &player::QueueWebSocket,
    now: u128,
    start: manager::PlayerConnect,
    stop: manager::PlayerDisconnect,
    due: Beat,
)
    requires
        call_ensures(player::QueueWebSocket::new, (id, ome_host, ip_addr, stream, then), *socket),
        call_ensures(player::QueueWebSocket::started, (socket,), start),
        call_ensures(player::QueueWebSocket::stopped, (socket,), stop),
        call_ensures(player::QueueWebSocket::hb, (socket, now), due),
    ensures
        socket.hb == then,
        socket.ome_host@ == ome_host@,
        was_drawn(socket.uuid),
        (socket.uuid >> 76) & 0xf == 4 && (socket.uuid >> 62) & 3 == 2,
        start.uuid == socket.uuid,
        start.ip_addr@ == ip_addr@,
        start.addr == id,
        start.stream@ == stream@,
        stop.uuid == socket.uuid,
        stop.stream@ == stream@,
        due is Stop <==> now > then + 10_000_000_000,
{
}

/// A player who was allowed is shown its stream at its host, with the UUID written so that it spells
/// the player's own; one who was denied is dismissed. A player who is to go is closed, and frames
/// are handled as on any socket.
pub proof fn law_player_is_told(
    socket: &player::QueueWebSocket,
    msg: player::Handle,
    verdict: player::Verdict,
    written: String,
    stop: player::Stop,
    last: player::StopAction,
    heard: &mut player::QueueWebSocket,
    item: Frame,
    now: u128,
    action: FrameAction,
)
    requires
        call_ensures(player::QueueWebSocket::handle, (socket, msg), verdict),
        call_ensures(uuid_text, (socket.uuid,), written),
        call_ensures(player::QueueWebSocket::handle_stop, (socket, stop), last),
        call_ensures(player::QueueWebSocket::handle_frame, (heard, item, now), action),
    ensures
        msg.0 <==> verdict is Show,
        verdict matches player::Verdict::Show(page) ==> {
            &&& page.stream@ == socket.stream@
            &&& page.host@ == socket.ome_host@
            &&& page.uuid@ == written@
            &&& uuid_of_text(page.uuid@) == Some(socket.uuid)
        },
        last is Close,
        final(heard).uuid == old(heard).uuid,
        final(heard).id == old(heard).id,
        final(heard).ip_addr@ == old(heard).ip_addr@,
        final(heard).ome_host@ == old(heard).ome_host@,
        final(heard).stream@ == old(heard).stream@,
        item matches Frame::Ping(msg) ==> action == FrameAction::Pong(msg) && final(heard).hb == now,
        item is Pong ==> action is Nothing && final(heard).hb == now,
        item is Other ==> action is Stop && final(heard).hb == old(heard).hb,
{
}

} // verus!
