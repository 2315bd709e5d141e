//! Laws of the pages: what is shown, to whom, and how it is sent.

use vstd::prelude::*;
use vstd::string::*;

use crate::admin;
use crate::admin::{AdminError, StreamIdQuery};
use crate::config::{Config, Credentials, Error, Html, HtmlResponse, StreamConfig};
use crate::dashboard;
use crate::manager::QueuedPlayer;
use crate::player;
use crate::static_files::{haroldium, killmeplz, notification, StaticFile};
use crate::statistics::{
    ome_statistics, statistics_request, OmeStatisticsResponse, StatisticsReply, StatisticsRequest,
};
use crate::text::texts_view;

verus! {

/// A refused client is sent the name of the reason, with the status of an internal error.
pub proof fn law_refusals(error: &Error, text: String, status: u16)
    requires
        call_ensures(Error::message, (error,), text),
        call_ensures(Error::status, (error,), status),
    ensures
        error is Unauthorized ==> text@ == "Unauthorized"@,
        error is BadRequest ==> text@ == "Bad request"@,
        error is InternalError ==> text@ == "Internal server error"@,
        status == 500,
{
}

/// A refused admin is sent what was wrong, with the status of a missing authorization.
pub proof fn law_admin_refusals(error: &AdminError, text: String, status: u16)
    requires
        call_ensures(AdminError::message, (error,), text),
        call_ensures(AdminError::status, (error,), status),
    ensures
        error is InvalidId ==> text@ == "Invalid admin ID"@,
        error is InvalidKey ==> text@ == "Invalid admin key"@,
        status == 401,
{
}

/// A page is sent whole, as HTML, with the status of a success.
pub proof fn law_page_is_sent_whole(page: Html, response: HtmlResponse)
    requires
        call_ensures(Html::respond_to, (page,), response),
    ensures
        response.status == 200,
        response.content_type@ == "text/html; charset=utf-8"@,
        response.body@ == page.0@,
{
}

/// The files are sent with the status of a success and each with its own type.
pub proof fn law_static_files(sound: StaticFile, animation: StaticFile, picture: StaticFile)
    requires
        call_ensures(notification, (), sound),
        call_ensures(haroldium, (), animation),
        call_ensures(killmeplz, (), picture),
    ensures
        sound.status == 200 && animation.status == 200 && picture.status == 200,
        sound.content_type@ == "audio/wav"@ && sound.path@ == "res/Oi.wav"@,
        animation.content_type@ == "image/gif"@ && animation.path@ == "res/haroldium.gif"@,
        picture.content_type@ == "image/webp"@ && picture.path@ == "res/killmeplz.webp"@,
{
}

/// The names of the streams are all of them, in the order in which they are stored.
pub proof fn law_stream_ids(streams: &Vec<StreamConfig>, ids: Vec<String>)
    requires
        call_ensures(admin::stream_ids, (streams,), ids),
    ensures
        ids@.len() == streams@.len(),
        forall|i: int| 0 <= i < ids@.len() ==> (#[trigger] ids@[i])@ == streams@[i].id@,
{
    let texts = texts_view(ids@);
    assert(texts.len() == ids@.len());
    assert forall|i: int| 0 <= i < ids@.len() implies (#[trigger] ids@[i])@ == streams@[i].id@ by {
        assert(texts[i] == ids@[i]@);
    }
}

/// The admin's pages hold the credentials that were presented and the list of streams; the list is
/// shown exactly to an admin who was let in, and anybody else gets the error.
pub proof fn law_admin_pages(
    credentials: &Credentials,
    ids: &Vec<String>,
    auth: Result<(), AdminError>,
    menu: admin::CreateStreamMenu,
    inner: admin::Dashboard,
    page: Result<admin::Dashboard, AdminError>,
)
    requires
        call_ensures(admin::create_stream_menu, (credentials,), menu),
        call_ensures(admin::dashboard_inner, (ids, credentials), inner),
        call_ensures(admin::dashboard, (auth, ids, credentials), page),
    ensures
        menu.id@ == credentials.id@,
        menu.key@ == credentials.key@,
        inner.streams@ == ids@,
        inner.id@ == credentials.id@,
        inner.key@ == credentials.key@,
        page is Ok <==> auth is Ok,
        auth matches Err(error) ==> page == Err::<admin::Dashboard, AdminError>(error),
        page matches Ok(page) ==> page.streams@ == ids@ && page.id@ == credentials.id@ && page.key@
            == credentials.key@,
{
}

/// A stream is removed exactly for an admin who was let in: the one that was named, and the manager
/// is told its name. Anybody else gets the error.
pub proof fn law_only_the_admin_removes(
    auth: Result<(), AdminError>,
    query: &StreamIdQuery,
    gone: Result<admin::OldStream, AdminError>,
)
    requires
        call_ensures(admin::remove_stream, (auth, query), gone),
    ensures
        gone is Ok <==> auth is Ok,
        auth matches Err(error) ==> gone == Err::<admin::OldStream, AdminError>(error),
        gone matches Ok(gone) ==> gone.id@ == query.stream_id@ && gone.message.stream@
            == query.stream_id@,
{
}

/// The streamer's page and sockets are given exactly to a streamer who was let in, and are of the
/// stream in the credentials. Anybody else gets the error.
pub proof fn law_only_the_streamer_looks_on(
    auth: Result<(), Error>,
    credentials: &Credentials,
    id: u64,
    now: u128,
    page: Result<dashboard::Dashboard, Error>,
    queue: Result<dashboard::QueueWebSocket, Error>,
    statistics: Result<dashboard::StatisticsWebSocket, Error>,
)
    requires
        call_ensures(dashboard::dashboard, (auth, credentials), page),
        call_ensures(dashboard::queue, (auth, credentials, id, now), queue),
        call_ensures(dashboard::statistics, (auth, credentials, now), statistics),
    ensures
        page is Ok <==> auth is Ok,
        queue is Ok <==> auth is Ok,
        statistics is Ok <==> auth is Ok,
        auth matches Err(error) ==> page == Err::<dashboard::Dashboard, Error>(error) && queue
            == Err::<dashboard::QueueWebSocket, Error>(error) && statistics
            == Err::<dashboard::StatisticsWebSocket, Error>(error),
        page matches Ok(page) ==> page.id@ == credentials.id@ && page.key@ == credentials.key@,
        queue matches Ok(socket) ==> socket.stream@ == credentials.id@ && socket.id == id
            && socket.hb == now,
        statistics matches Ok(socket) ==> socket.stream@ == credentials.id@ && socket.hb == now,
{
}

/// The page of the queue shows the listed players one for one and in order: address, UUID, whether
/// it is the new one, and two buttons, of which one allows and one denies that player of the
/// socket's stream.
pub proof fn law_queue_page(
    socket: &dashboard::QueueWebSocket,
    list: &[(u128, QueuedPlayer)],
    new: Option<u128>,
    page: dashboard::Queue,
    i: int,
)
    requires
        call_ensures(dashboard::QueueWebSocket::refresh, (socket, list, new), page),
    ensures
        page.queue@.len() == list@.len(),
        0 <= i < list@.len() ==> {
            let entry = list@[i];
            let shown = page.queue@[i];
            &&& shown.address@ == entry.1.ip_addr@
            &&& shown.uuid == entry.0
            &&& shown.new <==> new == Some(entry.0)
            &&& shown.allow.uuid == entry.0 && shown.allow.allow && shown.allow.stream@
                == socket.stream@
            &&& shown.deny.uuid == entry.0 && !shown.deny.allow && shown.deny.stream@
                == socket.stream@
        },
{
    if 0 <= i < list@.len() {
        assert(dashboard::shows(page.queue@[i], list@[i], new, socket.stream@));
    }
}

/// A refresh is shown as its queue with its new player.
pub proof fn law_refresh_page(
    socket: &dashboard::QueueWebSocket,
    msg: &dashboard::Refresh,
    page: dashboard::Queue,
    i: int,
)
    requires
        call_ensures(dashboard::QueueWebSocket::handle_refresh, (socket, msg), page),
    ensures
        page.queue@.len() == msg.queue@.len(),
        0 <= i < msg.queue@.len() ==> {
            let entry = msg.queue@[i];
            let shown = page.queue@[i];
            &&& shown.address@ == entry.1.ip_addr@
            &&& shown.uuid == entry.0
            &&& shown.new <==> msg.new == Some(entry.0)
            &&& shown.allow.uuid == entry.0 && shown.allow.allow && shown.allow.stream@
                == socket.stream@
            &&& shown.deny.uuid == entry.0 && !shown.deny.allow && shown.deny.stream@
                == socket.stream@
        },
{
    if 0 <= i < msg.queue@.len() {
        assert(dashboard::shows(page.queue@[i], msg.queue@[i], msg.new, socket.stream@));
    }
}

/// Statistics are asked for at the API of the media server under the name of the stream, with the
/// configured credentials.
pub proof fn law_statistics_are_asked_for(
    config: &Config,
    stream: &str,
    request: StatisticsRequest,
)
    requires
        call_ensures(statistics_request, (config, stream), request),
    ensures
        request.url@ == config.ome_api_host@
            + "/v1/stats/current/vhosts/default/apps/app/streams/"@ + stream@,
        request.header@ == "Authorization"@,
        request.value@ == config.ome_api_credentials@,
{
}

/// Statistics are what the media server reported, and an internal error where it reported none; they
/// are shown as they are, and not shown where there are none.
pub proof fn law_statistics_are_shown(
    reply: StatisticsReply,
    statistics: Result<OmeStatisticsResponse, Error>,
    had: Result<OmeStatisticsResponse, Error>,
    page: dashboard::Statistics,
)
    requires
        call_ensures(ome_statistics, (reply,), statistics),
        call_ensures(dashboard::statistics_page, (had,), page),
    ensures
        reply matches StatisticsReply::Report(report) ==> statistics == Ok::<
            OmeStatisticsResponse,
            Error,
        >(report.response),
        !(reply is Report) ==> statistics == Err::<OmeStatisticsResponse, Error>(
            Error::InternalError,
        ),
        page.statistics is Some <==> had is Ok,
        had matches Ok(shown) ==> page.statistics == Some(shown),
{
}

/// The names that `index` gives go through: the streams before a place and those behind it are
/// listed as if each stood alone, in order.
pub proof fn law_index_goes_through(
    one: &Vec<StreamConfig>,
    two: &Vec<StreamConfig>,
    all: &Vec<StreamConfig>,
    replies_one: &Vec<Result<OmeStatisticsResponse, Error>>,
    replies_two: &Vec<Result<OmeStatisticsResponse, Error>>,
    replies: &Vec<Result<OmeStatisticsResponse, Error>>,
    front: Vec<&String>,
    back: Vec<&String>,
    names: Vec<&String>,
)
    requires
        one@.len() == replies_one@.len(),
        two@.len() == replies_two@.len(),
        all@ == one@ + two@,
        replies@ == replies_one@ + replies_two@,
        call_ensures(player::index, (one, replies_one), front),
        call_ensures(player::index, (two, replies_two), back),
        call_ensures(player::index, (all, replies), names),
    ensures
        call_requires(player::index, (all, replies)),
        names@.len() == front@.len() + back@.len(),
        forall|i: int| 0 <= i < front@.len() ==> (#[trigger] names@[i])@ == front@[i]@,
        forall|i: int| 0 <= i < back@.len() ==> names@[front@.len() + i]@ == (#[trigger] back@[i])@,
{
    lemma_names_concat(one@, two@, replies_one@, replies_two@);
    let shown = player::referenced(names@);
    assert(shown == player::referenced(front@) + player::referenced(back@));
    assert(shown.len() == names@.len());
    assert forall|i: int| 0 <= i < front@.len() implies (#[trigger] names@[i])@ == front@[i]@ by {
        assert(shown[i] == player::referenced(front@)[i]);
    }
    assert forall|i: int| 0 <= i < back@.len() implies names@[front@.len() + i]@ == (
    #[trigger] back@[i])@ by {
        assert(shown[front@.len() + i] == player::referenced(back@)[i]);
    }
}

proof fn lemma_names_concat(
    one: Seq<StreamConfig>,
    two: Seq<StreamConfig>,
    replies_one: Seq<Result<OmeStatisticsResponse, Error>>,
    replies_two: Seq<Result<OmeStatisticsResponse, Error>>,
)
    requires
        one.len() == replies_one.len(),
        two.len() == replies_two.len(),
    ensures
        player::names_on_air(one + two, replies_one + replies_two) == player::names_on_air(
            one,
            replies_one,
        ) + player::names_on_air(two, replies_two),
    decreases two.len(),
{
    let front = player::names_on_air(one, replies_one);
    if two.len() == 0 {
        assert(one + two =~= one);
        assert(replies_one + replies_two =~= replies_one);
        assert(front + player::names_on_air(two, replies_two) =~= front);
    } else {
        lemma_names_concat(one, two.drop_last(), replies_one, replies_two.drop_last());
        assert((one + two).drop_last() =~= one + two.drop_last());
        assert((replies_one + replies_two).drop_last() =~= replies_one + replies_two.drop_last());
        assert(player::names_on_air(one + two, replies_one + replies_two) =~= front
            + player::names_on_air(two, replies_two));
    }
}

/// One stream is listed under its name exactly if the media server had statistics of it, and the
/// page shows the names as they are listed.
pub proof fn law_stream_on_air_is_listed(
    streams: &Vec<StreamConfig>,
    replies: &Vec<Result<OmeStatisticsResponse, Error>>,
    names: &Vec<&String>,
    page: player::Index,
)
    requires
        streams@.len() == 1,
        replies@.len() == 1,
        call_ensures(player::index, (streams, replies), *names),
        call_ensures(player::index_page, (names,), page),
    ensures
        replies@[0] is Ok ==> names@.len() == 1 && names@[0]@ == streams@[0].id@,
        replies@[0] is Err ==> names@.len() == 0,
        page.streams@ == names@,
{
    let shown = player::referenced(names@);
    assert(shown.len() == names@.len());
    assert(player::names_on_air(streams@.drop_last(), replies@.drop_last()).len() == 0);
    if replies@[0] is Ok {
        assert(shown.len() == 1);
        assert(shown[0] == names@[0]@);
    }
}

/// A player waits for the stream that it asked for, and is known by the address that the proxy
/// says, else by the one it connected from, else by none.
pub proof fn law_player_page_and_address(
    query: &player::StreamQuery,
    page: player::Enqueue,
    real_ip: Option<String>,
    peer_ip: Option<String>,
    address: String,
)
    requires
        call_ensures(player::enqueue, (query,), page),
        call_ensures(player::client_address, (real_ip, peer_ip), address),
    ensures
        page.stream@ == query.stream@,
        real_ip matches Some(ip) ==> address@ == ip@,
        real_ip is None ==> (peer_ip matches Some(ip) ==> address@ == ip@),
        real_ip is None && peer_ip is None ==> address@ == "N/A"@,
{
}

} // verus!
