//! Admission: whether the media server may open a stream that a client asks it to open.
//!
//! The media server asks once per connection. A streamer who publishes is let in by the key of the
//! stream; a player who watches is let in if the streamer allowed it. Both checks lie outside: the
//! first step says which of them is needed, and the answer is made of its outcome.

use vstd::prelude::*;
use vstd::string::*;

use crate::config::{Config, Error};
use crate::manager::{after_disconnect, after_handle, is_authorized, is_queued, Streams};
use crate::table::Key;
use crate::text::{
    join_with_sep, law_join_split, law_replaced_at_first_match, law_replaced_without_match,
    occurs_at, replace_text, replaced, same_text, split_at_sep, split_text, texts_view,
};
use crate::uuids::uuid_of_text;

verus! {

/// The client that connected to the media server.
#[derive(Debug, PartialEq, Eq, Hash)]
pub struct Client {
    pub address: String,
    pub port: u16,
    pub user_agent: Option<String>,
}

impl Clone for Client {
    fn clone(&self) -> (copy: Self)
        ensures
            copy == *self,
    {
        let user_agent: Option<String> = match &self.user_agent {
            Some(user_agent) => Some(user_agent.clone()),
            None => None,
        };
        Client { address: self.address.clone(), port: self.port, user_agent }
    }
}

/// What the client asked the media server for.
#[derive(Debug)]
pub struct Request {
    pub direction: String,
    pub status: String,
    pub url: String,
}

impl Clone for Request {
    fn clone(&self) -> (copy: Self)
        ensures
            copy == *self,
    {
        Request {
            direction: self.direction.clone(),
            status: self.status.clone(),
            url: self.url.clone(),
        }
    }
}

/// The admission request that the media server sends.
#[derive(Debug)]
pub struct AdmissionRequest {
    pub client: Client,
    pub request: Request,
}

impl Clone for AdmissionRequest {
    fn clone(&self) -> (copy: Self)
        ensures
            copy == *self,
    {
        AdmissionRequest { client: self.client.clone(), request: self.request.clone() }
    }
}

/// The answer to a client that opens a connection.
#[derive(Debug)]
pub struct Response {
    pub allowed: bool,
    pub new_url: Option<String>,
    pub lifetime: Option<u64>,
    pub reason: Option<String>,
}

/// The answer to an admission request.
#[derive(Debug)]
pub enum AuthResponse {
    Opening(Response),
    Closing,
}

/// The body of an answer: a response that is written as JSON, or a fixed text.
#[derive(Debug)]
pub enum ResponseBody {
    Json(Response),
    Text(String),
}

/// An answer as it is sent: the HTTP status and the body.
#[derive(Debug)]
pub struct AuthReply {
    pub status: u16,
    pub body: ResponseBody,
}

/// What has to be done before the request can be answered.
#[derive(Debug)]
pub enum AuthStep {
    /// Nothing: this is the answer.
    Answer(AuthResponse),
    /// Hold the key against the stream of this name, then [`answer_streamer`].
    Streamer { id: String, key: String },
    /// Ask whether the player may watch the stream, then [`answer_player`].
    Player { stream: String, uuid: String },
}

/// A [`Response`] with its texts as sequences of characters.
pub struct ResponseView {
    pub allowed: bool,
    pub new_url: Option<Seq<char>>,
    pub lifetime: Option<u64>,
    pub reason: Option<Seq<char>>,
}

/// An [`AuthResponse`] with its texts as sequences of characters.
pub enum AuthView {
    Opening(ResponseView),
    Closing,
}

/// An [`AuthStep`] with its texts as sequences of characters.
pub enum StepView {
    Answer(AuthView),
    Streamer { id: Seq<char>, key: Seq<char> },
    Player { stream: Seq<char>, uuid: Seq<char> },
}

/// A [`Client`] with its texts as sequences of characters.
pub struct ClientView {
    pub address: Seq<char>,
    pub port: u16,
    pub user_agent: Option<Seq<char>>,
}

/// A text that may be missing, as a sequence of characters.
pub open spec fn text_view(text: Option<String>) -> Option<Seq<char>> {
    match text {
        Some(text) => Some(text@),
        None => None,
    }
}

impl View for Client {
    type V = ClientView;

    open spec fn view(&self) -> ClientView {
        ClientView {
            address: self.address@,
            port: self.port,
            user_agent: text_view(self.user_agent),
        }
    }
}

impl Key for Client {
    type Spelling = ClientView;

    open spec fn key(&self) -> ClientView {
        self@
    }

    fn same_key(&self, other: &Self) -> (same: bool) {
        let same_agent: bool = match (&self.user_agent, &other.user_agent) {
            (Some(one), Some(two)) => same_text(one.as_str(), two.as_str()),
            (None, None) => true,
            _ => false,
        };
        self.port == other.port && same_agent && same_text(
            self.address.as_str(),
            other.address.as_str(),
        )
    }
}

impl View for Response {
    type V = ResponseView;

    open spec fn view(&self) -> ResponseView {
        ResponseView {
            allowed: self.allowed,
            new_url: text_view(self.new_url),
            lifetime: self.lifetime,
            reason: text_view(self.reason),
        }
    }
}

impl View for AuthResponse {
    type V = AuthView;

    open spec fn view(&self) -> AuthView {
        match self {
            AuthResponse::Opening(response) => AuthView::Opening(response@),
            AuthResponse::Closing => AuthView::Closing,
        }
    }
}

impl View for AuthStep {
    type V = StepView;

    open spec fn view(&self) -> StepView {
        match self {
            AuthStep::Answer(answer) => StepView::Answer(answer@),
            AuthStep::Streamer { id, key } => StepView::Streamer { id: id@, key: key@ },
            AuthStep::Player { stream, uuid } => StepView::Player { stream: stream@, uuid: uuid@ },
        }
    }
}

/// The segments of a URL.
pub open spec fn segments(url: Seq<char>) -> Seq<Seq<char>> {
    split_at_sep(url, '/')
}

/// The client publishes a stream.
pub open spec fn is_publish(request: Request) -> bool {
    request.status@ == "opening"@ && request.direction@ == "incoming"@
}

/// The client watches a stream.
pub open spec fn is_watch(request: Request) -> bool {
    request.status@ == "opening"@ && request.direction@ == "outgoing"@
}

/// The client went away.
pub open spec fn is_closing(request: Request) -> bool {
    request.status@ == "closing"@
}

/// A request to watch names stream and player in its URL.
pub open spec fn names_player(request: Request) -> bool {
    is_watch(request) ==> segments(request.url@).len() >= 6
}

/// What has to be done before the request can be answered, or why it is refused at once.
///
/// A streamer publishes to `scheme://host/stream/key`, and so names stream and key in segments 3
/// and 4. A player watches `scheme://host/app/stream/uuid`, and so names stream and player in
/// segments 4 and 5. Segments count from 0.
pub open spec fn auth_step(request: Request) -> Result<StepView, Error> {
    let parts = segments(request.url@);
    if is_publish(request) {
        if parts.len() >= 5 {
            Ok(StepView::Streamer { id: parts[3], key: parts[4] })
        } else {
            Err(Error::BadRequest)
        }
    } else if is_watch(request) {
        Ok(StepView::Player { stream: parts[4], uuid: parts[5] })
    } else if is_closing(request) {
        Ok(StepView::Answer(AuthView::Closing))
    } else {
        Err(Error::BadRequest)
    }
}

/// The answer that lets a client in and sends it to another URL.
pub open spec fn allowed_at(url: Seq<char>) -> AuthView {
    AuthView::Opening(
        ResponseView { allowed: true, new_url: Some(url), lifetime: None, reason: None },
    )
}

/// The answer that turns a client away.
pub open spec fn denied_for(reason: Seq<char>) -> AuthView {
    AuthView::Opening(
        ResponseView { allowed: false, new_url: None, lifetime: None, reason: Some(reason) },
    )
}

/// The URL to which an accepted streamer publishes.
pub open spec fn publish_url(host: Seq<char>, id: Seq<char>) -> Seq<char> {
    "rtmp://"@ + host + "/app/"@ + id
}

/// The URL that an accepted player watches: its own, without the player's segment.
pub open spec fn watch_url(url: Seq<char>, uuid: Seq<char>) -> Seq<char> {
    replaced(url, "/"@ + uuid, ""@)
}

/// The answer to a streamer.
pub open spec fn streamer_answer(host: Seq<char>, id: Seq<char>, accepted: bool) -> AuthView {
    if accepted {
        allowed_at(publish_url(host, id))
    } else {
        denied_for("Invalid API key"@)
    }
}

/// The answer to a player.
pub open spec fn player_answer(url: Seq<char>, uuid: Seq<char>, authorized: bool) -> AuthView {
    if authorized {
        allowed_at(watch_url(url, uuid))
    } else {
        denied_for("Unauthorized"@)
    }
}

/// The answer to a request, given what the check that it needs comes to: `streamer` for the key of
/// a streamer, `player` for the player's permission.
pub open spec fn admission(
    host: Seq<char>,
    request: Request,
    streamer: bool,
    player: bool,
) -> Result<AuthView, Error> {
    match auth_step(request) {
        Ok(StepView::Answer(answer)) => Ok(answer),
        Ok(StepView::Streamer { id, key }) => Ok(streamer_answer(host, id, streamer)),
        Ok(StepView::Player { stream, uuid }) => Ok(player_answer(request.url@, uuid, player)),
        Err(error) => Err(error),
    }
}

/// The answer lets the client in.
pub open spec fn lets_in(answer: Result<AuthView, Error>) -> bool {
    match answer {
        Ok(AuthView::Opening(response)) => response.allowed,
        _ => false,
    }
}

/// The words that the media server uses are different words.
proof fn lemma_words_differ()
    ensures
        "opening"@ != "closing"@,
        "incoming"@ != "outgoing"@,
{
    reveal_strlit("opening");
    reveal_strlit("closing");
    reveal_strlit("incoming");
    reveal_strlit("outgoing");
    assert("opening"@[0] != "closing"@[0]);
    assert("incoming"@[0] != "outgoing"@[0]);
}

/// The player whom the URL names by the text `uuid` may watch the stream.
pub open spec fn player_permitted(streams: Streams, stream: Seq<char>, uuid: Seq<char>) -> bool {
    match uuid_of_text(uuid) {
        Some(uuid) => is_authorized(streams, stream, uuid),
        None => false,
    }
}

/// From the queue to the stream: once the streamer allows a player who waits, the player is let in
/// at `scheme://host/app/stream/` followed by its UUID, in whatever form that spells it, and
/// perhaps by further segments; a player who went away again is turned away.
pub proof fn law_allowed_player_is_let_in(
    streams: Streams,
    request: Request,
    parts: Seq<Seq<char>>,
    uuid: u128,
    ome_host: Seq<char>,
)
    requires
        is_watch(request),
        parts.len() >= 6,
        forall|k: int| 0 <= k < parts.len() ==> !(#[trigger] parts[k]).contains('/'),
        request.url@ == join_with_sep(parts, '/'),
        uuid_of_text(parts[5]) == Some(uuid),
        is_queued(streams, parts[4], uuid),
    ensures
        ({
            let allowed = after_handle(streams, parts[4], uuid, true);
            let gone = after_disconnect(allowed, parts[4], uuid);
            &&& lets_in(
                admission(
                    ome_host,
                    request,
                    false,
                    player_permitted(allowed, parts[4], parts[5]),
                ),
            )
            &&& admission(ome_host, request, false, player_permitted(gone, parts[4], parts[5]))
                == Ok::<AuthView, Error>(denied_for("Unauthorized"@))
        }),
{
    lemma_words_differ();
    law_join_split(parts, '/');
}

/// Nobody is let in unchecked: a client is let in exactly if it publishes with a well-formed URL
/// and the streamer's key was accepted, or watches and the player has permission.
pub proof fn law_let_in_only_if_checked(
    host: Seq<char>,
    request: Request,
    streamer: bool,
    player: bool,
)
    ensures
        lets_in(admission(host, request, streamer, player)) <==> (is_publish(request) && segments(
            request.url@,
        ).len() >= 5 && streamer) || (is_watch(request) && player),
{
    lemma_words_differ();
}

/// A client that opens a connection and is turned away is sent no URL but a reason; one that is let
/// in is sent a URL and no reason; and a closing is acknowledged whatever the checks come to.
pub proof fn law_answer_is_url_or_reason(
    host: Seq<char>,
    request: Request,
    streamer: bool,
    player: bool,
)
    ensures
        is_closing(request) ==> admission(host, request, streamer, player) == Ok::<AuthView, Error>(
            AuthView::Closing,
        ),
        admission(host, request, streamer, player) matches Ok(AuthView::Opening(response)) ==> {
            &&& response.allowed == response.new_url is Some
            &&& response.allowed == response.reason is None
            &&& response.lifetime is None
        },
{
    lemma_words_differ();
}

/// An accepted streamer publishes under the very name that was checked: the URL that the streamer
/// is sent to names the stream in segment 4, where a player's URL names it too.
pub proof fn law_publish_url_names_stream(host: Seq<char>, id: Seq<char>)
    requires
        !host.contains('/'),
        !id.contains('/'),
    ensures
        segments(publish_url(host, id)).len() == 5,
        segments(publish_url(host, id))[2] == host,
        segments(publish_url(host, id))[4] == id,
{
    reveal_strlit("rtmp://");
    reveal_strlit("/app/");
    let scheme = seq!['r', 't', 'm', 'p', ':'];
    let empty = Seq::<char>::empty();
    let app = seq!['a', 'p', 'p'];
    let parts = seq![scheme, empty, host, app, id];
    assert(scheme.push('/') + empty =~= seq!['r', 't', 'm', 'p', ':', '/']);
    assert("rtmp://"@ =~= seq!['r', 't', 'm', 'p', ':', '/', '/']);
    assert("/app/"@ =~= seq!['/', 'a', 'p', 'p', '/']);
    assert forall|k: int| 0 <= k < parts.len() implies !(#[trigger] parts[k]).contains('/') by {}
    law_join_split(parts, '/');
    let one = seq![scheme];
    let two = seq![scheme, empty];
    let three = seq![scheme, empty, host];
    let four = seq![scheme, empty, host, app];
    assert(parts.drop_last() =~= four);
    assert(four.drop_last() =~= three);
    assert(three.drop_last() =~= two);
    assert(two.drop_last() =~= one);
    assert(join_with_sep(one, '/') == scheme);
    assert(join_with_sep(two, '/') =~= seq!['r', 't', 'm', 'p', ':', '/']);
    assert(join_with_sep(three, '/') =~= "rtmp://"@ + host);
    assert(join_with_sep(four, '/') =~= ("rtmp://"@ + host).push('/') + app);
    assert(join_with_sep(parts, '/') =~= publish_url(host, id));
}

/// A player who watches `base/uuid`, perhaps with more behind it, is sent to `base` and what was
/// behind: the player's segment, and nothing else, is cut out, if no earlier segment of the URL
/// starts as the player's does and nothing behind it does either.
pub proof fn law_watch_url_cuts_player(base: Seq<char>, uuid: Seq<char>, rest: Seq<char>)
    requires
        forall|i: int|
            0 <= i < base.len() ==> !occurs_at(base + ("/"@ + uuid) + rest, "/"@ + uuid, i),
        forall|i: int| !occurs_at(rest, "/"@ + uuid, i),
    ensures
        watch_url(base + ("/"@ + uuid) + rest, uuid) == base + rest,
{
    reveal_strlit("/");
    reveal_strlit("");
    let pat = "/"@ + uuid;
    let url = base + pat + rest;
    let at = base.len() as int;
    assert(url.subrange(at, at + pat.len()) =~= pat);
    law_replaced_at_first_match(url, pat, ""@, at);
    assert(url.take(at) =~= base);
    assert(url.skip(at + pat.len()) =~= rest);
    law_replaced_without_match(rest, pat, ""@);
    assert(base + ""@ + rest =~= base + rest);
}

/// A player's URL names the stream and the player that are looked up: the two segments behind
/// `scheme://host/app`, whatever comes behind them.
pub proof fn law_watch_step_names_player(request: Request, parts: Seq<Seq<char>>)
    requires
        is_watch(request),
        parts.len() >= 6,
        forall|k: int| 0 <= k < parts.len() ==> !(#[trigger] parts[k]).contains('/'),
        request.url@ == join_with_sep(parts, '/'),
    ensures
        names_player(request),
        auth_step(request) == Ok::<StepView, Error>(
            StepView::Player { stream: parts[4], uuid: parts[5] },
        ),
{
    lemma_words_differ();
    law_join_split(parts, '/');
}

/// A streamer's URL names the stream and the key that are checked: the two whole segments behind
/// `scheme://host`, whatever comes behind them.
pub proof fn law_publish_step_names_stream(request: Request, parts: Seq<Seq<char>>)
    requires
        is_publish(request),
        parts.len() >= 5,
        forall|k: int| 0 <= k < parts.len() ==> !(#[trigger] parts[k]).contains('/'),
        request.url@ == join_with_sep(parts, '/'),
    ensures
        auth_step(request) == Ok::<StepView, Error>(
            StepView::Streamer { id: parts[3], key: parts[4] },
        ),
{
    law_join_split(parts, '/');
}

/// Whether a request to watch names stream and player in its URL. Other requests need not.
pub fn is_complete(request: &Request) -> (complete: bool)
    ensures
        complete == names_player(*request),
{
    if !same_text(request.status.as_str(), "opening") || !same_text(
        request.direction.as_str(),
        "outgoing",
    ) {
        return true;
    }
    let parts = split_text(request.url.as_str(), '/');
    assert(texts_view(parts@).len() == parts@.len());
    parts.len() >= 6
}

/// What has to be done before the request can be answered, or why it is refused at once.
pub fn auth(request: &Request) -> (step: Result<AuthStep, Error>)
    requires
        names_player(*request),
    ensures
        match step {
            Ok(step) => auth_step(*request) == Ok::<StepView, Error>(step@),
            Err(error) => auth_step(*request) == Err::<StepView, Error>(error),
        },
{
    proof {
        lemma_words_differ();
    }
    let status = request.status.as_str();
    let direction = request.direction.as_str();
    if same_text(status, "opening") {
        let mut parts = split_text(request.url.as_str(), '/');
        let ghost all = segments(request.url@);
        assert(all =~= texts_view(parts@));
        if same_text(direction, "incoming") {
            if parts.len() < 5 {
                return Err(Error::BadRequest);
            }
            assert(all[3] == parts@[3]@ && all[4] == parts@[4]@);
            let key = parts.swap_remove(4);
            let id = parts.swap_remove(3);
            Ok(AuthStep::Streamer { id, key })
        } else if same_text(direction, "outgoing") {
            assert(all[4] == parts@[4]@ && all[5] == parts@[5]@);
            let uuid = parts.swap_remove(5);
            let stream = parts.swap_remove(4);
            Ok(AuthStep::Player { stream, uuid })
        } else {
            Err(Error::BadRequest)
        }
    } else if same_text(status, "closing") {
        Ok(AuthStep::Answer(AuthResponse::Closing))
    } else {
        Err(Error::BadRequest)
    }
}

/// The answer to a streamer who wants to publish the stream `id`, given whether the key was
/// accepted.
pub fn answer_streamer(config: &Config, id: &str, outcome: Result<(), Error>) -> (answer:
    AuthResponse)
    ensures
        answer@ == streamer_answer(config.ome_host@, id@, outcome is Ok),
{
    match outcome {
        Ok(()) => {
            let mut url: String = "rtmp://".to_owned();
            url.append(config.ome_host.as_str());
            url.append("/app/");
            url.append(id);
            AuthResponse::Opening(
                Response { allowed: true, new_url: Some(url), lifetime: None, reason: None },
            )
        },
        Err(_) => {
            let reason: String = "Invalid API key".to_owned();
            AuthResponse::Opening(
                Response { allowed: false, new_url: None, lifetime: None, reason: Some(reason) },
            )
        },
    }
}

/// The answer to a player who wants to watch `url`, whose player segment is `uuid`, given whether
/// the player has permission.
pub fn answer_player(url: &str, uuid: &str, authorized: bool) -> (answer: AuthResponse)
    ensures
        answer@ == player_answer(url@, uuid@, authorized),
{
    if authorized {
        let mut segment: String = "/".to_owned();
        segment.append(uuid);
        let new_url: String = replace_text(url, segment.as_str(), "");
        AuthResponse::Opening(
            Response { allowed: true, new_url: Some(new_url), lifetime: None, reason: None },
        )
    } else {
        let reason: String = "Unauthorized".to_owned();
        AuthResponse::Opening(
            Response { allowed: false, new_url: None, lifetime: None, reason: Some(reason) },
        )
    }
}

impl AuthResponse {
    /// The answer as it is sent: an opening is answered with its response in JSON, a closing with
    /// an empty JSON object. The status is that of a success, also where the client is turned away.
    pub fn respond_to(self) -> (reply: AuthReply)
        ensures
            reply.status == 200,
            match self {
                AuthResponse::Opening(response) => reply.body == ResponseBody::Json(response),
                AuthResponse::Closing => reply.body matches ResponseBody::Text(text) && text@
                    == "{}"@,
            },
    {
        let body = match self {
            AuthResponse::Opening(response) => ResponseBody::Json(response),
            AuthResponse::Closing => ResponseBody::Text("{}".to_owned()),
        };
        AuthReply { status: 200, body }
    }
}

} // verus!
