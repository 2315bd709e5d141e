//! Laws of publishing: what a streamer's request comes to, from the URL to the answer; and what the
//! requests come to that are neither to publish nor to watch.

use vstd::prelude::*;
use vstd::string::*;

use crate::admin::{create_stream, AdminError, CreateStreamQuery, NewStream};
use crate::admission::{
    answer_streamer, auth, segments, AuthReply, AuthResponse, AuthStep, Request, ResponseBody,
};
use crate::config::{auth_as_streamer, Config, Error, StreamConfig};
use crate::text::{
    law_piece_behind, law_split_concat, law_split_counts, law_split_without_sep,
};

verus! {

/// The media server's words are different words.
pub(crate) proof fn lemma_words()
    ensures
        "opening"@ != "closing"@,
        "incoming"@ != "outgoing"@,
{
    reveal_strlit("opening");
    reveal_strlit("closing");
    reveal_strlit("incoming");
    reveal_strlit("outgoing");
    assert("opening"@[0] != "closing"@[0]);
    assert("incoming"@[0] != "outgoing"@[0]);
}

/// The stream and the key that are checked are the two segments behind `scheme://host`, whole: the
/// text before them holds two slashes, and neither of them holds one.
pub proof fn law_stream_and_key_are_read_off_the_url(
    request: &Request,
    host: Seq<char>,
    id: Seq<char>,
    key: Seq<char>,
    rest: Seq<char>,
    step: Result<AuthStep, Error>,
)
    requires
        request.status@ == "opening"@,
        request.direction@ == "incoming"@,
        request.url@ == host + seq!['/'] + id + seq!['/'] + key + rest,
        host.to_multiset().count('/') == 2,
        !id.contains('/'),
        !key.contains('/'),
        rest.len() == 0 || rest[0] == '/',
        call_ensures(auth, (request,), step),
    ensures
        call_requires(auth, (request,)),
        step matches Ok(AuthStep::Streamer { id: found, key: presented }) && found@ == id
            && presented@ == key,
{
    lemma_words();
    let url = request.url@;
    let behind_id = seq!['/'] + key + rest;
    let named = host + seq!['/'] + id;
    law_split_counts(host, '/');
    law_piece_behind(host, id, behind_id, '/');
    assert(url =~= host + seq!['/'] + id + behind_id);
    law_split_concat(host, id, '/');
    law_split_without_sep(id, '/');
    law_piece_behind(named, key, rest, '/');
    assert(segments(url).len() >= 5);
    assert(segments(url)[3] == id);
    assert(segments(url)[4] == key);
}

/// A streamer whose URL has no segment for the stream or none for the key is refused, and no other
/// streamer is refused unchecked: stream and key are there from the fourth slash on.
pub proof fn law_publishing_needs_stream_and_key(request: &Request, step: Result<AuthStep, Error>)
    requires
        request.status@ == "opening"@,
        request.direction@ == "incoming"@,
        call_ensures(auth, (request,), step),
    ensures
        call_requires(auth, (request,)),
        request.url@.to_multiset().count('/') < 4 <==> step is Err,
        request.url@.to_multiset().count('/') < 4 ==> step == Err::<AuthStep, Error>(
            Error::BadRequest,
        ),
{
    lemma_words();
    law_split_counts(request.url@, '/');
}

/// A closing is acknowledged, whatever its direction and its URL are; and what is neither a closing
/// nor an opening in one of the two directions is refused.
pub proof fn law_other_requests(request: &Request, step: Result<AuthStep, Error>)
    requires
        request.status@ != "opening"@ || (request.direction@ != "incoming"@ && request.direction@
            != "outgoing"@),
        call_ensures(auth, (request,), step),
    ensures
        call_requires(auth, (request,)),
        request.status@ == "closing"@ ==> step == Ok::<AuthStep, Error>(
            AuthStep::Answer(AuthResponse::Closing),
        ),
        request.status@ != "closing"@ ==> step == Err::<AuthStep, Error>(Error::BadRequest),
{
    lemma_words();
}

/// A streamer whose key was accepted is let in and sent to `rtmp://host/app/stream`, with no reason
/// and no lifetime; any other is turned away with a reason and no URL.
pub proof fn law_streamer_is_answered(
    config: &Config,
    id: &str,
    outcome: Result<(), Error>,
    answer: AuthResponse,
)
    requires
        call_ensures(answer_streamer, (config, id, outcome), answer),
    ensures
        call_requires(answer_streamer, (config, id, outcome)),
        answer matches AuthResponse::Opening(response) && {
            &&& response.allowed == outcome is Ok
            &&& response.lifetime is None
            &&& outcome is Ok ==> response.reason is None
            &&& outcome is Ok ==> (response.new_url matches Some(url) && url@ == "rtmp://"@
                + config.ome_host@ + "/app/"@ + id@)
            &&& outcome is Err ==> response.new_url is None
            &&& outcome is Err ==> (response.reason matches Some(reason) && reason@
                == "Invalid API key"@)
        },
{
}

/// An answer is sent with the status of a success, whether it lets the client in or not: the
/// response as it is, or an empty JSON object.
pub proof fn law_answer_is_sent_whole(answer: AuthResponse, reply: AuthReply)
    requires
        call_ensures(AuthResponse::respond_to, (answer,), reply),
    ensures
        reply.status == 200,
        answer matches AuthResponse::Opening(response) ==> reply.body == ResponseBody::Json(response),
        answer is Closing ==> (reply.body matches ResponseBody::Text(text) && text@ == "{}"@),
{
}

/// From the admin to the air: a stream that was created for the admin is published with its key. The
/// request names the stream and the key that the admin gave, what was stored is found under that
/// name, the key opens it, and the streamer is sent to `rtmp://host/app/stream`.
pub proof fn law_created_stream_is_published(
    form: &CreateStreamQuery,
    new: Result<NewStream, AdminError>,
    request: &Request,
    host: Seq<char>,
    rest: Seq<char>,
    step: Result<AuthStep, Error>,
    found: &Option<StreamConfig>,
    key: &str,
    outcome: Result<(), Error>,
    config: &Config,
    id: &str,
    answer: AuthResponse,
)
    requires
        call_ensures(create_stream, (Ok::<(), AdminError>(()), form), new),
        !form.stream_id@.contains('/'),
        !form.stream_key@.contains('/'),
        request.status@ == "opening"@,
        request.direction@ == "incoming"@,
        request.url@ == host + seq!['/'] + form.stream_id@ + seq!['/'] + form.stream_key@ + rest,
        host.to_multiset().count('/') == 2,
        rest.len() == 0 || rest[0] == '/',
        call_ensures(auth, (request,), step),
        step matches Ok(AuthStep::Streamer { id: named, key: presented }) ==> named@ == id@
            && presented@ == key@,
        *found == Some(new->Ok_0.row),
        call_ensures(auth_as_streamer, (found, key), outcome),
        call_ensures(answer_streamer, (config, id, outcome), answer),
    ensures
        new is Ok,
        new->Ok_0.row.id@ == form.stream_id@,
        new->Ok_0.message.stream@ == form.stream_id@,
        step is Ok,
        id@ == new->Ok_0.row.id@,
        call_requires(auth_as_streamer, (found, key)),
        outcome is Ok,
        answer matches AuthResponse::Opening(response) && response.allowed && (
        response.new_url matches Some(url) && url@ == "rtmp://"@ + config.ome_host@ + "/app/"@
            + form.stream_id@),
{
    law_stream_and_key_are_read_off_the_url(
        request,
        host,
        form.stream_id@,
        form.stream_key@,
        rest,
        step,
    );
    law_streamer_is_answered(config, id, outcome, answer);
}

} // verus!
