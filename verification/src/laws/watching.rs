//! Laws of watching: what a player's request comes to, from the URL to the answer.

use vstd::arithmetic::power::*;
use vstd::prelude::*;
use vstd::string::*;

use crate::admission::{
    answer_player, auth, is_complete, segments, AuthResponse, AuthStep, Request,
};
use crate::config::Error;
use crate::laws::publishing::lemma_words;
use crate::laws::queueing::law_decision;
use crate::manager::{player_query, Handle, Handled, IsAuthorized, Manager};
use crate::text::{
    law_piece_behind, law_replaced_at_first_match, law_replaced_without_match, law_split_concat,
    law_split_counts, law_split_without_sep, occurs_at,
};
use crate::uuids::{
    fresh_uuid, hex_digits, hyphens_before, is_hyphen_position, law_uuid_text_is_one_segment, parse_uuid,
    uuid_of_text, uuid_text, was_drawn, InvalidUuid,
};

verus! {

/// The stream and the player that are looked up are the two segments behind `scheme://host/app`,
/// whole: the text before them holds three slashes, and neither of them holds one.
pub proof fn law_stream_and_player_are_read_off_the_url(
    request: &Request,
    app: Seq<char>,
    stream: Seq<char>,
    uuid: Seq<char>,
    rest: Seq<char>,
    step: Result<AuthStep, Error>,
)
    requires
        request.status@ == "opening"@,
        request.direction@ == "outgoing"@,
        request.url@ == app + seq!['/'] + stream + seq!['/'] + uuid + rest,
        app.to_multiset().count('/') == 3,
        !stream.contains('/'),
        !uuid.contains('/'),
        rest.len() == 0 || rest[0] == '/',
        call_ensures(auth, (request,), step),
    ensures
        call_requires(auth, (request,)),
        step matches Ok(AuthStep::Player { stream: found, uuid: player }) && found@ == stream
            && player@ == uuid,
{
    lemma_words();
    let url = request.url@;
    let behind_stream = seq!['/'] + uuid + rest;
    let named = app + seq!['/'] + stream;
    law_split_counts(app, '/');
    law_piece_behind(app, stream, behind_stream, '/');
    assert(url =~= app + seq!['/'] + stream + behind_stream);
    law_split_concat(app, stream, '/');
    law_split_without_sep(stream, '/');
    law_piece_behind(named, uuid, rest, '/');
    assert(segments(url).len() >= 6);
    assert(segments(url)[4] == stream);
    assert(segments(url)[5] == uuid);
}

/// A request to watch is complete exactly if its URL has five slashes or more, every other request
/// is; and a complete request to watch is looked up.
pub proof fn law_watching_needs_stream_and_player(
    request: &Request,
    complete: bool,
    step: Result<AuthStep, Error>,
)
    requires
        call_ensures(is_complete, (request,), complete),
        call_ensures(auth, (request,), step),
    ensures
        complete <==> (request.status@ == "opening"@ && request.direction@ == "outgoing"@
            ==> request.url@.to_multiset().count('/') >= 5),
        complete ==> call_requires(auth, (request,)),
        complete && request.status@ == "opening"@ && request.direction@ == "outgoing"@ ==> step
            matches Ok(AuthStep::Player { stream, uuid }),
{
    lemma_words();
    law_split_counts(request.url@, '/');
}

/// A player without permission is turned away with a reason and no URL, whatever it asked for; one
/// with permission is let in with a URL and no reason.
pub proof fn law_permission_decides(url: &str, uuid: &str, authorized: bool, answer: AuthResponse)
    requires
        call_ensures(answer_player, (url, uuid, authorized), answer),
    ensures
        call_requires(answer_player, (url, uuid, authorized)),
        answer matches AuthResponse::Opening(response) && {
            &&& response.allowed == authorized
            &&& response.lifetime is None
            &&& authorized ==> response.new_url is Some && response.reason is None
            &&& !authorized ==> response.new_url is None
            &&& !authorized ==> (response.reason matches Some(reason) && reason@
                == "Unauthorized"@)
        },
{
}

/// An allowed player is sent to its URL without its segment: at `base/uuid` and whatever comes
/// behind, with the segment nowhere else in the URL, it is sent to `base` and whatever came behind.
pub proof fn law_allowed_player_is_sent_on(
    url: &str,
    base: Seq<char>,
    uuid: &str,
    rest: Seq<char>,
    answer: AuthResponse,
)
    requires
        url@ == base + seq!['/'] + uuid@ + rest,
        forall|i: int|
            0 <= i <= url@.len() - uuid@.len() - 1 && i != base.len() ==> #[trigger] url@.subrange(
                i,
                i + uuid@.len() + 1,
            ) != seq!['/'] + uuid@,
        call_ensures(answer_player, (url, uuid, true), answer),
    ensures
        answer matches AuthResponse::Opening(response) && response.allowed && (
        response.new_url matches Some(new_url) && new_url@ == base + rest),
{
    reveal_strlit("/");
    reveal_strlit("");
    let pat = seq!['/'] + uuid@;
    let at = base.len() as int;
    assert("/"@ + uuid@ =~= pat);
    assert(url@.subrange(at, at + pat.len()) =~= pat);
    assert forall|i: int| 0 <= i < at implies !occurs_at(url@, pat, i) by {
        if i + pat.len() <= url@.len() {
            assert(url@.subrange(i, i + uuid@.len() + 1) != pat);
        }
    }
    law_replaced_at_first_match(url@, pat, ""@, at);
    assert(url@.take(at) =~= base);
    assert(url@.skip(at + pat.len()) =~= rest);
    assert forall|i: int| !occurs_at(rest, pat, i) by {
        if occurs_at(rest, pat, i) {
            let k = at + pat.len() + i;
            assert(url@.subrange(k, k + uuid@.len() + 1) =~= rest.subrange(i, i + pat.len()));
        }
    }
    law_replaced_without_match(rest, pat, ""@);
    assert(base + ""@ + rest =~= base + rest);
}

/// The player's segment is cut out wherever it stands: what stands before the first is kept, and
/// what stands behind it is treated as if it were all of the URL. A URL without it is kept whole.
pub proof fn law_all_segments_of_the_player_are_cut(
    url: &str,
    base: Seq<char>,
    uuid: &str,
    behind: &str,
    answer: AuthResponse,
    short: AuthResponse,
)
    requires
        call_ensures(answer_player, (url, uuid, true), answer),
        call_ensures(answer_player, (behind, uuid, true), short),
    ensures
        url@ == base + seq!['/'] + uuid@ + behind@ && (forall|i: int|
            0 <= i < base.len() ==> #[trigger] url@.subrange(i, i + uuid@.len() + 1) != seq!['/']
                + uuid@) ==> answer->Opening_0.new_url->Some_0@ == base
            + short->Opening_0.new_url->Some_0@,
        (forall|i: int|
            0 <= i <= url@.len() - uuid@.len() - 1 ==> #[trigger] url@.subrange(
                i,
                i + uuid@.len() + 1,
            ) != seq!['/'] + uuid@) ==> answer->Opening_0.new_url->Some_0@ == url@,
{
    reveal_strlit("/");
    reveal_strlit("");
    let pat = seq!['/'] + uuid@;
    let at = base.len() as int;
    assert("/"@ + uuid@ =~= pat);
    if url@ == base + seq!['/'] + uuid@ + behind@ && (forall|i: int|
        0 <= i < base.len() ==> #[trigger] url@.subrange(i, i + uuid@.len() + 1) != seq!['/']
            + uuid@) {
        assert(url@.subrange(at, at + pat.len()) =~= pat);
        assert forall|i: int| 0 <= i < at implies !occurs_at(url@, pat, i) by {
            assert(url@.subrange(i, i + uuid@.len() + 1) != pat);
        }
        law_replaced_at_first_match(url@, pat, ""@, at);
        assert(url@.take(at) =~= base);
        assert(url@.skip(at + pat.len()) =~= behind@);
        let cut = short->Opening_0.new_url->Some_0@;
        assert(base + ""@ + cut =~= base + cut);
    }
    if forall|i: int|
        0 <= i <= url@.len() - uuid@.len() - 1 ==> #[trigger] url@.subrange(
            i,
            i + uuid@.len() + 1,
        ) != seq!['/'] + uuid@ {
        assert forall|i: int| !occurs_at(url@, pat, i) by {
            if 0 <= i && i + pat.len() <= url@.len() {
                assert(url@.subrange(i, i + uuid@.len() + 1) != pat);
            }
        }
        law_replaced_without_match(url@, pat, ""@);
    }
}

/// The question to the manager is of the stream as it was named and of the player whom the text
/// spells; a text that spells no player gives no question.
pub proof fn law_question_is_of_the_named_player(
    stream: String,
    uuid: &str,
    query: Result<IsAuthorized, InvalidUuid>,
)
    requires
        call_ensures(player_query, (stream, uuid), query),
    ensures
        query is Ok <==> uuid_of_text(uuid@) is Some,
        query matches Ok(query) ==> query.stream@ == stream@ && Some(query.uuid) == uuid_of_text(
            uuid@,
        ),
{
}

/// From the queue to the stream: a player who waits, whom the streamer allows, and who asks the media
/// server for `scheme://host/app/stream/uuid`, in whatever form that spells its UUID, is let in and
/// sent to `scheme://host/app/stream`, if the UUID stands nowhere else in the URL; one whom the
/// streamer denies, and who could not watch before, is turned away.
pub proof fn law_from_the_queue_to_the_stream(
    m: &mut Manager,
    decision: Handle,
    due: Option<Handled>,
    request: &Request,
    app: Seq<char>,
    text: Seq<char>,
    step: Result<AuthStep, Error>,
    named: String,
    uuid: &str,
    query: Result<IsAuthorized, InvalidUuid>,
    asked: &IsAuthorized,
    after: &Manager,
    authorized: bool,
    url: &str,
    answer: AuthResponse,
)
    requires
        old(m).wf(),
        old(m)@.contains_key(decision.stream@),
        old(m)@[decision.stream@].queue.contains_key(decision.uuid),
        call_ensures(Manager::handle, (m, decision), due),
        request.status@ == "opening"@,
        request.direction@ == "outgoing"@,
        request.url@ == app + seq!['/'] + decision.stream@ + seq!['/'] + text,
        app.to_multiset().count('/') == 3,
        !decision.stream@.contains('/'),
        !text.contains('/'),
        uuid_of_text(text) == Some(decision.uuid),
        forall|i: int|
            0 <= i < app.len() + 1 + decision.stream@.len() ==> #[trigger] request.url@.subrange(
                i,
                i + text.len() + 1,
            ) != seq!['/'] + text,
        call_ensures(auth, (request,), step),
        step matches Ok(AuthStep::Player { stream: found, uuid: player }) ==> found == named
            && player@ == uuid@,
        call_ensures(player_query, (named, uuid), query),
        query matches Ok(query) ==> *asked == query,
        *after == *final(m),
        call_ensures(Manager::handle_is_authorized, (after, asked), authorized),
        url@ == request.url@,
        call_ensures(answer_player, (url, uuid, authorized), answer),
    ensures
        step is Ok,
        query is Ok,
        decision.allow ==> (answer matches AuthResponse::Opening(response) && response.allowed && (
        response.new_url matches Some(new_url) && new_url@ == app + seq!['/']
            + decision.stream@)),
        !decision.allow && !old(m)@[decision.stream@].authorized.contains(decision.uuid) ==> (
        answer matches AuthResponse::Opening(response) && !response.allowed
            && response.new_url is None),
{
    let base = app + seq!['/'] + decision.stream@;
    let none = Seq::<char>::empty();
    assert(request.url@ =~= app + seq!['/'] + decision.stream@ + seq!['/'] + text + none);
    law_stream_and_player_are_read_off_the_url(request, app, decision.stream@, text, none, step);
    law_question_is_of_the_named_player(named, uuid, query);
    law_decision(m, decision, due, decision.stream@, decision.uuid);
    if authorized {
        assert forall|i: int|
            0 <= i <= url@.len() - uuid@.len() - 1 && i != base.len() implies #[trigger] url@.subrange(
            i,
            i + uuid@.len() + 1,
        ) != seq!['/'] + uuid@ by {}
        law_allowed_player_is_sent_on(url, base, uuid, none, answer);
        assert(base + none =~= base);
    }
}

/// A player's UUID is written as text that spells it again and can stand in a URL as one segment.
pub proof fn law_uuid_is_written_and_read(uuid: u128, written: String, text: &str, read: Result<
    u128,
    InvalidUuid,
>)
    requires
        call_ensures(uuid_text, (uuid,), written),
        text@ == written@,
        call_ensures(parse_uuid, (text,), read),
    ensures
        read == Ok::<u128, InvalidUuid>(uuid),
        text@.len() == 36,
        !text@.contains('/'),
        forall|i: int|
            0 <= i < 36 ==> (if i == 8 || i == 13 || i == 18 || i == 23 {
                #[trigger] text@[i] == '-'
            } else {
                '0' <= text@[i] <= '9' || 'a' <= text@[i] <= 'f'
            }),
{
    law_uuid_text_is_one_segment(uuid);
    assert forall|i: int| 0 <= i < 36 implies (if i == 8 || i == 13 || i == 18 || i == 23 {
        #[trigger] text@[i] == '-'
    } else {
        '0' <= text@[i] <= '9' || 'a' <= text@[i] <= 'f'
    }) by {
        if !is_hyphen_position(i) {
            let power = pow(16, (31 - (i - hyphens_before(i))) as nat);
            let digit = (uuid as int / power) % 16;
            assert(0 <= digit < 16);
            assert('0' <= hex_digits()[digit] <= '9' || 'a' <= hex_digits()[digit] <= 'f');
        }
    }
}

/// A text is read as the UUID that it spells, and refused exactly if it spells none; a fresh UUID
/// says of itself that it is a random one.
pub proof fn law_uuid_is_read(text: &str, read: Result<u128, InvalidUuid>, fresh: u128)
    requires
        call_ensures(parse_uuid, (text,), read),
        call_ensures(fresh_uuid, (), fresh),
    ensures
        was_drawn(fresh),
        (fresh >> 76) & 0xf == 4 && (fresh >> 62) & 3 == 2,
        read matches Ok(uuid) ==> uuid_of_text(text@) == Some(uuid),
        read is Err ==> uuid_of_text(text@) is None,
{
}

} // verus!
