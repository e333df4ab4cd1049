//! What each operation does, stated of its inputs and its results: whatever a call gives back, or
//! leaves behind, is tied to what it was given.

use crate::chat_laws::{
    law_accepted_request_is_the_clients, law_collected_reply_is_the_message,
    law_messages_are_the_whole_list, law_model_and_stream_are_those_named,
    law_request_saves_every_message, law_streams_are_asked_for_and_named,
};
use crate::completion::{
    completion_of, kept_line, read_completion, write_cost, write_usage, Completion, TokenUsage,
};
use crate::completion_laws::{
    law_kept_line_tells_the_cost, law_kept_line_tells_the_tokens, law_nothing_told_is_nothing_kept,
    law_reply_is_that_of_the_first_choice, number_at, object_at, says, tells,
};
use crate::documents::{conversation_document, usage_document};
use crate::document_laws::{
    law_conversation_shows_every_message, law_reset_names_the_model, law_usage_lists_every_model,
    law_usage_lists_the_whole_report, reports, reports_some,
};
use crate::headers::{header_entries, header_text};
use crate::json::{
    all_read_back, doc_text, json_doc, json_docs, pretty_text, slice_doc, text_doc, text_docs,
    JsonDoc, JsonNumber,
};
use crate::routes::{
    chat_failed, chat_of, content_type, list_models, read_answer, read_chat, relay_reply, stream_response,
    treat_answer, ChatRequest, ForwardedChat, Reply, StreamHead, Treatment,
    UpstreamAnswer,
};
use crate::state::{
    is_usage_report, new_assistant_message, read_saved_messages, AppState, ModelUsage,
};
use crate::stream::{after_lines, byte_runs, events, StreamEnd, StreamTracker};
use crate::stream_laws::{
    brings, has_empty_line, law_chunk_adds_its_piece, law_chunk_is_tracked,
    law_data_lines_are_tracked, law_lines_are_tracked_in_order, law_reply_is_all_pieces,
    law_sent_events_are_found, on_the_wire,
};
use crate::text::decimal;
use crate::text_laws::{law_decimal_reads_back, law_lines, number_of, whole_of};
use crate::upstream::{
    headers_sendable, is_request_id, law_session_and_project_are_sent, law_wire_headers,
    upstream_entries,
};
use axum::http::{HeaderMap, HeaderValue};
use serde_json::Value;
use vstd::prelude::*;
use vstd::utf8::encode_utf8;

verus! {

// Streams
/// A chunk that is tracked takes the reply from what it was to what it was followed by the piece,
/// every character of it, and leaves the bytes that are held back alone.
pub proof fn law_tracked_chunk_adds_its_piece(tracker: &mut StreamTracker, chunk: &Completion)
    requires
        call_ensures(StreamTracker::track_chunk, (tracker, chunk), ()),
    ensures
        chunk.content matches Some(piece) ==> {
            &&& final(tracker).track().reply == old(tracker).track().reply + piece@
            &&& final(tracker).track().reply.len() == old(tracker).track().reply.len()
                + piece@.len()
        },
        chunk.content is None ==> final(tracker).track().reply == old(tracker).track().reply,
        chunk.cost matches Some(cost) ==> final(tracker).track().usage == "cost: $"@ + cost@,
        chunk.cost is None && chunk.usage is None ==> final(tracker).track().usage
            == old(tracker).track().usage,
        final(tracker).track().errors == old(tracker).track().errors,
        final(tracker).pending() == old(tracker).pending(),
{
    law_chunk_adds_its_piece(old(tracker).track(), chunk@);
    if chunk.content is Some {
        let before = old(tracker).track().reply;
        let reply = final(tracker).track().reply;
        assert(reply == reply.take(before.len() as int) + reply.skip(before.len() as int));
    }
}

/// Two chunks that are tracked one after the other leave the reply followed by the piece of the
/// first and then that of the second.
pub proof fn law_tracked_chunks_add_up(
    first: &mut StreamTracker,
    second: &mut StreamTracker,
    a: &Completion,
    b: &Completion,
)
    requires
        call_ensures(StreamTracker::track_chunk, (first, a), ()),
        call_ensures(StreamTracker::track_chunk, (second, b), ()),
        *old(second) == *final(first),
        a.content is Some,
        b.content is Some,
    ensures
        final(second).track().reply == old(first).track().reply + (a.content->0@ + b.content->0@),
{
    law_tracked_chunk_adds_its_piece(first, a);
    law_tracked_chunk_adds_its_piece(second, b);
    assert(final(second).track().reply == old(first).track().reply + (a.content->0@
        + b.content->0@));
}

/// The JSON value of a chunk without an error adds the text of its first choice to the reply.
pub proof fn law_tracked_value_adds_its_text(
    tracker: &mut StreamTracker,
    value: &Value,
    piece: Seq<char>,
)
    requires
        call_ensures(StreamTracker::track_value, (tracker, value), ()),
        json_doc(*value) matches JsonDoc::Fields(fields) ==> !fields.contains_key("error"@),
        says(json_doc(*value), "delta"@, piece),
    ensures
        final(tracker).track().reply == old(tracker).track().reply + piece,
        final(tracker).pending() == old(tracker).pending(),
{
    law_chunk_is_tracked(old(tracker).track(), json_doc(*value), piece);
}

/// The JSON value of a chunk with an error changes neither the reply nor the line on tokens or
/// cost.
pub proof fn law_tracked_error_changes_nothing_else(
    tracker: &mut StreamTracker,
    value: &Value,
    fields: Map<Seq<char>, JsonDoc>,
)
    requires
        call_ensures(StreamTracker::track_value, (tracker, value), ()),
        json_doc(*value) == JsonDoc::Fields(fields),
        fields.contains_key("error"@),
    ensures
        final(tracker).track().reply == old(tracker).track().reply,
        final(tracker).track().usage == old(tracker).track().usage,
        final(tracker).pending() == old(tracker).pending(),
{
}

/// What is fed is handed out or held back, byte for byte and in order, and no whole event is held
/// back.
pub proof fn law_fed_bytes_are_relayed(
    tracker: &mut StreamTracker,
    bytes: &[u8],
    out: Vec<Vec<u8>>,
)
    requires
        call_ensures(StreamTracker::feed, (tracker, bytes), out),
    ensures
        out@.map_values(|run: Vec<u8>| run@).flatten() + final(tracker).pending() == old(
            tracker,
        ).pending() + bytes@,
        !has_empty_line(final(tracker).pending()),
        forall|i: int|
            0 <= i < out.len() ==> {
                let run = #[trigger] out@[i]@;
                run.len() >= 2 && run[run.len() - 1] == 10 && run[run.len() - 2] == 10
            },
{
    let all = old(tracker).pending() + bytes@;
    crate::stream_laws::law_events_stand_between_empty_lines(all);
    let runs = byte_runs(out@);
    assert(runs == out@.map_values(|run: Vec<u8>| run@));
    assert(runs == events(all).map_values(|event: Seq<u8>| event + seq![10u8, 10u8]));
    assert forall|i: int| 0 <= i < out.len() implies {
        let run = #[trigger] out@[i]@;
        run.len() >= 2 && run[run.len() - 1] == 10 && run[run.len() - 2] == 10
    } by {
        assert(runs[i] == out@[i]@);
        assert(runs[i] == events(all)[i] + seq![10u8, 10u8]);
    }
}

/// A new stream has relayed and tracked nothing.
pub proof fn law_new_stream_is_empty(tracker: StreamTracker)
    requires
        call_ensures(StreamTracker::new, (), tracker),
    ensures
        tracker.pending().len() == 0,
        tracker.track().reply.len() == 0,
        tracker.track().usage.len() == 0,
        tracker.track().errors.len() == 0,
{
}

/// A stream that ends gives all that was held back, and the whole reply and the last line where
/// they are not empty.
pub proof fn law_ended_stream_gives_all(tracker: StreamTracker, end: StreamEnd)
    requires
        call_ensures(StreamTracker::finish, (tracker,), end),
    ensures
        end.rest@ == tracker.pending(),
        end.failure is None,
        tracker.track().reply.len() > 0 ==> end.reply is Some && end.reply->0@
            == tracker.track().reply,
        tracker.track().reply.len() == 0 ==> end.reply is None,
        tracker.track().usage.len() > 0 ==> end.usage is Some && end.usage->0@
            == tracker.track().usage,
        tracker.track().usage.len() == 0 ==> end.usage is None,
{
    assert(end.reply.deep_view() is Some <==> end.reply is Some);
    assert(end.usage.deep_view() is Some <==> end.usage is Some);
}

/// A stream that breaks off gives the error and nothing to relay, and keeps the same reply and
/// line as one that ends.
pub proof fn law_broken_stream_is_kept_as_an_ended_one(
    tracker: StreamTracker,
    error: String,
    broken: StreamEnd,
    ended: StreamEnd,
)
    requires
        call_ensures(StreamTracker::fail, (tracker, error), broken),
        call_ensures(StreamTracker::finish, (tracker,), ended),
    ensures
        broken.failure is Some,
        broken.failure->0@ == error@,
        broken.rest@.len() == 0,
        broken.reply.deep_view() == ended.reply.deep_view(),
        broken.usage.deep_view() == ended.usage.deep_view(),
{
}

// Requests
/// The messages that are read from a request are all elements of its list, in order, whatever
/// their number.
pub proof fn law_read_request_has_every_message(
    value: &Value,
    chat: ChatRequest,
    fields: Map<Seq<char>, JsonDoc>,
    list: Seq<JsonDoc>,
)
    requires
        call_ensures(read_chat, (value,), chat),
        json_doc(*value) == JsonDoc::Fields(fields),
        fields.contains_key("messages"@),
        fields["messages"@] == JsonDoc::List(list),
    ensures
        chat.messages is Some,
        chat.messages->0.len() == list.len(),
        forall|i: int|
            0 <= i < list.len() ==> json_doc(#[trigger] chat.messages->0@[i]) == list[i],
{
    law_messages_are_the_whole_list(fields);
    let read = json_docs(chat.messages->0@);
    assert(chat@.messages == Some(read));
    assert forall|i: int| 0 <= i < list.len() implies json_doc(
        #[trigger] chat.messages->0@[i],
    ) == list[i] by {
        assert(read[i] == json_doc(chat.messages->0@[i]));
        assert(chat@.messages->0[i] == list[i]);
    }
}

/// The model and the stream flag that are read from a request are those it names.
pub proof fn law_read_request_names_model_and_stream(
    value: &Value,
    chat: ChatRequest,
    fields: Map<Seq<char>, JsonDoc>,
)
    requires
        call_ensures(read_chat, (value,), chat),
        json_doc(*value) == JsonDoc::Fields(fields),
    ensures
        fields.contains_key("model"@) && fields["model"@] is Text ==> chat.model@
            == fields["model"@]->Text_0,
        !(fields.contains_key("model"@) && fields["model"@] is Text) ==> chat.model@ == "unknown"@,
        chat.is_stream <==> fields.contains_key("stream"@) && fields["stream"@] == JsonDoc::Bool(
            true,
        ),
        !(fields.contains_key("messages"@) && fields["messages"@] is List)
            ==> chat.messages is None,
{
    law_model_and_stream_are_those_named(fields);
    law_messages_are_the_whole_list(fields);
    assert(chat@.messages is None <==> chat.messages is None);
}

/// A request that is accepted leaves its model with every message of its list, each in its place,
/// in memory and in the text for the file; other models, the usage and the configuration stay as
/// they were.
pub proof fn law_accepted_request_saves_every_message(
    state: &mut AppState,
    client: &HeaderMap<HeaderValue>,
    body: Vec<u8>,
    start: Result<ForwardedChat, Reply>,
    fields: Map<Seq<char>, JsonDoc>,
    model: Seq<char>,
    list: Seq<JsonDoc>,
    other: Seq<char>,
)
    requires
        call_ensures(AppState::chat_completions, (state, client, body), start),
        body@.len() > 0,
        slice_doc(body@) == Ok::<JsonDoc, Seq<char>>(JsonDoc::Fields(fields)),
        fields.contains_key("model"@),
        fields["model"@] == JsonDoc::Text(model),
        fields.contains_key("messages"@),
        fields["messages"@] == JsonDoc::List(list),
        other != model,
    ensures
        start is Ok,
        start->Ok_0.chat.model@ == model,
        start->Ok_0.chat.message_count == list.len(),
        start->Ok_0.chat.text is Some,
        start->Ok_0.chat.text->0@ == pretty_text(list),
        final(state).conversations().contains_key(model),
        final(state).conversations()[model].len() == list.len(),
        forall|i: int|
            0 <= i < list.len() ==> #[trigger] final(state).conversations()[model][i] == list[i],
        final(state).conversations().contains_key(other) == old(
            state,
        ).conversations().contains_key(other),
        old(state).conversations().contains_key(other) ==> final(state).conversations()[other]
            == old(state).conversations()[other],
        final(state).usage() == old(state).usage(),
        final(state).settings() == old(state).settings(),
{
    law_request_saves_every_message(old(state).conversations(), fields, model, list, other);
    law_accepted_request_is_the_clients(start->Ok_0.chat, fields, list);
}

/// A request that is accepted goes out with the client's own bytes, all of them, wherever its
/// headers can be sent.
pub proof fn law_accepted_request_goes_out_whole(
    state: &mut AppState,
    client: &HeaderMap<HeaderValue>,
    body: Vec<u8>,
    start: Result<ForwardedChat, Reply>,
)
    requires
        call_ensures(AppState::chat_completions, (state, client, body), start),
        body@.len() > 0,
        slice_doc(body@) is Ok,
    ensures
        start is Ok,
        start->Ok_0.request is Some <==> headers_sendable(old(state).settings(), *client),
        start->Ok_0.request matches Some(request) ==> {
            &&& request.body is Some
            &&& request.body->0@ == body@
            &&& request.url@ == old(state).settings().base_url@ + "/chat/completions"@
        },
{
}

/// A request that is refused changes nothing; it is refused exactly where its body is empty or no
/// JSON.
pub proof fn law_refused_request_changes_nothing(
    state: &mut AppState,
    client: &HeaderMap<HeaderValue>,
    body: Vec<u8>,
    start: Result<ForwardedChat, Reply>,
)
    requires
        call_ensures(AppState::chat_completions, (state, client, body), start),
    ensures
        start is Err <==> body@.len() == 0 || slice_doc(body@) is Err,
        start matches Err(reply) ==> {
            &&& reply.status == 400
            &&& final(state).conversations() == old(state).conversations()
            &&& final(state).usage() == old(state).usage()
            &&& final(state).settings() == old(state).settings()
        },
{
}

// Answers
/// An answer without a status of success is relayed, and no other.
pub proof fn law_failed_answers_are_relayed(
    status: u16,
    is_stream: bool,
    content_type: Option<&str>,
    treatment: Treatment,
)
    requires
        call_ensures(treat_answer, (status, is_stream, content_type), treatment),
    ensures
        status < 200 ==> treatment == Treatment::Relay,
        status >= 300 ==> treatment == Treatment::Relay,
        200 <= status <= 299 ==> treatment != Treatment::Relay,
        200 <= status <= 299 && !is_stream ==> treatment == Treatment::Collect,
        200 <= status <= 299 && is_stream && content_type is Some ==> (treatment
            == Treatment::Stream <==> exists|before: Seq<char>, after: Seq<char>| #[trigger]
            whole_of(before, "text/event-stream"@, after) == content_type->0@),
{
    if 200 <= status <= 299 {
        law_streams_are_asked_for_and_named(status, is_stream, content_type.deep_view());
        assert(content_type is Some ==> content_type.deep_view() == Some(content_type->0@));
    }
}

/// An answer that is relayed reaches the client with the status and the bytes of the upstream.
pub proof fn law_relayed_answer_keeps_status_and_body(
    status: u16,
    content_type: Option<String>,
    body: Vec<u8>,
    reply: Reply,
)
    requires
        call_ensures(relay_reply, (status, content_type, body), reply),
    ensures
        reply.status == status,
        reply.body@ == body@,
        content_type matches Some(named) ==> reply.content_type@ == named@,
        content_type is None ==> reply.content_type@ == "application/json"@,
{
    assert(content_type is Some ==> content_type.deep_view() == Some(content_type->0@));
    assert(reply@.status == reply.status && reply@.body == reply.body@);
    assert(reply@.content_type == reply.content_type@);
}

/// The list of models reaches the client with the status and the bytes of the upstream; where the
/// upstream cannot be reached, the client is told why.
pub proof fn law_models_are_relayed(outcome: Result<UpstreamAnswer, String>, reply: Reply)
    requires
        call_ensures(list_models, (outcome,), reply),
    ensures
        outcome matches Ok(answer) ==> {
            &&& reply.status == answer.status
            &&& reply.body@ == answer.body@
            &&& answer.content_type matches Some(named) ==> reply.content_type@ == named@
            &&& answer.content_type is None ==> reply.content_type@ == "application/json"@
        },
        outcome matches Err(error) ==> {
            &&& reply.status == 502
            &&& reply.body@ == encode_utf8("upstream connection failed: "@ + error@)
        },
{
    assert(reply@.status == reply.status && reply@.body == reply.body@);
    assert(reply@.content_type == reply.content_type@);
    if let Ok(answer) = outcome {
        assert(answer.content_type is Some ==> answer.content_type.deep_view() == Some(
            answer.content_type->0@,
        ));
    }
}

/// A client whose request could not be sent on is told why.
pub proof fn law_failure_is_told(error: &str, reply: Reply)
    requires
        call_ensures(chat_failed, (error,), reply),
    ensures
        reply.status == 502,
        reply.body@ == encode_utf8("upstream request failed: "@ + error@),
{
    assert(reply@.status == reply.status && reply@.body == reply.body@);
}

/// The content type of headers is the text of their first `content-type`.
pub proof fn law_content_type_is_read(headers: &HeaderMap<HeaderValue>, found: Option<String>)
    requires
        call_ensures(content_type, (headers,), found),
    ensures
        found is Some <==> header_text(*headers, "content-type"@) is Some,
        found matches Some(text) ==> header_text(*headers, "content-type"@) == Some(text@),
{
    assert(found is Some ==> found.deep_view() == Some(found->0@));
}

/// A stream is answered with status 200.
pub proof fn law_stream_is_answered_with_success(head: StreamHead)
    requires
        call_ensures(stream_response, (), head),
    ensures
        head.status == 200,
{
}

/// The answer that is collected reaches the client byte for byte, and the reply in it is appended
/// to the conversation of the model; other models stay as they were.
pub proof fn law_collected_answer_is_relayed_and_kept(
    state: &mut AppState,
    model: &str,
    content_type: Option<String>,
    body: Result<Vec<u8>, String>,
    disk: Option<&str>,
    answer: (Reply, Option<String>),
    doc: JsonDoc,
    text: Seq<char>,
    other: Seq<char>,
)
    requires
        call_ensures(
            AppState::non_stream_response,
            (state, model, content_type, body, disk),
            answer,
        ),
        body is Ok,
        slice_doc(body->Ok_0@) == Ok::<JsonDoc, Seq<char>>(doc),
        says(doc, "message"@, text),
        old(state).conversations().contains_key(model@),
        other != model@,
    ensures
        answer.0.status == 200,
        answer.0.body@ == body->Ok_0@,
        final(state).conversations()[model@].len() == old(state).conversations()[model@].len() + 1,
        final(state).conversations()[model@].drop_last() == old(state).conversations()[model@],
        final(state).conversations()[model@].last()->Fields_0["content"@] == JsonDoc::Text(text),
        answer.1 is Some,
        answer.1->0@ == pretty_text(final(state).conversations()[model@]),
        final(state).conversations().contains_key(other) == old(
            state,
        ).conversations().contains_key(other),
        old(state).conversations().contains_key(other) ==> final(state).conversations()[other]
            == old(state).conversations()[other],
        final(state).settings() == old(state).settings(),
{
    assert(answer.0@.status == answer.0.status && answer.0@.body == answer.0.body@);
    law_collected_reply_is_the_message(
        old(state).conversations(),
        model@,
        doc,
        text,
        crate::state::saved_messages(disk.deep_view()),
        Seq::empty(),
    );
    law_reply_is_that_of_the_first_choice(doc, "message"@);
    crate::chat_laws::law_assistant_message_is_the_reply(text);
    let before = old(state).conversations()[model@];
    assert(before.push(crate::state::assistant_message(text)).drop_last() == before);
    assert(answer.1.deep_view() is Some <==> answer.1 is Some);
}

/// An answer that could not be read, or is no JSON, changes nothing.
pub proof fn law_unread_answer_changes_nothing(
    state: &mut AppState,
    model: &str,
    content_type: Option<String>,
    body: Result<Vec<u8>, String>,
    disk: Option<&str>,
    answer: (Reply, Option<String>),
)
    requires
        call_ensures(
            AppState::non_stream_response,
            (state, model, content_type, body, disk),
            answer,
        ),
        body matches Ok(bytes) ==> slice_doc(bytes@) is Err,
    ensures
        final(state).conversations() == old(state).conversations(),
        final(state).usage() == old(state).usage(),
        answer.1 is None,
        body matches Ok(bytes) ==> answer.0.status == 200 && answer.0.body@ == bytes@,
        body matches Err(error) ==> answer.0.status == 502 && answer.0.body@ == encode_utf8(
            "failed to read upstream body: "@ + error@,
        ),
{
    assert(answer.0@.status == answer.0.status && answer.0@.body == answer.0.body@);
    assert(answer.1.deep_view() is Some <==> answer.1 is Some);
}

// Completions
/// The tokens that are read from a completion are the three numbers that its `usage` names,
/// whatever else stands there.
pub proof fn law_read_tokens_are_those_named(
    value: &Value,
    part: &str,
    completion: Completion,
    fields: Map<Seq<char>, JsonDoc>,
    usage: Map<Seq<char>, JsonDoc>,
)
    requires
        call_ensures(read_completion, (value, part), completion),
        json_doc(*value) == JsonDoc::Fields(fields),
        fields.contains_key("usage"@),
        fields["usage"@] == JsonDoc::Fields(usage),
    ensures
        completion.usage is Some,
        completion.usage->0.prompt == number_at(usage, "prompt_tokens"@),
        completion.usage->0.completion == number_at(usage, "completion_tokens"@),
        completion.usage->0.cached == number_at(
            object_at(usage, "prompt_tokens_details"@),
            "cached_tokens"@,
        ),
{
    crate::completion_laws::law_completion_holds_its_fields(completion);
}

/// The reply that is read from a completion is the text of its first choice, every character of
/// it; the cost is what the field `cost` prints as.
pub proof fn law_read_reply_and_cost_are_those_named(
    value: &Value,
    part: &str,
    completion: Completion,
    text: Seq<char>,
)
    requires
        call_ensures(read_completion, (value, part), completion),
    ensures
        says(json_doc(*value), part@, text) ==> completion.content is Some
            && completion.content->0@ == text,
        completion.content matches Some(content) ==> says(json_doc(*value), part@, content@),
        json_doc(*value) matches JsonDoc::Fields(fields) ==> {
            &&& completion.cost is Some <==> fields.contains_key("cost"@)
            &&& completion.cost matches Some(cost) ==> cost@ == doc_text(fields["cost"@])
            &&& completion.usage is Some <==> fields.contains_key("usage"@)
        },
{
    law_reply_is_that_of_the_first_choice(json_doc(*value), part@);
    assert(completion@.content == completion.content.deep_view());
    assert(completion.content is Some ==> completion.content.deep_view() == Some(
        completion.content->0@,
    ));
    assert(completion.content is None ==> completion.content.deep_view() is None);
    assert(completion@.cost == completion.cost.deep_view());
    assert(completion.cost is Some ==> completion.cost.deep_view() == Some(completion.cost->0@));
    assert(completion.cost is None ==> completion.cost.deep_view() is None);
}

/// The line on tokens tells each number in its place, in decimal.
pub proof fn law_written_line_tells_the_tokens(usage: &TokenUsage, line: String)
    requires
        call_ensures(write_usage, (usage,), line),
    ensures
        exists|prompt: Seq<char>, completion: Seq<char>, cached: Seq<char>|
            {
                &&& #[trigger] tells(line@, prompt, completion, cached)
                &&& number_of(prompt) == usage.prompt
                &&& number_of(completion) == usage.completion
                &&& number_of(cached) == usage.cached
            },
{
    law_decimal_reads_back(usage.prompt as nat);
    law_decimal_reads_back(usage.completion as nat);
    law_decimal_reads_back(usage.cached as nat);
    assert(tells(
        line@,
        decimal(usage.prompt as nat),
        decimal(usage.completion as nat),
        decimal(usage.cached as nat),
    ));
}

/// The line on a cost tells the cost as it is.
pub proof fn law_written_line_tells_the_cost(cost: &str, line: String)
    requires
        call_ensures(write_cost, (cost,), line),
    ensures
        line@ == "cost: $"@ + cost@,
{
}

/// A body that is no JSON tells nothing.
pub proof fn law_answer_without_json_tells_nothing(error: String, completion: Completion)
    requires
        call_ensures(read_answer, (Err(error),), completion),
    ensures
        completion.content is None,
        completion.usage is None,
        completion.cost is None,
{
    assert(completion@.content == completion.content.deep_view());
    assert(completion@.cost == completion.cost.deep_view());
    assert(completion.content is Some ==> completion.content.deep_view() == Some(
        completion.content->0@,
    ));
    assert(completion.cost is Some ==> completion.cost.deep_view() == Some(completion.cost->0@));
}

// Conversations and usage
/// Messages that were saved for a model are the messages that are loaded for it, all of them and
/// in order, whatever is on disk; those of another model are loaded as before.
pub proof fn law_saved_is_loaded(
    state: &mut AppState,
    model: &str,
    messages: Vec<Value>,
    text: String,
    later: &AppState,
    disk: Option<&str>,
    loaded: Vec<Value>,
    other: Seq<char>,
)
    requires
        call_ensures(AppState::save_messages, (state, model, messages), text),
        *later == *final(state),
        call_ensures(AppState::load_messages, (later, model, disk), loaded),
        other != model@,
    ensures
        loaded.len() == messages.len(),
        forall|i: int|
            0 <= i < messages.len() ==> json_doc(#[trigger] loaded@[i]) == json_doc(messages@[i]),
        final(state).conversations().contains_key(other) == old(
            state,
        ).conversations().contains_key(other),
        old(state).conversations().contains_key(other) ==> final(state).conversations()[other]
            == old(state).conversations()[other],
        final(state).usage() == old(state).usage(),
{
    assert(json_docs(loaded@) == json_docs(messages@));
    assert(json_docs(loaded@).len() == loaded@.len());
    assert forall|i: int| 0 <= i < messages.len() implies json_doc(#[trigger] loaded@[i])
        == json_doc(messages@[i]) by {
        assert(json_docs(loaded@)[i] == json_doc(loaded@[i]));
        assert(json_docs(messages@)[i] == json_doc(messages@[i]));
    }
}

/// Messages that were saved and written to disk are loaded from there by a process that has no
/// conversation of the model in memory, all of them and in order.
pub proof fn law_saved_is_loaded_after_a_restart(
    state: &mut AppState,
    model: &str,
    messages: Vec<Value>,
    text: String,
    fresh: &AppState,
    disk: &str,
    loaded: Vec<Value>,
)
    requires
        call_ensures(AppState::save_messages, (state, model, messages), text),
        all_read_back(json_docs(messages@)),
        disk@ == text@,
        !fresh.conversations().contains_key(model@),
        call_ensures(AppState::load_messages, (fresh, model, Some(disk)), loaded),
    ensures
        loaded.len() == messages.len(),
        forall|i: int|
            0 <= i < messages.len() ==> json_doc(#[trigger] loaded@[i]) == json_doc(messages@[i]),
{
    let given: Option<&str> = Some(disk);
    assert(given.deep_view() == Some(text@));
    assert(json_docs(loaded@) == json_docs(messages@));
    assert(json_docs(loaded@).len() == loaded@.len());
    assert forall|i: int| 0 <= i < messages.len() implies json_doc(#[trigger] loaded@[i])
        == json_doc(messages@[i]) by {
        assert(json_docs(loaded@)[i] == json_doc(loaded@[i]));
        assert(json_docs(messages@)[i] == json_doc(messages@[i]));
    }
}

/// A reply that is appended comes behind the messages of the model, which stay as they were.
pub proof fn law_appended_reply_comes_last(
    state: &mut AppState,
    model: &str,
    content: String,
    disk: Option<&str>,
    text: String,
)
    requires
        call_ensures(AppState::append_assistant, (state, model, content, disk), text),
        old(state).conversations().contains_key(model@),
    ensures
        final(state).conversations()[model@].len() == old(state).conversations()[model@].len() + 1,
        final(state).conversations()[model@].drop_last() == old(state).conversations()[model@],
        final(state).conversations()[model@].last()->Fields_0["role"@] == JsonDoc::Text(
            "assistant"@,
        ),
        final(state).conversations()[model@].last()->Fields_0["content"@] == JsonDoc::Text(
            content@,
        ),
        text@ == pretty_text(final(state).conversations()[model@]),
{
    crate::chat_laws::law_assistant_message_is_the_reply(content@);
    let before = old(state).conversations()[model@];
    assert(before.push(crate::state::assistant_message(content@)).drop_last() == before);
}

/// What a stream said is kept: its reply behind the messages of the model, and its line in place
/// of the last; a stream without either leaves them.
pub proof fn law_recorded_stream_is_kept(
    state: &mut AppState,
    model: &str,
    end: StreamEnd,
    disk: Option<&str>,
    text: Option<String>,
)
    requires
        call_ensures(AppState::record_stream, (state, model, end, disk), text),
        old(state).conversations().contains_key(model@),
    ensures
        end.reply matches Some(reply) ==> {
            let before = old(state).conversations()[model@];
            let after = final(state).conversations()[model@];
            &&& after.len() == before.len() + 1
            &&& after.drop_last() == before
            &&& after.last()->Fields_0["content"@] == JsonDoc::Text(reply@)
            &&& text is Some
            &&& text->0@ == pretty_text(after)
        },
        end.reply is None ==> final(state).conversations() == old(state).conversations()
            && text is None,
        end.usage matches Some(line) ==> final(state).usage() == old(state).usage().insert(
            model@,
            line@,
        ),
        end.usage is None ==> final(state).usage() == old(state).usage(),
{
    assert(end.reply is Some ==> end.reply.deep_view() == Some(end.reply->0@));
    assert(end.usage is Some ==> end.usage.deep_view() == Some(end.usage->0@));
    assert(text.deep_view() is Some <==> text is Some);
    if let Some(reply) = end.reply {
        crate::chat_laws::law_assistant_message_is_the_reply(reply@);
        let before = old(state).conversations()[model@];
        assert(before.push(crate::state::assistant_message(reply@)).drop_last() == before);
    }
}

/// What a whole completion said is kept as what a stream said is.
pub proof fn law_recorded_completion_is_kept(
    state: &mut AppState,
    model: &str,
    completion: Completion,
    disk: Option<&str>,
    text: Option<String>,
)
    requires
        call_ensures(AppState::record_completion, (state, model, completion, disk), text),
        old(state).conversations().contains_key(model@),
    ensures
        completion.content matches Some(reply) ==> {
            let before = old(state).conversations()[model@];
            let after = final(state).conversations()[model@];
            &&& after.len() == before.len() + 1
            &&& after.drop_last() == before
            &&& after.last()->Fields_0["content"@] == JsonDoc::Text(reply@)
            &&& text is Some
            &&& text->0@ == pretty_text(after)
        },
        completion.content is None ==> final(state).conversations() == old(state).conversations()
            && text is None,
        completion.cost matches Some(cost) ==> final(state).usage() == old(state).usage().insert(
            model@,
            "cost: $"@ + cost@,
        ),
        completion.cost is None && completion.usage is None ==> final(state).usage() == old(
            state,
        ).usage(),
{
    crate::completion_laws::law_completion_holds_its_fields(completion);
    assert(text.deep_view() is Some <==> text is Some);
    if let Some(reply) = completion.content {
        crate::chat_laws::law_assistant_message_is_the_reply(reply@);
        let before = old(state).conversations()[model@];
        assert(before.push(crate::state::assistant_message(reply@)).drop_last() == before);
    }
}

/// The line that is set for a model is its line, and no other model's changes.
pub proof fn law_set_line_is_kept(state: &mut AppState, model: &str, usage: String, other: Seq<char>)
    requires
        call_ensures(AppState::set_usage, (state, model, usage), ()),
        other != model@,
    ensures
        final(state).usage().contains_key(model@),
        final(state).usage()[model@] == usage@,
        final(state).usage().contains_key(other) == old(state).usage().contains_key(other),
        old(state).usage().contains_key(other) ==> final(state).usage()[other] == old(
            state,
        ).usage()[other],
        final(state).conversations() == old(state).conversations(),
{
}

/// A model that is reset has no messages, in memory or in the text for its file; every other model
/// has those it had.
pub proof fn law_reset_leaves_no_messages(
    state: &mut AppState,
    model: &str,
    answer: (Value, String),
    other: Seq<char>,
)
    requires
        call_ensures(AppState::reset_conversation, (state, model), answer),
        other != model@,
    ensures
        final(state).conversations().contains_key(model@),
        final(state).conversations()[model@].len() == 0,
        crate::state::saved_messages(Some(answer.1@)).len() == 0,
        final(state).conversations().contains_key(other) == old(
            state,
        ).conversations().contains_key(other),
        old(state).conversations().contains_key(other) ==> final(state).conversations()[other]
            == old(state).conversations()[other],
        final(state).usage() == old(state).usage(),
{
}

/// The messages that a file holds are all read, in order; without a file, or where its text is no
/// list, there are none.
pub proof fn law_file_is_read_whole(disk: Option<&str>, messages: Vec<Value>)
    requires
        call_ensures(read_saved_messages, (disk,), messages),
    ensures
        disk is None ==> messages.len() == 0,
        disk matches Some(text) ==> match text_docs(text@) {
            Some(docs) => {
                &&& messages.len() == docs.len()
                &&& forall|i: int|
                    0 <= i < docs.len() ==> json_doc(#[trigger] messages@[i]) == docs[i]
            },
            None => messages.len() == 0,
        },
{
    let read = json_docs(messages@);
    assert(read.len() == messages@.len());
    assert(disk is Some ==> disk.deep_view() == Some(disk->0@));
    assert forall|i: int| 0 <= i < messages.len() implies json_doc(#[trigger] messages@[i])
        == read[i] by {}
}

/// The message that is made of a reply has it for its content.
pub proof fn law_made_message_is_the_reply(content: String, message: Value)
    requires
        call_ensures(new_assistant_message, (content,), message),
    ensures
        json_doc(message) is Fields,
        json_doc(message)->Fields_0.dom() == set!["role"@, "content"@],
        json_doc(message)->Fields_0["role"@] == JsonDoc::Text("assistant"@),
        json_doc(message)->Fields_0["content"@] == JsonDoc::Text(content@),
{
    crate::chat_laws::law_assistant_message_is_the_reply(content@);
}

// Documents
/// The document of a report lists every entry of it, in order.
pub proof fn law_document_lists_the_whole_report(report: &Vec<ModelUsage>, document: Value)
    requires
        call_ensures(usage_document, (report,), document),
    ensures
        ({
            let models = json_doc(document)->Fields_0["models"@]->List_0;
            &&& json_doc(document) is Fields
            &&& models.len() == report.len()
            &&& forall|i: int|
                0 <= i < report.len() ==> {
                    let entry = #[trigger] models[i];
                    &&& entry->Fields_0["model"@] == JsonDoc::Text(report@[i].model@)
                    &&& entry->Fields_0["message_count"@] == JsonDoc::Number(
                        JsonNumber::Unsigned(report@[i].message_count as u64),
                    )
                    &&& entry->Fields_0["last_usage"@] == JsonDoc::Text(report@[i].last_usage@)
                }
        }),
{
    law_usage_lists_the_whole_report(report@);
}

/// The document on usage has one entry for each conversation in memory: as many as there are, and
/// for every model one that tells its name, the number of its messages and its last line.
pub proof fn law_usage_document_lists_every_model(state: &AppState, document: Value)
    requires
        call_ensures(AppState::get_usage, (state,), document),
    ensures
        ({
            let models = json_doc(document)->Fields_0["models"@]->List_0;
            &&& json_doc(document) is Fields
            &&& state.conversations().dom().finite()
            &&& models.len() == state.conversations().dom().len()
            &&& forall|model: Seq<char>| #[trigger]
                state.conversations().contains_key(model) ==> exists|i: int|
                    0 <= i < models.len() && reports(
                        #[trigger] models[i],
                        model,
                        state.conversations(),
                        state.usage(),
                    )
            &&& forall|i: int|
                0 <= i < models.len() ==> reports_some(
                    #[trigger] models[i],
                    state.conversations(),
                    state.usage(),
                )
        }),
{
    let report = choose|report: Seq<ModelUsage>| #[trigger]
        is_usage_report(report, state.conversations(), state.usage()) && json_doc(document)
            == crate::documents::usage_doc(report);
    law_usage_lists_every_model(report, state.conversations(), state.usage());
}

/// The document of a conversation shows every message, in order, and their number.
pub proof fn law_document_shows_every_message(model: &str, messages: Vec<Value>, document: Value)
    requires
        call_ensures(conversation_document, (model, messages), document),
    ensures
        ({
            let shown = json_doc(document)->Fields_0["messages"@]->List_0;
            &&& json_doc(document)->Fields_0["model"@] == JsonDoc::Text(model@)
            &&& json_doc(document)->Fields_0["message_count"@] == JsonDoc::Number(
                JsonNumber::Unsigned(messages.len() as u64),
            )
            &&& shown.len() == messages.len()
            &&& forall|i: int|
                0 <= i < messages.len() ==> #[trigger] shown[i] == json_doc(messages@[i])
        }),
{
    law_conversation_shows_every_message(model@, json_docs(messages@));
}

/// The conversation of a model that is in memory is shown whole, whatever is on disk.
pub proof fn law_conversation_in_memory_is_shown(
    state: &AppState,
    model: &str,
    disk: Option<&str>,
    document: Value,
)
    requires
        call_ensures(AppState::get_conversation, (state, model, disk), document),
        state.conversations().contains_key(model@),
    ensures
        json_doc(document)->Fields_0["messages"@] == JsonDoc::List(state.conversations()[model@]),
        json_doc(document)->Fields_0["model"@] == JsonDoc::Text(model@),
{
    law_conversation_shows_every_message(model@, state.conversations()[model@]);
    assert(json_doc(document)->Fields_0["messages"@]->List_0 == state.conversations()[model@]);
}

// Whole ways through
/// Whether a line tells the tokens of a completion, each number in its place.
pub open spec fn tells_tokens(line: Seq<char>, usage: TokenUsage) -> bool {
    exists|prompt: Seq<char>, completion: Seq<char>, cached: Seq<char>|
        {
            &&& #[trigger] tells(line, prompt, completion, cached)
            &&& number_of(prompt) == usage.prompt
            &&& number_of(completion) == usage.completion
            &&& number_of(cached) == usage.cached
        }
}

proof fn lemma_tells_tokens(completion: Completion)
    requires
        completion.cost is None,
        completion.usage is Some,
    ensures
        kept_line(completion@) is Some,
        tells_tokens(kept_line(completion@)->0, completion.usage->0),
{
    crate::completion_laws::law_completion_holds_its_fields(completion);
    let usage = completion.usage->0;
    law_decimal_reads_back(usage.prompt as nat);
    law_decimal_reads_back(usage.completion as nat);
    law_decimal_reads_back(usage.cached as nat);
    assert(tells(
        kept_line(completion@)->0,
        decimal(usage.prompt as nat),
        decimal(usage.completion as nat),
        decimal(usage.cached as nat),
    ));
}

/// The line that a completion leaves is that of its cost, or else that of its tokens, or none.
pub proof fn law_line_of_a_completion(completion: &Completion, line: Option<String>)
    requires
        call_ensures(Completion::kept_line, (completion,), line),
    ensures
        completion.cost matches Some(cost) ==> line is Some && line->0@ == "cost: $"@ + cost@,
        completion.cost is None && completion.usage is Some ==> line is Some && tells_tokens(
            line->0@,
            completion.usage->0,
        ),
        completion.cost is None && completion.usage is None ==> line is None,
{
    crate::completion_laws::law_completion_holds_its_fields(*completion);
    assert(line is Some ==> line.deep_view() == Some(line->0@));
    if completion.cost is None && completion.usage is Some {
        lemma_tells_tokens(*completion);
    }
}

/// A chunk or a whole completion that tells tokens and no cost leaves a line that tells them.
pub proof fn law_told_tokens_are_kept(
    tracker: &mut StreamTracker,
    chunk: &Completion,
    state: &mut AppState,
    model: &str,
    completion: Completion,
    disk: Option<&str>,
    text: Option<String>,
)
    requires
        call_ensures(StreamTracker::track_chunk, (tracker, chunk), ()),
        call_ensures(AppState::record_completion, (state, model, completion, disk), text),
        chunk.cost is None,
        chunk.usage is Some,
        completion.cost is None,
        completion.usage is Some,
    ensures
        tells_tokens(final(tracker).track().usage, chunk.usage->0),
        final(state).usage().contains_key(model@),
        tells_tokens(final(state).usage()[model@], completion.usage->0),
{
    lemma_tells_tokens(*chunk);
    lemma_tells_tokens(completion);
}

/// A text of one line of JSON behind `data: ` is tracked by what the JSON says; a text of any other
/// line says nothing.
pub proof fn law_tracked_text_is_its_data(
    tracker: &mut StreamTracker,
    text: &str,
    data: Seq<char>,
    piece: Seq<char>,
)
    requires
        call_ensures(StreamTracker::track_text, (tracker, text), ()),
        text@.len() > 0,
        !text@.contains('\n'),
    ensures
        ({
            &&& text@ == "data: "@ + data
            &&& data != "[DONE]"@
            &&& text_doc(data) matches Some(doc)
            &&& (doc matches JsonDoc::Fields(fields) ==> !fields.contains_key("error"@))
            &&& says(doc, "delta"@, piece)
        }) ==> final(tracker).track().reply == old(tracker).track().reply + piece,
        (forall|rest: Seq<char>| #[trigger] ("data: "@ + rest) != text@)
            ==> final(tracker).track() == old(tracker).track(),
        final(tracker).pending() == old(tracker).pending(),
{
    let track = old(tracker).track();
    if text@.last() != '\r' {
        law_lines_are_tracked_in_order(track, text@, Seq::empty());
    } else {
        law_lines(text@, Seq::empty());
        assert(seq![text@].drop_last() == Seq::<Seq<char>>::empty());
        assert(after_lines(track, seq![text@].drop_last()) == track);
    }
    law_data_lines_are_tracked(track, text@, data);
    if text_doc(data) is Some {
        let doc = text_doc(data)->0;
        if (doc matches JsonDoc::Fields(fields) ==> !fields.contains_key("error"@)) {
            law_chunk_is_tracked(track, doc, piece);
        }
    }
}

/// Events that are fed, in whatever company of earlier bytes, add each its piece to the reply, in
/// order; what is behind them is held back.
pub proof fn law_fed_events_add_their_pieces(
    tracker: &mut StreamTracker,
    bytes: &[u8],
    out: Vec<Vec<u8>>,
    sent: Seq<Seq<u8>>,
    data: Seq<Seq<char>>,
    pieces: Seq<Seq<char>>,
    rest: Seq<u8>,
)
    requires
        call_ensures(StreamTracker::feed, (tracker, bytes), out),
        old(tracker).pending() + bytes@ == on_the_wire(sent) + rest,
        sent.len() == data.len() == pieces.len(),
        forall|i: int| 0 <= i < sent.len() ==> #[trigger] brings(sent[i], data[i], pieces[i]),
        forall|i: int|
            0 <= i < sent.len() ==> {
                let event = #[trigger] sent[i];
                !has_empty_line(event) && (event.len() == 0 || event.last() != 10)
            },
        !has_empty_line(rest),
    ensures
        final(tracker).track().reply == old(tracker).track().reply + pieces.flatten(),
        final(tracker).pending() == rest,
        out.len() == sent.len(),
        forall|i: int|
            0 <= i < sent.len() ==> #[trigger] out@[i]@ == sent[i] + seq![10u8, 10u8],
{
    law_sent_events_are_found(sent, rest);
    law_reply_is_all_pieces(old(tracker).track(), sent, data, pieces);
    let runs = byte_runs(out@);
    assert(runs.len() == out.len());
    assert forall|i: int| 0 <= i < sent.len() implies #[trigger] out@[i]@ == sent[i] + seq![
        10u8,
        10u8,
    ] by {
        assert(runs[i] == out@[i]@);
    }
}

/// Where nothing is in memory, a reply is appended to the messages that the model's file holds, by
/// whatever way it came.
pub proof fn law_reply_is_appended_to_the_file(
    appended: &mut AppState,
    streamed: &mut AppState,
    collected: &mut AppState,
    model: &str,
    content: String,
    end: StreamEnd,
    completion: Completion,
    disk: &str,
    text: String,
    streamed_text: Option<String>,
    collected_text: Option<String>,
    docs: Seq<JsonDoc>,
)
    requires
        call_ensures(AppState::append_assistant, (appended, model, content, Some(disk)), text),
        call_ensures(AppState::record_stream, (streamed, model, end, Some(disk)), streamed_text),
        call_ensures(
            AppState::record_completion,
            (collected, model, completion, Some(disk)),
            collected_text,
        ),
        !old(appended).conversations().contains_key(model@),
        !old(streamed).conversations().contains_key(model@),
        !old(collected).conversations().contains_key(model@),
        end.reply is Some,
        completion.content is Some,
        text_docs(disk@) == Some(docs),
    ensures
        final(appended).conversations()[model@].len() == docs.len() + 1,
        final(appended).conversations()[model@].drop_last() == docs,
        final(appended).conversations()[model@].last()->Fields_0["content"@] == JsonDoc::Text(
            content@,
        ),
        final(streamed).conversations()[model@].drop_last() == docs,
        final(streamed).conversations()[model@].last()->Fields_0["content"@] == JsonDoc::Text(
            end.reply->0@,
        ),
        final(collected).conversations()[model@].drop_last() == docs,
        final(collected).conversations()[model@].last()->Fields_0["content"@] == JsonDoc::Text(
            completion.content->0@,
        ),
{
    let given: Option<&str> = Some(disk);
    assert(given.deep_view() == Some(disk@));
    crate::completion_laws::law_completion_holds_its_fields(completion);
    assert(end.reply.deep_view() == Some(end.reply->0@));
    crate::chat_laws::law_assistant_message_is_the_reply(content@);
    crate::chat_laws::law_assistant_message_is_the_reply(end.reply->0@);
    crate::chat_laws::law_assistant_message_is_the_reply(completion.content->0@);
    assert(docs.push(crate::state::assistant_message(content@)).drop_last() == docs);
    assert(docs.push(crate::state::assistant_message(end.reply->0@)).drop_last() == docs);
    assert(docs.push(crate::state::assistant_message(completion.content->0@)).drop_last() == docs);
}

/// The tokens that a collected answer tells are those that its `usage` names; its cost, where it
/// tells one, is kept in their place.
pub proof fn law_collected_answer_leaves_its_line(
    state: &mut AppState,
    model: &str,
    content_type: Option<String>,
    body: Vec<u8>,
    disk: Option<&str>,
    answer: (Reply, Option<String>),
    fields: Map<Seq<char>, JsonDoc>,
    usage: Map<Seq<char>, JsonDoc>,
)
    requires
        call_ensures(
            AppState::non_stream_response,
            (state, model, content_type, Ok(body), disk),
            answer,
        ),
        slice_doc(body@) == Ok::<JsonDoc, Seq<char>>(JsonDoc::Fields(fields)),
    ensures
        fields.contains_key("cost"@) ==> final(state).usage() == old(state).usage().insert(
            model@,
            "cost: $"@ + doc_text(fields["cost"@]),
        ),
        !fields.contains_key("cost"@) && fields.contains_key("usage"@) && fields["usage"@]
            == JsonDoc::Fields(usage) ==> {
            &&& final(state).usage().contains_key(model@)
            &&& exists|prompt: Seq<char>, completion: Seq<char>, cached: Seq<char>|
                {
                    &&& #[trigger] tells(
                        final(state).usage()[model@],
                        prompt,
                        completion,
                        cached,
                    )
                    &&& number_of(prompt) == number_at(usage, "prompt_tokens"@)
                    &&& number_of(completion) == number_at(usage, "completion_tokens"@)
                    &&& number_of(cached) == number_at(
                        object_at(usage, "prompt_tokens_details"@),
                        "cached_tokens"@,
                    )
                }
        },
        !fields.contains_key("cost"@) && !fields.contains_key("usage"@) ==> final(state).usage()
            == old(state).usage(),
{
    if fields.contains_key("cost"@) {
        law_kept_line_tells_the_cost(fields, "message"@);
    } else if fields.contains_key("usage"@) && fields["usage"@] == JsonDoc::Fields(usage) {
        law_kept_line_tells_the_tokens(fields, usage, "message"@);
        let line = kept_line(completion_of(JsonDoc::Fields(fields), "message"@))->0;
        assert(final(state).usage()[model@] == line);
        let (prompt, completion, cached) = choose|
            prompt: Seq<char>,
            completion: Seq<char>,
            cached: Seq<char>,
        |
            {
                &&& #[trigger] tells(line, prompt, completion, cached)
                &&& number_of(prompt) == number_at(usage, "prompt_tokens"@)
                &&& number_of(completion) == number_at(usage, "completion_tokens"@)
                &&& number_of(cached) == number_at(
                    object_at(usage, "prompt_tokens_details"@),
                    "cached_tokens"@,
                )
            };
        assert(tells(final(state).usage()[model@], prompt, completion, cached));
    } else if !fields.contains_key("usage"@) {
        law_nothing_told_is_nothing_kept(JsonDoc::Fields(fields), "message"@);
    }
}

/// What is read from an answer that is JSON is what is read from the message of its first choice.
pub proof fn law_answer_with_json_is_read(value: Value, completion: Completion, text: Seq<char>)
    requires
        call_ensures(read_answer, (Ok(value),), completion),
        says(json_doc(value), "message"@, text),
    ensures
        completion.content is Some,
        completion.content->0@ == text,
{
    law_reply_is_that_of_the_first_choice(json_doc(value), "message"@);
    assert(completion@.content == completion.content.deep_view());
    assert(completion.content is Some ==> completion.content.deep_view() == Some(
        completion.content->0@,
    ));
}

/// The request that goes out for a client asks for what the client asked for, with the session and
/// the project that the client names.
pub proof fn law_outgoing_request_is_for_the_client(
    state: &mut AppState,
    client: &HeaderMap<HeaderValue>,
    body: Vec<u8>,
    start: Result<ForwardedChat, Reply>,
    fields: Map<Seq<char>, JsonDoc>,
)
    requires
        call_ensures(AppState::chat_completions, (state, client, body), start),
        body@.len() > 0,
        slice_doc(body@) == Ok::<JsonDoc, Seq<char>>(JsonDoc::Fields(fields)),
        headers_sendable(old(state).settings(), *client),
    ensures
        start is Ok,
        start->Ok_0.request is Some,
        ({
            let asked = fields.contains_key("stream"@) && fields["stream"@] == JsonDoc::Bool(true);
            let entries = header_entries(start->Ok_0.request->0.headers);
            &&& asked ==> entries["accept"@] == seq![encode_utf8("text/event-stream"@)]
            &&& !asked ==> entries["accept"@] == seq![encode_utf8("application/json"@)]
            &&& header_text(*client, "x-opencode-session"@) matches Some(session)
                ==> entries["x-opencode-session"@] == seq![encode_utf8(session)]
            &&& header_text(*client, "x-opencode-project"@) matches Some(project)
                ==> entries["x-opencode-project"@] == seq![encode_utf8(project)]
        }),
{
    law_model_and_stream_are_those_named(fields);
    let is_stream = chat_of(JsonDoc::Fields(fields)).is_stream;
    let config = old(state).settings();
    let entries = header_entries(start->Ok_0.request->0.headers);
    let id = choose|id: Seq<char>| #[trigger]
        is_request_id(id) && entries == upstream_entries(config, *client, is_stream, id);
    law_wire_headers(config, *client, is_stream, id);
    law_session_and_project_are_sent(config, *client, is_stream, id);
}

/// What is written to a model's file when messages are saved is all of them.
pub proof fn law_saved_text_is_every_message(
    state: &mut AppState,
    model: &str,
    messages: Vec<Value>,
    text: String,
)
    requires
        call_ensures(AppState::save_messages, (state, model, messages), text),
    ensures
        text@ == pretty_text(final(state).conversations()[model@]),
        final(state).conversations()[model@].len() == messages.len(),
        final(state).settings() == old(state).settings(),
{
    assert(json_docs(messages@).len() == messages@.len());
}

/// The answer to a reset names the model that was reset.
pub proof fn law_reset_is_answered(state: &mut AppState, model: &str, answer: (Value, String))
    requires
        call_ensures(AppState::reset_conversation, (state, model), answer),
    ensures
        json_doc(answer.0)->Fields_0["status"@] == JsonDoc::Text("reset"@),
        json_doc(answer.0)->Fields_0["model"@] == JsonDoc::Text(model@),
{
    law_reset_names_the_model(model@);
}

/// The conversation of a model of which nothing is in memory is shown as its file holds it.
pub proof fn law_conversation_on_disk_is_shown(
    state: &AppState,
    model: &str,
    disk: &str,
    document: Value,
    docs: Seq<JsonDoc>,
)
    requires
        call_ensures(AppState::get_conversation, (state, model, Some(disk)), document),
        !state.conversations().contains_key(model@),
        text_docs(disk@) == Some(docs),
    ensures
        json_doc(document)->Fields_0["messages"@] == JsonDoc::List(docs),
        json_doc(document)->Fields_0["message_count"@] == JsonDoc::Number(
            JsonNumber::Unsigned(docs.len() as u64),
        ),
{
    let given: Option<&str> = Some(disk);
    assert(given.deep_view() == Some(disk@));
    law_conversation_shows_every_message(model@, docs);
    assert(json_doc(document)->Fields_0["messages"@]->List_0 == docs);
}

} // verus!
