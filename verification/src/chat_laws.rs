//! What holds of requests for completions and of the answers to them, whatever they say.

use crate::completion_laws::{law_reply_is_that_of_the_first_choice, says};
use crate::json::{
    all_read_back, json_docs, pretty_text, reads_back, slice_doc, starts_raw, text_docs, JsonDoc,
};
use crate::routes::{
    chat_of, conversations_with, refusal, relayed_reply, stream_entries, text_reply, tracked_of,
    treatment_of, AcceptedChat, ChatRequest, Reply, Treatment,
};
use crate::state::{
    assistant_message, conversations_after, messages_of, saved_messages, text_after, usage_after,
};
use crate::text_laws::{law_text_is_found, whole_of};
use serde_json::Value;
use vstd::prelude::*;
use vstd::utf8::encode_utf8;

verus! {

/// The messages of a request are its list of messages, as long and in the same order, whatever
/// its length; a request without such a list has none.
pub proof fn law_messages_are_the_whole_list(fields: Map<Seq<char>, JsonDoc>)
    ensures
        fields.contains_key("messages"@) && fields["messages"@] is List ==> {
            let list = fields["messages"@]->List_0;
            let messages = chat_of(JsonDoc::Fields(fields)).messages;
            &&& messages is Some
            &&& messages->0.len() == list.len()
            &&& forall|i: int| 0 <= i < list.len() ==> #[trigger] messages->0[i] == list[i]
        },
        !(fields.contains_key("messages"@) && fields["messages"@] is List) ==> chat_of(
            JsonDoc::Fields(fields),
        ).messages is None,
{
}

/// The model of a request is the text under `model`, or `unknown`, and a stream is asked for
/// exactly where `stream` is true.
pub proof fn law_model_and_stream_are_those_named(fields: Map<Seq<char>, JsonDoc>)
    ensures
        ({
            let chat = chat_of(JsonDoc::Fields(fields));
            &&& fields.contains_key("model"@) && fields["model"@] is Text ==> chat.model
                == fields["model"@]->Text_0
            &&& !(fields.contains_key("model"@) && fields["model"@] is Text) ==> chat.model
                == "unknown"@
            &&& chat.is_stream <==> fields.contains_key("stream"@) && fields["stream"@]
                == JsonDoc::Bool(true)
        }),
{
}

/// A body that is JSON but no object is a request of the model `unknown`, without messages, that
/// asks for no stream.
pub proof fn law_body_without_fields(doc: JsonDoc)
    requires
        !(doc is Fields),
    ensures
        chat_of(doc).model == "unknown"@,
        !chat_of(doc).is_stream,
        chat_of(doc).messages is None,
{
}

/// The conversation that a request leaves its model with is the request's list of messages: as
/// many as the list has elements, and each of them in its place, whatever there was before. No
/// other model has more, less or other messages than before.
pub proof fn law_request_saves_every_message(
    conversations: Map<Seq<char>, Seq<JsonDoc>>,
    fields: Map<Seq<char>, JsonDoc>,
    model: Seq<char>,
    list: Seq<JsonDoc>,
    other: Seq<char>,
)
    requires
        fields.contains_key("model"@),
        fields["model"@] == JsonDoc::Text(model),
        fields.contains_key("messages"@),
        fields["messages"@] == JsonDoc::List(list),
        other != model,
    ensures
        ({
            let after = conversations_with(conversations, chat_of(JsonDoc::Fields(fields)));
            &&& after.contains_key(model)
            &&& after[model].len() == list.len()
            &&& forall|i: int| 0 <= i < list.len() ==> #[trigger] after[model][i] == list[i]
            &&& after.contains_key(other) == conversations.contains_key(other)
            &&& conversations.contains_key(other) ==> after[other] == conversations[other]
        }),
{
}

/// A request without a list of messages leaves every conversation as it was.
pub proof fn law_request_without_messages_saves_nothing(
    conversations: Map<Seq<char>, Seq<JsonDoc>>,
    fields: Map<Seq<char>, JsonDoc>,
)
    requires
        !(fields.contains_key("messages"@) && fields["messages"@] is List),
    ensures
        conversations_with(conversations, chat_of(JsonDoc::Fields(fields))) == conversations,
{
}

/// An accepted request is that of the client: its model and stream flag, the number of its
/// messages, and the text that all of them print as, in order.
pub proof fn law_accepted_request_is_the_clients(
    accepted: AcceptedChat,
    fields: Map<Seq<char>, JsonDoc>,
    list: Seq<JsonDoc>,
)
    requires
        fields.contains_key("messages"@),
        fields["messages"@] == JsonDoc::List(list),
        accepted.follows(chat_of(JsonDoc::Fields(fields))),
    ensures
        accepted.message_count == list.len(),
        accepted.text is Some,
        accepted.text->0@ == pretty_text(list),
        fields.contains_key("model"@) && fields["model"@] is Text ==> accepted.model@
            == fields["model"@]->Text_0,
        accepted.is_stream <==> fields.contains_key("stream"@) && fields["stream"@]
            == JsonDoc::Bool(true),
        all_read_back(list) ==> saved_messages(Some(accepted.text->0@)) == list,
{
}

/// What a request holds is what its fields hold.
pub proof fn law_request_holds_its_fields(request: ChatRequest)
    ensures
        request@.model == request.model@,
        request@.is_stream == request.is_stream,
        request.messages is None ==> request@.messages is None,
        request.messages matches Some(messages) ==> request@.messages == Some(json_docs(messages@)),
{
}

/// A run of values holds as many documents as it has values.
pub proof fn law_every_value_counts(values: Seq<Value>)
    ensures
        json_docs(values).len() == values.len(),
        forall|i: int|
            0 <= i < values.len() ==> #[trigger] json_docs(values)[i] == crate::json::json_doc(
                values[i],
            ),
{
}

/// A body is refused exactly where it is empty or no JSON, and the answer is then a text of status
/// 400 that tells why.
pub proof fn law_only_bodies_without_json_are_refused(body: Seq<u8>)
    ensures
        refusal(body) is Some <==> body.len() == 0 || slice_doc(body) is Err,
        refusal(body) matches Some(reply) ==> reply.status == 400 && reply.content_type
            == "text/plain; charset=utf-8"@,
        body.len() == 0 ==> refusal(body)->0.body == encode_utf8("empty request body"@),
        body.len() > 0 && slice_doc(body) is Err ==> refusal(body)->0.body == encode_utf8(
            "invalid JSON: "@ + slice_doc(body)->Err_0,
        ),
{
}

/// An answer is relayed exactly where its status is none of success: only a status from 200 up to
/// 299 is ever streamed or collected.
pub proof fn law_only_success_is_tracked(
    status: u16,
    is_stream: bool,
    content_type: Option<Seq<char>>,
)
    ensures
        treatment_of(status, is_stream, content_type) == Treatment::Relay <==> status < 200
            || status >= 300,
        treatment_of(status, is_stream, content_type) == Treatment::Stream ==> 200 <= status <= 299,
        treatment_of(status, is_stream, content_type) == Treatment::Collect ==> 200 <= status
            <= 299,
{
}

/// An answer of success is streamed exactly where the client asked for a stream and the content
/// type has the name of one anywhere in it; else it is collected.
pub proof fn law_streams_are_asked_for_and_named(
    status: u16,
    is_stream: bool,
    content_type: Option<Seq<char>>,
)
    requires
        200 <= status <= 299,
    ensures
        treatment_of(status, is_stream, content_type) == Treatment::Stream <==> is_stream
            && content_type is Some && exists|before: Seq<char>, after: Seq<char>| #[trigger]
            whole_of(before, "text/event-stream"@, after) == content_type->0,
        treatment_of(status, is_stream, content_type) != Treatment::Stream ==> treatment_of(
            status,
            is_stream,
            content_type,
        ) == Treatment::Collect,
        !is_stream ==> treatment_of(status, is_stream, content_type) == Treatment::Collect,
{
    if content_type is Some {
        law_text_is_found(content_type->0, "text/event-stream"@);
    }
}

/// An answer that is handed on keeps its status and every byte of its body, and its content type
/// where it names one.
pub proof fn law_relay_keeps_the_answer(
    status: u16,
    content_type: Option<Seq<char>>,
    body: Seq<u8>,
)
    ensures
        relayed_reply(status, content_type, body).status == status,
        relayed_reply(status, content_type, body).body == body,
        content_type matches Some(named) ==> relayed_reply(status, content_type, body).content_type
            == named,
        content_type is None ==> relayed_reply(status, content_type, body).content_type
            == "application/json"@,
{
}

/// An answer that is a text has that text for its body.
pub proof fn law_text_reply_is_the_text(status: u16, text: Seq<char>)
    ensures
        text_reply(status, text).status == status,
        text_reply(status, text).body == encode_utf8(text),
        text_reply(status, text).content_type == "text/plain; charset=utf-8"@,
{
}

/// What an answer holds is what its fields hold.
pub proof fn law_reply_holds_its_fields(reply: Reply)
    ensures
        reply@.status == reply.status,
        reply@.content_type == reply.content_type@,
        reply@.body == reply.body@,
{
}

/// A collected answer brings the text of the message of its first choice, character for
/// character; one that is no JSON brings nothing.
pub proof fn law_collected_reply_is_the_message(
    conversations: Map<Seq<char>, Seq<JsonDoc>>,
    model: Seq<char>,
    doc: JsonDoc,
    reply: Seq<char>,
    saved: Seq<JsonDoc>,
    error: Seq<char>,
)
    ensures
        says(doc, "message"@, reply) ==> {
            let told = tracked_of(Ok(doc));
            let after = conversations_after(conversations, model, told.content, saved);
            &&& after.contains_key(model)
            &&& after[model] == messages_of(conversations, model, saved).push(
                assistant_message(reply),
            )
        },
        (forall|text: Seq<char>| !says(doc, "message"@, text)) ==> conversations_after(
            conversations,
            model,
            tracked_of(Ok(doc)).content,
            saved,
        ) == conversations,
        tracked_of(Err(error)).content is None,
        tracked_of(Err(error)).usage is None,
        tracked_of(Err(error)).cost is None,
{
    law_reply_is_that_of_the_first_choice(doc, "message"@);
    if let Some(text) = tracked_of(Ok(doc)).content {
        assert(says(doc, "message"@, text));
    }
}

/// The message of a reply has the role of the assistant and the reply for its content, and nothing
/// else.
pub proof fn law_assistant_message_is_the_reply(reply: Seq<char>)
    ensures
        ({
            let message = assistant_message(reply);
            &&& message is Fields
            &&& message->Fields_0.dom() == set!["role"@, "content"@]
            &&& message->Fields_0["role"@] == JsonDoc::Text("assistant"@)
            &&& message->Fields_0["content"@] == JsonDoc::Text(reply)
        }),
{
    reveal_strlit("role");
    reveal_strlit("content");
    assert("role"@.len() == 4);
    assert("content"@.len() == 7);
    assert(assistant_message(reply)->Fields_0.dom() =~= set!["role"@, "content"@]);
}

/// The messages on disk are those that the text of the file holds, all of them and in order; there
/// are none where there is no file or its text is no list.
pub proof fn law_messages_on_disk_are_those_in_the_file(text: Seq<char>)
    ensures
        text_docs(text) matches Some(docs) ==> saved_messages(Some(text)) == docs,
        text_docs(text) is None ==> saved_messages(Some(text)).len() == 0,
        saved_messages(None).len() == 0,
{
}

/// What is written to a model's file is all that its conversation holds in memory; without a reply
/// nothing is written, and nothing changes in memory.
pub proof fn law_file_follows_memory(
    conversations: Map<Seq<char>, Seq<JsonDoc>>,
    model: Seq<char>,
    reply: Option<Seq<char>>,
    saved: Seq<JsonDoc>,
)
    ensures
        reply is Some ==> text_after(conversations, model, reply, saved) == Some(
            pretty_text(conversations_after(conversations, model, reply, saved)[model]),
        ),
        reply is None ==> text_after(conversations, model, reply, saved) is None,
        reply is None ==> conversations_after(conversations, model, reply, saved) == conversations,
{
}

/// The line on tokens or cost of a model is the last that was told of it.
pub proof fn law_last_line_is_kept(
    usage: Map<Seq<char>, Seq<char>>,
    model: Seq<char>,
    first: Seq<char>,
    last: Seq<char>,
)
    ensures
        usage_after(usage_after(usage, model, Some(first)), model, Some(last)).contains_key(model),
        usage_after(usage_after(usage, model, Some(first)), model, Some(last))[model] == last,
        usage_after(usage_after(usage, model, Some(last)), model, None)[model] == last,
        usage_after(usage, model, None) == usage,
{
}

/// Messages whose fields are texts, as those of a conversation in text are, can be read back from
/// disk, however many there are.
pub proof fn law_text_messages_read_back(messages: Seq<JsonDoc>)
    requires
        forall|i: int|
            0 <= i < messages.len() ==> {
                let message = #[trigger] messages[i];
                &&& message is Fields
                &&& !message->Fields_0.contains_key("$serde_json::private::RawValue"@)
                &&& forall|name: Seq<char>| #[trigger]
                    message->Fields_0.contains_key(name) ==> message->Fields_0[name] is Text
            },
    ensures
        all_read_back(messages),
{
    reveal_with_fuel(reads_back, 2);
    assert forall|i: int| 0 <= i < messages.len() implies #[trigger] reads_back(
        messages[i],
        126,
    ) by {
        assert(!starts_raw(messages[i]->Fields_0));
    }
}

/// A stream is answered with a media type of its own, is not cached, and keeps its connection; it
/// has no other headers.
pub proof fn law_stream_headers()
    ensures
        stream_entries().dom() == set!["content-type"@, "cache-control"@, "connection"@],
        stream_entries()["content-type"@] == seq![encode_utf8("text/event-stream"@)],
        stream_entries()["cache-control"@] == seq![encode_utf8("no-cache"@)],
        stream_entries()["connection"@] == seq![encode_utf8("keep-alive"@)],
{
    reveal_strlit("content-type");
    reveal_strlit("cache-control");
    reveal_strlit("connection");
    assert("content-type"@.len() == 12);
    assert("cache-control"@.len() == 13);
    assert("connection"@.len() == 10);
    assert(stream_entries().dom() =~= set!["content-type"@, "cache-control"@, "connection"@]);
}

} // verus!
