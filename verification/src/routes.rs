//! What the routes of the proxy answer, and what they do to its state.

use crate::completion::{completion_of, kept_line, read_completion, Completion, CompletionView};
use crate::headers::{
    header_entries, header_text, new_headers, no_entries, read_header, write_header,
};
use crate::json::{
    all_read_back, copy_values, field_of, json_doc, json_docs, parse_slice, pretty_text, slice_doc,
    text_in, JsonDoc,
};
use crate::state::{conversations_after, saved_messages, text_after, usage_after, AppState};
use crate::text::{contains_text, has_text};
use crate::upstream::{can_send_headers, headers_sendable, UpstreamRequest};
use axum::http::{HeaderMap, HeaderValue};
use serde_json::Value;
use vstd::prelude::*;
use vstd::string::*;
use vstd::utf8::encode_utf8;

verus! {

/// An answer to the client.
#[derive(Debug)]
pub struct Reply {
    pub status: u16,
    pub content_type: String,
    pub body: Vec<u8>,
}

/// What a [`Reply`] holds.
#[verifier::ext_equal]
pub struct ReplyView {
    pub status: u16,
    pub content_type: Seq<char>,
    pub body: Seq<u8>,
}

impl View for Reply {
    type V = ReplyView;

    open spec fn view(&self) -> ReplyView {
        ReplyView {
            status: self.status,
            content_type: self.content_type@,
            body: self.body@,
        }
    }
}

/// An answer that is a text.
pub open spec fn text_reply(status: u16, text: Seq<char>) -> ReplyView {
    ReplyView { status, content_type: "text/plain; charset=utf-8"@, body: encode_utf8(text) }
}

/// An answer of the upstream, handed on: its body as it is, and its content type, or that of JSON
/// where it names none.
pub open spec fn relayed_reply(
    status: u16,
    content_type: Option<Seq<char>>,
    body: Seq<u8>,
) -> ReplyView {
    ReplyView {
        status,
        content_type: match content_type {
            Some(content_type) => content_type,
            None => "application/json"@,
        },
        body,
    }
}

fn new_text_reply(status: u16, text: &str) -> (reply: Reply)
    ensures
        reply@ == text_reply(status, text@),
{
    Reply {
        status,
        content_type: "text/plain; charset=utf-8".to_string(),
        body: text.as_bytes_vec(),
    }
}

fn bad_gateway(what: &str, error: &str) -> (reply: Reply)
    ensures
        reply@ == text_reply(502, what@ + error@),
{
    let mut text = what.to_string();
    text.append(error);
    new_text_reply(502, text.as_str())
}

/// Hands an answer of the upstream on.
pub fn relay_reply(status: u16, content_type: Option<String>, body: Vec<u8>) -> (reply: Reply)
    ensures
        reply@ == relayed_reply(status, content_type.deep_view(), body@),
{
    let content_type = match content_type {
        Some(content_type) => content_type,
        None => "application/json".to_string(),
    };
    Reply { status, content_type, body }
}

/// The content type that some headers name, if they name one in plain text.
pub fn content_type(headers: &HeaderMap<HeaderValue>) -> (content_type: Option<String>)
    ensures
        content_type.deep_view() == header_text(*headers, "content-type"@),
{
    proof {
        reveal_strlit("content-type");
    }
    read_header(headers, "content-type")
}

/// An answer of the upstream that has been read to its end.
#[derive(Debug)]
pub struct UpstreamAnswer {
    pub status: u16,
    pub content_type: Option<String>,
    pub body: Vec<u8>,
}

/// GET /v1/models — forward to upstream /models
///
/// Takes what came of the request: the answer of the upstream, which is handed on, or why it could
/// not be reached.
pub fn list_models(outcome: Result<UpstreamAnswer, String>) -> (reply: Reply)
    ensures
        reply@ == match outcome {
            Ok(answer) => relayed_reply(
                answer.status,
                answer.content_type.deep_view(),
                answer.body@,
            ),
            Err(error) => text_reply(502, "upstream connection failed: "@ + error@),
        },
{
    match outcome {
        Ok(answer) => relay_reply(answer.status, answer.content_type, answer.body),
        Err(error) => bad_gateway("upstream connection failed: ", error.as_str()),
    }
}

/// What a request for a completion says.
pub struct ChatRequest {
    pub model: String,
    pub is_stream: bool,
    /// The messages; `None` where the request has no list of them.
    pub messages: Option<Vec<Value>>,
}

/// What a [`ChatRequest`] holds.
#[verifier::ext_equal]
pub struct ChatView {
    pub model: Seq<char>,
    pub is_stream: bool,
    pub messages: Option<Seq<JsonDoc>>,
}

impl View for ChatRequest {
    type V = ChatView;

    open spec fn view(&self) -> ChatView {
        ChatView {
            model: self.model@,
            is_stream: self.is_stream,
            messages: match self.messages {
                Some(messages) => Some(json_docs(messages@)),
                None => None,
            },
        }
    }
}

/// What the document of a request for a completion says. A model that is not named by a text is
/// `unknown`, and only a `stream` that is true asks for a stream.
pub open spec fn chat_of(doc: JsonDoc) -> ChatView {
    ChatView {
        model: match text_in(doc.field("model"@)) {
            Some(model) => model,
            None => "unknown"@,
        },
        is_stream: doc.field("stream"@) == Some(JsonDoc::Bool(true)),
        messages: match doc.field("messages"@) {
            Some(messages) => messages.elements(),
            None => None,
        },
    }
}

/// Reads a request for a completion.
pub fn read_chat(value: &Value) -> (chat: ChatRequest)
    ensures
        chat@ == chat_of(json_doc(*value)),
{
    let named = match field_of(value, "model") {
        Some(model) => model.as_str(),
        None => None,
    };
    let model = match named {
        Some(model) => model.to_string(),
        None => "unknown".to_string(),
    };
    let asked = match field_of(value, "stream") {
        Some(stream) => stream.as_bool(),
        None => None,
    };
    let is_stream = match asked {
        Some(stream) => stream,
        None => false,
    };
    let messages = match field_of(value, "messages") {
        Some(messages) => match messages.as_array() {
            Some(messages) => Some(copy_values(messages)),
            None => None,
        },
        None => None,
    };
    ChatRequest { model, is_stream, messages }
}

/// A request for a completion that is to be sent on.
#[derive(Debug)]
pub struct AcceptedChat {
    pub model: String,
    pub is_stream: bool,
    /// The number of messages of the request.
    pub message_count: usize,
    /// The text to write to the file of the model, if any.
    pub text: Option<String>,
}

impl AcceptedChat {
    /// Whether this is what a request says, with the number of its messages and the text to save
    /// them by. That text gives the messages back, if each of them is one that can be read back.
    pub open spec fn follows(self, chat: ChatView) -> bool {
        &&& self.model@ == chat.model
        &&& self.is_stream == chat.is_stream
        &&& match chat.messages {
            Some(messages) => {
                &&& self.message_count == messages.len()
                &&& self.text.deep_view() == Some(pretty_text(messages))
                &&& all_read_back(messages) ==> saved_messages(self.text.deep_view()) == messages
            },
            None => self.message_count == 0 && self.text is None,
        }
    }
}

/// A request for a completion that was accepted, and the request to the upstream that goes out for
/// it.
#[derive(Debug)]
pub struct ForwardedChat {
    pub chat: AcceptedChat,
    /// The request to send; `None` where a header of it cannot be sent.
    pub request: Option<UpstreamRequest>,
}

/// The answer to a request that is refused because of its body, if it is.
pub open spec fn refusal(body: Seq<u8>) -> Option<ReplyView> {
    if body.len() == 0 {
        Some(text_reply(400, "empty request body"@))
    } else {
        match slice_doc(body) {
            Ok(_) => None,
            Err(error) => Some(text_reply(400, "invalid JSON: "@ + error)),
        }
    }
}

/// The conversations once the messages of a request, if it has any, took the place of those of
/// its model.
pub open spec fn conversations_with(
    conversations: Map<Seq<char>, Seq<JsonDoc>>,
    chat: ChatView,
) -> Map<Seq<char>, Seq<JsonDoc>> {
    match chat.messages {
        Some(messages) => conversations.insert(chat.model, messages),
        None => conversations,
    }
}

/// How an answer of the upstream to a request for a completion is treated.
#[derive(Clone, Copy, Debug, PartialEq, Eq, Structural)]
pub enum Treatment {
    /// It is an error: it is handed on.
    Relay,
    /// It is a stream, as was asked for: its events are handed on and tracked.
    Stream,
    /// It is read to its end, tracked and handed on.
    Collect,
}

/// How an answer is treated: an error is any that has no status of success, and a stream is one
/// that was asked for and that the content type names.
pub open spec fn treatment_of(
    status: u16,
    is_stream: bool,
    content_type: Option<Seq<char>>,
) -> Treatment {
    if !(200 <= status < 300) {
        Treatment::Relay
    } else if is_stream && content_type is Some && contains_text(
        content_type->0,
        "text/event-stream"@,
    ) {
        Treatment::Stream
    } else {
        Treatment::Collect
    }
}

/// Tells how an answer of the upstream is treated.
pub fn treat_answer(status: u16, is_stream: bool, content_type: Option<&str>) -> (treatment:
    Treatment)
    ensures
        treatment == treatment_of(status, is_stream, content_type.deep_view()),
{
    if status < 200 || status >= 300 {
        return Treatment::Relay;
    }
    let named = match content_type {
        Some(content_type) => has_text(content_type, "text/event-stream"),
        None => false,
    };
    if is_stream && named {
        Treatment::Stream
    } else {
        Treatment::Collect
    }
}

/// The answer to a request for a completion that could not be sent on.
pub fn chat_failed(error: &str) -> (reply: Reply)
    ensures
        reply@ == text_reply(502, "upstream request failed: "@ + error@),
{
    bad_gateway("upstream request failed: ", error)
}

/// The headers of an answer that is a stream.
pub open spec fn stream_entries() -> Map<Seq<char>, Seq<Seq<u8>>> {
    no_entries().insert("content-type"@, seq![encode_utf8("text/event-stream"@)]).insert(
        "cache-control"@,
        seq![encode_utf8("no-cache"@)],
    ).insert("connection"@, seq![encode_utf8("keep-alive"@)])
}

/// What an answer that is a stream starts with.
#[derive(Debug)]
pub struct StreamHead {
    pub status: u16,
    pub headers: HeaderMap<HeaderValue>,
}

/// Handle streaming response: what the answer starts with, whatever the upstream sent.
pub fn stream_response() -> (head: StreamHead)
    ensures
        head.status == 200,
        header_entries(head.headers) == stream_entries(),
{
    proof {
        reveal_strlit("content-type");
        reveal_strlit("cache-control");
        reveal_strlit("connection");
        reveal_strlit("text/event-stream");
        reveal_strlit("no-cache");
        reveal_strlit("keep-alive");
    }
    let mut headers = new_headers();
    write_header(&mut headers, "content-type", "text/event-stream");
    write_header(&mut headers, "cache-control", "no-cache");
    write_header(&mut headers, "connection", "keep-alive");
    StreamHead { status: 200, headers }
}

/// What is tracked of an answer, given what came of parsing its body: nothing where that is no
/// JSON.
pub open spec fn tracked_of(parsed: Result<JsonDoc, Seq<char>>) -> CompletionView {
    match parsed {
        Ok(doc) => completion_of(doc, "message"@),
        Err(_) => CompletionView { content: None, usage: None, cost: None },
    }
}

/// Reads what is tracked of an answer, given what came of parsing its body.
pub fn read_answer(parsed: Result<Value, String>) -> (completion: Completion)
    ensures
        match parsed {
            Ok(value) => completion@ == tracked_of(Ok(json_doc(value))),
            Err(error) => completion@ == tracked_of(Err(error@)),
        },
{
    match parsed {
        Ok(value) => read_completion(&value, "message"),
        Err(_) => Completion { content: None, usage: None, cost: None },
    }
}

impl AppState {
    /// POST /v1/chat/completions — the main proxy handler
    ///
    /// Forwards the ENTIRE client request body (all fields: model, messages, temperature, top_p,
    /// stream, stream_options, tools, tool_choice, etc.) to the upstream with the proper opencode
    /// wire headers.
    ///
    /// A body that is empty or no JSON is refused, and nothing is changed. Otherwise the messages
    /// of the request take the place of those of its model, and the request to the upstream is
    /// made, unless a header of it cannot be sent.
    pub fn chat_completions(
        &mut self,
        client_headers: &HeaderMap<HeaderValue>,
        body: Vec<u8>,
    ) -> (start: Result<ForwardedChat, Reply>)
        requires
            old(self).wf(),
        ensures
            final(self).wf(),
            final(self).settings() == old(self).settings(),
            final(self).usage() == old(self).usage(),
            match start {
                Err(reply) => {
                    &&& refusal(body@) == Some(reply@)
                    &&& final(self).conversations() == old(self).conversations()
                },
                Ok(forwarded) => {
                    let chat = chat_of(slice_doc(body@)->Ok_0);
                    &&& refusal(body@) is None
                    &&& forwarded.chat.follows(chat)
                    &&& match forwarded.request {
                        Some(request) => {
                            &&& headers_sendable(old(self).settings(), *client_headers)
                            &&& request.is_chat_of(
                                old(self).settings(),
                                *client_headers,
                                chat.is_stream,
                                body@,
                            )
                        },
                        None => !headers_sendable(old(self).settings(), *client_headers),
                    }
                    &&& final(self).conversations() == conversations_with(
                        old(self).conversations(),
                        chat,
                    )
                },
            },
    {
        if body.len() == 0 {
            return Err(new_text_reply(400, "empty request body"));
        }
        match self.start_chat(parse_slice(body.as_slice())) {
            Ok(chat) => {
                let request = if can_send_headers(self.config(), client_headers) {
                    Some(self.chat_request(client_headers, chat.is_stream, body))
                } else {
                    None
                };
                Ok(ForwardedChat { chat, request })
            },
            Err(reply) => Err(reply),
        }
    }

    /// Starts on a request for a completion, given what came of parsing its body: the JSON value,
    /// or why it is none.
    pub fn start_chat(&mut self, parsed: Result<Value, String>) -> (start: Result<
        AcceptedChat,
        Reply,
    >)
        requires
            old(self).wf(),
        ensures
            final(self).wf(),
            final(self).settings() == old(self).settings(),
            final(self).usage() == old(self).usage(),
            match parsed {
                Ok(value) => {
                    let chat = chat_of(json_doc(value));
                    &&& start is Ok
                    &&& start->Ok_0.follows(chat)
                    &&& final(self).conversations() == conversations_with(
                        old(self).conversations(),
                        chat,
                    )
                },
                Err(error) => {
                    &&& start is Err
                    &&& start->Err_0@ == text_reply(400, "invalid JSON: "@ + error@)
                    &&& final(self).conversations() == old(self).conversations()
                },
            },
    {
        match parsed {
            Ok(value) => Ok(self.accept_chat(read_chat(&value))),
            Err(error) => {
                let mut text = "invalid JSON: ".to_string();
                text.append(error.as_str());
                Err(new_text_reply(400, text.as_str()))
            },
        }
    }

    /// Takes in a request for a completion: its messages, if it has any, take the place of those
    /// of its model.
    pub fn accept_chat(&mut self, chat: ChatRequest) -> (accepted: AcceptedChat)
        requires
            old(self).wf(),
        ensures
            final(self).wf(),
            final(self).settings() == old(self).settings(),
            final(self).usage() == old(self).usage(),
            final(self).conversations() == conversations_with(old(self).conversations(), chat@),
            accepted.follows(chat@),
    {
        let message_count: usize = match &chat.messages {
            Some(messages) => messages.len(),
            None => 0,
        };
        let text = match chat.messages {
            Some(messages) => Some(self.save_messages(chat.model.as_str(), messages)),
            None => None,
        };
        AcceptedChat { model: chat.model, is_stream: chat.is_stream, message_count, text }
    }

    /// Handle non-streaming response: parse JSON, track state, forward to client.
    ///
    /// Takes the body of the answer, or why it could not be read. The body is handed on as it is;
    /// the reply, and the tokens or the cost, are kept where it tells of them. Gives the answer, and
    /// the text to write to the file of the model, if any.
    pub fn non_stream_response(
        &mut self,
        model: &str,
        content_type: Option<String>,
        body: Result<Vec<u8>, String>,
        disk: Option<&str>,
    ) -> (answer: (Reply, Option<String>))
        requires
            old(self).wf(),
        ensures
            final(self).wf(),
            final(self).settings() == old(self).settings(),
            match body {
                Ok(bytes) => {
                    let saved = saved_messages(disk.deep_view());
                    let told = tracked_of(slice_doc(bytes@));
                    &&& answer.0@ == relayed_reply(200, content_type.deep_view(), bytes@)
                    &&& final(self).conversations() == conversations_after(
                        old(self).conversations(),
                        model@,
                        told.content,
                        saved,
                    )
                    &&& answer.1.deep_view() == text_after(
                        old(self).conversations(),
                        model@,
                        told.content,
                        saved,
                    )
                    &&& final(self).usage() == usage_after(
                        old(self).usage(),
                        model@,
                        kept_line(told),
                    )
                },
                Err(error) => {
                    &&& answer.0@ == text_reply(502, "failed to read upstream body: "@ + error@)
                    &&& final(self).conversations() == old(self).conversations()
                    &&& final(self).usage() == old(self).usage()
                    &&& answer.1 is None
                },
            },
            answer.1 is Some && all_read_back(final(self).conversations()[model@])
                ==> saved_messages(answer.1.deep_view()) == final(self).conversations()[model@],
    {
        let bytes = match body {
            Ok(bytes) => bytes,
            Err(error) => {
                return (bad_gateway("failed to read upstream body: ", error.as_str()), None);
            },
        };
        let completion = read_answer(parse_slice(bytes.as_slice()));
        let text = self.record_completion(model, completion, disk);
        (relay_reply(200, content_type, bytes), text)
    }
}

} // verus!
