//! The JSON documents that the routes of the proxy answer with.

use crate::json::{
    count_value, json_doc, json_docs, list_value, new_object, no_fields, object_fields,
    object_value, pretty_text, put_field, text_value, JsonDoc, JsonNumber,
};
use crate::state::{is_usage_report, messages_of, saved_messages, AppState, ModelUsage};
use serde_json::Value;
use vstd::prelude::*;
use vstd::string::*;

verus! {

/// A count as a document.
pub open spec fn count_doc(count: nat) -> JsonDoc {
    JsonDoc::Number(JsonNumber::Unsigned(count as u64))
}

/// The routes, by what they are for.
pub open spec fn endpoints_doc() -> JsonDoc {
    JsonDoc::Fields(
        no_fields().insert("models"@, JsonDoc::Text("GET /v1/models"@)).insert(
            "chat"@,
            JsonDoc::Text("POST /v1/chat/completions"@),
        ).insert("usage"@, JsonDoc::Text("GET /v1/usage"@)).insert(
            "conversation"@,
            JsonDoc::Text("GET /v1/conversation/{model}"@),
        ).insert("reset"@, JsonDoc::Text("POST /v1/reset/{model}"@)),
    )
}

/// What the health check answers.
pub open spec fn health_doc() -> JsonDoc {
    JsonDoc::Fields(
        no_fields().insert("status"@, JsonDoc::Text("ok"@)).insert(
            "service"@,
            JsonDoc::Text("zen-free-api"@),
        ).insert(
            "description"@,
            JsonDoc::Text("OpenAI-compatible proxy for opencode.ai/zen/v1"@),
        ).insert("endpoints"@, endpoints_doc()),
    )
}

fn put_text(object: &mut serde_json::Map<String, Value>, name: &str, text: &str)
    ensures
        object_fields(*final(object)) == object_fields(*old(object)).insert(
            name@,
            JsonDoc::Text(text@),
        ),
{
    put_field(object, name, text_value(text.to_string()));
}

/// GET / — health check
pub fn health() -> (document: Value)
    ensures
        json_doc(document) == health_doc(),
{
    let mut endpoints = new_object();
    put_text(&mut endpoints, "models", "GET /v1/models");
    put_text(&mut endpoints, "chat", "POST /v1/chat/completions");
    put_text(&mut endpoints, "usage", "GET /v1/usage");
    put_text(&mut endpoints, "conversation", "GET /v1/conversation/{model}");
    put_text(&mut endpoints, "reset", "POST /v1/reset/{model}");
    let mut object = new_object();
    put_text(&mut object, "status", "ok");
    put_text(&mut object, "service", "zen-free-api");
    put_text(&mut object, "description", "OpenAI-compatible proxy for opencode.ai/zen/v1");
    put_field(&mut object, "endpoints", object_value(endpoints));
    object_value(object)
}

/// The usage of one model.
pub open spec fn model_usage_doc(entry: ModelUsage) -> JsonDoc {
    JsonDoc::Fields(
        no_fields().insert("model"@, JsonDoc::Text(entry.model@)).insert(
            "message_count"@,
            count_doc(entry.message_count as nat),
        ).insert("last_usage"@, JsonDoc::Text(entry.last_usage@)),
    )
}

/// The usage of the models of a report, in its order.
pub open spec fn usage_doc(report: Seq<ModelUsage>) -> JsonDoc {
    JsonDoc::Fields(
        no_fields().insert(
            "models"@,
            JsonDoc::List(Seq::new(report.len(), |i: int| model_usage_doc(report[i]))),
        ),
    )
}

/// Makes the document of a report on usage.
pub fn usage_document(report: &Vec<ModelUsage>) -> (document: Value)
    ensures
        json_doc(document) == usage_doc(report@),
{
    let mut models: Vec<Value> = Vec::new();
    let mut i: usize = 0;
    while i < report.len()
        invariant
            i <= report.len(),
            models.len() == i,
            forall|j: int|
                0 <= j < i ==> json_doc(#[trigger] models@[j]) == model_usage_doc(report@[j]),
        decreases report.len() - i,
    {
        let entry = &report[i];
        let mut object = new_object();
        put_text(&mut object, "model", entry.model.as_str());
        put_field(&mut object, "message_count", count_value(entry.message_count));
        put_text(&mut object, "last_usage", entry.last_usage.as_str());
        models.push(object_value(object));
        i += 1;
    }
    let mut object = new_object();
    proof {
        assert(json_docs(models@) == Seq::new(
            report@.len(),
            |i: int| model_usage_doc(report@[i]),
        ));
    }
    put_field(&mut object, "models", list_value(models));
    object_value(object)
}

/// The messages of a model.
pub open spec fn conversation_doc(model: Seq<char>, messages: Seq<JsonDoc>) -> JsonDoc {
    JsonDoc::Fields(
        no_fields().insert("model"@, JsonDoc::Text(model)).insert(
            "message_count"@,
            count_doc(messages.len()),
        ).insert("messages"@, JsonDoc::List(messages)),
    )
}

/// Makes the document of a model's messages.
pub fn conversation_document(model: &str, messages: Vec<Value>) -> (document: Value)
    ensures
        json_doc(document) == conversation_doc(model@, json_docs(messages@)),
{
    let mut object = new_object();
    put_text(&mut object, "model", model);
    put_field(&mut object, "message_count", count_value(messages.len()));
    put_field(&mut object, "messages", list_value(messages));
    object_value(object)
}

/// What a reset answers.
pub open spec fn reset_doc(model: Seq<char>) -> JsonDoc {
    JsonDoc::Fields(
        no_fields().insert("status"@, JsonDoc::Text("reset"@)).insert(
            "model"@,
            JsonDoc::Text(model),
        ),
    )
}

impl AppState {
    /// GET /v1/usage — per-model usage stats
    ///
    /// The models come in no particular order.
    pub fn get_usage(&self) -> (document: Value)
        requires
            self.wf(),
        ensures
            exists|report: Seq<ModelUsage>| #[trigger]
                is_usage_report(report, self.conversations(), self.usage()) && json_doc(document)
                    == usage_doc(report),
    {
        let report = self.usage_report();
        usage_document(&report)
    }

    /// GET /v1/conversation/{model} — view saved conversation
    pub fn get_conversation(&self, model: &str, disk: Option<&str>) -> (document: Value)
        requires
            self.wf(),
        ensures
            json_doc(document) == conversation_doc(
                model@,
                messages_of(self.conversations(), model@, saved_messages(disk.deep_view())),
            ),
    {
        conversation_document(model, self.load_messages(model, disk))
    }

    /// POST /v1/reset/{model} — reset conversation state
    ///
    /// Leaves the model with no messages. Gives the answer, and the text to write to the file of
    /// the model.
    pub fn reset_conversation(&mut self, model: &str) -> (answer: (Value, String))
        requires
            old(self).wf(),
        ensures
            final(self).wf(),
            final(self).settings() == old(self).settings(),
            final(self).conversations() == old(self).conversations().insert(
                model@,
                Seq::<JsonDoc>::empty(),
            ),
            final(self).usage() == old(self).usage(),
            json_doc(answer.0) == reset_doc(model@),
            answer.1@ == pretty_text(Seq::<JsonDoc>::empty()),
            saved_messages(Some(answer.1@)) == Seq::<JsonDoc>::empty(),
    {
        let messages: Vec<Value> = Vec::new();
        assert(json_docs(messages@) == Seq::<JsonDoc>::empty());
        let text = self.save_messages(model, messages);
        let mut object = new_object();
        put_text(&mut object, "status", "reset");
        put_text(&mut object, "model", model);
        (object_value(object), text)
    }
}

} // verus!
