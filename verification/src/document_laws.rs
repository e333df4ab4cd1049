//! What holds of the documents that the routes answer with, whatever the state.

use crate::documents::{conversation_doc, health_doc, model_usage_doc, reset_doc, usage_doc};
use crate::json::{JsonDoc, JsonNumber};
use crate::state::{is_usage_of, is_usage_report, ModelUsage};
use vstd::prelude::*;
use vstd::set_lib::*;

verus! {

/// Whether a document tells the name of a model, the number of its messages and its last line on
/// tokens or cost, empty where there was none.
pub open spec fn reports(
    doc: JsonDoc,
    model: Seq<char>,
    conversations: Map<Seq<char>, Seq<JsonDoc>>,
    usage: Map<Seq<char>, Seq<char>>,
) -> bool {
    &&& doc matches JsonDoc::Fields(fields)
    &&& fields.dom() == set!["model"@, "message_count"@, "last_usage"@]
    &&& fields["model"@] == JsonDoc::Text(model)
    &&& fields["message_count"@] == JsonDoc::Number(
        JsonNumber::Unsigned(conversations[model].len() as u64),
    )
    &&& usage.contains_key(model) ==> fields["last_usage"@] == JsonDoc::Text(usage[model])
    &&& !usage.contains_key(model) ==> fields["last_usage"@] == JsonDoc::Text(Seq::empty())
}

/// Whether a document tells of any model of which a conversation is in memory.
pub open spec fn reports_some(
    doc: JsonDoc,
    conversations: Map<Seq<char>, Seq<JsonDoc>>,
    usage: Map<Seq<char>, Seq<char>>,
) -> bool {
    exists|model: Seq<char>|
        conversations.contains_key(model) && #[trigger] reports(doc, model, conversations, usage)
}

proof fn lemma_report_names(
    report: Seq<ModelUsage>,
    conversations: Map<Seq<char>, Seq<JsonDoc>>,
    usage: Map<Seq<char>, Seq<char>>,
)
    requires
        is_usage_report(report, conversations, usage),
    ensures
        conversations.dom().finite(),
        conversations.dom().len() == report.len(),
{
    let names = report.map_values(|entry: ModelUsage| entry.model@);
    assert(names.no_duplicates()) by {
        assert forall|i: int, j: int|
            0 <= i < names.len() && 0 <= j < names.len() && i != j implies names[i] != names[j] by {
            if i < j {
                assert(report[i].model@ != report[j].model@);
            } else {
                assert(report[j].model@ != report[i].model@);
            }
        }
    }
    names.unique_seq_to_set();
    assert(names.to_set() =~= conversations.dom()) by {
        assert forall|model: Seq<char>|
            names.to_set().contains(model) <==> conversations.dom().contains(model) by {
            if names.to_set().contains(model) {
                let i = names.index_of(model);
                assert(names[i] == model);
                assert(is_usage_of(report[i], conversations, usage));
            }
            if conversations.contains_key(model) {
                let i = choose|i: int|
                    0 <= i < report.len() && (#[trigger] report[i]).model@ == model;
                assert(names[i] == model);
            }
        }
    }
}

proof fn lemma_report_entry(
    entry: ModelUsage,
    conversations: Map<Seq<char>, Seq<JsonDoc>>,
    usage: Map<Seq<char>, Seq<char>>,
)
    requires
        is_usage_of(entry, conversations, usage),
    ensures
        conversations.contains_key(entry.model@),
        reports(model_usage_doc(entry), entry.model@, conversations, usage),
{
    reveal_strlit("model");
    reveal_strlit("message_count");
    reveal_strlit("last_usage");
    assert("model"@.len() == 5);
    assert("message_count"@.len() == 13);
    assert("last_usage"@.len() == 10);
    assert(model_usage_doc(entry)->Fields_0.dom() =~= set![
        "model"@,
        "message_count"@,
        "last_usage"@,
    ]);
}

/// The document on usage lists as many models as there are conversations in memory, and each of
/// them, with the number of its messages and its last line on tokens or cost; it lists nothing
/// else.
pub proof fn law_usage_lists_every_model(
    report: Seq<ModelUsage>,
    conversations: Map<Seq<char>, Seq<JsonDoc>>,
    usage: Map<Seq<char>, Seq<char>>,
)
    requires
        is_usage_report(report, conversations, usage),
    ensures
        ({
            let doc = usage_doc(report);
            let models = doc->Fields_0["models"@]->List_0;
            &&& doc is Fields
            &&& doc->Fields_0.dom() == set!["models"@]
            &&& doc->Fields_0["models"@] is List
            &&& conversations.dom().finite()
            &&& models.len() == conversations.dom().len()
            &&& forall|model: Seq<char>| #[trigger]
                conversations.contains_key(model) ==> exists|i: int|
                    0 <= i < models.len() && reports(
                        #[trigger] models[i],
                        model,
                        conversations,
                        usage,
                    )
            &&& forall|i: int|
                0 <= i < models.len() ==> reports_some(#[trigger] models[i], conversations, usage)
        }),
{
    lemma_report_names(report, conversations, usage);
    let doc = usage_doc(report);
    let models = doc->Fields_0["models"@]->List_0;
    assert(doc->Fields_0.dom() =~= set!["models"@]);
    assert forall|i: int| 0 <= i < models.len() implies {
        &&& conversations.contains_key(report[i].model@)
        &&& reports(#[trigger] models[i], report[i].model@, conversations, usage)
    } by {
        assert(is_usage_of(report[i], conversations, usage));
        lemma_report_entry(report[i], conversations, usage);
    }
    assert forall|model: Seq<char>| #[trigger]
        conversations.contains_key(model) implies exists|i: int|
        0 <= i < models.len() && reports(#[trigger] models[i], model, conversations, usage) by {
        let i = choose|i: int| 0 <= i < report.len() && (#[trigger] report[i]).model@ == model;
        assert(reports(models[i], model, conversations, usage));
    }
    assert forall|i: int| 0 <= i < models.len() implies reports_some(
        #[trigger] models[i],
        conversations,
        usage,
    ) by {
        assert(reports(models[i], report[i].model@, conversations, usage));
    }
}

/// The entries of a document on usage are those of the report, one for each, in its order.
pub proof fn law_usage_lists_the_whole_report(report: Seq<ModelUsage>)
    ensures
        ({
            let models = usage_doc(report)->Fields_0["models"@]->List_0;
            &&& models.len() == report.len()
            &&& forall|i: int|
                0 <= i < report.len() ==> {
                    let entry = #[trigger] models[i];
                    &&& entry is Fields
                    &&& entry->Fields_0["model"@] == JsonDoc::Text(report[i].model@)
                    &&& entry->Fields_0["message_count"@] == JsonDoc::Number(
                        JsonNumber::Unsigned(report[i].message_count as u64),
                    )
                    &&& entry->Fields_0["last_usage"@] == JsonDoc::Text(report[i].last_usage@)
                }
        }),
{
    reveal_strlit("model");
    reveal_strlit("message_count");
    reveal_strlit("last_usage");
    assert("model"@.len() == 5);
    assert("message_count"@.len() == 13);
    assert("last_usage"@.len() == 10);
}

/// The document on a conversation holds the name of the model and all of its messages, in order,
/// with their number.
pub proof fn law_conversation_shows_every_message(model: Seq<char>, messages: Seq<JsonDoc>)
    ensures
        ({
            let doc = conversation_doc(model, messages);
            let shown = doc->Fields_0["messages"@]->List_0;
            &&& doc is Fields
            &&& doc->Fields_0.dom() == set!["model"@, "message_count"@, "messages"@]
            &&& doc->Fields_0["model"@] == JsonDoc::Text(model)
            &&& doc->Fields_0["message_count"@] == JsonDoc::Number(
                JsonNumber::Unsigned(messages.len() as u64),
            )
            &&& doc->Fields_0["messages"@] is List
            &&& shown.len() == messages.len()
            &&& forall|i: int| 0 <= i < messages.len() ==> #[trigger] shown[i] == messages[i]
        }),
{
    reveal_strlit("model");
    reveal_strlit("message_count");
    reveal_strlit("messages");
    assert("model"@.len() == 5);
    assert("message_count"@.len() == 13);
    assert("messages"@.len() == 8);
    assert(conversation_doc(model, messages)->Fields_0.dom() =~= set![
        "model"@,
        "message_count"@,
        "messages"@,
    ]);
}

/// The answer to a reset names the model that was reset.
pub proof fn law_reset_names_the_model(model: Seq<char>)
    ensures
        ({
            let doc = reset_doc(model);
            &&& doc is Fields
            &&& doc->Fields_0.dom() == set!["status"@, "model"@]
            &&& doc->Fields_0["status"@] == JsonDoc::Text("reset"@)
            &&& doc->Fields_0["model"@] == JsonDoc::Text(model)
        }),
{
    reveal_strlit("status");
    reveal_strlit("model");
    assert("status"@.len() == 6);
    assert("model"@.len() == 5);
    assert(reset_doc(model)->Fields_0.dom() =~= set!["status"@, "model"@]);
}

/// The health check tells that all is well and names the five routes.
pub proof fn law_health_names_the_routes()
    ensures
        ({
            let doc = health_doc();
            let routes = doc->Fields_0["endpoints"@]->Fields_0;
            &&& doc is Fields
            &&& doc->Fields_0.dom() == set!["status"@, "service"@, "description"@, "endpoints"@]
            &&& doc->Fields_0["status"@] == JsonDoc::Text("ok"@)
            &&& doc->Fields_0["endpoints"@] is Fields
            &&& routes.dom() == set!["models"@, "chat"@, "usage"@, "conversation"@, "reset"@]
            &&& routes["models"@] == JsonDoc::Text("GET /v1/models"@)
            &&& routes["chat"@] == JsonDoc::Text("POST /v1/chat/completions"@)
            &&& routes["usage"@] == JsonDoc::Text("GET /v1/usage"@)
            &&& routes["conversation"@] == JsonDoc::Text("GET /v1/conversation/{model}"@)
            &&& routes["reset"@] == JsonDoc::Text("POST /v1/reset/{model}"@)
        }),
{
    reveal_strlit("status");
    reveal_strlit("service");
    reveal_strlit("description");
    reveal_strlit("endpoints");
    assert("status"@.len() == 6);
    assert("service"@.len() == 7);
    assert("description"@.len() == 11);
    assert("endpoints"@.len() == 9);
    reveal_strlit("models");
    reveal_strlit("chat");
    reveal_strlit("usage");
    reveal_strlit("conversation");
    reveal_strlit("reset");
    assert("models"@.len() == 6);
    assert("chat"@.len() == 4);
    assert("usage"@[0] == 'u');
    assert("conversation"@.len() == 12);
    assert("reset"@[0] == 'r');
    assert("usage"@.len() == 5 && "reset"@.len() == 5);
    let doc = health_doc();
    assert(doc->Fields_0.dom() =~= set!["status"@, "service"@, "description"@, "endpoints"@]);
    let routes = doc->Fields_0["endpoints"@]->Fields_0;
    assert(routes.dom() =~= set!["models"@, "chat"@, "usage"@, "conversation"@, "reset"@]);
}

} // verus!
