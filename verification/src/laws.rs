//! What holds of conversations and usage across the operations of the proxy.

use crate::documents::{conversation_doc, model_usage_doc};
use crate::filename::{law_state_files_are_distinct, state_file_name};
use crate::json::{all_read_back, reads_back, JsonDoc};
use crate::routes::{conversations_with, ChatView};
use crate::state::{
    assistant_message, conversations_after, is_usage_report, messages_of, usage_after, ModelUsage,
};
use vstd::prelude::*;

verus! {

/// The text of the file of a model, if there is one among the files.
pub open spec fn text_of_model(files: Map<Seq<char>, Seq<char>>, model: Seq<char>) -> Option<
    Seq<char>,
> {
    if files.contains_key(state_file_name(model)) {
        Some(files[state_file_name(model)])
    } else {
        None
    }
}

/// What was saved last for a model is what is loaded, whatever is on disk.
pub proof fn law_saved_messages_are_loaded(
    conversations: Map<Seq<char>, Seq<JsonDoc>>,
    model: Seq<char>,
    messages: Seq<JsonDoc>,
    disk: Seq<JsonDoc>,
)
    ensures
        messages_of(conversations.insert(model, messages), model, disk) == messages,
{
}

/// A model of which nothing is in memory, as after a restart, has the messages that are on disk.
pub proof fn law_disk_stands_in_for_memory(
    conversations: Map<Seq<char>, Seq<JsonDoc>>,
    model: Seq<char>,
    disk: Seq<JsonDoc>,
)
    requires
        !conversations.contains_key(model),
    ensures
        messages_of(conversations, model, disk) == disk,
{
}

/// A request and the reply to it, whether it came as a stream or as a whole, leave the model with
/// the messages of the request followed by the reply, whatever was in memory or on disk before.
pub proof fn law_turn_is_kept(
    conversations: Map<Seq<char>, Seq<JsonDoc>>,
    chat: ChatView,
    reply: Seq<char>,
    disk: Seq<JsonDoc>,
    later_disk: Seq<JsonDoc>,
)
    requires
        chat.messages is Some,
    ensures
        messages_of(
            conversations_after(
                conversations_with(conversations, chat),
                chat.model,
                Some(reply),
                disk,
            ),
            chat.model,
            later_disk,
        ) == chat.messages->0.push(assistant_message(reply)),
{
}

/// A reply is added behind the messages that a model has, in memory or on disk, and changes none
/// of them.
pub proof fn law_reply_is_appended(
    conversations: Map<Seq<char>, Seq<JsonDoc>>,
    model: Seq<char>,
    reply: Seq<char>,
    disk: Seq<JsonDoc>,
    later_disk: Seq<JsonDoc>,
)
    ensures
        ({
            let before = messages_of(conversations, model, disk);
            let after = messages_of(
                conversations_after(conversations, model, Some(reply), disk),
                model,
                later_disk,
            );
            &&& after.len() == before.len() + 1
            &&& after.drop_last() == before
            &&& after.last() == assistant_message(reply)
        }),
{
    let before = messages_of(conversations, model, disk);
    assert(before.push(assistant_message(reply)).drop_last() == before);
}

/// What is said by a request, a reply or a line on usage of one model leaves every other model as
/// it was.
pub proof fn law_models_are_separate(
    conversations: Map<Seq<char>, Seq<JsonDoc>>,
    usage: Map<Seq<char>, Seq<char>>,
    chat: ChatView,
    reply: Option<Seq<char>>,
    line: Option<Seq<char>>,
    disk: Seq<JsonDoc>,
    other: Seq<char>,
    other_disk: Seq<JsonDoc>,
)
    requires
        other != chat.model,
    ensures
        messages_of(conversations_with(conversations, chat), other, other_disk) == messages_of(
            conversations,
            other,
            other_disk,
        ),
        messages_of(
            conversations_after(conversations, chat.model, reply, disk),
            other,
            other_disk,
        ) == messages_of(conversations, other, other_disk),
        usage_after(usage, chat.model, line).contains_key(other) == usage.contains_key(other),
        usage.contains_key(other) ==> usage_after(usage, chat.model, line)[other] == usage[other],
{
}

/// With the texts of the files by their names, to write the file of one model leaves the file of
/// every other model as it was, and with it the messages that are read from there.
pub proof fn law_files_are_separate(
    files: Map<Seq<char>, Seq<char>>,
    model: Seq<char>,
    text: Seq<char>,
    other: Seq<char>,
)
    requires
        other != model,
    ensures
        text_of_model(files.insert(state_file_name(model), text), other) == text_of_model(
            files,
            other,
        ),
        text_of_model(files.insert(state_file_name(model), text), model) == Some(text),
{
    law_state_files_are_distinct(model, other);
}

/// A report on usage counts for each model the messages that its conversation shows.
pub proof fn law_report_counts_the_conversation(
    report: Seq<ModelUsage>,
    conversations: Map<Seq<char>, Seq<JsonDoc>>,
    usage: Map<Seq<char>, Seq<char>>,
    i: int,
    disk: Seq<JsonDoc>,
)
    requires
        is_usage_report(report, conversations, usage),
        0 <= i < report.len(),
    ensures
        model_usage_doc(report[i]).field("message_count"@) == conversation_doc(
            report[i].model@,
            messages_of(conversations, report[i].model@, disk),
        ).field("message_count"@),
{
    reveal_strlit("model");
    reveal_strlit("message_count");
    reveal_strlit("messages");
    reveal_strlit("last_usage");
    assert("message_count"@.len() == 13);
    assert("messages"@.len() == 8);
    assert("last_usage"@.len() == 10);
}

/// Messages that can be read back from disk can still be once a reply has been added to them.
pub proof fn law_reply_reads_back(messages: Seq<JsonDoc>, reply: Seq<char>)
    requires
        all_read_back(messages),
    ensures
        all_read_back(messages.push(assistant_message(reply))),
{
    reveal_strlit("role");
    reveal_strlit("content");
    reveal_strlit("$serde_json::private::RawValue");
    assert("role"@.len() == 4);
    assert("content"@.len() == 7);
    assert("$serde_json::private::RawValue"@.len() == 30);
    let message = assistant_message(reply);
    assert(reads_back(message, 126)) by {
        reveal_with_fuel(reads_back, 2);
        assert(!message->Fields_0.contains_key("$serde_json::private::RawValue"@));
    }
    assert forall|i: int| 0 <= i < messages.len() + 1 implies #[trigger] reads_back(
        messages.push(message)[i],
        126,
    ) by {
        if i < messages.len() {
            assert(reads_back(messages[i], 126));
        }
    }
}

} // verus!
