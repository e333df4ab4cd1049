//! The state of the proxy: its configuration, the conversations and the usage of each model.

use crate::completion::{kept_line, Completion};
use crate::config::{Config, StatePath};
use crate::filename::{name_state_file, state_file_name};
use crate::json::{
    all_read_back, copy_values, json_doc, json_docs, new_object, no_fields, object_value,
    parse_list, pretty_text, print_list, put_field, text_docs, text_value, JsonDoc,
};
use crate::model_map::ModelMap;
use crate::stream::StreamEnd;
use serde_json::Value;
use vstd::hash_map::StringHashMap;
use vstd::prelude::*;

verus! {

/// The state of the proxy.
pub struct AppState {
    config: Config,
    conversations: ModelMap<Vec<Value>>,
    usage: StringHashMap<String>,
}

/// The message of an assistant.
pub open spec fn assistant_message(content: Seq<char>) -> JsonDoc {
    JsonDoc::Fields(
        no_fields().insert("role"@, JsonDoc::Text("assistant"@)).insert(
            "content"@,
            JsonDoc::Text(content),
        ),
    )
}

/// The messages of a conversation on disk: those that the text of its file holds; none where there
/// is no file, or its text is no list of JSON values.
pub open spec fn saved_messages(disk: Option<Seq<char>>) -> Seq<JsonDoc> {
    match disk {
        Some(text) => match text_docs(text) {
            Some(docs) => docs,
            None => Seq::empty(),
        },
        None => Seq::empty(),
    }
}

/// The messages of a model: those in memory, or else those on disk.
pub open spec fn messages_of(
    conversations: Map<Seq<char>, Seq<JsonDoc>>,
    model: Seq<char>,
    saved: Seq<JsonDoc>,
) -> Seq<JsonDoc> {
    if conversations.contains_key(model) {
        conversations[model]
    } else {
        saved
    }
}

/// The conversations once a reply, if there is one, was appended to that of a model.
pub open spec fn conversations_after(
    conversations: Map<Seq<char>, Seq<JsonDoc>>,
    model: Seq<char>,
    reply: Option<Seq<char>>,
    saved: Seq<JsonDoc>,
) -> Map<Seq<char>, Seq<JsonDoc>> {
    match reply {
        Some(reply) => conversations.insert(
            model,
            messages_of(conversations, model, saved).push(assistant_message(reply)),
        ),
        None => conversations,
    }
}

/// The text that is then written to the model's file, if any.
pub open spec fn text_after(
    conversations: Map<Seq<char>, Seq<JsonDoc>>,
    model: Seq<char>,
    reply: Option<Seq<char>>,
    saved: Seq<JsonDoc>,
) -> Option<Seq<char>> {
    match reply {
        Some(reply) => Some(
            pretty_text(messages_of(conversations, model, saved).push(assistant_message(reply))),
        ),
        None => None,
    }
}

/// The lines on tokens or cost once that of a model, if there is a new one, was kept.
pub open spec fn usage_after(
    usage: Map<Seq<char>, Seq<char>>,
    model: Seq<char>,
    line: Option<Seq<char>>,
) -> Map<Seq<char>, Seq<char>> {
    match line {
        Some(line) => usage.insert(model, line),
        None => usage,
    }
}

/// The usage of a model.
#[derive(Debug)]
pub struct ModelUsage {
    pub model: String,
    /// The number of messages of its conversation.
    pub message_count: usize,
    /// The last line on tokens or cost; empty while there was none.
    pub last_usage: String,
}

/// Whether an entry tells the usage of a model of which a conversation is in memory.
pub open spec fn is_usage_of(
    entry: ModelUsage,
    conversations: Map<Seq<char>, Seq<JsonDoc>>,
    usage: Map<Seq<char>, Seq<char>>,
) -> bool {
    &&& conversations.contains_key(entry.model@)
    &&& entry.message_count == conversations[entry.model@].len()
    &&& entry.last_usage@ == if usage.contains_key(entry.model@) {
        usage[entry.model@]
    } else {
        Seq::empty()
    }
}

/// Whether a report tells the usage of each model of which a conversation is in memory, once.
pub open spec fn is_usage_report(
    report: Seq<ModelUsage>,
    conversations: Map<Seq<char>, Seq<JsonDoc>>,
    usage: Map<Seq<char>, Seq<char>>,
) -> bool {
    &&& forall|i: int|
        0 <= i < report.len() ==> is_usage_of(#[trigger] report[i], conversations, usage)
    &&& forall|i: int, j: int|
        0 <= i < j < report.len() ==> (#[trigger] report[i]).model@ != (#[trigger] report[j]).model@
    &&& forall|model: Seq<char>| #[trigger]
        conversations.contains_key(model) ==> exists|i: int|
            0 <= i < report.len() && (#[trigger] report[i]).model@ == model
}

/// Makes the message of an assistant.
pub fn new_assistant_message(content: String) -> (message: Value)
    ensures
        json_doc(message) == assistant_message(content@),
{
    let mut object = new_object();
    put_field(&mut object, "role", text_value("assistant".to_string()));
    put_field(&mut object, "content", text_value(content));
    object_value(object)
}

/// The messages that the text of a conversation's file holds.
pub fn read_saved_messages(disk: Option<&str>) -> (messages: Vec<Value>)
    ensures
        json_docs(messages@) == saved_messages(disk.deep_view()),
{
    match disk {
        Some(text) => match parse_list(text) {
            Some(messages) => messages,
            None => Vec::new(),
        },
        None => Vec::new(),
    }
}

impl AppState {
    /// Whether the map of the conversations is sound.
    pub closed spec fn wf(self) -> bool {
        self.conversations.wf()
    }

    /// The configuration.
    pub closed spec fn settings(self) -> Config {
        self.config
    }

    /// The conversations in memory, by model.
    pub closed spec fn conversations(self) -> Map<Seq<char>, Seq<JsonDoc>> {
        self.conversations.view().map_values(|messages: Vec<Value>| json_docs(messages@))
    }

    /// The last line on tokens or cost, by model.
    pub closed spec fn usage(self) -> Map<Seq<char>, Seq<char>> {
        self.usage@.map_values(|line: String| line@)
    }

    /// The state at the start: no conversation is in memory, and nothing was used.
    pub fn new(config: Config) -> (state: AppState)
        ensures
            state.wf(),
            state.settings() == config,
            state.conversations() == Map::<Seq<char>, Seq<JsonDoc>>::empty(),
            state.usage() == Map::<Seq<char>, Seq<char>>::empty(),
    {
        let state = AppState { config, conversations: ModelMap::new(), usage: StringHashMap::new() };
        assert(state.conversations() =~= Map::<Seq<char>, Seq<JsonDoc>>::empty());
        assert(state.usage() =~= Map::<Seq<char>, Seq<char>>::empty());
        state
    }

    /// The configuration.
    pub fn config(&self) -> (config: &Config)
        ensures
            *config == self.settings(),
    {
        &self.config
    }

    /// The file that a model's conversation is kept in: one component below the state directory.
    pub fn state_file(&self, model: &str) -> (path: StatePath)
        ensures
            path.base@ == self.settings().state_dir.base@,
            path.components.deep_view() == self.settings().state_dir.components.deep_view().push(
                state_file_name(model@),
            ),
    {
        let dir = &self.config.state_dir;
        let mut components: Vec<String> = Vec::new();
        let mut i: usize = 0;
        while i < dir.components.len()
            invariant
                i <= dir.components.len(),
                components.deep_view() == dir.components.deep_view().take(i as int),
            decreases dir.components.len() - i,
        {
            let ghost before = components.deep_view();
            components.push(dir.components[i].clone());
            proof {
                assert(components.deep_view() == before.push(dir.components.deep_view()[i as int]));
                assert(dir.components.deep_view().take(i + 1) == before.push(
                    dir.components.deep_view()[i as int],
                ));
            }
            i += 1;
        }
        let ghost before = components.deep_view();
        components.push(name_state_file(model));
        proof {
            assert(before == dir.components.deep_view());
            assert(components.deep_view() == before.push(state_file_name(model@)));
        }
        StatePath { base: dir.base.clone(), components }
    }

    /// Whether a conversation of the model is in memory.
    pub fn has_conversation(&self, model: &str) -> (found: bool)
        requires
            self.wf(),
        ensures
            found == self.conversations().contains_key(model@),
    {
        self.conversations.get(model).is_some()
    }

    /// The messages of a model: those in memory, or else those that were saved.
    pub fn recall_messages(&self, model: &str, saved: Vec<Value>) -> (messages: Vec<Value>)
        requires
            self.wf(),
        ensures
            json_docs(messages@) == messages_of(self.conversations(), model@, json_docs(saved@)),
    {
        match self.conversations.get(model) {
            Some(messages) => copy_values(messages),
            None => saved,
        }
    }

    /// The messages of a model: those in memory, or else those on disk. The text of the model's
    /// file is given where it can be read.
    pub fn load_messages(&self, model: &str, disk: Option<&str>) -> (messages: Vec<Value>)
        requires
            self.wf(),
        ensures
            json_docs(messages@) == messages_of(
                self.conversations(),
                model@,
                saved_messages(disk.deep_view()),
            ),
    {
        self.recall_messages(model, read_saved_messages(disk))
    }

    /// Keeps the messages of a model in memory, in place of those that were there, and gives the
    /// text to write to the model's file.
    ///
    /// Where no conversation of the model is in memory, as in a new process, that text gives the
    /// messages back, if each of them is one that can be read back.
    pub fn save_messages(&mut self, model: &str, messages: Vec<Value>) -> (text: String)
        requires
            old(self).wf(),
        ensures
            final(self).wf(),
            final(self).settings() == old(self).settings(),
            final(self).conversations() == old(self).conversations().insert(
                model@,
                json_docs(messages@),
            ),
            final(self).usage() == old(self).usage(),
            text@ == pretty_text(json_docs(messages@)),
            all_read_back(json_docs(messages@)) ==> saved_messages(Some(text@)) == json_docs(
                messages@,
            ),
    {
        let text = print_list(&messages);
        self.conversations.insert(model, messages);
        assert(self.conversations() =~= old(self).conversations().insert(
            model@,
            json_docs(messages@),
        ));
        text
    }

    /// Adds the message of an assistant to those of a model, which are in memory or else on disk,
    /// and saves them. Gives the text to write to the model's file.
    pub fn append_assistant(&mut self, model: &str, content: String, disk: Option<&str>) -> (text:
        String)
        requires
            old(self).wf(),
        ensures
            final(self).wf(),
            final(self).settings() == old(self).settings(),
            ({
                let messages = messages_of(
                    old(self).conversations(),
                    model@,
                    saved_messages(disk.deep_view()),
                ).push(assistant_message(content@));
                &&& final(self).conversations() == old(self).conversations().insert(
                    model@,
                    messages,
                )
                &&& text@ == pretty_text(messages)
                &&& all_read_back(messages) ==> saved_messages(Some(text@)) == messages
            }),
            final(self).usage() == old(self).usage(),
    {
        let mut messages = self.load_messages(model, disk);
        let ghost before = json_docs(messages@);
        messages.push(new_assistant_message(content));
        assert(json_docs(messages@) == before.push(assistant_message(content@)));
        self.save_messages(model, messages)
    }

    /// Keeps the line on tokens or cost of a model, in place of the one that was there.
    pub fn set_usage(&mut self, model: &str, usage: String)
        requires
            old(self).wf(),
        ensures
            final(self).wf(),
            final(self).settings() == old(self).settings(),
            final(self).conversations() == old(self).conversations(),
            final(self).usage() == old(self).usage().insert(model@, usage@),
    {
        self.usage.insert(model.to_string(), usage);
        assert(self.usage() =~= old(self).usage().insert(model@, usage@));
    }

    /// Takes in what a whole completion says: its reply is appended to the conversation of the
    /// model, and its line on tokens or cost is kept. Gives the text to write to the model's file,
    /// if there is a reply.
    pub fn record_completion(
        &mut self,
        model: &str,
        completion: Completion,
        disk: Option<&str>,
    ) -> (text: Option<String>)
        requires
            old(self).wf(),
        ensures
            final(self).wf(),
            final(self).settings() == old(self).settings(),
            final(self).conversations() == conversations_after(
                old(self).conversations(),
                model@,
                completion@.content,
                saved_messages(disk.deep_view()),
            ),
            text.deep_view() == text_after(
                old(self).conversations(),
                model@,
                completion@.content,
                saved_messages(disk.deep_view()),
            ),
            text is Some && all_read_back(final(self).conversations()[model@]) ==> saved_messages(
                text.deep_view(),
            ) == final(self).conversations()[model@],
            final(self).usage() == usage_after(old(self).usage(), model@, kept_line(completion@)),
    {
        let line = completion.kept_line();
        let text = match completion.content {
            Some(content) => Some(self.append_assistant(model, content, disk)),
            None => None,
        };
        if let Some(line) = line {
            self.set_usage(model, line);
        }
        text
    }

    /// Takes in what a stream said, once it has ended: as with a whole completion, the reply is
    /// appended and the line is kept. Gives the text to write to the model's file, if there is a
    /// reply.
    pub fn record_stream(&mut self, model: &str, end: StreamEnd, disk: Option<&str>) -> (text:
        Option<String>)
        requires
            old(self).wf(),
        ensures
            final(self).wf(),
            final(self).settings() == old(self).settings(),
            final(self).conversations() == conversations_after(
                old(self).conversations(),
                model@,
                end.reply.deep_view(),
                saved_messages(disk.deep_view()),
            ),
            text.deep_view() == text_after(
                old(self).conversations(),
                model@,
                end.reply.deep_view(),
                saved_messages(disk.deep_view()),
            ),
            text is Some && all_read_back(final(self).conversations()[model@]) ==> saved_messages(
                text.deep_view(),
            ) == final(self).conversations()[model@],
            final(self).usage() == usage_after(
                old(self).usage(),
                model@,
                end.usage.deep_view(),
            ),
    {
        let text = match end.reply {
            Some(reply) => Some(self.append_assistant(model, reply, disk)),
            None => None,
        };
        if let Some(line) = end.usage {
            self.set_usage(model, line);
        }
        text
    }

    /// The usage of each model of which a conversation is in memory.
    pub fn usage_report(&self) -> (report: Vec<ModelUsage>)
        requires
            self.wf(),
        ensures
            is_usage_report(report@, self.conversations(), self.usage()),
    {
        let mut report: Vec<ModelUsage> = Vec::new();
        let mut i: usize = 0;
        proof {
            self.conversations.lemma_models();
        }
        while i < self.conversations.len()
            invariant
                self.wf(),
                i <= self.conversations.models().len(),
                report.len() == i,
                forall|model: Seq<char>|
                    self.conversations.models().contains(model)
                        <==> #[trigger] self.conversations.view().contains_key(model),
                forall|j: int|
                    0 <= j < i ==> (#[trigger] report@[j]).model@
                        == self.conversations.models()[j] && is_usage_of(
                        report@[j],
                        self.conversations(),
                        self.usage(),
                    ),
            decreases self.conversations.models().len() - i,
        {
            let model = self.conversations.model(i);
            assert(self.conversations.models().contains(model@));
            let message_count: usize = match self.conversations.get(model) {
                Some(messages) => messages.len(),
                None => 0,
            };
            let last_usage = match self.usage.get(model) {
                Some(line) => line.clone(),
                None => String::new(),
            };
            report.push(ModelUsage { model: model.to_string(), message_count, last_usage });
            i += 1;
        }
        proof {
            self.conversations.lemma_models();
            let models = self.conversations.models();
            assert forall|model: Seq<char>| #[trigger]
                self.conversations().contains_key(model) implies exists|j: int|
                0 <= j < report@.len() && (#[trigger] report@[j]).model@ == model by {
                let j = models.index_of(model);
                assert(models.contains(model));
                assert(report@[j].model@ == model);
            }
        }
        report
    }
}

} // verus!
