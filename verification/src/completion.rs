//! What a completion of the upstream says: the reply, the tokens used and the cost.

use crate::json::{
    count_in, doc_text, field_in, field_of, first_in, json_doc, print_value, text_in, JsonDoc,
};
use crate::text::{decimal, decimal_text};
use serde_json::Value;
use vstd::prelude::*;
use vstd::string::*;

verus! {

/// The tokens that a completion used.
#[derive(Clone, Copy, Debug, PartialEq, Eq, Structural)]
pub struct TokenUsage {
    pub prompt: u64,
    pub completion: u64,
    pub cached: u64,
}

/// What is tracked of a completion, or of one chunk of a streamed completion.
#[derive(Debug)]
pub struct Completion {
    /// The reply, or the piece of it that the chunk brings.
    pub content: Option<String>,
    /// The tokens used.
    pub usage: Option<TokenUsage>,
    /// The cost, as JSON text.
    pub cost: Option<String>,
}

/// What a [`Completion`] holds.
#[verifier::ext_equal]
pub struct CompletionView {
    pub content: Option<Seq<char>>,
    pub usage: Option<TokenUsage>,
    pub cost: Option<Seq<char>>,
}

impl View for Completion {
    type V = CompletionView;

    open spec fn view(&self) -> CompletionView {
        CompletionView {
            content: self.content.deep_view(),
            usage: self.usage,
            cost: self.cost.deep_view(),
        }
    }
}

/// A number that counts as zero where it is missing.
pub open spec fn or_zero(count: Option<u64>) -> u64 {
    match count {
        Some(count) => count,
        None => 0,
    }
}

/// The tokens that a `usage` document tells of. A number that is missing, or is no integer of zero
/// or more, counts as zero.
pub open spec fn usage_of(doc: JsonDoc) -> TokenUsage {
    TokenUsage {
        prompt: or_zero(count_in(doc.field("prompt_tokens"@))),
        completion: or_zero(count_in(doc.field("completion_tokens"@))),
        cached: or_zero(
            count_in(field_in(doc.field("prompt_tokens_details"@), "cached_tokens"@)),
        ),
    }
}

/// What is tracked of a document whose first choice holds the reply under `part`: `message` in a
/// whole completion, `delta` in a chunk of a streamed one.
pub open spec fn completion_of(doc: JsonDoc, part: Seq<char>) -> CompletionView {
    CompletionView {
        content: text_in(field_in(field_in(first_in(doc.field("choices"@)), part), "content"@)),
        usage: match doc.field("usage"@) {
            Some(usage) => Some(usage_of(usage)),
            None => None,
        },
        cost: match doc.field("cost"@) {
            Some(cost) => Some(doc_text(cost)),
            None => None,
        },
    }
}

fn count_of(value: &Value, name: &str) -> (count: u64)
    ensures
        count == or_zero(count_in(json_doc(*value).field(name@))),
{
    match field_of(value, name) {
        Some(number) => match number.as_u64() {
            Some(count) => count,
            None => 0,
        },
        None => 0,
    }
}

fn read_usage(value: &Value) -> (usage: TokenUsage)
    ensures
        usage == usage_of(json_doc(*value)),
{
    let cached: u64 = match field_of(value, "prompt_tokens_details") {
        Some(details) => count_of(details, "cached_tokens"),
        None => 0,
    };
    TokenUsage {
        prompt: count_of(value, "prompt_tokens"),
        completion: count_of(value, "completion_tokens"),
        cached,
    }
}

fn read_content(value: &Value, part: &str) -> (content: Option<String>)
    ensures
        content.deep_view() == completion_of(json_doc(*value), part@).content,
{
    let choices = field_of(value, "choices")?;
    let list = choices.as_array()?;
    if list.len() == 0 {
        return None;
    }
    let message = field_of(&list[0], part)?;
    let content = field_of(message, "content")?;
    match content.as_str() {
        Some(text) => Some(text.to_string()),
        None => None,
    }
}

/// Reads what is tracked of a completion.
pub fn read_completion(value: &Value, part: &str) -> (completion: Completion)
    ensures
        completion@ == completion_of(json_doc(*value), part@),
{
    let content = read_content(value, part);
    let usage = match field_of(value, "usage") {
        Some(usage) => Some(read_usage(usage)),
        None => None,
    };
    let cost = match field_of(value, "cost") {
        Some(cost) => Some(print_value(cost)),
        None => None,
    };
    Completion { content, usage, cost }
}

/// The line that tells of tokens used.
pub open spec fn usage_line(usage: TokenUsage) -> Seq<char> {
    "usage: in="@ + decimal(usage.prompt as nat) + " out="@ + decimal(usage.completion as nat)
        + " cached="@ + decimal(usage.cached as nat)
}

/// The line that tells of a cost.
pub open spec fn cost_line(cost: Seq<char>) -> Seq<char> {
    "cost: $"@ + cost
}

/// The line to keep of a completion: that of the cost where it tells one, else that of the tokens
/// used, else none.
pub open spec fn kept_line(completion: CompletionView) -> Option<Seq<char>> {
    match completion.cost {
        Some(cost) => Some(cost_line(cost)),
        None => match completion.usage {
            Some(usage) => Some(usage_line(usage)),
            None => None,
        },
    }
}

/// Writes the line that tells of tokens used.
pub fn write_usage(usage: &TokenUsage) -> (line: String)
    ensures
        line@ == usage_line(*usage),
{
    let mut line = "usage: in=".to_string();
    line.append(decimal_text(usage.prompt).as_str());
    line.append(" out=");
    line.append(decimal_text(usage.completion).as_str());
    line.append(" cached=");
    line.append(decimal_text(usage.cached).as_str());
    line
}

/// Writes the line that tells of a cost.
pub fn write_cost(cost: &str) -> (line: String)
    ensures
        line@ == cost_line(cost@),
{
    let mut line = "cost: $".to_string();
    line.append(cost);
    line
}

impl Completion {
    /// Writes the line to keep of this completion.
    pub fn kept_line(&self) -> (line: Option<String>)
        ensures
            line.deep_view() == kept_line(self@),
    {
        match &self.cost {
            Some(cost) => Some(write_cost(cost.as_str())),
            None => match &self.usage {
                Some(usage) => Some(write_usage(usage)),
                None => None,
            },
        }
    }
}

} // verus!
