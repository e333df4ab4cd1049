//! What holds of the reply, the tokens and the cost that are read from a completion, whatever the
//! completion.

use crate::completion::{completion_of, kept_line, usage_of, Completion, TokenUsage};
use crate::json::{doc_text, JsonDoc, JsonNumber};
use crate::text::decimal;
use crate::text_laws::{law_decimal_reads_back, number_of};
use vstd::prelude::*;

verus! {

/// The integer under a name; zero where there is none, or it is below zero.
pub open spec fn number_at(fields: Map<Seq<char>, JsonDoc>, name: Seq<char>) -> u64 {
    if fields.contains_key(name) {
        match fields[name] {
            JsonDoc::Number(JsonNumber::Unsigned(n)) => n,
            _ => 0,
        }
    } else {
        0
    }
}

/// The fields of the object under a name; none where there is no object.
pub open spec fn object_at(fields: Map<Seq<char>, JsonDoc>, name: Seq<char>) -> Map<
    Seq<char>,
    JsonDoc,
> {
    if fields.contains_key(name) {
        match fields[name] {
            JsonDoc::Fields(inner) => inner,
            _ => Map::empty(),
        }
    } else {
        Map::empty()
    }
}

/// The tokens of a prompt are the `prompt_tokens`, those of the completion the
/// `completion_tokens`, and those from the cache the `cached_tokens` of the
/// `prompt_tokens_details`, whatever other fields there are.
pub proof fn law_tokens_are_those_named(usage: Map<Seq<char>, JsonDoc>)
    ensures
        usage_of(JsonDoc::Fields(usage)).prompt == number_at(usage, "prompt_tokens"@),
        usage_of(JsonDoc::Fields(usage)).completion == number_at(usage, "completion_tokens"@),
        usage_of(JsonDoc::Fields(usage)).cached == number_at(
            object_at(usage, "prompt_tokens_details"@),
            "cached_tokens"@,
        ),
{
}

/// Two `usage` objects that agree on the three numbers tell of the same tokens, however they
/// differ otherwise.
pub proof fn law_tokens_depend_on_three_numbers(
    a: Map<Seq<char>, JsonDoc>,
    b: Map<Seq<char>, JsonDoc>,
)
    requires
        number_at(a, "prompt_tokens"@) == number_at(b, "prompt_tokens"@),
        number_at(a, "completion_tokens"@) == number_at(b, "completion_tokens"@),
        number_at(object_at(a, "prompt_tokens_details"@), "cached_tokens"@) == number_at(
            object_at(b, "prompt_tokens_details"@),
            "cached_tokens"@,
        ),
    ensures
        usage_of(JsonDoc::Fields(a)) == usage_of(JsonDoc::Fields(b)),
{
}

/// A `usage` that is no object tells of no tokens.
pub proof fn law_usage_without_fields_is_zero(doc: JsonDoc)
    requires
        !(doc is Fields),
    ensures
        usage_of(doc) == (TokenUsage { prompt: 0, completion: 0, cached: 0 }),
{
}

/// Whether the first of the choices of a document holds a text under `part` and `content`.
pub open spec fn says(doc: JsonDoc, part: Seq<char>, text: Seq<char>) -> bool {
    &&& doc matches JsonDoc::Fields(fields)
    &&& fields.contains_key("choices"@)
    &&& fields["choices"@] matches JsonDoc::List(choices)
    &&& choices.len() > 0
    &&& choices[0] matches JsonDoc::Fields(choice)
    &&& choice.contains_key(part)
    &&& choice[part] matches JsonDoc::Fields(message)
    &&& message.contains_key("content"@)
    &&& message["content"@] == JsonDoc::Text(text)
}

/// The reply that is read is exactly the text that the first choice holds, character for
/// character; there is none exactly where the first choice holds no text.
pub proof fn law_reply_is_that_of_the_first_choice(doc: JsonDoc, part: Seq<char>)
    ensures
        forall|text: Seq<char>| #[trigger]
            says(doc, part, text) ==> completion_of(doc, part).content == Some(text),
        completion_of(doc, part).content matches Some(text) ==> says(doc, part, text),
{
}

/// The tokens are those of the field `usage`, which counts even where it is null, and the cost is
/// what the field `cost` prints as.
pub proof fn law_usage_and_cost_are_those_named(fields: Map<Seq<char>, JsonDoc>, part: Seq<char>)
    ensures
        ({
            let completion = completion_of(JsonDoc::Fields(fields), part);
            &&& completion.usage is Some <==> fields.contains_key("usage"@)
            &&& fields.contains_key("usage"@) ==> completion.usage == Some(
                usage_of(fields["usage"@]),
            )
            &&& completion.cost is Some <==> fields.contains_key("cost"@)
            &&& fields.contains_key("cost"@) ==> completion.cost == Some(doc_text(fields["cost"@]))
        }),
{
}

/// Whether a line tells three numbers, each in decimal.
pub open spec fn tells(
    line: Seq<char>,
    prompt: Seq<char>,
    completion: Seq<char>,
    cached: Seq<char>,
) -> bool {
    &&& line == "usage: in="@ + prompt + " out="@ + completion + " cached="@ + cached
    &&& forall|i: int| 0 <= i < prompt.len() ==> '0' <= #[trigger] prompt[i] <= '9'
    &&& forall|i: int| 0 <= i < completion.len() ==> '0' <= #[trigger] completion[i] <= '9'
    &&& forall|i: int| 0 <= i < cached.len() ==> '0' <= #[trigger] cached[i] <= '9'
}

/// The line that is kept of a completion that tells its tokens and no cost gives the number of
/// each in its place.
pub proof fn law_kept_line_tells_the_tokens(
    fields: Map<Seq<char>, JsonDoc>,
    usage: Map<Seq<char>, JsonDoc>,
    part: Seq<char>,
)
    requires
        fields.contains_key("usage"@),
        fields["usage"@] == JsonDoc::Fields(usage),
        !fields.contains_key("cost"@),
    ensures
        ({
            let line = kept_line(completion_of(JsonDoc::Fields(fields), part));
            &&& line is Some
            &&& exists|prompt: Seq<char>, completion: Seq<char>, cached: Seq<char>|
                {
                    &&& #[trigger] tells(line->0, prompt, completion, cached)
                    &&& number_of(prompt) == number_at(usage, "prompt_tokens"@)
                    &&& number_of(completion) == number_at(usage, "completion_tokens"@)
                    &&& number_of(cached) == number_at(
                        object_at(usage, "prompt_tokens_details"@),
                        "cached_tokens"@,
                    )
                }
        }),
{
    let line = kept_line(completion_of(JsonDoc::Fields(fields), part))->0;
    let prompt = number_at(usage, "prompt_tokens"@) as nat;
    let completion = number_at(usage, "completion_tokens"@) as nat;
    let cached = number_at(object_at(usage, "prompt_tokens_details"@), "cached_tokens"@) as nat;
    law_decimal_reads_back(prompt);
    law_decimal_reads_back(completion);
    law_decimal_reads_back(cached);
    assert(tells(line, decimal(prompt), decimal(completion), decimal(cached)));
}

/// The line that is kept of a completion that tells a cost gives what the cost prints as, whatever
/// it tells of tokens.
pub proof fn law_kept_line_tells_the_cost(fields: Map<Seq<char>, JsonDoc>, part: Seq<char>)
    requires
        fields.contains_key("cost"@),
    ensures
        kept_line(completion_of(JsonDoc::Fields(fields), part)) == Some(
            "cost: $"@ + doc_text(fields["cost"@]),
        ),
{
}

/// Nothing is kept of a completion that tells neither tokens nor a cost.
pub proof fn law_nothing_told_is_nothing_kept(doc: JsonDoc, part: Seq<char>)
    requires
        doc matches JsonDoc::Fields(fields) ==> !fields.contains_key("usage"@)
            && !fields.contains_key("cost"@),
    ensures
        kept_line(completion_of(doc, part)) is None,
{
}

/// What a completion holds is what its fields hold.
pub proof fn law_completion_holds_its_fields(completion: Completion)
    ensures
        completion.content matches Some(content) ==> completion@.content == Some(content@),
        completion.content is None ==> completion@.content is None,
        completion.usage == completion@.usage,
        completion.cost matches Some(cost) ==> kept_line(completion@) == Some("cost: $"@ + cost@),
        completion.cost is None && completion.usage is None ==> kept_line(completion@) is None,
        completion.cost is None && completion.usage is Some ==> kept_line(completion@) is Some,
{
}

} // verus!
