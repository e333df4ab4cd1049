//! What the operations on settings, identifiers, names and requests do, stated of their inputs and
//! their results.

use crate::config::{api_key_display, Config, EnvVars, StatePath};
use crate::filename::{
    law_plain_model_names_its_file, law_state_files_are_distinct, name_state_file,
    sanitize_filename,
};
use crate::headers::{header_entries, header_text};
use crate::ids::{
    cut_draws, hex_id, leading_chars, md5_hex, project_of_digest, project_of_directory,
};
use crate::json::{json_doc, json_docs};
use crate::routes::{AcceptedChat, ChatRequest, Reply};
use crate::settings_laws::{
    law_identifiers_are_hexadecimal, law_joined_texts_are_all_there, law_key_is_shown_by_its_ends,
    law_sanitized_character_by_character, law_state_directory, law_variables_win,
};
use crate::state::{is_usage_of, AppState, ModelUsage};
use crate::stream::StreamTracker;
use crate::text_laws::law_prefix_is_taken_off;
use crate::upstream::{
    build_headers, can_send_headers, choose_key, choose_value, is_request_id,
    law_anonymous_client_gets_configured_key, law_wire_headers, RequestMethod, UpstreamRequest,
};
use crate::upstream_laws::{
    law_client_key_reaches_the_upstream, law_completion_request_is_the_clients,
    law_configured_values_decide, law_only_control_characters_cannot_be_sent, law_request_id,
};
use axum::http::{HeaderMap, HeaderValue};
use serde_json::Value;
use vstd::prelude::*;
use vstd::utf8::*;

verus! {

// Settings
/// A configuration takes each variable that is set as it is, and the default of each that is not.
pub proof fn law_configuration_follows_the_variables(
    env: EnvVars,
    session_id: &str,
    project_id: &str,
    config: Config,
)
    requires
        call_ensures(Config::with_defaults, (env, session_id, project_id), config),
    ensures
        env.base_url matches Some(value) ==> config.base_url@ == value@,
        env.base_url is None ==> config.base_url@ == "https://opencode.ai/zen/v1"@,
        env.api_key matches Some(value) ==> config.api_key@ == value@,
        env.api_key is None ==> config.api_key@ == "public"@,
        env.client_name matches Some(value) ==> config.client_name@ == value@,
        env.client_name is None ==> config.client_name@ == "cli"@,
        env.user_agent matches Some(value) ==> config.user_agent@ == value@,
        env.user_agent is None ==> config.user_agent@ == "opencode/0.0.0"@,
        env.listen_addr matches Some(value) ==> config.listen_addr@ == value@,
        env.listen_addr is None ==> config.listen_addr@ == "127.0.0.1:8080"@,
        env.session_id matches Some(value) ==> config.session_id@ == value@,
        env.session_id is None ==> config.session_id@ == session_id@,
        env.project_id matches Some(value) ==> config.project_id@ == value@,
        env.project_id is None ==> config.project_id@ == project_id@,
        env.state_dir matches Some(path) ==> config.state_dir.base@ == path@
            && config.state_dir.components.len() == 0,
        env.state_dir is None && env.home is Some ==> config.state_dir.base@ == env.home->0@
            && config.state_dir.components.len() == 2,
{
    law_variables_win(config, env);
    law_state_directory(config.state_dir, env);
}

/// The configuration of a process takes each variable that is set as it is; a session that is not
/// named is `sess_` and 24 digits, and a project that is not named depends on the directory alone.
pub proof fn law_process_configuration(
    env: EnvVars,
    directory: Option<String>,
    config: Config,
)
    requires
        call_ensures(Config::from_env, (env, directory), config),
    ensures
        env.base_url matches Some(value) ==> config.base_url@ == value@,
        env.api_key matches Some(value) ==> config.api_key@ == value@,
        env.client_name matches Some(value) ==> config.client_name@ == value@,
        env.user_agent matches Some(value) ==> config.user_agent@ == value@,
        env.listen_addr matches Some(value) ==> config.listen_addr@ == value@,
        env.state_dir matches Some(path) ==> config.state_dir.base@ == path@
            && config.state_dir.components.len() == 0,
        env.session_id matches Some(value) ==> config.session_id@ == value@,
        env.session_id is None ==> {
            &&& config.session_id@.len() == 29
            &&& config.session_id@.take(5) == "sess_"@
            &&& forall|i: int|
                5 <= i < 29 ==> ('0' <= #[trigger] config.session_id@[i] <= '9' || 'a'
                    <= config.session_id@[i] <= 'f')
        },
        env.project_id matches Some(value) ==> config.project_id@ == value@,
        env.project_id is None && directory is Some ==> config.project_id@ == "prj_"@ + md5_hex(
            encode_utf8(directory->0@),
        ).take(16),
        env.project_id is None && directory is None ==> config.project_id@ == "prj_"@ + md5_hex(
            encode_utf8("/"@),
        ).take(16),
{
    law_variables_win(config, env);
    law_state_directory(config.state_dir, env);
    if env.session_id is None {
        let digits = config.session_id@.skip(5);
        law_identifiers_are_hexadecimal(digits, 24);
        assert forall|i: int| 5 <= i < 29 implies ('0' <= #[trigger] config.session_id@[i] <= '9'
            || 'a' <= config.session_id@[i] <= 'f') by {
            assert(digits[i - 5] == config.session_id@[i]);
        }
    }
}

/// A key of ASCII characters is shown by its first and its last four.
pub proof fn law_shown_key_hides_the_middle(key: &str, shown: String)
    requires
        call_ensures(api_key_display, (key,), shown),
        is_ascii_chars(key@),
        key@.len() >= 4,
        key@ != "public"@,
    ensures
        shown@.len() == 11,
        shown@.take(4) == key@.take(4),
        shown@.subrange(4, 7) == "..."@,
        shown@.skip(7) == key@.skip(key@.len() - 4),
{
    law_key_is_shown_by_its_ends(key@);
    reveal_strlit("...");
    assert(shown@.take(4) == key@.take(4));
    assert(shown@.subrange(4, 7) == "..."@);
    assert(shown@.skip(7) == key@.skip(key@.len() - 4));
}

// Identifiers
/// A random identifier has the length that was asked for, and is made of lower-case hexadecimal
/// digits.
pub proof fn law_drawn_identifier(num_chars: usize, id: String)
    requires
        call_ensures(hex_id, (num_chars,), id),
    ensures
        id@.len() == num_chars,
        forall|i: int|
            0 <= i < num_chars ==> ('0' <= #[trigger] id@[i] <= '9' || 'a' <= id@[i] <= 'f'),
{
    law_identifiers_are_hexadecimal(id@, num_chars as nat);
}

/// Draws are joined in order and cut at the end only.
pub proof fn law_draws_are_cut_at_the_end(draws: &Vec<String>, num_chars: usize, id: String)
    requires
        call_ensures(cut_draws, (draws, num_chars), id),
        num_chars <= draws.deep_view().flatten().len(),
    ensures
        id@.len() == num_chars,
        forall|i: int| 0 <= i < num_chars ==> #[trigger] id@[i] == draws.deep_view().flatten()[i],
{
    law_joined_texts_are_all_there(draws.deep_view());
}

/// The first characters of a text are those that it starts with.
pub proof fn law_leading_characters(text: &str, count: usize, leading: String)
    requires
        call_ensures(leading_chars, (text, count), leading),
        count <= text@.len(),
    ensures
        leading@.len() == count,
        forall|i: int| 0 <= i < count ==> #[trigger] leading@[i] == text@[i],
{
}

/// The project of a digest is `prj_` and the first 16 digits of it; that of a directory is the
/// project of the digest of its path.
pub proof fn law_project_is_that_of_the_digest(
    digits: &str,
    project: String,
    directory: &str,
    of_directory: String,
)
    requires
        call_ensures(project_of_digest, (digits,), project),
        call_ensures(project_of_directory, (directory,), of_directory),
        digits@ == md5_hex(encode_utf8(directory@)),
        digits@.len() >= 16,
    ensures
        project@.len() == 20,
        project@.take(4) == "prj_"@,
        forall|i: int| 4 <= i < 20 ==> #[trigger] project@[i] == digits@[i - 4],
        of_directory@ == project@,
{
    reveal_strlit("prj_");
    assert(project@.take(4) == "prj_"@);
}

// Names
/// A sanitized name differs from the name only where that holds a slash, a backslash, a colon or a
/// blank, and has an underscore there.
pub proof fn law_sanitized_name(s: &str, name: String, i: int)
    requires
        call_ensures(sanitize_filename, (s,), name),
        0 <= i < s@.len(),
    ensures
        name@.len() == s@.len(),
        s@[i] == '/' || s@[i] == '\\' || s@[i] == ':' || s@[i] == ' ' ==> name@[i] == '_',
        s@[i] != '/' && s@[i] != '\\' && s@[i] != ':' && s@[i] != ' ' ==> name@[i] == s@[i],
{
    law_sanitized_character_by_character(s@, i);
}

/// Two models have two files, and a model whose name needs no escape has the file of its name.
pub proof fn law_files_are_named_apart(a: &str, b: &str, file_a: String, file_b: String)
    requires
        call_ensures(name_state_file, (a,), file_a),
        call_ensures(name_state_file, (b,), file_b),
    ensures
        a@ != b@ ==> file_a@ != file_b@,
        a@ == b@ ==> file_a@ == file_b@,
        (forall|i: int|
            0 <= i < a@.len() ==> {
                let c = #[trigger] a@[i];
                c != '/' && c != '\\' && c != ':' && c != ' ' && c != '%'
            }) ==> file_a@ == a@ + ".json"@,
{
    if a@ != b@ {
        law_state_files_are_distinct(a@, b@);
    }
    if forall|i: int|
        0 <= i < a@.len() ==> {
            let c = #[trigger] a@[i];
            c != '/' && c != '\\' && c != ':' && c != ' ' && c != '%'
        } {
        law_plain_model_names_its_file(a@);
    }
}

/// The files of two models stand in the same directory, the state directory, and are not the same.
pub proof fn law_files_stand_in_the_state_directory(
    state: &AppState,
    a: &str,
    b: &str,
    file_a: StatePath,
    file_b: StatePath,
)
    requires
        call_ensures(AppState::state_file, (state, a), file_a),
        call_ensures(AppState::state_file, (state, b), file_b),
        a@ != b@,
    ensures
        file_a.base@ == state.settings().state_dir.base@,
        file_a.components.deep_view().drop_last()
            == state.settings().state_dir.components.deep_view(),
        file_b.components.deep_view().drop_last()
            == state.settings().state_dir.components.deep_view(),
        file_a.components.deep_view().last() != file_b.components.deep_view().last(),
{
    law_state_files_are_distinct(a@, b@);
    let dir = state.settings().state_dir.components.deep_view();
    assert(dir.push(file_a.components.deep_view().last()).drop_last() == dir);
    assert(dir.push(file_b.components.deep_view().last()).drop_last() == dir);
}

// Requests to the upstream
/// The key that is chosen is the client's where it brings one that is neither empty nor `public`,
/// character for character, and else the configured one.
pub proof fn law_chosen_key_is_the_clients(
    authorization: Option<String>,
    x_api_key: Option<String>,
    configured: &str,
    chosen: String,
    key: Seq<char>,
)
    requires
        call_ensures(choose_key, (authorization, x_api_key, configured), chosen),
    ensures
        key.len() > 0 && key != "public"@ && authorization is Some && authorization->0@ == "Bearer "@
            + key ==> chosen@ == key,
        key.len() > 0 && key != "public"@ && authorization is None && x_api_key is Some
            && x_api_key->0@ == key ==> chosen@ == key,
        authorization is Some && authorization->0@ == "Bearer "@ + "public"@ ==> chosen@
            == configured@,
        authorization is Some && authorization->0@ == "Bearer "@ ==> chosen@ == configured@,
        authorization is None && x_api_key is None ==> chosen@ == configured@,
        authorization is None && x_api_key is Some && (x_api_key->0@.len() == 0 || x_api_key->0@
            == "public"@) ==> chosen@ == configured@,
{
    assert(authorization is Some ==> authorization.deep_view() == Some(authorization->0@));
    assert(x_api_key is Some ==> x_api_key.deep_view() == Some(x_api_key->0@));
    if let Some(value) = authorization {
        law_prefix_is_taken_off("Bearer "@ + key, "Bearer "@, key);
        if value@ == "Bearer "@ + "public"@ || value@ == "Bearer "@ {
            law_anonymous_client_gets_configured_key(value@, x_api_key.deep_view(), configured@);
        }
    }
}

/// A value that the client brings is chosen as it is, even where it is empty; else the configured
/// one is.
pub proof fn law_chosen_value_is_the_clients(
    asked: Option<String>,
    configured: &str,
    chosen: String,
)
    requires
        call_ensures(choose_value, (asked, configured), chosen),
    ensures
        asked matches Some(value) ==> chosen@ == value@,
        asked is None ==> chosen@ == configured@,
{
    assert(asked is Some ==> asked.deep_view() == Some(asked->0@));
}

/// The headers of a request hold the key, the session and the project of the client where it
/// brings them, and the configured ones where it does not; the request identifier, the client name
/// and the user agent are those that are given.
pub proof fn law_built_headers(
    config: &Config,
    client: &HeaderMap<HeaderValue>,
    is_stream: bool,
    request: &str,
    headers: HeaderMap<HeaderValue>,
)
    requires
        call_ensures(build_headers, (config, client, is_stream, request), headers),
    ensures
        ({
            let entries = header_entries(headers);
            &&& entries.dom() == set![
                "authorization"@,
                "content-type"@,
                "accept"@,
                "x-opencode-session"@,
                "x-opencode-request"@,
                "x-opencode-project"@,
                "x-opencode-client"@,
                "user-agent"@,
            ]
            &&& header_text(*client, "x-opencode-session"@) matches Some(session)
                ==> entries["x-opencode-session"@] == seq![encode_utf8(session)]
            &&& header_text(*client, "x-opencode-session"@) is None
                ==> entries["x-opencode-session"@] == seq![encode_utf8(config.session_id@)]
            &&& header_text(*client, "x-opencode-project"@) matches Some(project)
                ==> entries["x-opencode-project"@] == seq![encode_utf8(project)]
            &&& header_text(*client, "x-opencode-project"@) is None
                ==> entries["x-opencode-project"@] == seq![encode_utf8(config.project_id@)]
            &&& entries["x-opencode-request"@] == seq![encode_utf8(request@)]
            &&& entries["x-opencode-client"@] == seq![encode_utf8(config.client_name@)]
            &&& entries["user-agent"@] == seq![encode_utf8(config.user_agent@)]
            &&& entries["content-type"@] == seq![encode_utf8("application/json"@)]
            &&& is_stream ==> entries["accept"@] == seq![encode_utf8("text/event-stream"@)]
            &&& !is_stream ==> entries["accept"@] == seq![encode_utf8("application/json"@)]
        }),
{
    law_wire_headers(*config, *client, is_stream, request@);
}

/// A key of the client's own is the key in the headers that are built for it.
pub proof fn law_built_headers_carry_the_clients_key(
    config: &Config,
    client: &HeaderMap<HeaderValue>,
    is_stream: bool,
    request: &str,
    headers: HeaderMap<HeaderValue>,
    key: Seq<char>,
)
    requires
        call_ensures(build_headers, (config, client, is_stream, request), headers),
        key.len() > 0,
        key != "public"@,
        header_text(*client, "authorization"@) == Some("Bearer "@ + key) || (header_text(
            *client,
            "x-api-key"@,
        ) == Some(key) && header_text(*client, "authorization"@) is None),
    ensures
        header_entries(headers)["authorization"@] == seq![encode_utf8("Bearer "@ + key)],
{
    law_client_key_reaches_the_upstream(*config, *client, is_stream, request@, key);
}

/// The headers of a request that goes out carry an identifier of that request, `req_` and 24
/// digits.
pub proof fn law_outgoing_headers_carry_a_request_identifier(
    state: &AppState,
    client: &HeaderMap<HeaderValue>,
    is_stream: bool,
    headers: HeaderMap<HeaderValue>,
)
    requires
        call_ensures(AppState::build_upstream_headers, (state, client, is_stream), headers),
    ensures
        exists|id: Seq<char>|
            {
                &&& #[trigger] is_request_id(id)
                &&& id.len() == 28
                &&& header_entries(headers)["x-opencode-request"@] == seq![encode_utf8(id)]
            },
        header_entries(headers)["x-opencode-client"@] == seq![
            encode_utf8(state.settings().client_name@),
        ],
        header_entries(headers)["user-agent"@] == seq![encode_utf8(state.settings().user_agent@)],
{
    let id = choose|id: Seq<char>| #[trigger]
        is_request_id(id) && header_entries(headers) == crate::upstream::upstream_entries(
            state.settings(),
            *client,
            is_stream,
            id,
        );
    law_request_id(id);
    law_wire_headers(state.settings(), *client, is_stream, id);
}

/// The models are asked for below the base URL, without a body.
pub proof fn law_models_are_asked_for(
    state: &AppState,
    client: &HeaderMap<HeaderValue>,
    request: UpstreamRequest,
)
    requires
        call_ensures(AppState::models_request, (state, client), request),
    ensures
        request.method == RequestMethod::Get,
        request.url@ == state.settings().base_url@ + "/models"@,
        request.body is None,
        header_entries(request.headers)["accept"@] == seq![encode_utf8("application/json"@)],
{
    let id = choose|id: Seq<char>| #[trigger]
        is_request_id(id) && header_entries(request.headers) == crate::upstream::upstream_entries(
            state.settings(),
            *client,
            false,
            id,
        );
    law_wire_headers(state.settings(), *client, false, id);
}

/// A completion is asked for below the base URL with the body that was given, byte for byte.
pub proof fn law_completion_is_asked_for(
    state: &AppState,
    client: &HeaderMap<HeaderValue>,
    is_stream: bool,
    body: Vec<u8>,
    request: UpstreamRequest,
)
    requires
        call_ensures(AppState::chat_request, (state, client, is_stream, body), request),
    ensures
        request.method == RequestMethod::Post,
        request.url@ == state.settings().base_url@ + "/chat/completions"@,
        request.body is Some,
        request.body->0@ == body@,
{
    law_completion_request_is_the_clients(request, state.settings(), *client, is_stream, body@);
}

/// Whether a text holds no control character but the tab.
pub open spec fn no_control(text: Seq<char>) -> bool {
    forall|i: int|
        0 <= i < text.len() ==> {
            let code = #[trigger] text[i] as int;
            code == 9 || (code >= 32 && code != 127)
        }
}

/// The headers for a client without overrides can be sent exactly where no configured value holds
/// a control character other than the tab.
pub proof fn law_sendable_headers_are_told(
    config: &Config,
    client: &HeaderMap<HeaderValue>,
    sendable: bool,
)
    requires
        call_ensures(can_send_headers, (config, client), sendable),
        header_text(*client, "authorization"@) is None,
        header_text(*client, "x-api-key"@) is None,
        header_text(*client, "x-opencode-session"@) is None,
        header_text(*client, "x-opencode-project"@) is None,
    ensures
        sendable <==> {
            &&& no_control(config.api_key@)
            &&& no_control(config.session_id@)
            &&& no_control(config.project_id@)
            &&& no_control(config.client_name@)
            &&& no_control(config.user_agent@)
        },
{
    law_configured_values_decide(*config, *client);
    law_only_control_characters_cannot_be_sent(config.api_key@);
    law_only_control_characters_cannot_be_sent(config.session_id@);
    law_only_control_characters_cannot_be_sent(config.project_id@);
    law_only_control_characters_cannot_be_sent(config.client_name@);
    law_only_control_characters_cannot_be_sent(config.user_agent@);
}

// State
/// A new state has the configuration that was given, no conversation and no usage.
pub proof fn law_new_state_is_empty(config: Config, state: AppState)
    requires
        call_ensures(AppState::new, (config,), state),
    ensures
        state.settings() == config,
        forall|model: Seq<char>| !(#[trigger] state.conversations().contains_key(model)),
        forall|model: Seq<char>| !(#[trigger] state.usage().contains_key(model)),
{
}

/// A conversation is in memory exactly where it is found, and what is recalled is the one in
/// memory, or else what was saved, whole and in order.
pub proof fn law_conversation_is_recalled(
    state: &AppState,
    model: &str,
    found: bool,
    saved: Vec<Value>,
    messages: Vec<Value>,
)
    requires
        call_ensures(AppState::has_conversation, (state, model), found),
        call_ensures(AppState::recall_messages, (state, model, saved), messages),
    ensures
        found <==> state.conversations().contains_key(model@),
        found ==> json_docs(messages@) == state.conversations()[model@],
        !found ==> messages.len() == saved.len(),
        !found ==> forall|i: int|
            0 <= i < saved.len() ==> json_doc(#[trigger] messages@[i]) == json_doc(saved@[i]),
{
    let read = json_docs(messages@);
    assert(read.len() == messages@.len());
    assert(json_docs(saved@).len() == saved@.len());
    assert forall|i: int| !found && 0 <= i < saved.len() implies json_doc(#[trigger] messages@[i])
        == json_doc(saved@[i]) by {
        assert(read[i] == json_doc(messages@[i]));
        assert(json_docs(saved@)[i] == json_doc(saved@[i]));
    }
}

/// A report has an entry for each conversation in memory, one and no more, with the number of its
/// messages and the last line of its model.
pub proof fn law_report_has_every_model(state: &AppState, report: Vec<ModelUsage>, model: Seq<char>)
    requires
        call_ensures(AppState::usage_report, (state,), report),
    ensures
        state.conversations().contains_key(model) ==> exists|i: int|
            {
                &&& 0 <= i < report.len()
                &&& (#[trigger] report@[i]).model@ == model
                &&& report@[i].message_count == state.conversations()[model].len()
                &&& state.usage().contains_key(model) ==> report@[i].last_usage@
                    == state.usage()[model]
                &&& !state.usage().contains_key(model) ==> report@[i].last_usage@.len() == 0
            },
        forall|i: int|
            0 <= i < report.len() ==> state.conversations().contains_key(
                (#[trigger] report@[i]).model@,
            ),
        forall|i: int, j: int|
            0 <= i < j < report.len() ==> (#[trigger] report@[i]).model@ != (
            #[trigger] report@[j]).model@,
{
    if state.conversations().contains_key(model) {
        let i = choose|i: int| 0 <= i < report.len() && (#[trigger] report@[i]).model@ == model;
        assert(is_usage_of(report@[i], state.conversations(), state.usage()));
    }
    assert forall|i: int| 0 <= i < report.len() implies state.conversations().contains_key(
        (#[trigger] report@[i]).model@,
    ) by {
        assert(is_usage_of(report@[i], state.conversations(), state.usage()));
    }
}

/// A request that is taken in leaves its model with its messages, every one, and tells their
/// number; one without messages changes nothing.
pub proof fn law_request_is_taken_in(
    state: &mut AppState,
    chat: ChatRequest,
    accepted: AcceptedChat,
)
    requires
        call_ensures(AppState::accept_chat, (state, chat), accepted),
    ensures
        accepted.model@ == chat.model@,
        accepted.is_stream == chat.is_stream,
        chat.messages matches Some(messages) ==> {
            &&& accepted.message_count == messages.len()
            &&& final(state).conversations() == old(state).conversations().insert(
                chat.model@,
                json_docs(messages@),
            )
        },
        chat.messages is None ==> {
            &&& accepted.message_count == 0
            &&& accepted.text is None
            &&& final(state).conversations() == old(state).conversations()
        },
        final(state).usage() == old(state).usage(),
{
    assert(chat@.messages is None <==> chat.messages is None);
    if let Some(messages) = chat.messages {
        assert(chat@.messages == Some(json_docs(messages@)));
        assert(json_docs(messages@).len() == messages@.len());
    }
}

/// What came of parsing a request decides: JSON is accepted, and anything else refused with the
/// reason.
pub proof fn law_parsed_request_is_accepted(
    state: &mut AppState,
    parsed: Result<Value, String>,
    start: Result<AcceptedChat, Reply>,
)
    requires
        call_ensures(AppState::start_chat, (state, parsed), start),
    ensures
        start is Ok <==> parsed is Ok,
        parsed matches Err(error) ==> {
            &&& start->Err_0.status == 400
            &&& start->Err_0.body@ == encode_utf8("invalid JSON: "@ + error@)
            &&& final(state).conversations() == old(state).conversations()
        },
        final(state).usage() == old(state).usage(),
        final(state).settings() == old(state).settings(),
{
    if parsed is Err {
        assert(start->Err_0@.status == start->Err_0.status);
        assert(start->Err_0@.body == start->Err_0.body@);
    }
}

/// The errors that are told of a stream are those that were tracked.
pub proof fn law_errors_are_told(tracker: &StreamTracker, errors: &Vec<String>)
    requires
        call_ensures(StreamTracker::errors, (tracker,), errors),
    ensures
        errors.len() == tracker.track().errors.len(),
        forall|i: int|
            0 <= i < errors.len() ==> #[trigger] errors@[i]@ == tracker.track().errors[i],
{
    assert(errors.deep_view().len() == errors.len());
    assert forall|i: int| 0 <= i < errors.len() implies #[trigger] errors@[i]@
        == tracker.track().errors[i] by {
        assert(errors.deep_view()[i] == errors@[i]@);
    }
}

} // verus!
