//! What holds of the requests to the upstream, whatever the client and the configuration.

use crate::config::Config;
use crate::headers::{header_entries, header_text, is_sendable};
use crate::ids::is_hex_id;
use crate::text::after_prefix;
use crate::text_laws::law_prefix_is_taken_off;
use crate::upstream::{
    config_sendable, headers_sendable, is_request_id, law_anonymous_client_gets_configured_key,
    law_client_key_is_sent, law_wire_headers, upstream_entries, RequestMethod, UpstreamRequest,
};
use axum::http::{HeaderMap, HeaderValue};
use vstd::prelude::*;
use vstd::utf8::encode_utf8;

verus! {

/// Whether bytes are a text of blanks, tabs and visible ASCII characters, byte for character.
pub open spec fn spells(bytes: Seq<u8>, text: Seq<char>) -> bool {
    &&& bytes.len() == text.len()
    &&& forall|i: int|
        0 <= i < bytes.len() ==> {
            &&& #[trigger] bytes[i] as int == text[i] as int
            &&& 32 <= bytes[i] <= 126 || bytes[i] == 9
        }
}

/// The text of a header is that of its first value, byte for character; a header that is not
/// there, or whose first value holds any other byte, has none.
pub proof fn law_header_is_read_by_its_first_value(
    headers: HeaderMap<HeaderValue>,
    name: Seq<char>,
    text: Seq<char>,
)
    ensures
        header_text(headers, name) == Some(text) <==> {
            &&& header_entries(headers).contains_key(name)
            &&& header_entries(headers)[name].len() > 0
            &&& spells(header_entries(headers)[name][0], text)
        },
{
    let entries = header_entries(headers);
    if entries.contains_key(name) && entries[name].len() > 0 {
        let bytes = entries[name][0];
        if header_text(headers, name) == Some(text) {
            assert forall|i: int| 0 <= i < bytes.len() implies {
                &&& #[trigger] bytes[i] as int == text[i] as int
                &&& 32 <= bytes[i] <= 126 || bytes[i] == 9
            } by {
                assert(crate::headers::is_plain_byte(bytes[i]));
            }
        }
        if spells(bytes, text) {
            assert forall|i: int| 0 <= i < bytes.len() implies crate::headers::is_plain_byte(
                #[trigger] bytes[i],
            ) by {}
            assert(Seq::new(bytes.len(), |i: int| bytes[i] as char) =~= text);
        }
    }
}

/// A key that a client brings, neither empty nor `public`, is the key that is sent, character for
/// character: behind `Bearer ` in `Authorization`, or else in `x-api-key`.
pub proof fn law_client_key_reaches_the_upstream(
    config: Config,
    client: HeaderMap<HeaderValue>,
    is_stream: bool,
    request: Seq<char>,
    key: Seq<char>,
)
    requires
        key.len() > 0,
        key != "public"@,
        header_text(client, "authorization"@) == Some("Bearer "@ + key) || (header_text(
            client,
            "x-api-key"@,
        ) == Some(key) && header_text(client, "authorization"@) is None),
    ensures
        upstream_entries(config, client, is_stream, request)["authorization"@] == seq![
            encode_utf8("Bearer "@ + key),
        ],
{
    law_wire_headers(config, client, is_stream, request);
    law_client_key_is_sent(
        key,
        header_text(client, "authorization"@),
        header_text(client, "x-api-key"@),
        config.api_key@,
    );
}

/// For a client that brings no key, or an empty one, or `public`, the configured key is sent.
pub proof fn law_configured_key_stands_in(
    config: Config,
    client: HeaderMap<HeaderValue>,
    is_stream: bool,
    request: Seq<char>,
)
    requires
        ({
            let authorization = header_text(client, "authorization"@);
            let x_api_key = header_text(client, "x-api-key"@);
            ||| authorization == Some("Bearer "@ + "public"@)
            ||| authorization == Some("Bearer "@)
            ||| authorization is None && (x_api_key is None || x_api_key->0.len() == 0
                || x_api_key->0 == "public"@)
        }),
    ensures
        upstream_entries(config, client, is_stream, request)["authorization"@] == seq![
            encode_utf8("Bearer "@ + config.api_key@),
        ],
{
    law_wire_headers(config, client, is_stream, request);
    if header_text(client, "authorization"@) is Some {
        law_anonymous_client_gets_configured_key(
            header_text(client, "authorization"@)->0,
            header_text(client, "x-api-key"@),
            config.api_key@,
        );
    }
}

/// An `Authorization` of another scheme counts as none: the key is that of `x-api-key`.
pub proof fn law_other_schemes_do_not_count(
    config: Config,
    client: HeaderMap<HeaderValue>,
    is_stream: bool,
    request: Seq<char>,
    key: Seq<char>,
)
    requires
        key.len() > 0,
        key != "public"@,
        header_text(client, "authorization"@) is Some,
        forall|rest: Seq<char>| #[trigger]
            ("Bearer "@ + rest) != header_text(client, "authorization"@)->0,
        header_text(client, "x-api-key"@) == Some(key),
    ensures
        upstream_entries(config, client, is_stream, request)["authorization"@] == seq![
            encode_utf8("Bearer "@ + key),
        ],
{
    let value = header_text(client, "authorization"@)->0;
    law_prefix_is_taken_off(value, "Bearer "@, Seq::empty());
    if let Some(rest) = after_prefix(value, "Bearer "@) {
        assert("Bearer "@ + rest == value);
    }
    law_wire_headers(config, client, is_stream, request);
    law_client_key_is_sent(
        key,
        header_text(client, "authorization"@),
        header_text(client, "x-api-key"@),
        config.api_key@,
    );
}

/// A stream is asked for as server-sent events, and a whole completion as JSON; nothing else
/// differs between the two.
pub proof fn law_accepted_type_follows_the_stream_flag(
    config: Config,
    client: HeaderMap<HeaderValue>,
    request: Seq<char>,
    name: Seq<char>,
)
    ensures
        upstream_entries(config, client, true, request)["accept"@] == seq![
            encode_utf8("text/event-stream"@),
        ],
        upstream_entries(config, client, false, request)["accept"@] == seq![
            encode_utf8("application/json"@),
        ],
        name != "accept"@ ==> upstream_entries(config, client, true, request)[name]
            == upstream_entries(config, client, false, request)[name],
{
    law_wire_headers(config, client, true, request);
    law_wire_headers(config, client, false, request);
}

/// Of a client's headers only four count: two clients that agree on those are sent on alike,
/// whatever else they send.
pub proof fn law_only_overrides_are_taken_from_clients(
    config: Config,
    a: HeaderMap<HeaderValue>,
    b: HeaderMap<HeaderValue>,
    is_stream: bool,
    request: Seq<char>,
)
    requires
        header_text(a, "authorization"@) == header_text(b, "authorization"@),
        header_text(a, "x-api-key"@) == header_text(b, "x-api-key"@),
        header_text(a, "x-opencode-session"@) == header_text(b, "x-opencode-session"@),
        header_text(a, "x-opencode-project"@) == header_text(b, "x-opencode-project"@),
    ensures
        upstream_entries(config, a, is_stream, request) == upstream_entries(
            config,
            b,
            is_stream,
            request,
        ),
{
}

/// A text can be sent in a header exactly where it holds no control character but the tab.
pub proof fn law_only_control_characters_cannot_be_sent(text: Seq<char>)
    ensures
        is_sendable(text) <==> forall|i: int|
            0 <= i < text.len() ==> {
                let code = #[trigger] text[i] as int;
                code == 9 || (code >= 32 && code != 127)
            },
{
    if is_sendable(text) {
        assert forall|i: int| 0 <= i < text.len() implies {
            let code = #[trigger] text[i] as int;
            code == 9 || (code >= 32 && code != 127)
        } by {
            assert(text[i] == text[i]);
        }
    }
}

/// For a client without overrides the headers can be sent exactly where every configured value
/// can.
pub proof fn law_configured_values_decide(config: Config, client: HeaderMap<HeaderValue>)
    requires
        header_text(client, "authorization"@) is None,
        header_text(client, "x-api-key"@) is None,
        header_text(client, "x-opencode-session"@) is None,
        header_text(client, "x-opencode-project"@) is None,
    ensures
        headers_sendable(config, client) <==> {
            &&& is_sendable(config.api_key@)
            &&& is_sendable(config.session_id@)
            &&& is_sendable(config.project_id@)
            &&& is_sendable(config.client_name@)
            &&& is_sendable(config.user_agent@)
        },
        headers_sendable(config, client) <==> config_sendable(config),
{
}

/// The identifier of a request is `req_` and 24 lower-case hexadecimal digits.
pub proof fn law_request_id(request: Seq<char>)
    requires
        is_request_id(request),
    ensures
        request.len() == 28,
        request.take(4) == "req_"@,
        forall|i: int|
            4 <= i < 28 ==> ('0' <= #[trigger] request[i] <= '9' || 'a' <= request[i] <= 'f'),
{
    let digits = request.skip(4);
    assert(is_hex_id(digits, 24));
    assert forall|i: int| 4 <= i < 28 implies ('0' <= #[trigger] request[i] <= '9' || 'a'
        <= request[i] <= 'f') by {
        assert(digits[i - 4] == request[i]);
    }
}

/// A request for a completion goes to the route for completions below the base URL, carries the
/// body of the client byte for byte, and has the eight headers of the wire format.
pub proof fn law_completion_request_is_the_clients(
    request: UpstreamRequest,
    config: Config,
    client: HeaderMap<HeaderValue>,
    is_stream: bool,
    body: Seq<u8>,
)
    requires
        request.is_chat_of(config, client, is_stream, body),
    ensures
        request.method == RequestMethod::Post,
        request.url@ == config.base_url@ + "/chat/completions"@,
        request.body is Some,
        request.body->0@.len() == body.len(),
        forall|i: int| 0 <= i < body.len() ==> #[trigger] request.body->0@[i] == body[i],
        header_entries(request.headers).dom() == set![
            "authorization"@,
            "content-type"@,
            "accept"@,
            "x-opencode-session"@,
            "x-opencode-request"@,
            "x-opencode-project"@,
            "x-opencode-client"@,
            "user-agent"@,
        ],
        exists|id: Seq<char>| #[trigger]
            is_request_id(id) && header_entries(request.headers)["x-opencode-request"@] == seq![
                encode_utf8(id),
            ],
{
    let id = choose|id: Seq<char>| #[trigger]
        is_request_id(id) && header_entries(request.headers) == upstream_entries(
            config,
            client,
            is_stream,
            id,
        );
    law_wire_headers(config, client, is_stream, id);
}

} // verus!
