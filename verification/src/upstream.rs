//! Requests to the upstream: their URLs and headers.

use crate::config::Config;
use crate::headers::{
    header_entries, header_text, is_header_name, is_plain_byte, is_sendable, new_headers,
    no_entries, plain_text, read_header, write_header,
};
use crate::ids::{hex_id, is_hex_id};
use crate::state::AppState;
use crate::text::{after_prefix, chars_of, same_text, strip_prefix};
use axum::http::{HeaderMap, HeaderValue};
use vstd::prelude::*;
use vstd::string::*;
use vstd::utf8::encode_utf8;

verus! {

/// The API key that a client asks for: that of `Authorization: Bearer`, or else that of
/// `x-api-key`.
pub open spec fn asked_key(authorization: Option<Seq<char>>, x_api_key: Option<Seq<char>>) -> Option<
    Seq<char>,
> {
    match authorization {
        Some(value) => match after_prefix(value, "Bearer "@) {
            Some(key) => Some(key),
            None => x_api_key,
        },
        None => x_api_key,
    }
}

/// The API key to send: the one that the client asks for, unless that is empty or `public`, which
/// stands for anonymous access; else the configured one.
pub open spec fn chosen_key(
    authorization: Option<Seq<char>>,
    x_api_key: Option<Seq<char>>,
    configured: Seq<char>,
) -> Seq<char> {
    match asked_key(authorization, x_api_key) {
        Some(key) => if key.len() == 0 || key == "public"@ {
            configured
        } else {
            key
        },
        None => configured,
    }
}

/// What the client asks for, or else what is configured.
pub open spec fn chosen(asked: Option<Seq<char>>, configured: Seq<char>) -> Seq<char> {
    match asked {
        Some(value) => value,
        None => configured,
    }
}

/// Chooses the API key to send.
pub fn choose_key(
    authorization: Option<String>,
    x_api_key: Option<String>,
    configured: &str,
) -> (key: String)
    ensures
        key@ == chosen_key(authorization.deep_view(), x_api_key.deep_view(), configured@),
{
    let bearer = match authorization {
        Some(value) => strip_prefix(value.as_str(), "Bearer "),
        None => None,
    };
    let asked = match bearer {
        Some(key) => Some(key),
        None => x_api_key,
    };
    match asked {
        Some(key) => {
            if key.as_str().is_empty() || same_text(key.as_str(), "public") {
                configured.to_string()
            } else {
                key
            }
        },
        None => configured.to_string(),
    }
}

/// Chooses between what the client asks for and what is configured.
pub fn choose_value(asked: Option<String>, configured: &str) -> (value: String)
    ensures
        value@ == chosen(asked.deep_view(), configured@),
{
    match asked {
        Some(value) => value,
        None => configured.to_string(),
    }
}

/// The API key to send for a client.
pub open spec fn key_for(config: Config, client: HeaderMap<HeaderValue>) -> Seq<char> {
    chosen_key(
        header_text(client, "authorization"@),
        header_text(client, "x-api-key"@),
        config.api_key@,
    )
}

/// The session identifier to send for a client.
pub open spec fn session_for(config: Config, client: HeaderMap<HeaderValue>) -> Seq<char> {
    chosen(header_text(client, "x-opencode-session"@), config.session_id@)
}

/// The project identifier to send for a client.
pub open spec fn project_for(config: Config, client: HeaderMap<HeaderValue>) -> Seq<char> {
    chosen(header_text(client, "x-opencode-project"@), config.project_id@)
}

/// The media type to ask for.
pub open spec fn accepted_type(is_stream: bool) -> Seq<char> {
    if is_stream {
        "text/event-stream"@
    } else {
        "application/json"@
    }
}

/// The headers of a request to the upstream: each name once, with one value.
pub open spec fn upstream_entries(
    config: Config,
    client: HeaderMap<HeaderValue>,
    is_stream: bool,
    request: Seq<char>,
) -> Map<Seq<char>, Seq<Seq<u8>>> {
    no_entries().insert(
        "authorization"@,
        seq![encode_utf8("Bearer "@ + key_for(config, client))],
    ).insert("content-type"@, seq![encode_utf8("application/json"@)]).insert(
        "accept"@,
        seq![encode_utf8(accepted_type(is_stream))],
    ).insert("x-opencode-session"@, seq![encode_utf8(session_for(config, client))]).insert(
        "x-opencode-request"@,
        seq![encode_utf8(request)],
    ).insert("x-opencode-project"@, seq![encode_utf8(project_for(config, client))]).insert(
        "x-opencode-client"@,
        seq![encode_utf8(config.client_name@)],
    ).insert("user-agent"@, seq![encode_utf8(config.user_agent@)])
}

/// Whether every value that goes into the headers can be sent.
pub open spec fn headers_sendable(config: Config, client: HeaderMap<HeaderValue>) -> bool {
    &&& is_sendable(key_for(config, client))
    &&& is_sendable(session_for(config, client))
    &&& is_sendable(project_for(config, client))
    &&& is_sendable(config.client_name@)
    &&& is_sendable(config.user_agent@)
}

/// Whether every configured value can be sent as a header.
pub open spec fn config_sendable(config: Config) -> bool {
    &&& is_sendable(config.api_key@)
    &&& is_sendable(config.session_id@)
    &&& is_sendable(config.project_id@)
    &&& is_sendable(config.client_name@)
    &&& is_sendable(config.user_agent@)
}

proof fn lemma_plain_is_sendable(bytes: Seq<u8>)
    ensures
        match plain_text(bytes) {
            Some(text) => is_sendable(text),
            None => true,
        },
{
    if let Some(text) = plain_text(bytes) {
        assert forall|i: int| 0 <= i < text.len() implies (' ' <= #[trigger] text[i] && text[i]
            != '\x7f') || text[i] == '\t' by {
            assert(is_plain_byte(bytes[i]));
        }
    }
}

/// With a configuration whose values can be sent, the headers can be sent for every client: what a
/// client overrides is always sendable.
pub proof fn law_overrides_are_sendable(config: Config, client: HeaderMap<HeaderValue>)
    requires
        config_sendable(config),
    ensures
        headers_sendable(config, client),
{
    let entries = header_entries(client);
    lemma_plain_is_sendable(entries["authorization"@][0]);
    lemma_plain_is_sendable(entries["x-api-key"@][0]);
    lemma_plain_is_sendable(entries["x-opencode-session"@][0]);
    lemma_plain_is_sendable(entries["x-opencode-project"@][0]);
}

/// Whether a text can be sent as a header value.
fn can_send(text: &str) -> (sendable: bool)
    ensures
        sendable == is_sendable(text@),
{
    let chars = chars_of(text);
    let mut i: usize = 0;
    while i < chars.len()
        invariant
            i <= chars.len(),
            chars@ == text@,
            forall|j: int| 0 <= j < i ==> ((' ' <= #[trigger] text@[j] && text@[j] != '\x7f')
                || text@[j] == '\t'),
        decreases chars.len() - i,
    {
        let c = chars[i];
        if !((c >= ' ' && c != '\x7f') || c == '\t') {
            assert(text@[i as int] == c);
            return false;
        }
        i += 1;
    }
    true
}

proof fn lemma_header_names()
    ensures
        is_header_name("authorization"@),
        is_header_name("x-api-key"@),
        is_header_name("content-type"@),
        is_header_name("accept"@),
        is_header_name("x-opencode-session"@),
        is_header_name("x-opencode-request"@),
        is_header_name("x-opencode-project"@),
        is_header_name("x-opencode-client"@),
        is_header_name("user-agent"@),
{
    reveal_strlit("authorization");
    reveal_strlit("x-api-key");
    reveal_strlit("content-type");
    reveal_strlit("accept");
    reveal_strlit("x-opencode-session");
    reveal_strlit("x-opencode-request");
    reveal_strlit("x-opencode-project");
    reveal_strlit("x-opencode-client");
    reveal_strlit("user-agent");
}

proof fn lemma_fixed_values()
    ensures
        is_sendable("Bearer "@),
        is_sendable("application/json"@),
        is_sendable("text/event-stream"@),
        is_sendable("req_"@),
{
    reveal_strlit("Bearer ");
    reveal_strlit("application/json");
    reveal_strlit("text/event-stream");
    reveal_strlit("req_");
}

/// Whether the headers for a client can be sent.
pub fn can_send_headers(config: &Config, client: &HeaderMap<HeaderValue>) -> (sendable: bool)
    ensures
        sendable == headers_sendable(*config, *client),
{
    proof {
        lemma_header_names();
    }
    let key = choose_key(
        read_header(client, "authorization"),
        read_header(client, "x-api-key"),
        config.api_key.as_str(),
    );
    let session = choose_value(
        read_header(client, "x-opencode-session"),
        config.session_id.as_str(),
    );
    let project = choose_value(
        read_header(client, "x-opencode-project"),
        config.project_id.as_str(),
    );
    can_send(key.as_str()) && can_send(session.as_str()) && can_send(project.as_str()) && can_send(
        config.client_name.as_str(),
    ) && can_send(config.user_agent.as_str())
}

/// Builds the headers of a request to the upstream that carries the given request identifier.
pub fn build_headers(
    config: &Config,
    client: &HeaderMap<HeaderValue>,
    is_stream: bool,
    request: &str,
) -> (headers: HeaderMap<HeaderValue>)
    requires
        headers_sendable(*config, *client),
        is_sendable(request@),
    ensures
        header_entries(headers) == upstream_entries(*config, *client, is_stream, request@),
{
    proof {
        lemma_header_names();
        lemma_fixed_values();
    }
    let mut headers = new_headers();
    let key = choose_key(
        read_header(client, "authorization"),
        read_header(client, "x-api-key"),
        config.api_key.as_str(),
    );
    let mut authorization = "Bearer ".to_string();
    authorization.append(key.as_str());
    write_header(&mut headers, "authorization", authorization.as_str());
    write_header(&mut headers, "content-type", "application/json");
    let accept = if is_stream {
        "text/event-stream"
    } else {
        "application/json"
    };
    write_header(&mut headers, "accept", accept);
    let session = choose_value(
        read_header(client, "x-opencode-session"),
        config.session_id.as_str(),
    );
    write_header(&mut headers, "x-opencode-session", session.as_str());
    write_header(&mut headers, "x-opencode-request", request);
    let project = choose_value(
        read_header(client, "x-opencode-project"),
        config.project_id.as_str(),
    );
    write_header(&mut headers, "x-opencode-project", project.as_str());
    write_header(&mut headers, "x-opencode-client", config.client_name.as_str());
    write_header(&mut headers, "user-agent", config.user_agent.as_str());
    headers
}

/// Whether a text is the identifier of a request: `req_` and 24 random digits.
pub open spec fn is_request_id(request: Seq<char>) -> bool {
    &&& request.len() == 28
    &&& request.take(4) == "req_"@
    &&& is_hex_id(request.skip(4), 24)
}

fn new_request_id() -> (request: String)
    ensures
        is_request_id(request@),
        is_sendable(request@),
{
    let mut request = "req_".to_string();
    let digits = hex_id(24);
    request.append(digits.as_str());
    proof {
        lemma_fixed_values();
        reveal_strlit("req_");
        assert(request@.take(4) == "req_"@);
        assert(request@.skip(4) == digits@);
        assert forall|i: int| 0 <= i < request@.len() implies (' ' <= #[trigger] request@[i]
            && request@[i] != '\x7f') || request@[i] == '\t' by {
            if i >= 4 {
                assert(request@[i] == digits@[i - 4]);
            }
        }
    }
    request
}

/// The method of a request to the upstream.
#[derive(Clone, Copy, Debug, PartialEq, Eq, Structural)]
pub enum RequestMethod {
    Get,
    Post,
}

/// A request to the upstream.
#[derive(Debug)]
pub struct UpstreamRequest {
    pub method: RequestMethod,
    pub url: String,
    pub headers: HeaderMap<HeaderValue>,
    /// The body to send; `None` for a request without one.
    pub body: Option<Vec<u8>>,
}

impl UpstreamRequest {
    /// Whether this asks the upstream for the completion that a client asked for: with the headers
    /// for that client, a new request identifier, and the body of the client byte for byte.
    pub open spec fn is_chat_of(
        self,
        config: Config,
        client: HeaderMap<HeaderValue>,
        is_stream: bool,
        body: Seq<u8>,
    ) -> bool {
        &&& self.method == RequestMethod::Post
        &&& self.url@ == config.base_url@ + "/chat/completions"@
        &&& self.body is Some
        &&& self.body->0@ == body
        &&& exists|id: Seq<char>| #[trigger]
            is_request_id(id) && header_entries(self.headers) == upstream_entries(
                config,
                client,
                is_stream,
                id,
            )
    }
}

impl AppState {
    /// Build the upstream headers, mirroring opencode's wire format.
    /// Client can override API key via Authorization header and
    /// session/project via x-opencode-* headers.
    ///
    /// Each call makes a new request identifier.
    pub fn build_upstream_headers(
        &self,
        client_headers: &HeaderMap<HeaderValue>,
        is_stream: bool,
    ) -> (headers: HeaderMap<HeaderValue>)
        requires
            headers_sendable(self.settings(), *client_headers),
        ensures
            exists|request: Seq<char>| #[trigger]
                is_request_id(request) && header_entries(headers) == upstream_entries(
                    self.settings(),
                    *client_headers,
                    is_stream,
                    request,
                ),
    {
        let request = new_request_id();
        build_headers(self.config(), client_headers, is_stream, request.as_str())
    }

    /// The request for the models of the upstream.
    pub fn models_request(&self, client_headers: &HeaderMap<HeaderValue>) -> (request:
        UpstreamRequest)
        requires
            headers_sendable(self.settings(), *client_headers),
        ensures
            request.method == RequestMethod::Get,
            request.url@ == self.settings().base_url@ + "/models"@,
            request.body is None,
            exists|id: Seq<char>| #[trigger]
                is_request_id(id) && header_entries(request.headers) == upstream_entries(
                    self.settings(),
                    *client_headers,
                    false,
                    id,
                ),
    {
        let mut url = self.config().base_url.clone();
        url.append("/models");
        UpstreamRequest {
            method: RequestMethod::Get,
            url,
            headers: self.build_upstream_headers(client_headers, false),
            body: None,
        }
    }

    /// The request for a completion. The body is that of the client, byte for byte.
    pub fn chat_request(
        &self,
        client_headers: &HeaderMap<HeaderValue>,
        is_stream: bool,
        body: Vec<u8>,
    ) -> (request: UpstreamRequest)
        requires
            headers_sendable(self.settings(), *client_headers),
        ensures
            request.is_chat_of(self.settings(), *client_headers, is_stream, body@),
    {
        let mut url = self.config().base_url.clone();
        url.append("/chat/completions");
        UpstreamRequest {
            method: RequestMethod::Post,
            url,
            headers: self.build_upstream_headers(client_headers, is_stream),
            body: Some(body),
        }
    }
}

// Laws
/// `Authorization: Bearer public`, or one with an empty key, is anonymous: the configured key is
/// sent, whatever `x-api-key` says.
pub proof fn law_anonymous_client_gets_configured_key(
    authorization: Seq<char>,
    x_api_key: Option<Seq<char>>,
    configured: Seq<char>,
)
    requires
        authorization == "Bearer "@ + "public"@ || authorization == "Bearer "@,
    ensures
        chosen_key(Some(authorization), x_api_key, configured) == configured,
{
    let prefix = "Bearer "@;
    assert(authorization.subrange(0, prefix.len() as int) == prefix);
    if authorization == prefix {
        assert(authorization.skip(prefix.len() as int).len() == 0);
    } else {
        assert(authorization.skip(prefix.len() as int) == "public"@);
    }
}

/// A client that brings a key of its own, neither empty nor `public`, has it sent: by
/// `Authorization: Bearer`, or by `x-api-key` where there is no such `Authorization`.
pub proof fn law_client_key_is_sent(
    key: Seq<char>,
    authorization: Option<Seq<char>>,
    x_api_key: Option<Seq<char>>,
    configured: Seq<char>,
)
    requires
        key.len() > 0,
        key != "public"@,
        authorization == Some("Bearer "@ + key) || (x_api_key == Some(key) && (match authorization {
            Some(value) => after_prefix(value, "Bearer "@) is None,
            None => true,
        })),
    ensures
        chosen_key(authorization, x_api_key, configured) == key,
{
    if authorization == Some("Bearer "@ + key) {
        let prefix = "Bearer "@;
        assert((prefix + key).subrange(0, prefix.len() as int) == prefix);
        assert((prefix + key).skip(prefix.len() as int) == key);
    }
}

/// A request to the upstream carries the eight headers of the wire format and no others, each with
/// one value: the key, session and project that were chosen for the client, the request
/// identifier, the configured client name and user agent, and the media types.
pub proof fn law_wire_headers(
    config: Config,
    client: HeaderMap<HeaderValue>,
    is_stream: bool,
    request: Seq<char>,
)
    ensures
        ({
            let entries = upstream_entries(config, client, is_stream, request);
            &&& entries.dom() == set![
                "authorization"@,
                "content-type"@,
                "accept"@,
                "x-opencode-session"@,
                "x-opencode-request"@,
                "x-opencode-project"@,
                "x-opencode-client"@,
                "user-agent"@,
            ]
            &&& entries["authorization"@] == seq![encode_utf8("Bearer "@ + key_for(config, client))]
            &&& entries["content-type"@] == seq![encode_utf8("application/json"@)]
            &&& entries["accept"@] == seq![encode_utf8(accepted_type(is_stream))]
            &&& entries["x-opencode-session"@] == seq![encode_utf8(session_for(config, client))]
            &&& entries["x-opencode-request"@] == seq![encode_utf8(request)]
            &&& entries["x-opencode-project"@] == seq![encode_utf8(project_for(config, client))]
            &&& entries["x-opencode-client"@] == seq![encode_utf8(config.client_name@)]
            &&& entries["user-agent"@] == seq![encode_utf8(config.user_agent@)]
        }),
{
    reveal_strlit("authorization");
    reveal_strlit("content-type");
    reveal_strlit("accept");
    reveal_strlit("x-opencode-session");
    reveal_strlit("x-opencode-request");
    reveal_strlit("x-opencode-project");
    reveal_strlit("x-opencode-client");
    reveal_strlit("user-agent");
    assert("authorization"@.len() == 13);
    assert("content-type"@.len() == 12);
    assert("accept"@.len() == 6);
    assert("x-opencode-session"@.len() == 18);
    assert("x-opencode-request"@.len() == 18);
    assert("x-opencode-project"@.len() == 18);
    assert("x-opencode-client"@.len() == 17);
    assert("user-agent"@.len() == 10);
    assert("x-opencode-session"@[11] == 's');
    assert("x-opencode-request"@[11] == 'r');
    assert("x-opencode-project"@[11] == 'p');
    let entries = upstream_entries(config, client, is_stream, request);
    assert(entries.dom() =~= set![
        "authorization"@,
        "content-type"@,
        "accept"@,
        "x-opencode-session"@,
        "x-opencode-request"@,
        "x-opencode-project"@,
        "x-opencode-client"@,
        "user-agent"@,
    ]);
}

/// A client that names a session or a project of its own has it sent; for one that does not, the
/// configured one is sent.
pub proof fn law_session_and_project_are_sent(
    config: Config,
    client: HeaderMap<HeaderValue>,
    is_stream: bool,
    request: Seq<char>,
)
    ensures
        ({
            let entries = upstream_entries(config, client, is_stream, request);
            &&& match header_text(client, "x-opencode-session"@) {
                Some(session) => entries["x-opencode-session"@] == seq![encode_utf8(session)],
                None => entries["x-opencode-session"@] == seq![encode_utf8(config.session_id@)],
            }
            &&& match header_text(client, "x-opencode-project"@) {
                Some(project) => entries["x-opencode-project"@] == seq![encode_utf8(project)],
                None => entries["x-opencode-project"@] == seq![encode_utf8(config.project_id@)],
            }
        }),
{
    law_wire_headers(config, client, is_stream, request);
}

} // verus!
