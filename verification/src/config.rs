//! Configuration from environment variables.

use crate::ids::{hex_id, is_hex_id, md5_hex, project_of_directory};
use vstd::prelude::*;
use vstd::string::*;
use vstd::utf8::*;

verus! {

/// A path on disk: a base, and the components to join to it one after the other.
pub struct StatePath {
    pub base: String,
    pub components: Vec<String>,
}

/// The environment variables that configure the proxy. A variable that is not set, or not
/// Unicode, is `None`.
pub struct EnvVars {
    /// `OPENCODE_ZEN_BASE`
    pub base_url: Option<String>,
    /// `OPENCODE_API_KEY`
    pub api_key: Option<String>,
    /// `OPENCODE_CLIENT`
    pub client_name: Option<String>,
    /// `OPENCODE_USER_AGENT`
    pub user_agent: Option<String>,
    /// `OPENCODE_SESSION_ID`
    pub session_id: Option<String>,
    /// `OPENCODE_PROJECT_ID`
    pub project_id: Option<String>,
    /// `ZEN_STATE_DIR`
    pub state_dir: Option<String>,
    /// `HOME`
    pub home: Option<String>,
    /// `ZEN_LISTEN`
    pub listen_addr: Option<String>,
}

/// The configuration of the proxy.
pub struct Config {
    /// Upstream base URL.
    pub base_url: String,
    /// Upstream API key; `public` stands for anonymous access, which permits the models of the
    /// free tier only.
    pub api_key: String,
    /// Value of `x-opencode-client`.
    pub client_name: String,
    /// Value of `user-agent`.
    pub user_agent: String,
    /// Session identifier, unless a request brings its own.
    pub session_id: String,
    /// Project identifier, unless a request brings its own.
    pub project_id: String,
    /// Directory of the saved conversations.
    pub state_dir: StatePath,
    /// Address to bind.
    pub listen_addr: String,
}

/// The value of a variable, or its default.
pub open spec fn or_default(value: Option<String>, default: Seq<char>) -> Seq<char> {
    match value {
        Some(value) => value@,
        None => default,
    }
}

fn value_or(value: Option<String>, default: &str) -> (chosen: String)
    ensures
        chosen@ == or_default(value, default@),
{
    match value {
        Some(value) => value,
        None => default.to_string(),
    }
}

/// Whether a path is the state directory that the environment asks for: `ZEN_STATE_DIR`, or else
/// `.cache/opencode-zen` under `HOME`, or under `/tmp` where there is no `HOME`.
pub open spec fn is_state_dir(dir: StatePath, env: EnvVars) -> bool {
    match env.state_dir {
        Some(path) => {
            &&& dir.base@ == path@
            &&& dir.components.deep_view() == Seq::<Seq<char>>::empty()
        },
        None => {
            &&& dir.base@ == or_default(env.home, "/tmp"@)
            &&& dir.components.deep_view() == seq![".cache"@, "opencode-zen"@]
        },
    }
}

impl Config {
    /// Whether this is what the environment asks for, apart from the session and the project.
    pub open spec fn follows(self, env: EnvVars) -> bool {
        &&& self.base_url@ == or_default(env.base_url, "https://opencode.ai/zen/v1"@)
        &&& self.api_key@ == or_default(env.api_key, "public"@)
        &&& self.client_name@ == or_default(env.client_name, "cli"@)
        &&& self.user_agent@ == or_default(env.user_agent, "opencode/0.0.0"@)
        &&& is_state_dir(self.state_dir, env)
        &&& self.listen_addr@ == or_default(env.listen_addr, "127.0.0.1:8080"@)
    }

    /// The configuration that the environment asks for, with the given identifiers where it names
    /// none.
    pub fn with_defaults(env: EnvVars, session_id: &str, project_id: &str) -> (config: Config)
        ensures
            config.follows(env),
            config.session_id@ == or_default(env.session_id, session_id@),
            config.project_id@ == or_default(env.project_id, project_id@),
    {
        let state_dir = match env.state_dir {
            Some(path) => {
                let components: Vec<String> = Vec::new();
                assert(components.deep_view() == Seq::<Seq<char>>::empty());
                StatePath { base: path, components }
            },
            None => {
                let mut components: Vec<String> = Vec::new();
                components.push(".cache".to_string());
                components.push("opencode-zen".to_string());
                assert(components.deep_view() == seq![".cache"@, "opencode-zen"@]);
                StatePath { base: value_or(env.home, "/tmp"), components }
            },
        };
        Config {
            base_url: value_or(env.base_url, "https://opencode.ai/zen/v1"),
            api_key: value_or(env.api_key, "public"),
            client_name: value_or(env.client_name, "cli"),
            user_agent: value_or(env.user_agent, "opencode/0.0.0"),
            session_id: value_or(env.session_id, session_id),
            project_id: value_or(env.project_id, project_id),
            state_dir,
            listen_addr: value_or(env.listen_addr, "127.0.0.1:8080"),
        }
    }

    /// The configuration that the environment asks for. Where it names no session, the session is
    /// `sess_` and 24 random digits; where it names no project, the project is that of the working
    /// directory, or of `/` where that cannot be told.
    pub fn from_env(env: EnvVars, directory: Option<String>) -> (config: Config)
        ensures
            config.follows(env),
            match env.session_id {
                Some(session) => config.session_id@ == session@,
                None => {
                    &&& config.session_id@.len() == 29
                    &&& config.session_id@.take(5) == "sess_"@
                    &&& is_hex_id(config.session_id@.skip(5), 24)
                },
            },
            config.project_id@ == or_default(
                env.project_id,
                "prj_"@ + md5_hex(encode_utf8(or_default(directory, "/"@))).take(16),
            ),
    {
        let mut session = "sess_".to_string();
        let digits = hex_id(24);
        session.append(digits.as_str());
        let project = project_of_directory(value_or(directory, "/").as_str());
        proof {
            reveal_strlit("sess_");
            assert(session@.take(5) == "sess_"@);
            assert(session@.skip(5) == digits@);
        }
        Config::with_defaults(env, session.as_str(), project.as_str())
    }
}

/// The text that stands for an API key where it is shown: what `public` means, or the first and
/// the last four bytes of any other key.
pub open spec fn shown_key(key: Seq<char>) -> Seq<char> {
    let bytes = encode_utf8(key);
    if key == "public"@ {
        "public (anonymous, free models only)"@
    } else {
        decode_utf8(bytes.take(4)) + "..."@ + decode_utf8(bytes.skip(bytes.len() - 4))
    }
}

/// The text to show for an API key. A key other than `public` has four bytes or more, and no
/// character of it is cut by the fourth byte from either end.
pub fn api_key_display(key: &str) -> (shown: String)
    requires
        key@ != "public"@ ==> {
            &&& encode_utf8(key@).len() >= 4
            &&& is_char_boundary(encode_utf8(key@), 4)
            &&& is_char_boundary(encode_utf8(key@), encode_utf8(key@).len() - 4)
        },
    ensures
        shown@ == shown_key(key@),
{
    if crate::text::same_text(key, "public") {
        return "public (anonymous, free models only)".to_string();
    }
    let first = key.split_at(4).0;
    let last = key.split_at(key.as_bytes().len() - 4).1;
    let mut shown = first.to_string();
    shown.append("...");
    shown.append(last);
    proof {
        encode_utf8_decode_utf8(first@);
        encode_utf8_decode_utf8(last@);
        let bytes = encode_utf8(key@);
        assert(encode_utf8(first@) == bytes.take(4));
        assert(encode_utf8(last@) == bytes.skip(bytes.len() - 4));
    }
    shown
}

} // verus!
