use zen_free_api::config::{api_key_display, Config, EnvVars};

fn no_vars() -> EnvVars {
    EnvVars {
        base_url: None,
        api_key: None,
        client_name: None,
        user_agent: None,
        session_id: None,
        project_id: None,
        state_dir: None,
        home: None,
        listen_addr: None,
    }
}

fn some(text: &str) -> Option<String> {
    Some(text.to_string())
}

#[test]
fn defaults_without_variables() {
    let config = Config::from_env(no_vars(), None);
    assert_eq!(config.base_url, "https://opencode.ai/zen/v1");
    assert_eq!(config.api_key, "public");
    assert_eq!(config.client_name, "cli");
    assert_eq!(config.user_agent, "opencode/0.0.0");
    assert_eq!(config.listen_addr, "127.0.0.1:8080");
    assert_eq!(config.state_dir.base, "/tmp");
    assert_eq!(config.state_dir.components, vec![".cache", "opencode-zen"]);
    // The working directory could not be told: the project is that of "/".
    assert_eq!(config.project_id, "prj_6666cd76f9695646");
}

#[test]
fn default_session_is_random() {
    let first = Config::from_env(no_vars(), some("/"));
    let second = Config::from_env(no_vars(), some("/"));
    assert!(first.session_id.starts_with("sess_"));
    assert_eq!(first.session_id.len(), 29);
    assert_ne!(first.session_id, second.session_id);
}

#[test]
fn default_project_comes_from_the_directory() {
    let config = Config::from_env(no_vars(), some("/home/user/project"));
    assert_eq!(config.project_id, "prj_90722f2638004be0");
}

#[test]
fn variables_win_over_defaults() {
    let env = EnvVars {
        base_url: some("http://localhost:1"),
        api_key: some("key"),
        client_name: some("me"),
        user_agent: some("agent"),
        session_id: some("s"),
        project_id: some("p"),
        state_dir: some("/var/zen"),
        home: some("/home/user"),
        listen_addr: some("0.0.0.0:80"),
    };
    let config = Config::from_env(env, some("/"));
    assert_eq!(config.base_url, "http://localhost:1");
    assert_eq!(config.api_key, "key");
    assert_eq!(config.client_name, "me");
    assert_eq!(config.user_agent, "agent");
    assert_eq!(config.session_id, "s");
    assert_eq!(config.project_id, "p");
    assert_eq!(config.state_dir.base, "/var/zen");
    assert!(config.state_dir.components.is_empty());
    assert_eq!(config.listen_addr, "0.0.0.0:80");
}

#[test]
fn state_dir_is_under_home() {
    let env = EnvVars { home: some("/home/user"), ..no_vars() };
    let config = Config::from_env(env, None);
    assert_eq!(config.state_dir.base, "/home/user");
    assert_eq!(config.state_dir.components, vec![".cache", "opencode-zen"]);
}

#[test]
fn with_defaults_takes_the_given_identifiers() {
    let config = Config::with_defaults(no_vars(), "sess_x", "prj_x");
    assert_eq!(config.session_id, "sess_x");
    assert_eq!(config.project_id, "prj_x");
}

#[test]
fn api_key_is_shown_by_its_ends() {
    assert_eq!(api_key_display("public"), "public (anonymous, free models only)");
    assert_eq!(api_key_display("sk-1234567890"), "sk-1...7890");
    assert_eq!(api_key_display("abcd"), "abcd...abcd");
    assert_eq!(api_key_display("éa-ké"), "éa-...-ké");
}
