use std::time::Duration;

use agents_config::{
    default_first_chunk_timeout, default_stream_idle_timeout, require_non_empty, resolve,
    AgentConfigPaths, Config, ConfigError, Credential, CredentialsFile, LoadedAgentsConfig,
    ProviderConfig, DEFAULT_CONFIG, DEFAULT_CREDENTIALS,
};

fn provider(base_url: &str, model: &str, credential: &str) -> ProviderConfig {
    ProviderConfig {
        base_url: base_url.to_owned(),
        model: model.to_owned(),
        credential: credential.to_owned(),
        headers: Vec::new(),
        request_parameters: serde_json::Map::new(),
        first_chunk_timeout_seconds: 30,
        stream_idle_timeout_seconds: 60,
    }
}

fn credentials(entries: &[(&str, &str)]) -> CredentialsFile {
    CredentialsFile {
        credentials: entries
            .iter()
            .map(|(name, key)| ((*name).to_owned(), Credential { api_key: (*key).to_owned() }))
            .collect(),
    }
}

fn paths() -> AgentConfigPaths {
    AgentConfigPaths::new("/etc/agents/config.toml", "/etc/agents/credentials.toml")
        .unwrap_or_else(|error| panic!("paths: {error:?}"))
}

fn single(p: ProviderConfig) -> Config {
    Config { active_provider: "main".to_owned(), providers: vec![("main".to_owned(), p)] }
}

fn resolve_single(p: ProviderConfig, keys: &[(&str, &str)]) -> Result<LoadedAgentsConfig, ConfigError> {
    resolve(single(p), &credentials(keys), paths(), false)
}

fn with_headers(headers: &[(&str, &str)]) -> ProviderConfig {
    let mut p = provider("https://api.example.com/v1", "m", "k");
    p.headers = headers.iter().map(|(n, v)| ((*n).to_owned(), (*v).to_owned())).collect();
    p
}

#[test]
fn paths_must_be_absolute_and_distinct() {
    let relative = AgentConfigPaths::new("relative/config.toml", "/absolute/credentials.toml");
    assert!(matches!(relative, Err(ConfigError::InvalidPath(message))
        if message == "config and credentials paths must be absolute"));
    assert!(AgentConfigPaths::new("/absolute/config.toml", "").is_err());
    let same = AgentConfigPaths::new("/absolute/same.toml", "/absolute/same.toml");
    assert!(matches!(same, Err(ConfigError::InvalidPath(message))
        if message == "config and credentials paths must differ"));
    assert!(AgentConfigPaths::new("/a//b/./c.toml", "/a/b/c.toml").is_err());
    assert!(AgentConfigPaths::new("/a/b/c.toml/", "/a/b/c.toml").is_err());
    let paths = AgentConfigPaths::new("/a/config.toml", "/b/credentials.toml")
        .unwrap_or_else(|error| panic!("paths: {error:?}"));
    assert_eq!(paths.config(), "/a/config.toml");
    assert_eq!(paths.config_path(), "/a/config.toml");
    assert_eq!(paths.credentials(), "/b/credentials.toml");
    assert_eq!(paths.credentials_path(), "/b/credentials.toml");
    assert!(AgentConfigPaths::new("/a/../config.toml", "/config.toml").is_ok());
}

#[test]
fn blank_values_are_refused_with_provider_and_field() {
    assert!(require_non_empty("p", "model", "gpt").is_ok());
    assert!(require_non_empty("p", "model", " x ").is_ok());
    let error = require_non_empty("p", "model", " \t\n\u{3000}\u{a0}").err();
    assert!(matches!(error, Some(ConfigError::EmptyProviderField(name, "model")) if name == "p"));
    assert!(require_non_empty("p", "model", "").is_err());
}

#[test]
fn default_timeouts_are_thirty_and_sixty_seconds() {
    assert_eq!(default_first_chunk_timeout(), 30);
    assert_eq!(default_stream_idle_timeout(), 60);
}

#[test]
fn default_templates_hold_one_openai_provider() {
    let config: toml::Table = DEFAULT_CONFIG.parse().unwrap_or_else(|error| panic!("{error}"));
    assert_eq!(config["active_provider"].as_str(), Some("openai"));
    assert_eq!(config["providers"]["openai"]["model"].as_str(), Some("gpt-4.1-mini"));
    let credentials: toml::Table =
        DEFAULT_CREDENTIALS.parse().unwrap_or_else(|error| panic!("{error}"));
    assert_eq!(credentials["credentials"]["openai"]["api_key"].as_str(), Some("replace-me"));
}

#[test]
fn each_provider_fault_names_what_is_wrong() {
    let keys = [("k", "secret-key")];
    let cases: Vec<(ProviderConfig, &str)> = vec![
        (provider(" ", "m", "k"), "EmptyProviderField(\"main\", \"base_url\")"),
        (provider("https://a.example/v1", "", "k"), "EmptyProviderField(\"main\", \"model\")"),
        (provider("https://a.example/v1", "m", "\t"), "EmptyProviderField(\"main\", \"credential\")"),
        (provider("ftp://a.example/v1", "m", "k"), "InvalidBaseUrl(\"main\")"),
        (provider("/v1", "m", "k"), "InvalidBaseUrl(\"main\")"),
        (provider("https://user@a.example/v1", "m", "k"), "InvalidBaseUrl(\"main\")"),
        (provider("https://a.example/v1?x=1", "m", "k"), "InvalidBaseUrl(\"main\")"),
        (provider("https://a.example/v1#part", "m", "k"), "InvalidBaseUrl(\"main\")"),
        (provider("https://a.example", "m", "k"), "InvalidBaseUrl(\"main\")"),
        (provider("https://a.example/", "m", "k"), "InvalidBaseUrl(\"main\")"),
        (provider("https://a example/v1", "m", "k"), "InvalidBaseUrl(\"main\")"),
        (provider("https://a.example/v1", "m", "other"), "UnknownCredential(\"other\")"),
    ];
    for (p, expected) in cases {
        let error = resolve_single(p, &keys).err().unwrap_or_else(|| panic!("{expected}"));
        assert_eq!(format!("{error:?}"), expected);
    }
    let mut zero = provider("https://a.example/v1", "m", "k");
    zero.first_chunk_timeout_seconds = 0;
    zero.stream_idle_timeout_seconds = 0;
    let error = resolve_single(zero, &keys).err();
    assert!(matches!(error, Some(ConfigError::ZeroTimeout(name, "first_chunk_timeout_seconds"))
        if name == "main"));
    let mut idle = provider("https://a.example/v1", "m", "k");
    idle.stream_idle_timeout_seconds = 0;
    let error = resolve_single(idle, &keys).err();
    assert!(matches!(error, Some(ConfigError::ZeroTimeout(name, "stream_idle_timeout_seconds"))
        if name == "main"));
    let error = resolve_single(provider("https://a.example/v1", "m", "k"), &[("k", "  ")]).err();
    assert!(matches!(error, Some(ConfigError::EmptyApiKey(name)) if name == "k"));
}

#[test]
fn plain_http_with_port_is_accepted() {
    let loaded = resolve_single(provider("http://localhost:8080/v1", "m", "k"), &[("k", "key")])
        .unwrap_or_else(|error| panic!("{error:?}"));
    let p = loaded.active_provider().unwrap_or_else(|error| panic!("{error:?}"));
    assert_eq!(p.base_url().to_string(), "http://localhost:8080/v1");
    assert_eq!(p.credential_name(), "k");
    assert_eq!(p.name(), "main");
    assert_eq!(p.first_chunk_timeout(), Duration::from_secs(30));
    assert_eq!(p.stream_idle_timeout(), Duration::from_secs(60));
}

#[test]
fn header_faults_are_found_in_name_order() {
    let keys = [("k", "key")];
    let error = resolve_single(with_headers(&[("bad header", "ok")]), &keys).err();
    assert!(matches!(error, Some(ConfigError::InvalidHeaderName(n)) if n == "bad header"));
    let error = resolve_single(with_headers(&[("x-client", "line\nbreak")]), &keys).err();
    assert!(matches!(error, Some(ConfigError::InvalidHeaderValue(n)) if n == "x-client"));
    let error = resolve_single(with_headers(&[("X-Client", "one"), ("x-client", "two")]), &keys)
        .err();
    assert!(matches!(error, Some(ConfigError::DuplicateHeader(n)) if n == "x-client"));
    let error = resolve_single(with_headers(&[("", "value")]), &keys).err();
    assert!(matches!(error, Some(ConfigError::InvalidHeaderName(n)) if n.is_empty()));
    let error = resolve_single(with_headers(&[("x-\u{e9}", "value")]), &keys).err();
    assert!(matches!(error, Some(ConfigError::InvalidHeaderName(n)) if n == "x-\u{e9}"));
    assert!(resolve_single(with_headers(&[("x-tab", "a\tb\u{e9}")]), &keys).is_ok());
}

#[test]
fn expansion_lowercases_names_and_reports_bad_session_ids() {
    let keys = [("k", "key")];
    let loaded = resolve_single(
        with_headers(&[("X-Home", "${HOME}"), ("X-Session", "id=${session_id}")]),
        &keys,
    )
    .unwrap_or_else(|error| panic!("{error:?}"));
    let p = loaded.active_provider().unwrap_or_else(|error| panic!("{error:?}"));
    let headers = p.headers("abc").unwrap_or_else(|error| panic!("{error:?}"));
    assert_eq!(headers.len(), 2);
    assert_eq!(headers["x-session"], "id=abc");
    assert_eq!(headers["x-home"], "${HOME}");
    assert!(headers["x-home"].is_sensitive());
    let error = p.headers("bad\nid").err();
    assert!(matches!(error, Some(ConfigError::InvalidHeaderValue(n)) if n == "x-session"));
    let literal = p.headers("${session_id}").unwrap_or_else(|error| panic!("{error:?}"));
    assert_eq!(literal["x-session"], "id=${session_id}");
}

#[test]
fn lookup_by_name_and_listing_keep_the_configured_order() {
    let config = Config {
        active_provider: "b".to_owned(),
        providers: vec![
            ("a".to_owned(), provider("https://a.example/v1", "model-a", "ka")),
            ("b".to_owned(), provider("https://b.example/v1", "model-b", "kb")),
        ],
    };
    let keys = credentials(&[("ka", "key-a"), ("kb", "key-b")]);
    let loaded = resolve(config, &keys, paths(), true).unwrap_or_else(|error| panic!("{error:?}"));
    assert!(loaded.created_files());
    assert_eq!(loaded.paths(), &paths());
    let listed: Vec<(&str, &str)> =
        loaded.providers().into_iter().map(|(name, p)| (name, p.model())).collect();
    assert_eq!(listed, vec![("a", "model-a"), ("b", "model-b")]);
    let a = loaded.provider("a").unwrap_or_else(|error| panic!("{error:?}"));
    assert_eq!((a.name(), a.api_key()), ("a", "key-a"));
    let missing = loaded.provider("c").err();
    assert!(matches!(missing, Some(ConfigError::UnknownProvider(n)) if n == "c"));
}

#[test]
fn the_first_faulty_provider_is_reported() {
    let config = Config {
        active_provider: "zzz".to_owned(),
        providers: vec![
            ("a".to_owned(), provider("ftp://a.example", "m", "k")),
            ("b".to_owned(), provider("https://b.example/v1", "", "k")),
        ],
    };
    let error = resolve(config, &credentials(&[("k", "key")]), paths(), false).err();
    assert!(matches!(error, Some(ConfigError::InvalidBaseUrl(n)) if n == "a"));
    let config = Config {
        active_provider: "zzz".to_owned(),
        providers: vec![("a".to_owned(), provider("https://a.example/v1", "m", "k"))],
    };
    let error = resolve(config, &credentials(&[("k", "key")]), paths(), false).err();
    assert!(matches!(error, Some(ConfigError::UnknownProvider(n)) if n == "zzz"));
}

fn standard(agents_config: Option<&str>, home: Option<&str>) -> Result<(String, String), String> {
    AgentConfigPaths::standard_paths_from(agents_config, home)
        .map(|p| (p.config().to_owned(), p.credentials().to_owned()))
        .map_err(|e| e.message())
}

#[test]
fn standard_paths_sit_beside_the_selected_config() {
    let pair = |a: &str, b: &str| Ok((a.to_owned(), b.to_owned()));
    assert_eq!(
        standard(Some("/etc/agents/config.toml"), None),
        pair("/etc/agents/config.toml", "/etc/agents/credentials.toml")
    );
    assert_eq!(
        standard(None, Some("/home/u")),
        pair("/home/u/.agents/config.toml", "/home/u/.agents/credentials.toml")
    );
    assert_eq!(
        standard(None, Some("/home/u/")),
        pair("/home/u/.agents/config.toml", "/home/u/.agents/credentials.toml")
    );
    assert_eq!(
        standard(Some("/x/y/"), Some("/home/u")),
        pair("/x/y/", "/x/credentials.toml")
    );
    assert_eq!(
        standard(Some("/x/./y//c.toml"), None),
        pair("/x/./y//c.toml", "/x/./y/credentials.toml")
    );
    assert_eq!(
        standard(None, None),
        Err("HOME is unavailable and AGENTS_CONFIG is not set".to_owned())
    );
    for no_parent in ["/", "", "/."] {
        assert_eq!(
            standard(Some(no_parent), None),
            Err("invalid configuration path: config path has no parent directory".to_owned())
        );
    }
    assert_eq!(
        standard(Some("config.toml"), None),
        Err("invalid configuration path: config and credentials paths must be absolute".to_owned())
    );
}

#[test]
fn messages_name_what_is_wrong_and_carry_no_values() {
    assert_eq!(
        ConfigError::UnknownProvider("missing".to_owned()).message(),
        "active provider 'missing' is not configured"
    );
    assert_eq!(
        ConfigError::EmptyProviderField("p".to_owned(), "model").message(),
        "provider 'p' requires a non-empty model"
    );
    assert_eq!(
        ConfigError::ZeroTimeout("p".to_owned(), "stream_idle_timeout_seconds").message(),
        "provider 'p' has a zero stream_idle_timeout_seconds"
    );
    assert_eq!(
        ConfigError::DuplicateHeader("x-client".to_owned()).message(),
        "duplicate provider header name 'x-client' (case-insensitive)"
    );
    assert_eq!(ConfigError::CredentialsToml.message(), "credentials.toml is invalid");
    let error = resolve_single(provider("https://a.example/v1", "m", "k"), &[("k", " ")])
        .err()
        .unwrap_or_else(|| panic!("empty key"));
    assert_eq!(error.message(), "credential 'k' has an empty api_key");
}

#[test]
fn path_pairs_compare_by_components() {
    let make = |a: &str, b: &str| {
        AgentConfigPaths::new(a, b).unwrap_or_else(|error| panic!("paths: {error:?}"))
    };
    assert_eq!(make("/a//c.toml", "/b.toml"), make("/a/c.toml", "/b.toml"));
    assert_eq!(make("/a/./c.toml", "/b.toml/"), make("/a/c.toml", "/b.toml"));
    assert_ne!(make("/a/c.toml", "/b.toml"), make("/a/d.toml", "/b.toml"));
    assert_eq!(make("/a/c.toml", "/b.toml").clone(), make("/a/c.toml", "/b.toml"));
}

#[test]
fn header_count_tells_how_many_headers_are_configured() {
    let loaded = resolve_single(with_headers(&[("a", "1"), ("b", "2")]), &[("k", "key")])
        .unwrap_or_else(|error| panic!("{error:?}"));
    let p = loaded.active_provider().unwrap_or_else(|error| panic!("{error:?}"));
    assert_eq!(p.header_count(), 2);
}
