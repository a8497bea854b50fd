use std::time::Duration;

use agents_config::{
    default_first_chunk_timeout, default_stream_idle_timeout, resolve, AgentConfigPaths, Config,
    ConfigError, Credential, CredentialsFile, LoadedAgentsConfig, ProviderAdapter, ProviderConfig,
    ResolvedProvider,
};
use rig::client::AgentClientExt as _;
use serde_json::Value;

const CONFIG: &str = r#"active_provider = "opencode-go"

[providers.openai]
base_url = "https://api.openai.com/v1"
model = "gpt-4.1-mini"
credential = "openai"

[providers.opencode-go]
base_url = "https://opencode.ai/zen/go/v1"
model = "gpt-5.6-luna"
credential = "opencode"
first_chunk_timeout_seconds = 15
stream_idle_timeout_seconds = 45

[providers.opencode-go.headers]
x-opencode-session = "${session_id}"
x-client = "test"

[providers.opencode-go.request_parameters]
reasoning_effort = "none"
"#;

const CREDENTIALS: &str = r#"[credentials.openai]
api_key = "openai-test-key"

[credentials.opencode]
api_key = "opencode-test-key"
"#;

fn text(table: &toml::Table, key: &str) -> Result<String, ConfigError> {
    match table.get(key) {
        Some(toml::Value::String(s)) => Ok(s.clone()),
        _ => Err(ConfigError::ConfigToml),
    }
}

fn seconds(table: &toml::Table, key: &str, default: u64) -> Result<u64, ConfigError> {
    match table.get(key) {
        None => Ok(default),
        Some(toml::Value::Integer(n)) => u64::try_from(*n).map_err(|_| ConfigError::ConfigToml),
        Some(_) => Err(ConfigError::ConfigToml),
    }
}

/// Reads `config.toml` text the way the loader does, with `toml` tables.
fn parse_config(source: &str) -> Result<Config, ConfigError> {
    let table: toml::Table = source.parse().map_err(|_| ConfigError::ConfigToml)?;
    let active_provider = text(&table, "active_provider")?;
    let mut providers = Vec::new();
    let Some(toml::Value::Table(entries)) = table.get("providers") else {
        return Err(ConfigError::ConfigToml);
    };
    for (name, entry) in entries {
        let toml::Value::Table(entry) = entry else {
            return Err(ConfigError::ConfigToml);
        };
        let mut headers = Vec::new();
        if let Some(value) = entry.get("headers") {
            let toml::Value::Table(list) = value else {
                return Err(ConfigError::ConfigToml);
            };
            for (header, template) in list {
                let toml::Value::String(template) = template else {
                    return Err(ConfigError::ConfigToml);
                };
                headers.push((header.clone(), template.clone()));
            }
        }
        let mut request_parameters = serde_json::Map::new();
        if let Some(value) = entry.get("request_parameters") {
            let toml::Value::Table(list) = value else {
                return Err(ConfigError::ConfigToml);
            };
            for (key, value) in list {
                let value = serde_json::to_value(value).map_err(|_| ConfigError::ConfigToml)?;
                request_parameters.insert(key.clone(), value);
            }
        }
        providers.push((
            name.clone(),
            ProviderConfig {
                base_url: text(entry, "base_url")?,
                model: text(entry, "model")?,
                credential: text(entry, "credential")?,
                headers,
                request_parameters,
                first_chunk_timeout_seconds: seconds(
                    entry,
                    "first_chunk_timeout_seconds",
                    default_first_chunk_timeout(),
                )?,
                stream_idle_timeout_seconds: seconds(
                    entry,
                    "stream_idle_timeout_seconds",
                    default_stream_idle_timeout(),
                )?,
            },
        ));
    }
    Ok(Config { active_provider, providers })
}

/// Reads `credentials.toml` text the way the loader does.
fn parse_credentials(source: &str) -> Result<CredentialsFile, ConfigError> {
    let table: toml::Table = source.parse().map_err(|_| ConfigError::CredentialsToml)?;
    let Some(toml::Value::Table(entries)) = table.get("credentials") else {
        return Err(ConfigError::CredentialsToml);
    };
    let mut credentials = Vec::new();
    for (name, entry) in entries {
        let Some(toml::Value::String(api_key)) = entry.get("api_key") else {
            return Err(ConfigError::CredentialsToml);
        };
        credentials.push((name.clone(), Credential { api_key: api_key.clone() }));
    }
    Ok(CredentialsFile { credentials })
}

fn paths() -> AgentConfigPaths {
    AgentConfigPaths::new("/srv/agents/config.toml", "/srv/agents/credentials.toml")
        .unwrap_or_else(|error| panic!("valid paths: {error:?}"))
}

/// Parses both files and resolves them, as loading existing files does.
fn load(config: &str, credentials: &str) -> Result<LoadedAgentsConfig, ConfigError> {
    let config = parse_config(config)?;
    let credentials = parse_credentials(credentials)?;
    resolve(config, &credentials, paths(), false)
}

fn loaded(config: &str) -> LoadedAgentsConfig {
    load(config, CREDENTIALS).unwrap_or_else(|error| panic!("load config: {error:?}"))
}

#[test]
fn resolves_selected_provider_with_all_neutral_fields() {
    let loaded = loaded(CONFIG);

    let provider = loaded
        .active_provider()
        .unwrap_or_else(|error| panic!("active: {error:?}"));
    assert_eq!(loaded.active_provider_name(), "opencode-go");
    assert_eq!(provider.model(), "gpt-5.6-luna");
    assert_eq!(provider.api_key(), "opencode-test-key");
    assert_eq!(provider.first_chunk_timeout(), Duration::from_secs(15));
    assert_eq!(provider.stream_idle_timeout(), Duration::from_secs(45));
    assert_eq!(
        provider.request_parameters(),
        &serde_json::Map::from_iter([(String::from("reasoning_effort"), Value::String(String::from("none")))])
    );
    let headers = provider
        .headers("session-7")
        .unwrap_or_else(|error| panic!("headers: {error:?}"));
    assert_eq!(headers["x-opencode-session"], "session-7");
}

struct SnapshotAdapter;

struct Snapshot {
    model: String,
    api_key: String,
    session: String,
    timeout: Duration,
    parameters: serde_json::Map<String, Value>,
}

impl ProviderAdapter for SnapshotAdapter {
    type Output = Snapshot;
    type Error = ConfigError;

    fn adapt(
        &self,
        provider: &ResolvedProvider,
        session_id: &str,
    ) -> Result<Self::Output, Self::Error> {
        let headers = provider.headers(session_id)?;
        Ok(Snapshot {
            model: provider.model().to_owned(),
            api_key: provider.api_key().to_owned(),
            session: headers["x-opencode-session"]
                .to_str()
                .unwrap_or_default()
                .to_owned(),
            timeout: provider.stream_idle_timeout(),
            parameters: provider.request_parameters().clone(),
        })
    }
}

#[test]
fn custom_adapter_receives_selected_provider_without_rig() {
    let loaded = loaded(CONFIG);
    let snapshot = loaded
        .active_provider()
        .unwrap_or_else(|error| panic!("active: {error:?}"))
        .adapt(&SnapshotAdapter, "custom-session")
        .unwrap_or_else(|error| panic!("adapt provider: {error:?}"));

    assert_eq!(snapshot.model, "gpt-5.6-luna");
    assert_eq!(snapshot.api_key, "opencode-test-key");
    assert_eq!(snapshot.session, "custom-session");
    assert_eq!(snapshot.timeout, Duration::from_secs(45));
    assert_eq!(snapshot.parameters["reasoning_effort"], Value::String(String::from("none")));
}

#[test]
fn expanded_headers_are_sensitive() {
    let loaded = loaded(CONFIG);
    let headers = loaded
        .active_provider()
        .unwrap_or_else(|error| panic!("active: {error:?}"))
        .headers("private-session")
        .unwrap_or_else(|error| panic!("headers: {error:?}"));
    assert!(headers["x-opencode-session"].is_sensitive());
    assert!(!format!("{headers:?}").contains("private-session"));
}

#[test]
fn headers_expand_every_session_placeholder_and_preserve_unknown_literals() {
    let config = CONFIG.replace(
        "x-client = \"test\"",
        "x-client = \"${session_id}-${session_id}-${unknown}\"",
    );
    let loaded = loaded(&config);
    let headers = loaded
        .active_provider()
        .unwrap_or_else(|error| panic!("active: {error:?}"))
        .headers("session-9")
        .unwrap_or_else(|error| panic!("headers: {error:?}"));
    assert_eq!(headers["x-client"], "session-9-session-9-${unknown}");
}

#[test]
fn rejects_invalid_headers_and_case_insensitive_duplicates() {
    for replacement in [
        "bad header = \"ok\"",
        "x-client = \"line\\nbreak\"",
        "x-client = \"one\"\nX-Client = \"two\"",
    ] {
        let config = CONFIG.replace("x-client = \"test\"", replacement);
        assert!(load(&config, CREDENTIALS).is_err());
    }
}

#[test]
fn selects_each_named_provider_with_its_own_model_and_key() {
    let opencode = loaded(CONFIG);
    let provider = opencode
        .active_provider()
        .unwrap_or_else(|error| panic!("active: {error:?}"));
    assert_eq!(
        (provider.model(), provider.api_key()),
        ("gpt-5.6-luna", "opencode-test-key")
    );

    let openai_config = CONFIG.replace(
        "active_provider = \"opencode-go\"",
        "active_provider = \"openai\"",
    );
    let openai = loaded(&openai_config);
    let provider = openai
        .active_provider()
        .unwrap_or_else(|error| panic!("active: {error:?}"));
    assert_eq!(
        (provider.model(), provider.api_key()),
        ("gpt-4.1-mini", "openai-test-key")
    );
}

#[test]
fn rejects_unknown_selection_missing_credentials_and_zero_timeouts() {
    for config in [
        CONFIG.replace(
            "active_provider = \"opencode-go\"",
            "active_provider = \"missing\"",
        ),
        CONFIG.replace("credential = \"opencode\"", "credential = \"missing\""),
        CONFIG.replace(
            "first_chunk_timeout_seconds = 15",
            "first_chunk_timeout_seconds = 0",
        ),
        CONFIG.replace(
            "stream_idle_timeout_seconds = 45",
            "stream_idle_timeout_seconds = 0",
        ),
    ] {
        assert!(load(&config, CREDENTIALS).is_err());
    }
}

#[test]
fn rejects_url_with_credentials_or_query() {
    let config = CONFIG.replace(
        "https://opencode.ai/zen/go/v1",
        "https://key@opencode.ai/v1?secret=value",
    );
    let error = load(&config, CREDENTIALS)
        .err()
        .unwrap_or_else(|| panic!("URL must fail"));
    assert!(matches!(error, ConfigError::InvalidBaseUrl(name) if name == "opencode-go"));
}

#[test]
fn caller_builds_named_agent_from_rig_connection_settings() {
    let loaded = loaded(CONFIG);
    let provider = loaded
        .active_provider()
        .unwrap_or_else(|error| panic!("active: {error:?}"));
    let settings: rig::providers::openai::CompletionsClientBuilder = provider
        .rig_completions_client_builder("caller-session")
        .unwrap_or_else(|error| panic!("builder: {error:?}"));
    let client = settings
        .build()
        .unwrap_or_else(|error| panic!("client: {error}"));
    let agent = client
        .agent(provider.model())
        .additional_params(Value::Object(provider.request_parameters().clone()))
        .name("caller-owned-agent")
        .preamble("Caller-owned instructions")
        .build();

    assert_eq!(agent.name(), Some("caller-owned-agent"));
}
