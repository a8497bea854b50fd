//! Shared, deterministic OpenAI-compatible agent configuration.
//!
//! The library validates named providers against named credentials and
//! converts a validated provider into the values a client needs: its URL,
//! model, API key, headers (with `${session_id}` expanded) and timeouts.
//! Reading and writing the configuration files is left to the caller.
use vstd::prelude::*;

pub mod config;
pub mod error;
pub mod header;
pub mod laws;
pub mod loaded;
pub mod paths;
pub mod provider;
pub mod rig_client;
pub mod text;
pub mod url;

pub use config::{
    default_first_chunk_timeout, default_stream_idle_timeout, Config, Credential, CredentialsFile,
    ProviderConfig,
};
pub use error::ConfigError;
pub use loaded::{resolve, LoadedAgentsConfig};
pub use paths::AgentConfigPaths;
pub use provider::{require_non_empty, resolve_provider, ProviderAdapter, ResolvedProvider, Secret};

verus! {

/// The `config.toml` written when none exists.
pub const DEFAULT_CONFIG: &'static str = "active_provider = \"openai\"

[providers.openai]
base_url = \"https://api.openai.com/v1\"
model = \"gpt-4.1-mini\"
credential = \"openai\"
first_chunk_timeout_seconds = 30
stream_idle_timeout_seconds = 60
";

/// The `credentials.toml` written when none exists.
pub const DEFAULT_CREDENTIALS: &'static str = "[credentials.openai]
api_key = \"replace-me\"
";

} // verus!
