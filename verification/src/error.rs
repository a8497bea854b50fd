//! The error type of the crate. Errors name providers, credentials, headers
//! and fields, and never carry an API key or a header value.
use vstd::prelude::*;

verus! {

/// Declares `std::io::Error`, carried opaque by the file errors.
#[verifier::external_type_specification]
#[verifier::external_body]
pub struct ExIoError(std::io::Error);

/// Errors omit configuration source and all credential or header values.
#[derive(Debug)]
pub enum ConfigError {
    HomeUnavailable,
    InvalidPath(String),
    CreateDirectory(std::io::Error),
    CreateFile(std::io::Error),
    WriteFile(std::io::Error),
    ReadConfig(std::io::Error),
    ReadCredentials(std::io::Error),
    ConfigToml,
    CredentialsToml,
    UnknownProvider(String),
    InvalidBaseUrl(String),
    EmptyProviderField(String, &'static str),
    ZeroTimeout(String, &'static str),
    UnknownCredential(String),
    EmptyApiKey(String),
    InvalidHeaderName(String),
    InvalidHeaderValue(String),
    DuplicateHeader(String),
}

/// What a `ConfigError` says, with its texts taken as character sequences.
/// The I/O variants are told apart by kind only.
pub enum ConfigFault {
    HomeUnavailable,
    InvalidPath(Seq<char>),
    CreateDirectory,
    CreateFile,
    WriteFile,
    ReadConfig,
    ReadCredentials,
    ConfigToml,
    CredentialsToml,
    UnknownProvider(Seq<char>),
    InvalidBaseUrl(Seq<char>),
    EmptyProviderField(Seq<char>, Seq<char>),
    ZeroTimeout(Seq<char>, Seq<char>),
    UnknownCredential(Seq<char>),
    EmptyApiKey(Seq<char>),
    InvalidHeaderName(Seq<char>),
    InvalidHeaderValue(Seq<char>),
    DuplicateHeader(Seq<char>),
}

impl View for ConfigError {
    type V = ConfigFault;

    open spec fn view(&self) -> ConfigFault {
        match self {
            ConfigError::HomeUnavailable => ConfigFault::HomeUnavailable,
            ConfigError::InvalidPath(s) => ConfigFault::InvalidPath(s@),
            ConfigError::CreateDirectory(_) => ConfigFault::CreateDirectory,
            ConfigError::CreateFile(_) => ConfigFault::CreateFile,
            ConfigError::WriteFile(_) => ConfigFault::WriteFile,
            ConfigError::ReadConfig(_) => ConfigFault::ReadConfig,
            ConfigError::ReadCredentials(_) => ConfigFault::ReadCredentials,
            ConfigError::ConfigToml => ConfigFault::ConfigToml,
            ConfigError::CredentialsToml => ConfigFault::CredentialsToml,
            ConfigError::UnknownProvider(s) => ConfigFault::UnknownProvider(s@),
            ConfigError::InvalidBaseUrl(s) => ConfigFault::InvalidBaseUrl(s@),
            ConfigError::EmptyProviderField(s, f) => ConfigFault::EmptyProviderField(s@, f@),
            ConfigError::ZeroTimeout(s, f) => ConfigFault::ZeroTimeout(s@, f@),
            ConfigError::UnknownCredential(s) => ConfigFault::UnknownCredential(s@),
            ConfigError::EmptyApiKey(s) => ConfigFault::EmptyApiKey(s@),
            ConfigError::InvalidHeaderName(s) => ConfigFault::InvalidHeaderName(s@),
            ConfigError::InvalidHeaderValue(s) => ConfigFault::InvalidHeaderValue(s@),
            ConfigError::DuplicateHeader(s) => ConfigFault::DuplicateHeader(s@),
        }
    }
}

/// The message of an error: fixed text around the names the error carries.
pub open spec fn fault_message(f: ConfigFault) -> Seq<char> {
    match f {
        ConfigFault::HomeUnavailable => "HOME is unavailable and AGENTS_CONFIG is not set"@,
        ConfigFault::InvalidPath(s) => "invalid configuration path: "@ + s,
        ConfigFault::CreateDirectory => "failed to create configuration directory"@,
        ConfigFault::CreateFile => "failed to create configuration file"@,
        ConfigFault::WriteFile => "failed to write configuration file"@,
        ConfigFault::ReadConfig => "failed to read configuration file"@,
        ConfigFault::ReadCredentials => "failed to read credentials file"@,
        ConfigFault::ConfigToml => "config.toml is invalid"@,
        ConfigFault::CredentialsToml => "credentials.toml is invalid"@,
        ConfigFault::UnknownProvider(s) => "active provider '"@ + s + "' is not configured"@,
        ConfigFault::InvalidBaseUrl(s) => "provider '"@ + s + "' has an invalid base_url"@,
        ConfigFault::EmptyProviderField(s, field) => "provider '"@ + s + "' requires a non-empty "@ + field,
        ConfigFault::ZeroTimeout(s, field) => "provider '"@ + s + "' has a zero "@ + field,
        ConfigFault::UnknownCredential(s) => "credential '"@ + s + "' is not configured"@,
        ConfigFault::EmptyApiKey(s) => "credential '"@ + s + "' has an empty api_key"@,
        ConfigFault::InvalidHeaderName(s) => "invalid provider header name '"@ + s + "'"@,
        ConfigFault::InvalidHeaderValue(s) => "invalid provider header value for '"@ + s + "'"@,
        ConfigFault::DuplicateHeader(s) => "duplicate provider header name '"@ + s + "' (case-insensitive)"@,
    }
}

/// `before`, then `name`, then `after`.
fn framed(before: &str, name: &str, after: &str) -> (r: String)
    ensures
        r@ == before@ + name@ + after@,
{
    let mut r = String::from_str(before);
    r.append(name);
    r.append(after);
    r
}

impl ConfigError {
    /// The error's message. It is made of fixed text and the names that the
    /// error carries, never of a credential or a header value.
    pub fn message(&self) -> (r: String)
        ensures
            r@ == fault_message(self@),
    {
        match self {
            ConfigError::HomeUnavailable => String::from_str("HOME is unavailable and AGENTS_CONFIG is not set"),
            ConfigError::InvalidPath(s) => String::from_str("invalid configuration path: ").concat(s.as_str()),
            ConfigError::CreateDirectory(_) => String::from_str("failed to create configuration directory"),
            ConfigError::CreateFile(_) => String::from_str("failed to create configuration file"),
            ConfigError::WriteFile(_) => String::from_str("failed to write configuration file"),
            ConfigError::ReadConfig(_) => String::from_str("failed to read configuration file"),
            ConfigError::ReadCredentials(_) => String::from_str("failed to read credentials file"),
            ConfigError::ConfigToml => String::from_str("config.toml is invalid"),
            ConfigError::CredentialsToml => String::from_str("credentials.toml is invalid"),
            ConfigError::UnknownProvider(s) => framed("active provider '", s.as_str(), "' is not configured"),
            ConfigError::InvalidBaseUrl(s) => framed("provider '", s.as_str(), "' has an invalid base_url"),
            ConfigError::EmptyProviderField(s, field) => framed("provider '", s.as_str(), "' requires a non-empty ").concat(field),
            ConfigError::ZeroTimeout(s, field) => framed("provider '", s.as_str(), "' has a zero ").concat(field),
            ConfigError::UnknownCredential(s) => framed("credential '", s.as_str(), "' is not configured"),
            ConfigError::EmptyApiKey(s) => framed("credential '", s.as_str(), "' has an empty api_key"),
            ConfigError::InvalidHeaderName(s) => framed("invalid provider header name '", s.as_str(), "'"),
            ConfigError::InvalidHeaderValue(s) => framed("invalid provider header value for '", s.as_str(), "'"),
            ConfigError::DuplicateHeader(s) => framed("duplicate provider header name '", s.as_str(), "' (case-insensitive)"),
        }
    }
}

} // verus!
