//! Validation of one configured provider against the credentials, and the
//! validated provider that adapters read.
use vstd::prelude::*;

use core::time::Duration;
use http::{HeaderMap, HeaderValue, Uri};
use serde_json::Value;

use crate::config::{find_entry, find_name, header_names, names_ascending, names_of, Credential, CredentialsFile, ProviderConfig};
use crate::error::{ConfigError, ConfigFault};
use crate::header::{
    build_header_map, expanded_map, expansion_fault, header_entries, header_fault, pair_views,
    valid_header_value, validate_header_names,
};
use crate::text::{is_blank, text_is_blank};
use crate::url::{acceptable_base_url, check_base_url, uri_parse, BaseUrl};

verus! {

/// The duration that `Duration::from_secs` makes of a number of seconds.
pub uninterp spec fn duration_of_secs(secs: u64) -> Duration;

/// Calls `Duration::from_secs`.
#[verifier::external_body]
fn duration_from_secs(secs: u64) -> (d: Duration)
    ensures
        d == duration_of_secs(secs),
{
    Duration::from_secs(secs)
}

/// An API key, handed out only to configure an outbound client.
pub struct Secret(String);

impl View for Secret {
    type V = Seq<char>;

    closed spec fn view(&self) -> Seq<char> {
        self.0@
    }
}

impl Secret {
    pub fn expose(&self) -> (r: &str)
        ensures
            r@ == self@,
    {
        self.0.as_str()
    }
}

/// What a resolved provider holds, with its texts as character sequences.
pub struct ProviderView {
    pub name: Seq<char>,
    pub base_url: Seq<char>,
    pub model: Seq<char>,
    pub credential_name: Seq<char>,
    pub api_key: Seq<char>,
    pub headers: Seq<(Seq<char>, Seq<char>)>,
    pub first_chunk_timeout_seconds: u64,
    pub stream_idle_timeout_seconds: u64,
}

/// The rules every resolved provider meets: a non-empty base URL, model and
/// credential name, an acceptable base URL, a non-empty API key, positive
/// timeouts and headers without fault.
pub open spec fn provider_is_valid(v: ProviderView) -> bool {
    &&& !is_blank(v.base_url)
    &&& !is_blank(v.model)
    &&& !is_blank(v.credential_name)
    &&& v.first_chunk_timeout_seconds > 0
    &&& v.stream_idle_timeout_seconds > 0
    &&& acceptable_base_url(v.base_url)
    &&& !is_blank(v.api_key)
    &&& header_fault(v.headers) is None
    &&& names_ascending(header_names(v.headers))
}

/// What is wrong with the provider `provider` named `name`, if anything, in
/// the order in which the checks are made.
pub open spec fn provider_fault(
    name: Seq<char>,
    provider: ProviderConfig,
    credentials: Seq<(String, Credential)>,
) -> Option<ConfigFault> {
    if is_blank(provider.base_url@) {
        Some(ConfigFault::EmptyProviderField(name, "base_url"@))
    } else if is_blank(provider.model@) {
        Some(ConfigFault::EmptyProviderField(name, "model"@))
    } else if is_blank(provider.credential@) {
        Some(ConfigFault::EmptyProviderField(name, "credential"@))
    } else if provider.first_chunk_timeout_seconds == 0 {
        Some(ConfigFault::ZeroTimeout(name, "first_chunk_timeout_seconds"@))
    } else if provider.stream_idle_timeout_seconds == 0 {
        Some(ConfigFault::ZeroTimeout(name, "stream_idle_timeout_seconds"@))
    } else if !acceptable_base_url(provider.base_url@) {
        Some(ConfigFault::InvalidBaseUrl(name))
    } else {
        match find_name(names_of(credentials), provider.credential@) {
            None => Some(ConfigFault::UnknownCredential(provider.credential@)),
            Some(i) => {
                if is_blank(credentials[i].1.api_key@) {
                    Some(ConfigFault::EmptyApiKey(provider.credential@))
                } else {
                    header_fault(pair_views(provider.headers@))
                }
            },
        }
    }
}

/// The API key that the credential of `provider` names.
pub open spec fn provider_api_key(provider: ProviderConfig, credentials: Seq<(String, Credential)>) -> Seq<char> {
    credentials[find_name(names_of(credentials), provider.credential@).unwrap()].1.api_key@
}

/// The provider that resolution makes of a provider without fault.
pub open spec fn resolved_view(
    name: Seq<char>,
    provider: ProviderConfig,
    credentials: Seq<(String, Credential)>,
) -> ProviderView {
    ProviderView {
        name,
        base_url: provider.base_url@,
        model: provider.model@,
        credential_name: provider.credential@,
        api_key: provider_api_key(provider, credentials),
        headers: pair_views(provider.headers@),
        first_chunk_timeout_seconds: provider.first_chunk_timeout_seconds,
        stream_idle_timeout_seconds: provider.stream_idle_timeout_seconds,
    }
}

/// A validated provider selected from configuration and credentials.
///
/// It has no `Debug`, so that its secret cannot be logged by accident.
pub struct ResolvedProvider {
    name: String,
    base_url: BaseUrl,
    model: String,
    credential_name: String,
    api_key: Secret,
    headers: Vec<(String, String)>,
    request_parameters: serde_json::Map<String, Value>,
    first_chunk_timeout_seconds: u64,
    stream_idle_timeout_seconds: u64,
}

impl View for ResolvedProvider {
    type V = ProviderView;

    closed spec fn view(&self) -> ProviderView {
        ProviderView {
            name: self.name@,
            base_url: self.base_url.source(),
            model: self.model@,
            credential_name: self.credential_name@,
            api_key: self.api_key@,
            headers: pair_views(self.headers@),
            first_chunk_timeout_seconds: self.first_chunk_timeout_seconds,
            stream_idle_timeout_seconds: self.stream_idle_timeout_seconds,
        }
    }
}

impl ResolvedProvider {
    #[verifier::type_invariant]
    spec fn valid(&self) -> bool {
        provider_is_valid(self@)
    }

    /// The additional request fields of the provider.
    pub closed spec fn spec_request_parameters(&self) -> serde_json::Map<String, Value> {
        self.request_parameters
    }

    pub fn name(&self) -> (r: &str)
        ensures
            r@ == self@.name,
    {
        self.name.as_str()
    }

    pub fn base_url(&self) -> (r: &Uri)
        ensures
            *r == uri_parse(self@.base_url),
    {
        self.base_url.uri()
    }

    /// The base URL with the text it was parsed from.
    pub fn checked_base_url(&self) -> (r: &BaseUrl)
        ensures
            r.source() == self@.base_url,
    {
        &self.base_url
    }

    /// The number of configured headers, which `headers` needs to be below
    /// 6553.
    pub fn header_count(&self) -> (n: usize)
        ensures
            n == self@.headers.len(),
    {
        self.headers.len()
    }

    pub fn model(&self) -> (r: &str)
        ensures
            r@ == self@.model,
    {
        self.model.as_str()
    }

    pub fn credential_name(&self) -> (r: &str)
        ensures
            r@ == self@.credential_name,
    {
        self.credential_name.as_str()
    }

    /// Return the API key only to configure an outbound client. Never log this value.
    pub fn api_key(&self) -> (r: &str)
        ensures
            r@ == self@.api_key,
    {
        self.api_key.expose()
    }

    pub fn request_parameters(&self) -> (r: &serde_json::Map<String, Value>)
        ensures
            *r == self.spec_request_parameters(),
    {
        &self.request_parameters
    }

    pub fn first_chunk_timeout(&self) -> (r: Duration)
        ensures
            r == duration_of_secs(self@.first_chunk_timeout_seconds),
    {
        duration_from_secs(self.first_chunk_timeout_seconds)
    }

    pub fn stream_idle_timeout(&self) -> (r: Duration)
        ensures
            r == duration_of_secs(self@.stream_idle_timeout_seconds),
    {
        duration_from_secs(self.stream_idle_timeout_seconds)
    }

    /// Expand `${session_id}` in configured values and validate HTTP headers.
    ///
    /// # Errors
    /// Returns an error if expansion cannot form a valid HTTP header.
    pub fn headers(&self, session_id: &str) -> (res: Result<HeaderMap<HeaderValue>, ConfigError>)
        requires
            self@.headers.len() < 6553,
        ensures
            match res {
                Ok(m) => {
                    &&& expansion_fault(self@.headers, session_id@) is None
                    &&& header_entries(m) == expanded_map(
                        self@.headers,
                        session_id@,
                        self@.headers.len() as int,
                    )
                },
                Err(e) => expansion_fault(self@.headers, session_id@) == Some(e@),
            },
            valid_header_value(session_id@) ==> res is Ok,
    {
        proof {
            use_type_invariant(self);
            if valid_header_value(session_id@) {
                crate::header::lemma_checked_headers_expand(self@.headers, session_id@, 0);
            }
        }
        build_header_map(&self.headers, session_id)
    }

    /// # Errors
    /// Propagates the adapter's conversion error.
    pub fn adapt<A: ProviderAdapter>(&self, adapter: &A, session_id: &str) -> (res: Result<
        A::Output,
        A::Error,
    >)
        ensures
            call_ensures(A::adapt, (adapter, self, session_id), res),
    {
        adapter.adapt(self, session_id)
    }
}

/// Converts a resolved provider to an application-specific client or request type.
pub trait ProviderAdapter {
    type Output;

    type Error;

    /// # Errors
    /// Returns an implementation-defined conversion error.
    fn adapt(&self, provider: &ResolvedProvider, session_id: &str) -> Result<
        Self::Output,
        Self::Error,
    >;
}

/// Fails when `value` trims to nothing, naming the provider and the field.
pub fn require_non_empty(name: &str, field: &'static str, value: &str) -> (res: Result<(), ConfigError>)
    ensures
        res is Ok <==> !is_blank(value@),
        res matches Err(e) ==> e@ == ConfigFault::EmptyProviderField(name@, field@),
{
    if text_is_blank(value) {
        Err(ConfigError::EmptyProviderField(name.to_owned(), field))
    } else {
        Ok(())
    }
}

/// Validates the provider `provider` named `name` and joins it with its
/// credential.
pub fn resolve_provider(name: &str, provider: ProviderConfig, credentials: &CredentialsFile) -> (res: Result<
    ResolvedProvider,
    ConfigError,
>)
    requires
        names_ascending(header_names(pair_views(provider.headers@))),
        names_ascending(names_of(credentials.credentials@)),
    ensures
        match res {
            Ok(r) => {
                &&& provider_fault(name@, provider, credentials.credentials@) is None
                &&& provider_is_valid(r@)
                &&& r@ == resolved_view(name@, provider, credentials.credentials@)
                &&& r.spec_request_parameters() == provider.request_parameters
                &&& r@.name == name@
                &&& r@.base_url == provider.base_url@
                &&& r@.model == provider.model@
                &&& r@.credential_name == provider.credential@
                &&& r@.headers == pair_views(provider.headers@)
                &&& r@.first_chunk_timeout_seconds == provider.first_chunk_timeout_seconds
                &&& r@.stream_idle_timeout_seconds == provider.stream_idle_timeout_seconds
                &&& find_name(names_of(credentials.credentials@), provider.credential@) matches Some(
                    i,
                ) && r@.api_key == credentials.credentials@[i].1.api_key@
            },
            Err(e) => provider_fault(name@, provider, credentials.credentials@) == Some(e@),
        },
{
    if let Err(e) = require_non_empty(name, "base_url", provider.base_url.as_str()) {
        return Err(e);
    }
    if let Err(e) = require_non_empty(name, "model", provider.model.as_str()) {
        return Err(e);
    }
    if let Err(e) = require_non_empty(name, "credential", provider.credential.as_str()) {
        return Err(e);
    }
    if provider.first_chunk_timeout_seconds == 0 {
        return Err(ConfigError::ZeroTimeout(name.to_owned(), "first_chunk_timeout_seconds"));
    }
    if provider.stream_idle_timeout_seconds == 0 {
        return Err(ConfigError::ZeroTimeout(name.to_owned(), "stream_idle_timeout_seconds"));
    }
    let base_url = match check_base_url(provider.base_url.as_str()) {
        Some(b) => b,
        None => return Err(ConfigError::InvalidBaseUrl(name.to_owned())),
    };
    let index = match find_entry(&credentials.credentials, &provider.credential) {
        Some(i) => i,
        None => return Err(ConfigError::UnknownCredential(provider.credential.clone())),
    };
    proof {
        crate::config::lemma_find_from_bounds(
            names_of(credentials.credentials@),
            provider.credential@,
            0,
        );
    }
    let api_key = credentials.credentials[index].1.api_key.clone();
    if text_is_blank(api_key.as_str()) {
        return Err(ConfigError::EmptyApiKey(provider.credential));
    }
    if let Err(e) = validate_header_names(&provider.headers) {
        return Err(e);
    }
    let ProviderConfig {
        base_url: _,
        model,
        credential,
        headers,
        request_parameters,
        first_chunk_timeout_seconds,
        stream_idle_timeout_seconds,
    } = provider;
    Ok(
        ResolvedProvider {
            name: name.to_owned(),
            base_url,
            model,
            credential_name: credential,
            api_key: Secret(api_key),
            headers,
            request_parameters,
            first_chunk_timeout_seconds,
            stream_idle_timeout_seconds,
        },
    )
}

} // verus!
