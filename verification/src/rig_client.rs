//! Conversion of a resolved provider into a Rig client builder. The
//! application builds the client and the agent, and owns prompts, tools and
//! runtime policies.
use vstd::prelude::*;

use http::{HeaderMap, HeaderValue};
use rig::client::{BearerAuth, ClientBuilder};
use rig::markers::Missing;
use rig::providers::openai::{CompletionsClient, OpenAICompletionsExtBuilder};

use crate::error::ConfigError;
use crate::header::{expanded_map, expansion_fault, header_entries, valid_header_value};
use crate::provider::ResolvedProvider;
use crate::url::{base_url_text, uri_display};

verus! {

/// Declares Rig's `ClientBuilder`; nothing inside it is visible to proofs.
#[verifier::external_type_specification]
#[verifier::external_body]
#[verifier::reject_recursive_types(Ext)]
#[verifier::reject_recursive_types(ApiKey)]
#[verifier::reject_recursive_types(H)]
pub struct ExClientBuilder<Ext, ApiKey, H>(rig::client::ClientBuilder<Ext, ApiKey, H>);

/// Declares Rig's OpenAI Chat Completions builder extension, opaque to proofs.
#[verifier::external_type_specification]
#[verifier::external_body]
pub struct ExOpenAICompletionsExtBuilder(rig::providers::openai::OpenAICompletionsExtBuilder);

/// Declares Rig's bearer-token API key, opaque to proofs.
#[verifier::external_type_specification]
#[verifier::external_body]
pub struct ExBearerAuth(rig::client::BearerAuth);

/// Declares Rig's marker for a builder slot not yet filled, opaque to proofs.
#[verifier::external_type_specification]
#[verifier::external_body]
pub struct ExMissing(rig::markers::Missing);

/// The Chat Completions client builder that Rig makes of an API key, a base
/// URL and a header map.
pub uninterp spec fn rig_builder_of(
    api_key: Seq<char>,
    base_url: Seq<char>,
    headers: HeaderMap<HeaderValue>,
) -> ClientBuilder<OpenAICompletionsExtBuilder, BearerAuth, Missing>;

/// Makes Rig's OpenAI Chat Completions client builder in one fluent call
/// chain: `CompletionsClient::builder()`, then `api_key`, `base_url` and
/// `http_headers` set the three settings. The builder depends on these
/// arguments alone.
#[verifier::external_body]
fn completions_builder(api_key: &str, base_url: &str, headers: HeaderMap<HeaderValue>) -> (b:
    ClientBuilder<OpenAICompletionsExtBuilder, BearerAuth, Missing>)
    ensures
        b == rig_builder_of(api_key@, base_url@, headers),
{
    CompletionsClient::builder().api_key(api_key).base_url(base_url).http_headers(headers)
}

impl ResolvedProvider {
    /// Convert provider settings to a Rig Chat Completions client builder
    /// without building the client: the API key, the base URL and the headers
    /// expanded for `session_id` are applied.
    ///
    /// # Errors
    /// Returns an error if the headers cannot be expanded for `session_id`.
    pub fn rig_completions_client_builder(&self, session_id: &str) -> (res: Result<
        ClientBuilder<OpenAICompletionsExtBuilder, BearerAuth, Missing>,
        ConfigError,
    >)
        requires
            self@.headers.len() < 6553,
        ensures
            res is Ok <==> expansion_fault(self@.headers, session_id@) is None,
            res matches Err(e) ==> expansion_fault(self@.headers, session_id@) == Some(e@),
            valid_header_value(session_id@) ==> res is Ok,
            res matches Ok(b) ==> exists|h: HeaderMap<HeaderValue>|
                header_entries(h) == expanded_map(
                    self@.headers,
                    session_id@,
                    self@.headers.len() as int,
                ) && b == rig_builder_of(self@.api_key, uri_display(self@.base_url), h),
    {
        let headers = match self.headers(session_id) {
            Ok(h) => h,
            Err(e) => return Err(e),
        };
        let url = base_url_text(self.checked_base_url());
        let ghost h = headers;
        let builder = completions_builder(self.api_key(), url.as_str(), headers);
        assert(header_entries(h) == expanded_map(
            self@.headers,
            session_id@,
            self@.headers.len() as int,
        ));
        Ok(builder)
    }
}

} // verus!
