# agents_config

Shared configuration for applications that talk to OpenAI-compatible
providers: named providers in `config.toml`, named API keys in
`credentials.toml`, a shared `active_provider` selection, and conversion of a
validated provider into what a client needs (URL, model, API key, headers with
`${session_id}` expanded, timeouts).

The library in `src/` is verified with Verus:

- `paths.rs`: the pair of absolute, distinct configuration paths;
- `config.rs`: the decoded configuration and credentials;
- `provider.rs`: validation of one provider and the resolved provider;
- `loaded.rs`: resolution of a whole configuration and provider selection;
- `header.rs`: header name and value rules and `${session_id}` expansion;
- `url.rs`: the rules for a provider's base URL;
- `text.rs`: blank detection, ASCII lowercasing and placeholder replacement;
- `laws.rs`: properties that span several functions;
- `error.rs`: the error type.

`app/` reads and creates the files, decodes TOML with serde, and hands the
decoded values to the library.
