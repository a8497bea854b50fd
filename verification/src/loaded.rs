//! Resolution of a whole configuration, and the loaded configuration that
//! applications select providers from.
use vstd::prelude::*;

use crate::config::{find_entry, find_name, lemma_find_from_bounds, names_ascending, names_of, tables_sorted, Config, Credential, CredentialsFile, ProviderConfig};
use crate::error::{ConfigError, ConfigFault};
use crate::paths::AgentConfigPaths;
use crate::provider::{provider_fault, provider_is_valid, resolve_provider, resolved_view, ProviderView, ResolvedProvider};

verus! {

/// The first fault among the providers from position `i` on.
pub open spec fn resolve_fault_from(
    providers: Seq<(String, ProviderConfig)>,
    credentials: Seq<(String, Credential)>,
    i: int,
) -> Option<ConfigFault>
    decreases providers.len() - i,
{
    if 0 <= i < providers.len() {
        match provider_fault(providers[i].0@, providers[i].1, credentials) {
            Some(f) => Some(f),
            None => resolve_fault_from(providers, credentials, i + 1),
        }
    } else {
        None
    }
}

/// What is wrong with a configuration, if anything: the first provider, in
/// order, with a fault; else an active provider that is not configured.
pub open spec fn resolve_fault(config: Config, credentials: Seq<(String, Credential)>) -> Option<ConfigFault> {
    match resolve_fault_from(config.providers@, credentials, 0) {
        Some(f) => Some(f),
        None => if find_name(names_of(config.providers@), config.active_provider@) is None {
            Some(ConfigFault::UnknownProvider(config.active_provider@))
        } else {
            None
        },
    }
}

/// The providers that resolution makes of the configured ones, in order.
pub open spec fn resolved_providers(
    providers: Seq<(String, ProviderConfig)>,
    credentials: Seq<(String, Credential)>,
) -> Seq<(Seq<char>, ProviderView)> {
    providers.map_values(
        |e: (String, ProviderConfig)| (e.0@, resolved_view(e.0@, e.1, credentials)),
    )
}

/// What a loaded configuration holds.
pub struct LoadedView {
    pub providers: Seq<(Seq<char>, ProviderView)>,
    pub active_provider: Seq<char>,
    pub paths: (Seq<char>, Seq<char>),
    pub created_files: bool,
}

pub open spec fn provider_names(providers: Seq<(Seq<char>, ProviderView)>) -> Seq<Seq<char>> {
    providers.map_values(|e: (Seq<char>, ProviderView)| e.0)
}

/// A loaded configuration and the files created while initializing it.
pub struct LoadedAgentsConfig {
    providers: Vec<(String, ResolvedProvider)>,
    active_provider: String,
    paths: AgentConfigPaths,
    created_files: bool,
}

impl View for LoadedAgentsConfig {
    type V = LoadedView;

    closed spec fn view(&self) -> LoadedView {
        LoadedView {
            providers: self.providers@.map_values(
                |e: (String, ResolvedProvider)| (e.0@, e.1@),
            ),
            active_provider: self.active_provider@,
            paths: self.paths@,
            created_files: self.created_files,
        }
    }
}

impl LoadedAgentsConfig {
    #[verifier::type_invariant]
    spec fn valid(&self) -> bool {
        &&& find_name(names_of(self.providers@), self.active_provider@) is Some
        &&& names_ascending(names_of(self.providers@))
        &&& forall|i: int|
            0 <= i < self.providers@.len() ==> #[trigger] self.providers@[i].1@.name
                == self.providers@[i].0@
    }

    /// The resolved provider at position `i`.
    pub closed spec fn provider_at(&self, i: int) -> ResolvedProvider {
        self.providers@[i].1
    }

    pub fn paths(&self) -> (r: &AgentConfigPaths)
        ensures
            r@ == self@.paths,
    {
        &self.paths
    }

    pub fn created_files(&self) -> (r: bool)
        ensures
            r == self@.created_files,
    {
        self.created_files
    }

    pub fn active_provider_name(&self) -> (r: &str)
        ensures
            r@ == self@.active_provider,
    {
        self.active_provider.as_str()
    }

    /// The provider named `name`.
    ///
    /// # Errors
    /// Returns an error if `name` is not configured.
    pub fn provider(&self, name: &str) -> (res: Result<&ResolvedProvider, ConfigError>)
        ensures
            match res {
                Ok(p) => {
                    &&& find_name(provider_names(self@.providers), name@) matches Some(i)
                    &&& *p == self.provider_at(i)
                    &&& p@ == self@.providers[i].1
                    &&& p@.name == name@
                },
                Err(e) => {
                    &&& find_name(provider_names(self@.providers), name@) is None
                    &&& e@ == ConfigFault::UnknownProvider(name@)
                },
            },
    {
        proof {
            use_type_invariant(self);
        }
        let wanted = name.to_owned();
        let found = find_entry(&self.providers, &wanted);
        assert(names_of(self.providers@) =~= provider_names(self@.providers));
        match found {
            Some(i) => {
                proof {
                    lemma_find_from_bounds(names_of(self.providers@), name@, 0);
                }
                Ok(&self.providers[i].1)
            },
            None => Err(ConfigError::UnknownProvider(wanted)),
        }
    }

    /// The provider that `active_provider` selects; a loaded configuration
    /// always has it.
    pub fn active_provider(&self) -> (res: Result<&ResolvedProvider, ConfigError>)
        ensures
            res is Ok,
            match res {
                Ok(p) => {
                    &&& find_name(provider_names(self@.providers), self@.active_provider) matches Some(i)
                    &&& *p == self.provider_at(i)
                    &&& p@ == self@.providers[i].1
                    &&& p@.name == self@.active_provider
                },
                Err(_) => false,
            },
    {
        proof {
            use_type_invariant(self);
            assert(names_of(self.providers@) =~= provider_names(self@.providers));
        }
        self.provider(self.active_provider.as_str())
    }

    /// The configured providers with their names, in order of name.
    pub fn providers(&self) -> (r: Vec<(&str, &ResolvedProvider)>)
        ensures
            r@.len() == self@.providers.len(),
            names_ascending(provider_names(self@.providers)),
            forall|i: int|
                0 <= i < r@.len() ==> {
                    &&& (#[trigger] r@[i]).0@ == self@.providers[i].0
                    &&& *r@[i].1 == self.provider_at(i)
                    &&& r@[i].1@ == self@.providers[i].1
                    &&& r@[i].1@.name == r@[i].0@
                },
    {
        proof {
            use_type_invariant(self);
            assert(names_of(self.providers@) =~= provider_names(self@.providers));
        }
        let mut out: Vec<(&str, &ResolvedProvider)> = Vec::new();
        let mut i: usize = 0;
        while i < self.providers.len()
            invariant
                i <= self.providers.len(),
                out@.len() == i,
                forall|k: int|
                    0 <= k < i ==> {
                        &&& (#[trigger] out@[k]).0@ == self@.providers[k].0
                        &&& *out@[k].1 == self.provider_at(k)
                        &&& out@[k].1@ == self@.providers[k].1
                        &&& out@[k].1@.name == out@[k].0@
                    },
                forall|k: int|
                    0 <= k < self.providers@.len() ==> #[trigger] self.providers@[k].1@.name
                        == self.providers@[k].0@,
            decreases self.providers.len() - i,
        {
            out.push((self.providers[i].0.as_str(), &self.providers[i].1));
            i = i + 1;
        }
        out
    }
}

/// Validates every configured provider in order, joins each with its
/// credential, and checks that the active provider is configured.
pub fn resolve(
    config: Config,
    credentials: &CredentialsFile,
    paths: AgentConfigPaths,
    created_files: bool,
) -> (res: Result<LoadedAgentsConfig, ConfigError>)
    requires
        tables_sorted(config, *credentials),
    ensures
        match res {
            Ok(loaded) => {
                &&& resolve_fault(config, credentials.credentials@) is None
                &&& loaded@ == (LoadedView {
                    providers: resolved_providers(config.providers@, credentials.credentials@),
                    active_provider: config.active_provider@,
                    paths: paths@,
                    created_files,
                })
                &&& forall|i: int|
                    0 <= i < config.providers@.len() ==> {
                        &&& provider_is_valid(#[trigger] loaded.provider_at(i)@)
                        &&& loaded.provider_at(i).spec_request_parameters()
                            == config.providers@[i].1.request_parameters
                    }
            },
            Err(e) => resolve_fault(config, credentials.credentials@) == Some(e@),
        },
{
    let ghost ps = config.providers@;
    let ghost creds = credentials.credentials@;
    let Config { active_provider, providers: configured } = config;
    let mut providers: Vec<(String, ResolvedProvider)> = Vec::new();
    for entry in it: configured.into_iter()
        invariant
            it.seq() == ps,
            ps == config.providers@,
            tables_sorted(config, *credentials),
            creds == credentials.credentials@,
            providers@.len() == it.index(),
            forall|k: int|
                0 <= k < it.index() ==> {
                    &&& (#[trigger] providers@[k]).0@ == ps[k].0@
                    &&& providers@[k].1@ == resolved_view(ps[k].0@, ps[k].1, creds)
                    &&& provider_is_valid(providers@[k].1@)
                    &&& providers@[k].1.spec_request_parameters() == ps[k].1.request_parameters
                },
            resolve_fault_from(ps, creds, 0) == resolve_fault_from(ps, creds, it.index() as int),
    {
        assert(entry == ps[it.index() as int]);
        let (name, provider) = entry;
        match resolve_provider(name.as_str(), provider, credentials) {
            Ok(resolved) => providers.push((name, resolved)),
            Err(e) => {
                assert(resolve_fault_from(ps, creds, it.index() as int) == Some(e@));
                return Err(e);
            },
        }
    }
    assert(names_of(providers@) =~= names_of(ps));
    let found = find_entry(&providers, &active_provider);
    if found.is_none() {
        return Err(ConfigError::UnknownProvider(active_provider));
    }
    let loaded = LoadedAgentsConfig { providers, active_provider, paths, created_files };
    assert(loaded@.providers =~= resolved_providers(ps, creds));
    Ok(loaded)
}

} // verus!
