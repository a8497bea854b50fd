//! The configuration as it is read from `config.toml` and `credentials.toml`,
//! before validation. Named tables are kept as lists of (name, entry) pairs in
//! the order of their names.
use vstd::prelude::*;

use serde_json::Value;

verus! {

/// Declares serde_json's `Map`, carried opaque as a provider's request parameters.
#[verifier::external_type_specification]
#[verifier::external_body]
#[verifier::reject_recursive_types(K)]
#[verifier::reject_recursive_types(V)]
pub struct ExJsonMap<K, V>(serde_json::Map<K, V>);

/// Declares serde_json's `Value`, opaque to proofs.
#[verifier::external_type_specification]
#[verifier::external_body]
pub struct ExJsonValue(serde_json::Value);

pub const DEFAULT_FIRST_CHUNK_TIMEOUT_SECONDS: u64 = 30;

pub const DEFAULT_STREAM_IDLE_TIMEOUT_SECONDS: u64 = 60;

/// The first-chunk timeout of a provider that does not set one.
pub fn default_first_chunk_timeout() -> (r: u64)
    ensures
        r == 30,
{
    DEFAULT_FIRST_CHUNK_TIMEOUT_SECONDS
}

/// The stream-idle timeout of a provider that does not set one.
pub fn default_stream_idle_timeout() -> (r: u64)
    ensures
        r == 60,
{
    DEFAULT_STREAM_IDLE_TIMEOUT_SECONDS
}

/// The contents of `config.toml`.
pub struct Config {
    pub active_provider: String,
    pub providers: Vec<(String, ProviderConfig)>,
}

/// One `[providers.<name>]` table of `config.toml`.
pub struct ProviderConfig {
    pub base_url: String,
    pub model: String,
    pub credential: String,
    pub headers: Vec<(String, String)>,
    pub request_parameters: serde_json::Map<String, Value>,
    pub first_chunk_timeout_seconds: u64,
    pub stream_idle_timeout_seconds: u64,
}

/// The contents of `credentials.toml`.
pub struct CredentialsFile {
    pub credentials: Vec<(String, Credential)>,
}

/// One `[credentials.<name>]` table of `credentials.toml`.
pub struct Credential {
    pub api_key: String,
}

/// Whether `a` comes before `b` in the order of `String`: lexicographic by
/// code point, which for UTF-8 is the order of the bytes.
pub open spec fn text_less(a: Seq<char>, b: Seq<char>) -> bool
    decreases a.len(),
{
    if a.len() == 0 {
        b.len() > 0
    } else if b.len() == 0 {
        false
    } else if a[0] != b[0] {
        a[0] < b[0]
    } else {
        text_less(a.skip(1), b.skip(1))
    }
}

/// Names in strictly ascending order, hence without repetition: the order in
/// which a TOML table's keys are read into a sorted map.
pub open spec fn names_ascending(names: Seq<Seq<char>>) -> bool {
    forall|i: int, j: int| 0 <= i < j < names.len() ==> text_less(names[i], names[j])
}

/// The header names of a provider's header table.
pub open spec fn header_names(hs: Seq<(Seq<char>, Seq<char>)>) -> Seq<Seq<char>> {
    hs.map_values(|e: (Seq<char>, Seq<char>)| e.0)
}

/// The tables as a sorted map gives them: providers, each provider's headers
/// and credentials all in strictly ascending order of name.
pub open spec fn tables_sorted(config: Config, credentials: CredentialsFile) -> bool {
    &&& names_ascending(names_of(config.providers@))
    &&& forall|i: int|
        0 <= i < config.providers@.len() ==> names_ascending(
            header_names(crate::header::pair_views(#[trigger] config.providers@[i].1.headers@)),
        )
    &&& names_ascending(names_of(credentials.credentials@))
}

/// The names of a list of named entries.
pub open spec fn names_of<T>(entries: Seq<(String, T)>) -> Seq<Seq<char>> {
    entries.map_values(|e: (String, T)| e.0@)
}

/// The first position, from `i` on, at which `name` appears in `names`.
pub open spec fn find_from(names: Seq<Seq<char>>, name: Seq<char>, i: int) -> Option<int>
    decreases names.len() - i,
{
    if 0 <= i < names.len() {
        if names[i] == name {
            Some(i)
        } else {
            find_from(names, name, i + 1)
        }
    } else {
        None
    }
}

/// The first position at which `name` appears in `names`.
pub open spec fn find_name(names: Seq<Seq<char>>, name: Seq<char>) -> Option<int> {
    find_from(names, name, 0)
}

pub proof fn lemma_find_from_bounds(names: Seq<Seq<char>>, name: Seq<char>, i: int)
    ensures
        find_from(names, name, i) matches Some(k) ==> i <= k < names.len() && names[k] == name,
    decreases names.len() - i,
{
    if 0 <= i < names.len() && names[i] != name {
        lemma_find_from_bounds(names, name, i + 1);
    }
}

/// The position of the entry named `name`, the first one if several are.
pub fn find_entry<T>(entries: &Vec<(String, T)>, name: &String) -> (r: Option<usize>)
    ensures
        match r {
            Some(i) => find_name(names_of(entries@), name@) == Some(i as int),
            None => find_name(names_of(entries@), name@) is None,
        },
{
    let ghost names = names_of(entries@);
    let mut i: usize = 0;
    while i < entries.len()
        invariant
            i <= entries.len(),
            names == names_of(entries@),
            find_name(names, name@) == find_from(names, name@, i as int),
        decreases entries.len() - i,
    {
        if entries[i].0 == *name {
            return Some(i);
        }
        i = i + 1;
    }
    None
}

} // verus!
