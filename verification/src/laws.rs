//! Properties that span the functions of the crate.
use vstd::prelude::*;

use crate::config::{
    find_from, find_name, lemma_find_from_bounds, names_ascending, names_of, text_less, Config,
    Credential,
};
use crate::error::{fault_message, ConfigFault};
use crate::text::{contains_text, occurs_at, replace_all};
use crate::header::{expanded_value, lowered_before, pair_views, session_placeholder, valid_header_name, valid_header_value};
use crate::paths::{path_components, paths_fault};
use crate::provider::resolved_view;
use crate::url::{acceptable_base_url, uri_accepts, uri_authority, uri_path, uri_query, uri_scheme};
use crate::config::ProviderConfig;
use crate::header::{
    expansion_entry_fault, expansion_fault, expansion_fault_from, header_entry_fault, header_fault,
    header_fault_from,
};
use crate::loaded::{provider_names, resolve_fault, resolve_fault_from, resolved_providers};
use crate::provider::{provider_api_key, provider_fault};
use crate::text::ascii_lower;

verus! {

/// The texts that a fault carries, besides the name of a field.
pub open spec fn fault_texts(f: ConfigFault) -> Set<Seq<char>> {
    match f {
        ConfigFault::InvalidPath(s) => set![s],
        ConfigFault::UnknownProvider(s) => set![s],
        ConfigFault::InvalidBaseUrl(s) => set![s],
        ConfigFault::EmptyProviderField(s, _) => set![s],
        ConfigFault::ZeroTimeout(s, _) => set![s],
        ConfigFault::UnknownCredential(s) => set![s],
        ConfigFault::EmptyApiKey(s) => set![s],
        ConfigFault::InvalidHeaderName(s) => set![s],
        ConfigFault::InvalidHeaderValue(s) => set![s],
        ConfigFault::DuplicateHeader(s) => set![s],
        _ => Set::empty(),
    }
}

/// Whether `s` is the name of a header of `hs`.
pub open spec fn is_header_name(hs: Seq<(Seq<char>, Seq<char>)>, s: Seq<char>) -> bool {
    exists|j: int| 0 <= j < hs.len() && #[trigger] hs[j].0 == s
}

/// Whether `s` is the name of a header of `hs`, as configured or in lowercase.
pub open spec fn is_header_name_any_case(hs: Seq<(Seq<char>, Seq<char>)>, s: Seq<char>) -> bool {
    exists|j: int| 0 <= j < hs.len() && (s == (#[trigger] hs[j]).0 || s == ascii_lower(hs[j].0))
}

/// Whether `s` names something in the configuration: a provider, the active
/// provider, the credential a provider refers to, or a header of a provider.
pub open spec fn is_config_name(config: Config, s: Seq<char>) -> bool {
    let ps = config.providers@;
    ||| s == config.active_provider@
    ||| exists|i: int| 0 <= i < ps.len() && #[trigger] ps[i].0@ == s
    ||| exists|i: int| 0 <= i < ps.len() && #[trigger] ps[i].1.credential@ == s
    ||| exists|i: int|
        0 <= i < ps.len() && is_header_name(
            crate::header::pair_views(#[trigger] ps[i].1.headers@),
            s,
        )
}

proof fn lemma_header_fault_names(hs: Seq<(Seq<char>, Seq<char>)>, i: int)
    ensures
        header_fault_from(hs, i) matches Some(f) ==> fault_field(f) is None && forall|s: Seq<char>|
            #[trigger] fault_texts(f).contains(s) ==> is_header_name(hs, s),
    decreases hs.len() - i,
{
    if 0 <= i < hs.len() {
        if header_entry_fault(hs, i) is None {
            lemma_header_fault_names(hs, i + 1);
        }
    }
}

proof fn lemma_expansion_fault_names(hs: Seq<(Seq<char>, Seq<char>)>, session_id: Seq<char>, i: int)
    ensures
        expansion_fault_from(hs, session_id, i) matches Some(f) ==> forall|s: Seq<char>|
            #[trigger] fault_texts(f).contains(s) ==> is_header_name_any_case(hs, s),
    decreases hs.len() - i,
{
    if 0 <= i < hs.len() {
        if expansion_entry_fault(hs, session_id, i) is None {
            lemma_expansion_fault_names(hs, session_id, i + 1);
        }
    }
}

proof fn lemma_resolve_fault_names(config: Config, credentials: Seq<(String, Credential)>, i: int)
    ensures
        resolve_fault_from(config.providers@, credentials, i) matches Some(f) ==> speaks_of_config(
            config,
            f,
        ),
    decreases config.providers@.len() - i,
{
    let ps = config.providers@;
    if 0 <= i < ps.len() {
        let name = ps[i].0@;
        let p = ps[i].1;
        match provider_fault(name, p, credentials) {
            Some(f) => {
                let hs = crate::header::pair_views(p.headers@);
                lemma_header_fault_names(hs, 0);
                assert forall|s: Seq<char>| #[trigger]
                    fault_texts(f).contains(s) implies is_config_name(config, s) by {
                    if s == name {
                        assert(ps[i].0@ == s);
                    } else if s == p.credential@ {
                        assert(ps[i].1.credential@ == s);
                    } else {
                        assert(header_fault(hs) == Some(f));
                        assert(is_header_name(crate::header::pair_views(ps[i].1.headers@), s));
                    }
                }
            },
            None => {
                lemma_resolve_fault_names(config, credentials, i + 1);
            },
        }
    }
}

/// Errors omit credential and header values: every text that a failed
/// resolution reports names a provider, the active provider, a credential a
/// provider refers to, or a configured header.
pub proof fn law_resolution_errors_carry_only_names(
    config: Config,
    credentials: Seq<(String, Credential)>,
)
    ensures
        resolve_fault(config, credentials) matches Some(f) ==> forall|s: Seq<char>|
            #[trigger] fault_texts(f).contains(s) ==> is_config_name(config, s),
{
    lemma_resolve_fault_names(config, credentials, 0);
}

/// The name of a field that resolution checks.
pub open spec fn is_field_label(field: Seq<char>) -> bool {
    ||| field == "base_url"@
    ||| field == "model"@
    ||| field == "credential"@
    ||| field == "first_chunk_timeout_seconds"@
    ||| field == "stream_idle_timeout_seconds"@
}

/// The field that a fault names, if any.
pub open spec fn fault_field(f: ConfigFault) -> Option<Seq<char>> {
    match f {
        ConfigFault::EmptyProviderField(_, field) => Some(field),
        ConfigFault::ZeroTimeout(_, field) => Some(field),
        _ => None,
    }
}

/// A fault that speaks only of the configuration: every text it carries is a
/// name of the configuration, and the field it names, if any, is one that
/// resolution checks.
pub open spec fn speaks_of_config(config: Config, f: ConfigFault) -> bool {
    &&& forall|s: Seq<char>| #[trigger] fault_texts(f).contains(s) ==> is_config_name(config, s)
    &&& fault_field(f) matches Some(field) ==> is_field_label(field)
}

/// Error messages do not disclose secrets: a text that appears in no message
/// about the configuration's own names (such as an API key made of
/// characters that neither the names nor the fixed wording use) appears in
/// no message of a failed resolution.
pub proof fn law_resolution_messages_hide_secrets(
    config: Config,
    credentials: Seq<(String, Credential)>,
    secret: Seq<char>,
)
    requires
        forall|g: ConfigFault| #[trigger]
            speaks_of_config(config, g) ==> !contains_text(fault_message(g), secret),
    ensures
        resolve_fault(config, credentials) matches Some(f) ==> !contains_text(
            fault_message(f),
            secret,
        ),
{
    lemma_resolve_fault_names(config, credentials, 0);
    if let Some(f) = resolve_fault(config, credentials) {
        if resolve_fault_from(config.providers@, credentials, 0) is None {
            assert(fault_texts(f).contains(config.active_provider@) ==> is_config_name(
                config,
                config.active_provider@,
            ));
            assert forall|s: Seq<char>| #[trigger]
                fault_texts(f).contains(s) implies is_config_name(config, s) by {
                assert(s == config.active_provider@);
            }
        }
        assert(speaks_of_config(config, f));
    }
}

/// Errors of header expansion name a header, as configured or in lowercase,
/// and never carry the session identifier or a header value.
pub proof fn law_expansion_errors_carry_only_names(
    hs: Seq<(Seq<char>, Seq<char>)>,
    session_id: Seq<char>,
)
    ensures
        expansion_fault(hs, session_id) matches Some(f) ==> forall|s: Seq<char>|
            #[trigger] fault_texts(f).contains(s) ==> is_header_name_any_case(hs, s),
{
    lemma_expansion_fault_names(hs, session_id, 0);
}

/// No text comes before itself.
pub proof fn lemma_text_less_irreflexive(a: Seq<char>)
    ensures
        !text_less(a, a),
    decreases a.len(),
{
    if a.len() > 0 {
        lemma_text_less_irreflexive(a.skip(1));
    }
}

proof fn lemma_find_in_ascending(names: Seq<Seq<char>>, i: int, j: int)
    requires
        names_ascending(names),
        0 <= j <= i < names.len(),
    ensures
        find_from(names, names[i], j) == Some(i),
    decreases i - j,
{
    if j < i {
        lemma_text_less_irreflexive(names[i]);
        assert(text_less(names[j], names[i]));
        lemma_find_in_ascending(names, i, j + 1);
    }
}

/// The listing of a loaded configuration and lookup by name agree: with names
/// in strictly ascending order, looking up the name at position `i` finds
/// position `i`, so `providers()` lists each configured name once, in order,
/// beside the provider that `provider(name)` returns.
pub proof fn law_listing_agrees_with_lookup(names: Seq<Seq<char>>, i: int)
    requires
        names_ascending(names),
        0 <= i < names.len(),
    ensures
        find_name(names, names[i]) == Some(i),
        forall|j: int| 0 <= j < names.len() && j != i ==> names[j] != names[i],
{
    lemma_find_in_ascending(names, i, 0);
    lemma_text_less_irreflexive(names[i]);
    assert forall|j: int| 0 <= j < names.len() && j != i implies names[j] != names[i] by {
        if j < i {
            assert(text_less(names[j], names[i]));
        } else {
            assert(text_less(names[i], names[j]));
        }
    }
}

/// After resolution, looking up a configured name selects the provider
/// configured under that name, with that entry's model and the API key of the
/// credential it names; a name that is not configured selects nothing.
pub proof fn law_lookup_selects_configured_provider(
    config: Config,
    credentials: Seq<(String, Credential)>,
    name: Seq<char>,
)
    ensures
        find_name(provider_names(resolved_providers(config.providers@, credentials)), name)
            == find_name(names_of(config.providers@), name),
        find_name(names_of(config.providers@), name) matches Some(i) ==> {
            let selected = resolved_providers(config.providers@, credentials)[i].1;
            &&& selected.name == name
            &&& selected.model == config.providers@[i].1.model@
            &&& selected.api_key == provider_api_key(config.providers@[i].1, credentials)
            &&& selected.headers == crate::header::pair_views(config.providers@[i].1.headers@)
            &&& selected.base_url == config.providers@[i].1.base_url@
            &&& selected.credential_name == config.providers@[i].1.credential@
            &&& selected.first_chunk_timeout_seconds
                == config.providers@[i].1.first_chunk_timeout_seconds
            &&& selected.stream_idle_timeout_seconds
                == config.providers@[i].1.stream_idle_timeout_seconds
        },
{
    let ps = config.providers@;
    assert(provider_names(resolved_providers(ps, credentials)) =~= names_of(ps));
    lemma_find_from_bounds(names_of(ps), name, 0);
}

/// A resolved provider holds what its entry configures: its name, base URL,
/// model, credential name, headers and both timeouts unchanged, and the API
/// key of the credential it names.
pub proof fn law_resolution_keeps_configured_values(
    name: Seq<char>,
    provider: ProviderConfig,
    credentials: Seq<(String, Credential)>,
)
    ensures
        ({
            let r = resolved_view(name, provider, credentials);
            &&& r.name == name
            &&& r.base_url == provider.base_url@
            &&& r.model == provider.model@
            &&& r.credential_name == provider.credential@
            &&& r.headers == pair_views(provider.headers@)
            &&& r.first_chunk_timeout_seconds == provider.first_chunk_timeout_seconds
            &&& r.stream_idle_timeout_seconds == provider.stream_idle_timeout_seconds
            &&& find_name(names_of(credentials), provider.credential@) matches Some(i)
                ==> r.api_key == credentials[i].1.api_key@
        }),
{
}

proof fn lemma_header_fault_from_none(hs: Seq<(Seq<char>, Seq<char>)>, i: int)
    requires
        0 <= i <= hs.len(),
    ensures
        header_fault_from(hs, i) is None <==> forall|j: int|
            i <= j < hs.len() ==> #[trigger] header_entry_fault(hs, j) is None,
    decreases hs.len() - i,
{
    if i < hs.len() {
        lemma_header_fault_from_none(hs, i + 1);
    }
}

/// Header validation refuses only the three documented faults: a provider's
/// headers pass exactly when every name is a valid header name, every value
/// is a valid header value, and no two names are equal up to ASCII case.
pub proof fn law_header_check_refuses_only_documented_faults(hs: Seq<(Seq<char>, Seq<char>)>)
    ensures
        header_fault(hs) is None <==> {
            &&& forall|i: int|
                0 <= i < hs.len() ==> valid_header_name(#[trigger] hs[i].0) && valid_header_value(
                    hs[i].1,
                )
            &&& forall|i: int, j: int|
                0 <= i < j < hs.len() ==> ascii_lower(#[trigger] hs[i].0) != ascii_lower(
                    #[trigger] hs[j].0,
                )
        },
{
    lemma_header_fault_from_none(hs, 0);
    if header_fault(hs) is None {
        assert forall|i: int| 0 <= i < hs.len() implies valid_header_name(#[trigger] hs[i].0)
            && valid_header_value(hs[i].1) by {
            assert(header_entry_fault(hs, i) is None);
        }
        assert forall|i: int, j: int| 0 <= i < j < hs.len() implies ascii_lower(
            #[trigger] hs[i].0,
        ) != ascii_lower(#[trigger] hs[j].0) by {
            assert(header_entry_fault(hs, j) is None);
            if ascii_lower(hs[i].0) == ascii_lower(hs[j].0) {
                assert(lowered_before(hs, j, ascii_lower(hs[j].0)));
            }
        }
    } else {
        if (forall|i: int|
            0 <= i < hs.len() ==> valid_header_name(#[trigger] hs[i].0) && valid_header_value(
                hs[i].1,
            )) && (forall|i: int, j: int|
            0 <= i < j < hs.len() ==> ascii_lower(#[trigger] hs[i].0) != ascii_lower(
                #[trigger] hs[j].0,
            )) {
            assert forall|j: int| 0 <= j < hs.len() implies #[trigger] header_entry_fault(
                hs,
                j,
            ) is None by {
                assert(valid_header_name(hs[j].0) && valid_header_value(hs[j].1));
                if lowered_before(hs, j, ascii_lower(hs[j].0)) {
                    let k = choose|k: int|
                        0 <= k < j && #[trigger] ascii_lower(hs[k].0) == ascii_lower(hs[j].0);
                    assert(ascii_lower(hs[k].0) != ascii_lower(hs[j].0));
                }
            }
        }
    }
}

/// What a base URL must be, in terms of the URL alone: http parses it, its
/// scheme is `http` or `https`, it has an authority without `@`, its path is
/// neither empty nor `/`, and it has no query and no `#`. Nothing else
/// refuses a base URL; a path that ends in `/`, such as `/v1/`, is accepted.
pub proof fn law_base_url_rules(text: Seq<char>)
    ensures
        acceptable_base_url(text) <==> {
            &&& uri_accepts(text)
            &&& (uri_scheme(text) == Some(seq!['h', 't', 't', 'p']) || uri_scheme(text) == Some(
                seq!['h', 't', 't', 'p', 's'],
            ))
            &&& uri_authority(text) matches Some(authority) && !authority.contains('@')
            &&& uri_path(text).len() > 0
            &&& uri_path(text) != seq!['/']
            &&& uri_query(text) is None
            &&& !text.contains('#')
        },
{
    reveal_strlit("http");
    reveal_strlit("https");
    reveal_strlit("/");
    assert("http"@ =~= seq!['h', 't', 't', 'p']);
    assert("https"@ =~= seq!['h', 't', 't', 'p', 's']);
    assert("/"@ =~= seq!['/']);
}

/// The characters of the session placeholder `${session_id}`.
pub open spec fn placeholder_chars() -> Seq<char> {
    seq!['$', '{', 's', 'e', 's', 's', 'i', 'o', 'n', '_', 'i', 'd', '}']
}

/// A template that is only the placeholder becomes the session identifier
/// exactly as given, character for character.
pub proof fn law_placeholder_becomes_session_id(session_id: Seq<char>)
    ensures
        expanded_value(placeholder_chars(), session_id) == session_id,
{
    reveal_strlit("${session_id}");
    assert(session_placeholder() =~= placeholder_chars());
    let p = placeholder_chars();
    assert(occurs_at(p, p, 0)) by {
        assert(p.subrange(0, p.len() as int) =~= p);
    }
    assert(p.skip(p.len() as int) =~= Seq::<char>::empty());
    assert(replace_all(Seq::<char>::empty(), p, session_id) == Seq::<char>::empty());
    assert(session_id + Seq::<char>::empty() =~= session_id);
}

/// Text before the first placeholder is kept as it is and the placeholder
/// becomes the session identifier as given: for a prefix without `$`,
/// expanding `prefix + ${session_id} + rest` gives `prefix + session_id`
/// followed by the expansion of `rest`.
pub proof fn law_expansion_keeps_prefix_and_inserts_session_id(
    prefix: Seq<char>,
    rest: Seq<char>,
    session_id: Seq<char>,
)
    requires
        !prefix.contains('$'),
    ensures
        expanded_value(prefix + placeholder_chars() + rest, session_id) == prefix + session_id
            + expanded_value(rest, session_id),
    decreases prefix.len(),
{
    reveal_strlit("${session_id}");
    assert(session_placeholder() =~= placeholder_chars());
    let p = placeholder_chars();
    let whole = prefix + p + rest;
    if prefix.len() == 0 {
        assert(whole =~= p + rest);
        assert(occurs_at(whole, p, 0)) by {
            assert(whole.subrange(0, p.len() as int) =~= p);
        }
        assert(whole.skip(p.len() as int) =~= rest);
        assert(prefix + session_id =~= session_id);
    } else {
        assert(!occurs_at(whole, p, 0)) by {
            assert(whole[0] == prefix[0]);
            assert(prefix[0] != '$');
            if occurs_at(whole, p, 0) {
                assert(whole.subrange(0, p.len() as int)[0] == p[0]);
            }
        }
        let tail = prefix.skip(1);
        assert(!tail.contains('$')) by {
            if tail.contains('$') {
                let k = choose|k: int| 0 <= k < tail.len() && tail[k] == '$';
                assert(prefix[k + 1] == '$');
            }
        }
        law_expansion_keeps_prefix_and_inserts_session_id(tail, rest, session_id);
        assert(whole.skip(1) =~= tail + p + rest);
        assert(whole.len() > 0);
        assert(seq![prefix[0]] + (tail + session_id + expanded_value(rest, session_id))
            =~= prefix + session_id + expanded_value(rest, session_id));
    }
}

/// A pair of configuration paths is accepted exactly when both paths are
/// non-empty, both start with `/`, and they do not have the same components.
/// A relative path of either kind is refused as not absolute.
pub proof fn law_paths_must_be_absolute_and_distinct(config: Seq<char>, credentials: Seq<char>)
    ensures
        paths_fault(config, credentials) is None <==> {
            &&& config.len() > 0 && config[0] == '/'
            &&& credentials.len() > 0 && credentials[0] == '/'
            &&& path_components(config) != path_components(credentials)
        },
        !(config.len() > 0 && config[0] == '/') || !(credentials.len() > 0 && credentials[0]
            == '/') ==> paths_fault(config, credentials) matches Some(
            ConfigFault::InvalidPath(_),
        ),
{
}

} // verus!
