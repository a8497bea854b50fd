//! Provider headers: the rules that http applies to header names and values,
//! the check made when a provider is resolved, and the expansion of
//! `${session_id}` into a header map.
use vstd::prelude::*;

use http::{HeaderMap, HeaderName, HeaderValue};

use crate::error::{ConfigError, ConfigFault};
use crate::text::{ascii_lower, contains_text, occurs_at, replace_all, replace_text, to_ascii_lower};

verus! {

/// Declares http's `HeaderName`, opaque to proofs.
#[verifier::external_type_specification]
#[verifier::external_body]
pub struct ExHeaderName(http::HeaderName);

/// Declares http's `HeaderValue`, opaque to proofs.
#[verifier::external_type_specification]
#[verifier::external_body]
pub struct ExHeaderValue(http::HeaderValue);

/// Declares http's `HeaderMap`; what it holds is `header_entries`.
#[verifier::external_type_specification]
#[verifier::external_body]
#[verifier::reject_recursive_types(T)]
pub struct ExHeaderMap<T>(http::HeaderMap<T>);

/// What a header map holds: for each (lowercase) header name, the text of its
/// value and whether the value is marked sensitive.
pub uninterp spec fn header_entries(m: HeaderMap<HeaderValue>) -> Map<
    Seq<char>,
    (Seq<char>, bool),
>;

/// The header name that `HeaderName::from_bytes` makes of the bytes of
/// `text`, where it accepts them. The name is normalized to lowercase, so the
/// text and its ASCII lowercase make the same name.
pub uninterp spec fn header_name_of(text: Seq<char>) -> HeaderName;

/// A character allowed in an HTTP header name (an RFC 9110 `tchar`).
pub open spec fn is_token_char(c: char) -> bool {
    ||| ('a' <= c && c <= 'z')
    ||| ('A' <= c && c <= 'Z')
    ||| ('0' <= c && c <= '9')
    ||| c == '!' || c == '#' || c == '$' || c == '%' || c == '&' || c == '\''
    ||| c == '*' || c == '+' || c == '-' || c == '.' || c == '^' || c == '_'
    ||| c == '`' || c == '|' || c == '~'
}

/// A header name that http accepts: one to 65535 token characters.
pub open spec fn valid_header_name(s: Seq<char>) -> bool {
    &&& 1 <= s.len() <= 65535
    &&& forall|i: int| 0 <= i < s.len() ==> #[trigger] is_token_char(s[i])
}

/// A character allowed in a header value: a tab, or anything from the space
/// on but DEL. (Every byte of a multi-byte UTF-8 character is allowed.)
pub open spec fn is_value_char(c: char) -> bool {
    c == '\t' || (' ' <= c && c != '\u{7f}')
}

/// A header value that http accepts.
pub open spec fn valid_header_value(s: Seq<char>) -> bool {
    forall|i: int| 0 <= i < s.len() ==> #[trigger] is_value_char(s[i])
}

/// The placeholder that header templates use for the session identifier.
pub open spec fn session_placeholder() -> Seq<char> {
    "${session_id}"@
}

/// The value of a header template once the session identifier is put in.
pub open spec fn expanded_value(template: Seq<char>, session_id: Seq<char>) -> Seq<char> {
    replace_all(template, session_placeholder(), session_id)
}

/// The header entries as pairs of texts.
pub open spec fn pair_views(hs: Seq<(String, String)>) -> Seq<(Seq<char>, Seq<char>)> {
    hs.map_values(|e: (String, String)| (e.0@, e.1@))
}

/// Whether an entry before position `i` has the lowercase name `lower`.
pub open spec fn lowered_before(hs: Seq<(Seq<char>, Seq<char>)>, i: int, lower: Seq<char>) -> bool {
    exists|j: int| 0 <= j < i && #[trigger] ascii_lower(hs[j].0) == lower
}

/// What is wrong with entry `i` of a provider's headers, if anything.
pub open spec fn header_entry_fault(hs: Seq<(Seq<char>, Seq<char>)>, i: int) -> Option<ConfigFault> {
    let name = hs[i].0;
    if !valid_header_name(name) {
        Some(ConfigFault::InvalidHeaderName(name))
    } else if lowered_before(hs, i, ascii_lower(name)) {
        Some(ConfigFault::DuplicateHeader(name))
    } else if !valid_header_value(hs[i].1) {
        Some(ConfigFault::InvalidHeaderValue(name))
    } else {
        None
    }
}

/// The first fault among the entries from position `i` on.
pub open spec fn header_fault_from(hs: Seq<(Seq<char>, Seq<char>)>, i: int) -> Option<ConfigFault>
    decreases hs.len() - i,
{
    if 0 <= i < hs.len() {
        match header_entry_fault(hs, i) {
            Some(f) => Some(f),
            None => header_fault_from(hs, i + 1),
        }
    } else {
        None
    }
}

/// The first fault of a provider's headers, taken in order: an invalid name,
/// a name that repeats an earlier one up to ASCII case, or an invalid value.
pub open spec fn header_fault(hs: Seq<(Seq<char>, Seq<char>)>) -> Option<ConfigFault> {
    header_fault_from(hs, 0)
}

/// What is wrong with entry `i` once its value is expanded, if anything.
pub open spec fn expansion_entry_fault(
    hs: Seq<(Seq<char>, Seq<char>)>,
    session_id: Seq<char>,
    i: int,
) -> Option<ConfigFault> {
    let name = hs[i].0;
    if !valid_header_name(name) {
        Some(ConfigFault::InvalidHeaderName(name))
    } else if !valid_header_value(expanded_value(hs[i].1, session_id)) {
        Some(ConfigFault::InvalidHeaderValue(ascii_lower(name)))
    } else if lowered_before(hs, i, ascii_lower(name)) {
        Some(ConfigFault::DuplicateHeader(ascii_lower(name)))
    } else {
        None
    }
}

pub open spec fn expansion_fault_from(
    hs: Seq<(Seq<char>, Seq<char>)>,
    session_id: Seq<char>,
    i: int,
) -> Option<ConfigFault>
    decreases hs.len() - i,
{
    if 0 <= i < hs.len() {
        match expansion_entry_fault(hs, session_id, i) {
            Some(f) => Some(f),
            None => expansion_fault_from(hs, session_id, i + 1),
        }
    } else {
        None
    }
}

/// The first fault met while expanding the headers for `session_id`.
pub open spec fn expansion_fault(hs: Seq<(Seq<char>, Seq<char>)>, session_id: Seq<char>) -> Option<
    ConfigFault,
> {
    expansion_fault_from(hs, session_id, 0)
}

/// The header map made of the first `k` entries, expanded and marked sensitive.
pub open spec fn expanded_map(hs: Seq<(Seq<char>, Seq<char>)>, session_id: Seq<char>, k: int) -> Map<
    Seq<char>,
    (Seq<char>, bool),
>
    decreases k,
{
    if k <= 0 {
        Map::empty()
    } else {
        expanded_map(hs, session_id, k - 1).insert(
            ascii_lower(hs[k - 1].0),
            (expanded_value(hs[k - 1].1, session_id), true),
        )
    }
}

/// The contents of a header map without entries.
pub open spec fn no_headers() -> Map<Seq<char>, (Seq<char>, bool)> {
    Map::empty()
}

/// A header name that http accepted, kept with its lowercase text.
pub struct CheckedName {
    name: HeaderName,
    text: String,
}

impl CheckedName {
    /// The name is the one that http makes of the lowercase text beside it.
    #[verifier::type_invariant]
    spec fn made_from_text(&self) -> bool {
        self.name == header_name_of(self.text@)
    }

    /// The lowercase text of the name.
    pub closed spec fn lower(&self) -> Seq<char> {
        self.text@
    }
}

/// A header value that http accepted, kept with its text and sensitivity.
pub struct CheckedValue {
    value: HeaderValue,
    text: String,
    sensitive: bool,
}

impl CheckedValue {
    pub closed spec fn text(&self) -> Seq<char> {
        self.text@
    }

    pub closed spec fn is_sensitive(&self) -> bool {
        self.sensitive
    }
}

/// Calls `HeaderName::from_bytes` on the bytes of `raw`. The name that http
/// builds is the ASCII lowercase of the input (`HeaderName::as_str`): valid
/// names hold token characters only, which its table maps to lowercase.
#[verifier::external_body]
fn parse_header_name(raw: &str) -> (res: Option<CheckedName>)
    ensures
        res is Some <==> valid_header_name(raw@),
        res matches Some(n) ==> n.lower() == ascii_lower(raw@) && header_name_of(raw@)
            == header_name_of(n.lower()),
{
    match HeaderName::from_bytes(raw.as_bytes()) {
        Ok(name) => {
            let text = name.as_str().to_owned();
            Some(CheckedName { name, text })
        },
        Err(_) => None,
    }
}

/// Calls `HeaderValue::from_str`, which accepts a text exactly when each of
/// its bytes is a tab or at least 32 and not 127, and keeps the bytes as they
/// are; a new value is not sensitive.
#[verifier::external_body]
fn parse_header_value(raw: &str) -> (res: Option<CheckedValue>)
    ensures
        res is Some <==> valid_header_value(raw@),
        res matches Some(v) ==> v.text() == raw@ && !v.is_sensitive(),
{
    match HeaderValue::from_str(raw) {
        Ok(value) => Some(CheckedValue { value, text: raw.to_owned(), sensitive: false }),
        Err(_) => None,
    }
}

/// Calls `HeaderValue::set_sensitive(true)`.
#[verifier::external_body]
fn mark_sensitive(v: &mut CheckedValue)
    ensures
        final(v).text() == old(v).text(),
        final(v).is_sensitive(),
{
    v.value.set_sensitive(true);
    v.sensitive = true;
}

/// Calls `HeaderMap::new`, which holds no entry.
#[verifier::external_body]
fn new_header_map() -> (m: HeaderMap<HeaderValue>)
    ensures
        header_entries(m) == no_headers(),
{
    HeaderMap::new()
}

/// Calls `HeaderMap::insert`, which replaces any value under the same name and
/// reports whether there was one. It panics only when the map would grow past
/// 32768 slots; below 6553 entries it never grows that far, whatever the hashes.
#[verifier::external_body]
fn insert_header(map: &mut HeaderMap<HeaderValue>, name: CheckedName, value: CheckedValue) -> (had: bool)
    requires
        header_entries(*old(map)).dom().finite(),
        header_entries(*old(map)).dom().len() < 6553,
    ensures
        had == header_entries(*old(map)).dom().contains(name.lower()),
        header_entries(*final(map)) == header_entries(*old(map)).insert(
            name.lower(),
            (value.text(), value.is_sensitive()),
        ),
{
    map.insert(name.name, value.value).is_some()
}

fn contains_name(seen: &Vec<String>, name: &String) -> (r: bool)
    ensures
        r == exists|j: int| 0 <= j < seen@.len() && #[trigger] seen@[j]@ == name@,
{
    let mut j: usize = 0;
    while j < seen.len()
        invariant
            j <= seen.len(),
            forall|k: int| 0 <= k < j ==> #[trigger] seen@[k]@ != name@,
        decreases seen.len() - j,
    {
        if seen[j] == *name {
            return true;
        }
        j = j + 1;
    }
    false
}

/// Checks each configured header in order, as a provider is resolved: its
/// name must be valid, must not repeat an earlier name up to ASCII case, and
/// its template must be a valid header value.
pub fn validate_header_names(headers: &Vec<(String, String)>) -> (res: Result<(), ConfigError>)
    ensures
        match res {
            Ok(()) => header_fault(pair_views(headers@)) is None,
            Err(e) => header_fault(pair_views(headers@)) == Some(e@),
        },
{
    let ghost hs = pair_views(headers@);
    let mut seen: Vec<String> = Vec::new();
    let mut i: usize = 0;
    while i < headers.len()
        invariant
            i <= headers.len(),
            hs == pair_views(headers@),
            seen@.len() == i,
            forall|j: int| 0 <= j < i ==> #[trigger] seen@[j]@ == ascii_lower(hs[j].0),
            header_fault(hs) == header_fault_from(hs, i as int),
        decreases headers.len() - i,
    {
        let name = &headers[i].0;
        let value = &headers[i].1;
        if parse_header_name(name.as_str()).is_none() {
            return Err(ConfigError::InvalidHeaderName(name.clone()));
        }
        let lowered = to_ascii_lower(name.as_str());
        if contains_name(&seen, &lowered) {
            assert(lowered_before(hs, i as int, ascii_lower(hs[i as int].0)));
            return Err(ConfigError::DuplicateHeader(name.clone()));
        }
        assert(!lowered_before(hs, i as int, ascii_lower(hs[i as int].0))) by {
            if lowered_before(hs, i as int, ascii_lower(hs[i as int].0)) {
                let j = choose|j: int|
                    0 <= j < i && #[trigger] ascii_lower(hs[j].0) == ascii_lower(hs[i as int].0);
                assert(seen@[j]@ == lowered@);
            }
        }
        if parse_header_value(value.as_str()).is_none() {
            return Err(ConfigError::InvalidHeaderValue(name.clone()));
        }
        seen.push(lowered);
        i = i + 1;
    }
    Ok(())
}

/// Expands `${session_id}` in every header template and builds the header map
/// that a client sends, each value marked sensitive.
pub fn build_header_map(headers: &Vec<(String, String)>, session_id: &str) -> (res: Result<
    HeaderMap<HeaderValue>,
    ConfigError,
>)
    requires
        headers@.len() < 6553,
    ensures
        match res {
            Ok(m) => {
                &&& expansion_fault(pair_views(headers@), session_id@) is None
                &&& header_entries(m) == expanded_map(
                    pair_views(headers@),
                    session_id@,
                    headers@.len() as int,
                )
            },
            Err(e) => expansion_fault(pair_views(headers@), session_id@) == Some(e@),
        },
{
    let ghost hs = pair_views(headers@);
    let ghost sid = session_id@;
    proof {
        reveal_strlit("${session_id}");
    }
    let mut map = new_header_map();
    let mut i: usize = 0;
    while i < headers.len()
        invariant
            i <= headers.len(),
            headers@.len() < 6553,
            hs == pair_views(headers@),
            sid == session_id@,
            session_placeholder().len() > 0,
            header_entries(map) == expanded_map(hs, sid, i as int),
            header_entries(map).dom().finite(),
            header_entries(map).dom().len() <= i,
            forall|l: Seq<char>| #[trigger]
                header_entries(map).dom().contains(l) <==> lowered_before(hs, i as int, l),
            expansion_fault(hs, sid) == expansion_fault_from(hs, sid, i as int),
        decreases headers.len() - i,
    {
        let name = &headers[i].0;
        let template = &headers[i].1;
        let checked_name = match parse_header_name(name.as_str()) {
            Some(n) => n,
            None => return Err(ConfigError::InvalidHeaderName(name.clone())),
        };
        let lowered = to_ascii_lower(name.as_str());
        let expanded = replace_text(template.as_str(), "${session_id}", session_id);
        let mut checked_value = match parse_header_value(expanded.as_str()) {
            Some(v) => v,
            None => return Err(ConfigError::InvalidHeaderValue(lowered)),
        };
        mark_sensitive(&mut checked_value);
        let ghost before = header_entries(map);
        let had = insert_header(&mut map, checked_name, checked_value);
        if had {
            return Err(ConfigError::DuplicateHeader(lowered));
        }
        proof {
            assert forall|l: Seq<char>| lowered_before(hs, i + 1, l) implies #[trigger] header_entries(
                map,
            ).dom().contains(l) by {
                let j = choose|j: int| 0 <= j < i + 1 && #[trigger] ascii_lower(hs[j].0) == l;
                if j < i {
                    assert(lowered_before(hs, i as int, l));
                }
            }
            assert forall|l: Seq<char>| #[trigger]
                header_entries(map).dom().contains(l) implies lowered_before(hs, i + 1, l) by {
                if l != ascii_lower(hs[i as int].0) {
                    assert(before.dom().contains(l));
                    let j = choose|j: int| 0 <= j < i && #[trigger] ascii_lower(hs[j].0) == l;
                    assert(0 <= j < i + 1 && ascii_lower(hs[j].0) == l);
                } else {
                    assert(0 <= i < i + 1 && ascii_lower(hs[i as int].0) == l);
                }
            }
        }
        i = i + 1;
    }
    Ok(map)
}

/// Replacing a pattern by a valid header value in a valid header value gives
/// a valid header value.
pub proof fn lemma_replace_keeps_value_valid(s: Seq<char>, pat: Seq<char>, rep: Seq<char>)
    requires
        pat.len() > 0,
        valid_header_value(s),
        valid_header_value(rep),
    ensures
        valid_header_value(replace_all(s, pat, rep)),
    decreases s.len(),
{
    if s.len() == 0 {
    } else if occurs_at(s, pat, 0) {
        let rest = s.skip(pat.len() as int);
        assert(valid_header_value(rest)) by {
            assert forall|i: int| 0 <= i < rest.len() implies #[trigger] is_value_char(rest[i]) by {
                assert(rest[i] == s[i + pat.len()]);
            }
        }
        lemma_replace_keeps_value_valid(rest, pat, rep);
        let r = replace_all(rest, pat, rep);
        assert forall|i: int| 0 <= i < (rep + r).len() implies #[trigger] is_value_char(
            (rep + r)[i],
        ) by {
            if i >= rep.len() {
                assert((rep + r)[i] == r[i - rep.len()]);
            }
        }
    } else {
        let rest = s.skip(1);
        assert(valid_header_value(rest)) by {
            assert forall|i: int| 0 <= i < rest.len() implies #[trigger] is_value_char(rest[i]) by {
                assert(rest[i] == s[i + 1]);
            }
        }
        lemma_replace_keeps_value_valid(rest, pat, rep);
        let r = replace_all(rest, pat, rep);
        assert forall|i: int| 0 <= i < (seq![s[0]] + r).len() implies #[trigger] is_value_char(
            (seq![s[0]] + r)[i],
        ) by {
            if i >= 1 {
                assert((seq![s[0]] + r)[i] == r[i - 1]);
            }
        }
    }
}

/// Headers that passed the check made at resolution expand without fault for
/// any session identifier that is itself a valid header value.
pub proof fn lemma_checked_headers_expand(hs: Seq<(Seq<char>, Seq<char>)>, session_id: Seq<char>, i: int)
    requires
        header_fault_from(hs, i) is None,
        valid_header_value(session_id),
    ensures
        expansion_fault_from(hs, session_id, i) is None,
    decreases hs.len() - i,
{
    reveal_strlit("${session_id}");
    if 0 <= i < hs.len() {
        assert(header_entry_fault(hs, i) is None);
        lemma_replace_keeps_value_valid(hs[i].1, session_placeholder(), session_id);
        lemma_checked_headers_expand(hs, session_id, i + 1);
    }
}

/// A template in which `${session_id}` does not occur is sent as it is, so
/// that other placeholders stay literal text.
pub proof fn lemma_template_without_placeholder_is_kept(template: Seq<char>, session_id: Seq<char>)
    requires
        !contains_text(template, session_placeholder()),
    ensures
        expanded_value(template, session_id) == template,
{
    reveal_strlit("${session_id}");
    crate::text::lemma_replace_absent(template, session_placeholder(), session_id);
}

} // verus!
