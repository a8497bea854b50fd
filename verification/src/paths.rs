//! The pair of file paths that define an agent configuration.
//!
//! Paths follow Unix rules: a path is absolute when it starts at the root
//! `/`, and two paths are the same path when they have the same components,
//! so that repeated separators and `.` segments do not tell paths apart.
use vstd::prelude::*;

use crate::error::{ConfigError, ConfigFault};
use crate::text::{chars_equal, chars_of, string_of};
use vstd::std_specs::cmp::PartialEqSpecImpl;

verus! {

pub open spec fn opt_text(o: Option<&str>) -> Option<Seq<char>> {
    match o {
        Some(s) => Some(s@),
        None => None,
    }
}

/// A path that starts at the root directory.
pub open spec fn is_absolute_path(s: Seq<char>) -> bool {
    s.len() > 0 && s[0] == '/'
}

/// A segment that names a component: neither empty nor `.`.
pub open spec fn names_component(seg: Seq<char>) -> bool {
    seg.len() > 0 && seg != seq!['.']
}

/// The components found so far and the segment being read, after `c`.
pub open spec fn scan_step(st: (Seq<Seq<char>>, Seq<char>), c: char) -> (Seq<Seq<char>>, Seq<char>) {
    if c == '/' {
        (if names_component(st.1) { st.0.push(st.1) } else { st.0 }, Seq::empty())
    } else {
        (st.0, st.1.push(c))
    }
}

/// The state of reading `s` from left to right, segment by segment.
pub open spec fn scan_path(s: Seq<char>) -> (Seq<Seq<char>>, Seq<char>)
    decreases s.len(),
{
    if s.len() == 0 {
        (Seq::empty(), Seq::empty())
    } else {
        scan_step(scan_path(s.drop_last()), s.last())
    }
}

/// The named components of a path, in order: the segments between separators
/// that are neither empty nor `.`.
pub open spec fn path_components(s: Seq<char>) -> Seq<Seq<char>> {
    let st = scan_path(s);
    if names_component(st.1) {
        st.0.push(st.1)
    } else {
        st.0
    }
}

/// Two absolute paths that denote the same location.
pub open spec fn same_path(a: Seq<char>, b: Seq<char>) -> bool {
    path_components(a) == path_components(b)
}

pub open spec fn seq_views(v: Seq<Vec<char>>) -> Seq<Seq<char>> {
    v.map_values(|x: Vec<char>| x@)
}

fn is_dot(seg: &Vec<char>) -> (r: bool)
    ensures
        r == (seg@ == seq!['.']),
{
    if seg.len() == 1 && seg[0] == '.' {
        assert(seg@ =~= seq!['.']);
        true
    } else {
        false
    }
}

/// The named components of the path `s`.
fn components_of(s: &str) -> (out: Vec<Vec<char>>)
    ensures
        seq_views(out@) == path_components(s@),
{
    let chars = chars_of(s);
    let mut done: Vec<Vec<char>> = Vec::new();
    let mut cur: Vec<char> = Vec::new();
    let mut i: usize = 0;
    while i < chars.len()
        invariant
            i <= chars.len(),
            chars@ == s@,
            seq_views(done@) == scan_path(chars@.take(i as int)).0,
            cur@ == scan_path(chars@.take(i as int)).1,
        decreases chars.len() - i,
    {
        let c = chars[i];
        assert(chars@.take(i + 1).drop_last() == chars@.take(i as int));
        assert(chars@.take(i + 1).last() == c);
        if c == '/' {
            if cur.len() > 0 && !is_dot(&cur) {
                let ghost before = done@;
                done.push(cur);
                assert(seq_views(done@) =~= seq_views(before).push(
                    scan_path(chars@.take(i as int)).1,
                ));
            }
            cur = Vec::new();
        } else {
            cur.push(c);
        }
        i = i + 1;
    }
    assert(chars@.take(chars.len() as int) == s@);
    if cur.len() > 0 && !is_dot(&cur) {
        let ghost before = done@;
        let ghost last = cur@;
        done.push(cur);
        assert(seq_views(done@) =~= seq_views(before).push(last));
    }
    done
}

/// Whether the paths `a` and `b` have the same components.
fn same_path_text(a: &str, b: &str) -> (r: bool)
    ensures
        r == same_path(a@, b@),
{
    let ca = components_of(a);
    let cb = components_of(b);
    if ca.len() != cb.len() {
        assert(seq_views(ca@).len() != seq_views(cb@).len());
        return false;
    }
    let mut i: usize = 0;
    while i < ca.len()
        invariant
            ca.len() == cb.len(),
            seq_views(ca@) == path_components(a@),
            seq_views(cb@) == path_components(b@),
            i <= ca.len(),
            forall|k: int| 0 <= k < i ==> ca@[k]@ == cb@[k]@,
        decreases ca.len() - i,
    {
        if !chars_equal(&ca[i], &cb[i]) {
            assert(seq_views(ca@)[i as int] != seq_views(cb@)[i as int]);
            return false;
        }
        i = i + 1;
    }
    assert(seq_views(ca@) =~= seq_views(cb@));
    true
}

/// Two absolute paths that are not the same path.
pub open spec fn paths_are_usable(config: Seq<char>, credentials: Seq<char>) -> bool {
    &&& is_absolute_path(config)
    &&& is_absolute_path(credentials)
    &&& !same_path(config, credentials)
}

/// What is wrong with a pair of configuration paths, if anything.
pub open spec fn paths_fault(config: Seq<char>, credentials: Seq<char>) -> Option<ConfigFault> {
    if !is_absolute_path(config) || !is_absolute_path(credentials) {
        Some(ConfigFault::InvalidPath("config and credentials paths must be absolute"@))
    } else if same_path(config, credentials) {
        Some(ConfigFault::InvalidPath("config and credentials paths must differ"@))
    } else {
        None
    }
}

/// `base` followed by the relative component `name`, with a `/` between them
/// unless `base` is empty or already ends with one (Unix `Path::join`).
pub open spec fn join_path(base: Seq<char>, name: Seq<char>) -> Seq<char> {
    if base.len() == 0 || base.last() == '/' {
        base + name
    } else {
        base + seq!['/'] + name
    }
}

/// `s` without trailing separators and trailing `.` segments; a lone `/` or
/// `.` stays.
pub open spec fn trim_trailing(s: Seq<char>) -> Seq<char>
    decreases s.len(),
{
    if s.len() > 1 && s.last() == '/' {
        trim_trailing(s.drop_last())
    } else if s.len() > 1 && s.last() == '.' && s[s.len() - 2] == '/' {
        trim_trailing(s.drop_last())
    } else {
        s
    }
}

/// The position of the last `/` in `s`, if any.
pub open spec fn last_separator(s: Seq<char>) -> Option<int>
    decreases s.len(),
{
    if s.len() == 0 {
        None
    } else if s.last() == '/' {
        Some(s.len() - 1)
    } else {
        last_separator(s.drop_last())
    }
}

/// The directory that holds the path `s` (Unix `Path::parent`): the path
/// without its final component; nothing for the empty path or a path that
/// ends at the root, and the empty path for a single relative component.
pub open spec fn parent_path(s: Seq<char>) -> Option<Seq<char>> {
    let t = trim_trailing(s);
    if t.len() == 0 || t == seq!['/'] {
        None
    } else {
        match last_separator(t) {
            None => Some(Seq::empty()),
            Some(k) => Some(trim_trailing(t.subrange(0, k + 1))),
        }
    }
}

/// The configuration path that `$AGENTS_CONFIG` or `$HOME` selects:
/// `$AGENTS_CONFIG` itself, else `$HOME/.agents/config.toml`.
pub open spec fn standard_config_path(agents_config: Option<Seq<char>>, home: Option<Seq<char>>) -> Option<
    Seq<char>,
> {
    match agents_config {
        Some(p) => Some(p),
        None => match home {
            Some(h) => Some(join_path(join_path(h, ".agents"@), "config.toml"@)),
            None => None,
        },
    }
}

/// Trims trailing separators and `.` segments off the first `n` characters.
fn trim_trailing_len(v: &Vec<char>, n: usize) -> (m: usize)
    requires
        n <= v@.len(),
    ensures
        m <= n,
        v@.subrange(0, m as int) == trim_trailing(v@.subrange(0, n as int)),
{
    let mut m = n;
    while m > 1 && (v[m - 1] == '/' || (v[m - 1] == '.' && v[m - 2] == '/'))
        invariant
            m <= n <= v@.len(),
            trim_trailing(v@.subrange(0, m as int)) == trim_trailing(v@.subrange(0, n as int)),
        decreases m,
    {
        assert(v@.subrange(0, m as int).drop_last() == v@.subrange(0, m - 1));
        m = m - 1;
    }
    m
}

/// The position of the last `/` among the first `n` characters.
fn last_separator_in(v: &Vec<char>, n: usize) -> (r: Option<usize>)
    requires
        n <= v@.len(),
    ensures
        match r {
            Some(k) => k < n && last_separator(v@.subrange(0, n as int)) == Some(k as int),
            None => last_separator(v@.subrange(0, n as int)) is None,
        },
{
    let mut j = n;
    while j > 0
        invariant
            j <= n <= v@.len(),
            last_separator(v@.subrange(0, n as int)) == last_separator(v@.subrange(0, j as int)),
        decreases j,
    {
        assert(v@.subrange(0, j as int).drop_last() == v@.subrange(0, j - 1));
        if v[j - 1] == '/' {
            return Some(j - 1);
        }
        j = j - 1;
    }
    None
}

/// `base` joined with the relative component `name`.
fn join_text(base: &Vec<char>, name: &str) -> (r: Vec<char>)
    ensures
        r@ == join_path(base@, name@),
{
    let mut r = base.clone();
    if base.len() > 0 && base[base.len() - 1] != '/' {
        r.push('/');
    }
    let more = chars_of(name);
    let mut i: usize = 0;
    let ghost start = r@;
    while i < more.len()
        invariant
            i <= more.len(),
            more@ == name@,
            r@ == start + more@.take(i as int),
        decreases more.len() - i,
    {
        r.push(more[i]);
        i = i + 1;
        assert(start + more@.take(i as int) == (start + more@.take(i - 1)).push(more@[i - 1]));
    }
    assert(more@.take(more.len() as int) == more@);
    r
}

/// The two files that define an agent configuration.
#[derive(Debug, Eq)]
pub struct AgentConfigPaths {
    config: String,
    credentials: String,
}

impl View for AgentConfigPaths {
    type V = (Seq<char>, Seq<char>);

    closed spec fn view(&self) -> (Seq<char>, Seq<char>) {
        (self.config@, self.credentials@)
    }
}

/// Two pairs of paths are equal when their configuration paths are the same
/// path and their credentials paths are the same path.
impl PartialEq for AgentConfigPaths {
    fn eq(&self, other: &Self) -> (r: bool) {
        same_path_text(self.config.as_str(), other.config.as_str()) && same_path_text(
            self.credentials.as_str(),
            other.credentials.as_str(),
        )
    }
}

impl PartialEqSpecImpl for AgentConfigPaths {
    open spec fn obeys_eq_spec() -> bool {
        true
    }

    open spec fn eq_spec(&self, other: &Self) -> bool {
        same_path(self@.0, other@.0) && same_path(self@.1, other@.1)
    }
}

impl Clone for AgentConfigPaths {
    fn clone(&self) -> (r: Self)
        ensures
            r@ == self@,
    {
        proof {
            use_type_invariant(self);
        }
        AgentConfigPaths { config: self.config.clone(), credentials: self.credentials.clone() }
    }
}

impl AgentConfigPaths {
    /// Both paths are absolute and they are different paths.
    #[verifier::type_invariant]
    spec fn absolute_and_distinct(&self) -> bool {
        paths_are_usable(self.config@, self.credentials@)
    }

    /// The paths of the configuration file and of the credentials file.
    ///
    /// # Errors
    /// Returns an error if either path is relative or both paths are equal.
    pub fn new(config: &str, credentials: &str) -> (res: Result<Self, ConfigError>)
        ensures
            match res {
                Ok(paths) => {
                    &&& paths_fault(config@, credentials@) is None
                    &&& paths@ == (config@, credentials@)
                },
                Err(e) => paths_fault(config@, credentials@) == Some(e@),
            },
    {
        let config_abs = !config.is_empty() && starts_with_root(config);
        let credentials_abs = !credentials.is_empty() && starts_with_root(credentials);
        if !config_abs || !credentials_abs {
            return Err(
                ConfigError::InvalidPath(
                    String::from_str("config and credentials paths must be absolute"),
                ),
            );
        }
        if same_path_text(config, credentials) {
            return Err(
                ConfigError::InvalidPath(String::from_str("config and credentials paths must differ")),
            );
        }
        Ok(AgentConfigPaths { config: config.to_owned(), credentials: credentials.to_owned() })
    }

    /// The desktop-wide paths: `$AGENTS_CONFIG`, else `$HOME/.agents/config.toml`,
    /// with `credentials.toml` beside it. The caller reads the two variables;
    /// no current directory is consulted.
    ///
    /// # Errors
    /// Returns an error when neither variable supplies a path, when the
    /// configuration path has no parent directory, or when the paths are not
    /// absolute and distinct.
    pub fn standard_paths_from(agents_config: Option<&str>, home: Option<&str>) -> (res: Result<
        Self,
        ConfigError,
    >)
        ensures
            match standard_config_path(opt_text(agents_config), opt_text(home)) {
                None => res matches Err(e) && e@ == ConfigFault::HomeUnavailable,
                Some(config) => match parent_path(config) {
                    None => res matches Err(e) && e@ == ConfigFault::InvalidPath(
                        "config path has no parent directory"@,
                    ),
                    Some(dir) => {
                        let credentials = join_path(dir, "credentials.toml"@);
                        match res {
                            Ok(paths) => {
                                &&& paths_fault(config, credentials) is None
                                &&& paths@ == (config, credentials)
                            },
                            Err(e) => paths_fault(config, credentials) == Some(e@),
                        }
                    },
                },
            },
    {
        let config: Vec<char> = match agents_config {
            Some(p) => chars_of(p),
            None => match home {
                Some(h) => {
                    let dir = join_text(&chars_of(h), ".agents");
                    join_text(&dir, "config.toml")
                },
                None => return Err(ConfigError::HomeUnavailable),
            },
        };
        let t = trim_trailing_len(&config, config.len());
        assert(config@.subrange(0, config@.len() as int) == config@);
        if t == 0 || (t == 1 && config[0] == '/') {
            proof {
                if t == 1 {
                    assert(config@.subrange(0, 1) =~= seq!['/']);
                }
            }
            return Err(ConfigError::InvalidPath(String::from_str("config path has no parent directory")));
        }
        proof {
            if t == 1 {
                assert(config@.subrange(0, 1) != seq!['/']) by {
                    assert(config@.subrange(0, 1)[0] == config@[0]);
                }
            }
        }
        let dir: Vec<char> = match last_separator_in(&config, t) {
            None => Vec::new(),
            Some(k) => {
                let d = trim_trailing_len(&config, k + 1);
                assert(config@.subrange(0, t as int).subrange(0, k + 1) == config@.subrange(0, k + 1));
                let mut out: Vec<char> = Vec::new();
                let mut i: usize = 0;
                while i < d
                    invariant
                        i <= d <= k + 1 <= t <= config@.len(),
                        out@ == config@.subrange(0, i as int),
                    decreases d - i,
                {
                    out.push(config[i]);
                    i = i + 1;
                    assert(config@.subrange(0, i as int) == config@.subrange(0, i - 1).push(config@[i - 1]));
                }
                out
            },
        };
        let credentials = join_text(&dir, "credentials.toml");
        let config_text = string_of(&config);
        let credentials_text = string_of(&credentials);
        AgentConfigPaths::new(config_text.as_str(), credentials_text.as_str())
    }

    pub fn config(&self) -> (r: &str)
        ensures
            r@ == self@.0,
            paths_are_usable(self@.0, self@.1),
    {
        proof {
            use_type_invariant(self);
        }
        self.config.as_str()
    }

    pub fn config_path(&self) -> (r: &str)
        ensures
            r@ == self@.0,
            paths_are_usable(self@.0, self@.1),
    {
        proof {
            use_type_invariant(self);
        }
        self.config()
    }

    pub fn credentials(&self) -> (r: &str)
        ensures
            r@ == self@.1,
            paths_are_usable(self@.0, self@.1),
    {
        proof {
            use_type_invariant(self);
        }
        self.credentials.as_str()
    }

    pub fn credentials_path(&self) -> (r: &str)
        ensures
            r@ == self@.1,
            paths_are_usable(self@.0, self@.1),
    {
        proof {
            use_type_invariant(self);
        }
        self.credentials()
    }
}

fn starts_with_root(s: &str) -> (r: bool)
    requires
        s@.len() > 0,
    ensures
        r == (s@[0] == '/'),
{
    s.get_char(0) == '/'
}

} // verus!
