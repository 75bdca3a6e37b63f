//! The server's configuration: allowed CORS origins, secrets, cache lifetimes and limits.
use vstd::prelude::*;

use crate::models::time::Duration;

verus! {

/// The origins allowed to call the API from a browser: one origin or a list of
/// them. An origin may hold the wildcards `*` (any run of characters) and `?`
/// (one character); the single origin `*` allows every origin.
pub enum CorsOrigins {
    Single(String),
    List(Vec<String>),
}

/// How requests' origins are checked.
pub enum CorsPolicy {
    /// Every origin is allowed: the request's origin is echoed back.
    MirrorRequest,
    /// An origin is allowed when it matches one of the wildcard patterns.
    Patterns(Vec<String>),
    /// An origin is allowed when it is one of these.
    List(Vec<String>),
}

/// Whether an origin holds a wildcard.
pub open spec fn has_wildcard(o: Seq<char>) -> bool {
    exists|i: int| 0 <= i < o.len() && (o[i] == '?' || o[i] == '*')
}

/// The origins named by the configuration, in order.
pub open spec fn configured_origins(value: CorsOrigins) -> Seq<Seq<char>> {
    match value {
        CorsOrigins::Single(o) => seq![o@],
        CorsOrigins::List(l) => l@.map_values(|o: String| o@),
    }
}

/// The view of a policy: its kind and the origins it holds.
pub open spec fn policy_origins(p: CorsPolicy) -> Seq<Seq<char>> {
    match p {
        CorsPolicy::MirrorRequest => seq![],
        CorsPolicy::Patterns(l) => l@.map_values(|o: String| o@),
        CorsPolicy::List(l) => l@.map_values(|o: String| o@),
    }
}

/// Whether `*` or `?` occurs in `o`.
pub fn contains_wildcard(o: &str) -> (r: bool)
    ensures
        r == has_wildcard(o@),
{
    let n = o.unicode_len();
    let mut i: usize = 0;
    while i < n
        invariant
            n == o@.len(),
            i <= n,
            forall|j: int| 0 <= j < i ==> !(o@[j] == '?' || o@[j] == '*'),
        decreases n - i,
    {
        let c = o.get_char(i);
        if c == '?' || c == '*' {
            return true;
        }
        i = i + 1;
    }
    false
}

fn clone_strings(v: &Vec<String>) -> (r: Vec<String>)
    ensures
        r@.map_values(|o: String| o@) == v@.map_values(|o: String| o@),
{
    let mut r: Vec<String> = Vec::new();
    let mut i: usize = 0;
    while i < v.len()
        invariant
            i <= v.len(),
            r@.map_values(|o: String| o@) == v@.take(i as int).map_values(|o: String| o@),
        decreases v.len() - i,
    {
        r.push(v[i].clone());
        proof {
            assert(v@.take(i + 1).map_values(|o: String| o@) =~= v@.take(i as int).map_values(|o: String| o@).push(v@[i as int]@));
        }
        i = i + 1;
    }
    assert(v@.take(v.len() as int) =~= v@);
    r
}

fn origins_policy(origins: Vec<String>) -> (r: CorsPolicy)
    ensures
        (exists|i: int| 0 <= i < origins@.len() && has_wildcard(#[trigger] origins@[i]@)) ==> r is Patterns,
        !(exists|i: int| 0 <= i < origins@.len() && has_wildcard(#[trigger] origins@[i]@)) ==> r is List,
        policy_origins(r) == origins@.map_values(|o: String| o@),
{
    let mut any = false;
    let mut i: usize = 0;
    while i < origins.len()
        invariant
            i <= origins.len(),
            any == (exists|j: int| 0 <= j < i && has_wildcard(#[trigger] origins@[j]@)),
        decreases origins.len() - i,
    {
        if contains_wildcard(origins[i].as_str()) {
            any = true;
        }
        i = i + 1;
    }
    if any {
        CorsPolicy::Patterns(origins)
    } else {
        CorsPolicy::List(origins)
    }
}

/// Decides how origins are checked. The single origin `*` allows every origin.
/// Otherwise, when any configured origin holds a wildcard, all of them are taken
/// as patterns; else they are taken as exact origins.
pub fn cors_policy(value: &CorsOrigins) -> (r: CorsPolicy)
    ensures
        (value matches CorsOrigins::Single(o) && o@ == "*"@) ==> r is MirrorRequest,
        !(value matches CorsOrigins::Single(o) && o@ == "*"@) ==> {
            &&& policy_origins(r) == configured_origins(*value)
            &&& (exists|i: int| 0 <= i < configured_origins(*value).len() && has_wildcard(#[trigger] configured_origins(*value)[i])) ==> r is Patterns
            &&& !(exists|i: int| 0 <= i < configured_origins(*value).len() && has_wildcard(#[trigger] configured_origins(*value)[i])) ==> r is List
        },
{
    match value {
        CorsOrigins::Single(origin) => {
            if crate::text::str_eq(origin.as_str(), "*") {
                CorsPolicy::MirrorRequest
            } else {
                let mut v: Vec<String> = Vec::new();
                v.push(origin.clone());
                let r = origins_policy(v);
                proof {
                    assert(v@.map_values(|o: String| o@) =~= seq![origin@]);
                    if exists|i: int| 0 <= i < configured_origins(*value).len() && has_wildcard(#[trigger] configured_origins(*value)[i]) {
                        assert(has_wildcard(v@[0]@));
                    }
                    if exists|i: int| 0 <= i < v@.len() && has_wildcard(#[trigger] v@[i]@) {
                        let i = choose|i: int| 0 <= i < v@.len() && has_wildcard(#[trigger] v@[i]@);
                        assert(i == 0);
                        assert(has_wildcard(configured_origins(*value)[0]));
                    }
                }
                r
            }
        },
        CorsOrigins::List(origins) => {
            let v = clone_strings(origins);
            let r = origins_policy(v);
            proof {
                let m = origins@.map_values(|o: String| o@);
                if exists|i: int| 0 <= i < m.len() && has_wildcard(#[trigger] m[i]) {
                    let i = choose|i: int| 0 <= i < m.len() && has_wildcard(#[trigger] m[i]);
                    assert(v@.map_values(|o: String| o@)[i] == v@[i]@);
                    assert(has_wildcard(v@[i]@));
                }
                if exists|i: int| 0 <= i < v@.len() && has_wildcard(#[trigger] v@[i]@) {
                    let i = choose|i: int| 0 <= i < v@.len() && has_wildcard(#[trigger] v@[i]@);
                    assert(v@.map_values(|o: String| o@)[i] == v@[i]@);
                    assert(has_wildcard(m[i]));
                }
            }
            r
        },
    }
}

/// Whether a wildcard pattern matches the whole of `s`: `*` matches any run of
/// characters, including none; `?` matches exactly one character; any other
/// character matches itself.
pub open spec fn glob_matches(p: Seq<char>, s: Seq<char>) -> bool
    decreases p.len() + s.len(),
{
    if p.len() == 0 {
        s.len() == 0
    } else if p[0] == '*' {
        glob_matches(p.drop_first(), s) || (s.len() > 0 && glob_matches(p, s.drop_first()))
    } else {
        s.len() > 0 && (p[0] == '?' || p[0] == s[0]) && glob_matches(p.drop_first(), s.drop_first())
    }
}

/// Asks `wildmatch::WildMatch` whether `pattern` matches the whole of `input`.
///
/// The crate documents its patterns as above (`?` one character, `*` any run,
/// no escapes, matching the entire input, case-sensitive for `new`); the contract
/// states that meaning.
#[verifier::external_body]
fn wildmatch_matches(pattern: &str, input: &str) -> (r: bool)
    ensures
        r == glob_matches(pattern@, input@),
{
    wildmatch::WildMatch::new(pattern).matches(input)
}

/// Whether a request's origin is allowed by a list of wildcard patterns.
pub fn origin_matches_patterns(patterns: &Vec<String>, origin: &str) -> (r: bool)
    ensures
        r == exists|i: int| 0 <= i < patterns@.len() && glob_matches(#[trigger] patterns@[i]@, origin@),
{
    let mut i: usize = 0;
    while i < patterns.len()
        invariant
            i <= patterns.len(),
            forall|j: int| 0 <= j < i ==> !glob_matches(#[trigger] patterns@[j]@, origin@),
        decreases patterns.len() - i,
    {
        if wildmatch_matches(patterns[i].as_str(), origin) {
            return true;
        }
        i = i + 1;
    }
    false
}

/// The JWT settings.
pub struct Jwt {
    pub expires: Duration,
    pub secret: String,
}

/// How long cached entries live.
pub struct Caches {
    pub folders: Duration,
    pub files: Duration,
}

pub struct Redis {
    pub url: String,
}

pub struct Rabbitmq {
    pub url: Option<String>,
    pub exchange: String,
}

/// Upload limits.
pub struct Limits {
    pub max_filesize: u64,
    pub max_files_per_folder: u32,
}

pub struct Storage {
    pub access_key: String,
    pub secret_key: String,
    pub bucket: String,
    pub region: String,
    pub endpoint_url: Option<String>,
    pub force_path_style: Option<bool>,
}

pub struct Db {
    pub postgres_url: String,
}

/// The server's configuration.
pub struct Config {
    pub cors: CorsOrigins,
    pub jwt: Jwt,
    pub caches: Caches,
    pub redis: Redis,
    pub rabbitmq: Rabbitmq,
    pub limits: Limits,
    pub storage: Storage,
    pub db: Db,
}

/// The shortest JWT secret accepted, in bytes.
pub const MIN_JWT_SECRET_LEN: usize = 32;

/// Whether the JWT secret is long enough: its UTF-8 encoding, counted as `str::len`
/// counts it, has at least 32 bytes.
pub open spec fn jwt_secret_ok(config: Config) -> bool {
    crate::text::utf8_len(config.jwt.secret@) as usize >= MIN_JWT_SECRET_LEN
}

/// Whether the configuration can be used: its JWT secret has at least 32 bytes.
pub fn jwt_secret_is_valid(config: &Config) -> (r: bool)
    ensures
        r == jwt_secret_ok(*config),
{
    config.jwt.secret.as_str().len() >= MIN_JWT_SECRET_LEN
}

/// Accepts a configuration whose JWT secret has at least 32 bytes, unchanged. (The
/// server refuses to start with a shorter secret; a caller checks
/// `jwt_secret_is_valid` first.)
pub fn validate_config(config: Config) -> (r: Config)
    requires
        jwt_secret_ok(config),
    ensures
        r == config,
{
    config
}

} // verus!
