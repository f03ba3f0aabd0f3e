//! Service configuration read from a key/value map (the process environment),
//! and the database schema names that may be used.
use std::collections::HashMap;
use vstd::prelude::*;
use crate::text::{chars_of, trim_end_char, trim_end_matches_char};

verus! {

broadcast use vstd::string::group_string_axioms;

/// Runtime configuration.
#[derive(Debug, Clone)]
pub struct Config {
    /// Database URL.
    pub database_url: String,
    /// Listen address.
    pub bind_addr: String,
    /// JWT issuer, without trailing `/`.
    pub issuer: String,
    /// Storage driver (`local`).
    pub storage_driver: String,
    /// Root directory of local storage.
    pub storage_local_path: String,
    /// Secret for signing download links.
    pub storage_secret: String,
}

/// The configuration cannot be built.
#[derive(Debug, Clone, Copy, PartialEq, Eq, Structural)]
pub enum ConfigError {
    /// `DATABASE_URL` is not set.
    MissingDatabaseUrl,
}

/// The value stored under the key whose text is `key`, if any.
pub open spec fn env_lookup(m: Map<String, String>, key: Seq<char>) -> Option<Seq<char>> {
    if exists|k: String| m.contains_key(k) && k@ == key {
        let k = choose|k: String| m.contains_key(k) && k@ == key;
        Some(m[k]@)
    } else {
        None
    }
}

/// A looked-up value, or `default` when the key is absent.
pub open spec fn or_default(v: Option<Seq<char>>, default: Seq<char>) -> Seq<char> {
    match v {
        Some(s) => s,
        None => default,
    }
}

/// `HashMap::get` by a `&str` key, cloning the value. Trusted: the result is
/// the value stored under the key with that text, `None` when there is none.
#[verifier::external_body]
fn map_get(map: &HashMap<String, String>, key: &str) -> (r: Option<String>)
    ensures
        match r {
            Some(v) => env_lookup(map@, key@) == Some(v@),
            None => env_lookup(map@, key@) is None,
        },
{
    map.get(key).cloned()
}

fn get_or(map: &HashMap<String, String>, key: &str, default: &str) -> (r: String)
    ensures
        r@ == or_default(env_lookup(map@, key@), default@),
{
    match map_get(map, key) {
        Some(v) => v,
        None => String::from_str(default),
    }
}

impl Config {
    /// Builds the configuration from a key/value map. `DATABASE_URL` is
    /// required; every other key has a default; trailing `/` are removed from
    /// the issuer.
    pub fn from_map(map: HashMap<String, String>) -> (r: Result<Config, ConfigError>)
        ensures
            match env_lookup(map@, "DATABASE_URL"@) {
                None => r == Err::<Config, ConfigError>(ConfigError::MissingDatabaseUrl),
                Some(url) => r matches Ok(c) && {
                    &&& c.database_url@ == url
                    &&& c.bind_addr@ == or_default(
                        env_lookup(map@, "DRIVE_BIND_ADDR"@),
                        "0.0.0.0:8087"@,
                    )
                    &&& c.issuer@ == trim_end_char(
                        or_default(env_lookup(map@, "AUTH_ISSUER"@), "http://localhost:8081"@),
                        '/',
                    )
                    &&& c.storage_driver@ == or_default(
                        env_lookup(map@, "STORAGE_DRIVER"@),
                        "local"@,
                    )
                    &&& c.storage_local_path@ == or_default(
                        env_lookup(map@, "STORAGE_LOCAL_PATH"@),
                        "data/storage"@,
                    )
                    &&& c.storage_secret@ == or_default(
                        env_lookup(map@, "STORAGE_SECRET"@),
                        "dev-storage-secret"@,
                    )
                },
            },
    {
        let database_url = match map_get(&map, "DATABASE_URL") {
            Some(v) => v,
            None => return Err(ConfigError::MissingDatabaseUrl),
        };
        let bind_addr = get_or(&map, "DRIVE_BIND_ADDR", "0.0.0.0:8087");
        let issuer_raw = get_or(&map, "AUTH_ISSUER", "http://localhost:8081");
        let issuer = trim_end_matches_char(issuer_raw.as_str(), '/').to_owned();
        let storage_driver = get_or(&map, "STORAGE_DRIVER", "local");
        let storage_local_path = get_or(&map, "STORAGE_LOCAL_PATH", "data/storage");
        let storage_secret = get_or(&map, "STORAGE_SECRET", "dev-storage-secret");
        Ok(Config {
            database_url,
            bind_addr,
            issuer,
            storage_driver,
            storage_local_path,
            storage_secret,
        })
    }
}

/// A schema name may hold only lowercase ASCII letters, digits and `_`, and
/// must not be empty (it is spliced into SQL).
pub open spec fn valid_schema_name(s: Seq<char>) -> bool {
    s.len() > 0 && forall|i: int|
        0 <= i < s.len() ==> ('a' <= #[trigger] s[i] <= 'z') || ('0' <= s[i] <= '9') || s[i]
            == '_'
}

/// Checks a schema name before it is used.
pub fn is_valid_schema_name(schema: &str) -> (r: bool)
    ensures
        r == valid_schema_name(schema@),
{
    let cs = chars_of(schema);
    if cs.len() == 0 {
        return false;
    }
    let mut i: usize = 0;
    while i < cs.len()
        invariant
            cs@ == schema@,
            i <= cs.len(),
            forall|k: int|
                0 <= k < i ==> ('a' <= #[trigger] cs@[k] <= 'z') || ('0' <= cs@[k] <= '9') || cs@[k]
                    == '_',
        decreases cs.len() - i,
    {
        let c = cs[i];
        if !(('a' <= c && c <= 'z') || ('0' <= c && c <= '9') || c == '_') {
            return false;
        }
        i = i + 1;
    }
    true
}

/// Every issuer read by `from_map` is free of trailing `/`.
pub proof fn lemma_issuer_no_trailing_slash(s: Seq<char>)
    ensures
        trim_end_char(s, '/').len() == 0 || trim_end_char(s, '/').last() != '/',
    decreases s.len(),
{
    if s.len() > 0 && s.last() == '/' {
        lemma_issuer_no_trailing_slash(s.drop_last());
    }
}

} // verus!
