use vstd::prelude::*;
use vstd::string::*;

verus! {

/// Why the backend configuration could not be formed at startup.
#[derive(PartialEq, Eq, Structural, Debug, Clone, Copy)]
pub enum ConfigError {
    /// No API key was supplied, or the supplied key is empty.
    MissingKey,
}

/// The immutable configuration of the leaderboard backend, formed once at
/// startup and shared read-only by every operation.
#[derive(Debug, Clone)]
pub struct BackendConfig {
    pub endpoint: String,
    pub project_id: String,
    pub database_id: String,
    pub collection_id: String,
    pub api_key: String,
}

pub open spec fn endpoint_url() -> Seq<char> {
    "https://cloud.appwrite.io/v1"@
}

pub open spec fn project() -> Seq<char> {
    "674af771001c9bd25d19"@
}

pub open spec fn database() -> Seq<char> {
    "674affe00035c269732a"@
}

pub open spec fn collection() -> Seq<char> {
    "674affff003d3a0b1c72"@
}

impl BackendConfig {
    /// Forms the configuration from the API key supplied at runtime. The key
    /// is never built in: without a non-empty key there is no configuration.
    pub fn from_key(key: Option<String>) -> (r: Result<BackendConfig, ConfigError>)
        ensures
            r is Ok <==> (key matches Some(k) && k@.len() > 0),
            r is Err ==> r == Err::<BackendConfig, ConfigError>(ConfigError::MissingKey),
            r matches Ok(c) ==> {
                &&& key matches Some(k) && c.api_key@ == k@
                &&& c.endpoint@ == endpoint_url()
                &&& c.project_id@ == project()
                &&& c.database_id@ == database()
                &&& c.collection_id@ == collection()
            },
    {
        match key {
            Some(k) => {
                if k.as_str().unicode_len() == 0 {
                    return Err(ConfigError::MissingKey);
                }
                proof {
                    reveal_strlit("https://cloud.appwrite.io/v1");
                    reveal_strlit("674af771001c9bd25d19");
                    reveal_strlit("674affe00035c269732a");
                    reveal_strlit("674affff003d3a0b1c72");
                }
                Ok(BackendConfig {
                    endpoint: String::from_str("https://cloud.appwrite.io/v1"),
                    project_id: String::from_str("674af771001c9bd25d19"),
                    database_id: String::from_str("674affe00035c269732a"),
                    collection_id: String::from_str("674affff003d3a0b1c72"),
                    api_key: k,
                })
            },
            None => Err(ConfigError::MissingKey),
        }
    }
}

} // verus!
