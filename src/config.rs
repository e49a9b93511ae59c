//! Service settings.
use crate::key::TransformCfg;
use vstd::prelude::*;

verus! {

/// The settings of a deployment.
pub struct Config {
    /// The bucket of uploaded source images.
    pub raw_bucket: Option<String>,
    /// The bucket of derived images.
    pub transformed_bucket: Option<String>,
    /// The table of the metadata index.
    pub db_table: Option<String>,
    /// The specifications applied to each newly uploaded image.
    pub default_transformations: Vec<TransformCfg>,
    /// Lifetime of a pre-signed upload URL, in seconds.
    pub upload_ttl: u64,
    /// The shared secret that callers present.
    pub api_key: String,
}

/// A request that presented no key, or a key other than the configured one.
#[derive(Clone, Copy, Debug, PartialEq, Eq, Structural)]
pub struct Unauthorized;

/// Allow a request whose key header holds exactly the configured secret.
pub fn is_authorized(key: Option<&String>, cfg: &Config) -> (r: Result<(), Unauthorized>)
    ensures
        r is Ok <==> (key matches Some(k) && k@ == cfg.api_key@),
{
    match key {
        Some(k) => if k.eq(&cfg.api_key) {
            Ok(())
        } else {
            Err(Unauthorized)
        },
        None => Err(Unauthorized),
    }
}

} // verus!
