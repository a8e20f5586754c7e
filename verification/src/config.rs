//! The configuration record the rest of the system is started from.
//!
//! The values are assumed already validated by the collaborator that loads
//! them (typically from the process environment, in the unverified layer):
//! this module only carries them, and the constructor pins each field to
//! the argument it was given.

use vstd::prelude::*;

verus! {

/// Everything the two adapters and the surrounding service are configured
/// with: the remote store's region, endpoint, credential pair, bucket name
/// and retry budget, and the host and port the service listens on.
#[derive(Clone, Debug)]
pub struct Config {
    pub s3_region: String,
    pub s3_endpoint: String,
    pub s3_access_key: String,
    pub s3_secret_key: String,
    pub s3_bucket: String,
    pub s3_retries: i32,
    pub http_host: String,
    pub http_port: u16,
}

impl Config {
    /// A record holding exactly the given values.
    pub fn new(
        s3_region: String,
        s3_endpoint: String,
        s3_access_key: String,
        s3_secret_key: String,
        s3_bucket: String,
        s3_retries: i32,
        http_host: String,
        http_port: u16,
    ) -> (c: Config)
        ensures
            c.s3_region@ == s3_region@,
            c.s3_endpoint@ == s3_endpoint@,
            c.s3_access_key@ == s3_access_key@,
            c.s3_secret_key@ == s3_secret_key@,
            c.s3_bucket@ == s3_bucket@,
            c.s3_retries == s3_retries,
            c.http_host@ == http_host@,
            c.http_port == http_port,
    {
        Config {
            s3_region,
            s3_endpoint,
            s3_access_key,
            s3_secret_key,
            s3_bucket,
            s3_retries,
            http_host,
            http_port,
        }
    }
}

} // verus!
