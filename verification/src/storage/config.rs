use vstd::prelude::*;

verus! {

/// How to reach the S3-compatible object storage.
#[derive(Debug)]
pub struct StorageCredentialsConfig {
    pub endpoint: String,
    pub region: Option<String>,
    pub access_key: String,
    pub secret_key: String,
}

impl Default for StorageCredentialsConfig {
    /// A local MinIO server, with no region and empty keys.
    fn default() -> (c: Self)
        ensures
            c.endpoint@ == "http://localhost:9000"@,
            c.region is None,
            c.access_key@.len() == 0,
            c.secret_key@.len() == 0,
    {
        let endpoint = "http://localhost:9000".to_owned();
        let access_key = "".to_owned();
        let secret_key = "".to_owned();
        proof {
            reveal_strlit("");
        }
        Self { endpoint, region: None, access_key, secret_key }
    }
}

/// The object storage, and the bucket that holds the site's assets.
#[derive(Debug)]
pub struct StorageConfig {
    pub credentials: StorageCredentialsConfig,
    pub assets_bucket: String,
}

impl Default for StorageConfig {
    /// The default credentials, and the bucket `assets`.
    fn default() -> (c: Self)
        ensures
            c.credentials.endpoint@ == "http://localhost:9000"@,
            c.credentials.region is None,
            c.credentials.access_key@.len() == 0,
            c.credentials.secret_key@.len() == 0,
            c.assets_bucket@ == "assets"@,
    {
        Self { credentials: StorageCredentialsConfig::default(), assets_bucket: "assets".to_owned() }
    }
}

} // verus!
