//! The object storage that holds the site's dynamic assets.
use vstd::prelude::*;

pub mod config;

pub use config::{StorageConfig, StorageCredentialsConfig};

verus! {

/// The endpoint and the region name of the custom S3 region that the
/// credentials describe: no region configured means the empty name.
pub fn custom_region(credentials: &StorageCredentialsConfig) -> (r: (String, String))
    ensures
        r.0@ == credentials.endpoint@,
        r.1@ == match credentials.region {
            Some(name) => name@,
            None => Seq::empty(),
        },
{
    let endpoint = credentials.endpoint.clone();
    let region = match &credentials.region {
        Some(name) => name.clone(),
        None => String::new(),
    };
    (endpoint, region)
}

/// What the response to creating the assets bucket means.
#[derive(Clone, Copy, Debug, PartialEq, Eq, Structural)]
pub enum BucketCreation {
    /// 409: the bucket was there already; nothing to do.
    AlreadyExists,
    /// 200: the bucket was made.
    Created,
    /// Any other code: the storage refused.
    Failed,
}

/// The meaning of the status code that creating the assets bucket got.
pub fn bucket_creation(response_code: u16) -> (r: BucketCreation)
    ensures
        response_code == 409 ==> r == BucketCreation::AlreadyExists,
        response_code == 200 ==> r == BucketCreation::Created,
        response_code != 409 && response_code != 200 ==> r == BucketCreation::Failed,
{
    if response_code == 409 {
        BucketCreation::AlreadyExists
    } else if response_code == 200 {
        BucketCreation::Created
    } else {
        BucketCreation::Failed
    }
}

/// Whether fetching an asset succeeded: only status 200 carries the asset.
pub fn asset_fetched(code: u16) -> (ok: bool)
    ensures
        ok == (code == 200),
{
    code == 200
}

} // verus!
