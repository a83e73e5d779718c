//! The settings of a worker: the preview worker and the metadata worker
//! read the same.

use vstd::prelude::*;

verus! {

/// The settings of a worker, from `NATS_ENDPOINT` and the
/// `OBJECT_STORAGE_` variables.
pub struct EnvVars {
    pub nats_endpoint: String,
    pub object_storage_endpoint: String,
    pub object_storage_bucket: String,
    pub object_storage_region: String,
    pub object_storage_access_key: String,
    pub object_storage_secret_key: String,
}

/// The address of the message bus where none is configured.
pub fn nats_endpoint_default() -> (address: String)
    ensures
        address@ == "http://localhost"@,
{
    "http://localhost".to_owned()
}

/// The address of the object store where none is configured.
pub fn object_storage_endpoint_default() -> (address: String)
    ensures
        address@ == "http://localhost"@,
{
    "http://localhost".to_owned()
}

impl EnvVars {
    /// The settings with the defaults where the address of the message bus
    /// or of the object store is absent.
    pub fn new(
        nats_endpoint: Option<String>,
        object_storage_endpoint: Option<String>,
        object_storage_bucket: String,
        object_storage_region: String,
        object_storage_access_key: String,
        object_storage_secret_key: String,
    ) -> (vars: Self)
        ensures
            vars.nats_endpoint@ == crate::config::api::or_default(
                nats_endpoint,
                "http://localhost"@,
            ),
            vars.object_storage_endpoint@ == crate::config::api::or_default(
                object_storage_endpoint,
                "http://localhost"@,
            ),
            vars.object_storage_bucket@ == object_storage_bucket@,
            vars.object_storage_region@ == object_storage_region@,
            vars.object_storage_access_key@ == object_storage_access_key@,
            vars.object_storage_secret_key@ == object_storage_secret_key@,
    {
        EnvVars {
            nats_endpoint: match nats_endpoint {
                Some(s) => s,
                None => nats_endpoint_default(),
            },
            object_storage_endpoint: match object_storage_endpoint {
                Some(s) => s,
                None => object_storage_endpoint_default(),
            },
            object_storage_bucket,
            object_storage_region,
            object_storage_access_key,
            object_storage_secret_key,
        }
    }
}

} // verus!
