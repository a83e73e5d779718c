//! The settings of the API server.

use vstd::prelude::*;

verus! {

/// The settings of the API server, from `LISTEN_ON`, `JWT_SECRET`,
/// `NATS_ENDPOINT` and the `OBJECT_STORAGE_` variables.
pub struct EnvVars {
    pub listen_on: String,
    pub jwt_secret: String,
    pub nats_endpoint: String,
    pub object_storage_endpoint: String,
    pub object_storage_bucket: String,
    pub object_storage_access_key: String,
    pub object_storage_secret_key: String,
    pub object_storage_region: String,
}

/// The address on which the server listens where none is configured.
pub fn listen_on_default() -> (address: String)
    ensures
        address@ == "0.0.0.0:8080"@,
{
    "0.0.0.0:8080".to_owned()
}

/// The address of the message bus where none is configured.
pub fn nats_endpoint_default() -> (address: String)
    ensures
        address@ == "http://localhost"@,
{
    "http://localhost".to_owned()
}

/// The address of the object store where none is configured.
pub fn object_storage_endpoint_default() -> (address: String)
    ensures
        address@ == "http://localhost"@,
{
    "http://localhost".to_owned()
}

/// The setting, or the default where it is absent.
pub open spec fn or_default(setting: Option<String>, default: Seq<char>) -> Seq<char> {
    match setting {
        Some(s) => s@,
        None => default,
    }
}

impl EnvVars {
    /// The settings with the defaults where the address to listen on, the
    /// address of the message bus or the address of the object store is
    /// absent.
    pub fn new(
        listen_on: Option<String>,
        jwt_secret: String,
        nats_endpoint: Option<String>,
        object_storage_endpoint: Option<String>,
        object_storage_bucket: String,
        object_storage_access_key: String,
        object_storage_secret_key: String,
        object_storage_region: String,
    ) -> (vars: Self)
        ensures
            vars.listen_on@ == or_default(listen_on, "0.0.0.0:8080"@),
            vars.nats_endpoint@ == or_default(nats_endpoint, "http://localhost"@),
            vars.object_storage_endpoint@ == or_default(
                object_storage_endpoint,
                "http://localhost"@,
            ),
            vars.jwt_secret@ == jwt_secret@,
            vars.object_storage_bucket@ == object_storage_bucket@,
            vars.object_storage_access_key@ == object_storage_access_key@,
            vars.object_storage_secret_key@ == object_storage_secret_key@,
            vars.object_storage_region@ == object_storage_region@,
    {
        EnvVars {
            listen_on: match listen_on {
                Some(s) => s,
                None => listen_on_default(),
            },
            jwt_secret,
            nats_endpoint: match nats_endpoint {
                Some(s) => s,
                None => nats_endpoint_default(),
            },
            object_storage_endpoint: match object_storage_endpoint {
                Some(s) => s,
                None => object_storage_endpoint_default(),
            },
            object_storage_bucket,
            object_storage_access_key,
            object_storage_secret_key,
            object_storage_region,
        }
    }
}

} // verus!
