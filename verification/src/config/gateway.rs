//! The settings of the gateway, which only logs users in.

use vstd::prelude::*;

verus! {

/// The settings of the gateway, from `LISTEN_ON` and `JWT_SECRET`.
pub struct EnvVars {
    pub listen_on: String,
    pub jwt_secret: String,
}

/// The address on which the gateway listens where none is configured.
pub fn listen_on_default() -> (address: String)
    ensures
        address@ == "0.0.0.0:8080"@,
{
    "0.0.0.0:8080".to_owned()
}

impl EnvVars {
    /// The settings with the default address where none is given.
    pub fn new(listen_on: Option<String>, jwt_secret: String) -> (vars: Self)
        ensures
            vars.listen_on@ == crate::config::api::or_default(listen_on, "0.0.0.0:8080"@),
            vars.jwt_secret@ == jwt_secret@,
    {
        EnvVars {
            listen_on: match listen_on {
                Some(s) => s,
                None => listen_on_default(),
            },
            jwt_secret,
        }
    }
}

} // verus!
