//! Where the catalog's database is.

use crate::text::{decimal_text, to_decimal};
use vstd::prelude::*;

verus! {

/// Smallest number of connections that the pool keeps open.
pub const MIN_CONNECTIONS: u32 = 5;

/// Largest number of connections that the pool opens.
pub const MAX_CONNECTIONS: u32 = 100;

/// The settings of the database, from `DATABASE_USERNAME`,
/// `DATABASE_PASSWORD`, `DATABASE_HOST`, `DATABASE_PORT` and
/// `DATABASE_NAME`.
pub struct DbEnvs {
    pub database_username: String,
    pub database_password: String,
    pub database_host: String,
    pub database_port: u16,
    pub database_name: String,
}

/// The port of the database server where none is configured.
pub open spec fn spec_default_port() -> u16 {
    5432
}

/// The port of the database server where none is configured.
#[verifier::when_used_as_spec(spec_default_port)]
pub fn default_port() -> (port: u16)
    ensures
        port == spec_default_port(),
{
    5432
}

/// The URL under which the database is reached.
pub open spec fn connection_url(
    username: Seq<char>,
    password: Seq<char>,
    host: Seq<char>,
    port: u16,
    name: Seq<char>,
) -> Seq<char> {
    "postgresql://"@ + username + ":"@ + password + "@"@ + host + ":"@ + decimal_text(port as nat)
        + "/"@ + name
}

impl DbEnvs {
    /// The settings with the default port where none is given.
    pub fn new(
        database_username: String,
        database_password: String,
        database_host: String,
        database_port: Option<u16>,
        database_name: String,
    ) -> (envs: Self)
        ensures
            envs.database_username@ == database_username@,
            envs.database_password@ == database_password@,
            envs.database_host@ == database_host@,
            envs.database_name@ == database_name@,
            envs.database_port == match database_port {
                Some(port) => port,
                None => default_port(),
            },
    {
        let database_port = match database_port {
            Some(port) => port,
            None => default_port(),
        };
        DbEnvs { database_username, database_password, database_host, database_port, database_name }
    }

    /// The URL under which the database is reached.
    pub fn connection_string(&self) -> (url: String)
        ensures
            url@ == connection_url(
                self.database_username@,
                self.database_password@,
                self.database_host@,
                self.database_port,
                self.database_name@,
            ),
    {
        let port = to_decimal(self.database_port as u64);
        "postgresql://".to_owned().concat(self.database_username.as_str()).concat(":").concat(
            self.database_password.as_str(),
        ).concat("@").concat(self.database_host.as_str()).concat(":").concat(port.as_str()).concat(
            "/",
        ).concat(self.database_name.as_str())
    }
}

} // verus!
