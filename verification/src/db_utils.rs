//! Utility functions for working with databases.

use crate::config::DatabaseConfig;
use vstd::prelude::*;
use vstd::string::StringExecFns;

verus! {

/// The text of a postgres connection URI for a configuration: scheme,
/// credentials, host, port and database name, in the usual URI layout.
pub open spec fn spec_postgres_conn_str(config: DatabaseConfig) -> Seq<char> {
    "postgres://"@ + config.database_username@ + ":"@ + config.database_password@ + "@"@
        + config.database_host@ + ":"@ + config.database_port@ + "/"@ + config.database_name@
}

/// Generates a postgres connection string from a DatabaseConfig pointer.
pub fn postgres_conn_str(config: &DatabaseConfig) -> (s: String)
    ensures
        s@ == spec_postgres_conn_str(*config),
{
    let mut s = "postgres://".to_owned();
    s.append(config.database_username.as_str());
    s.append(":");
    s.append(config.database_password.as_str());
    s.append("@");
    s.append(config.database_host.as_str());
    s.append(":");
    s.append(config.database_port.as_str());
    s.append("/");
    s.append(config.database_name.as_str());
    s
}

} // verus!
