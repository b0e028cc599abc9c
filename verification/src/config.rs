use vstd::prelude::*;
use vstd::string::StringExecFns;

use crate::errors::ServiceError;

verus! {

/// A service's startup configuration: where its records live and where it
/// listens. Resolved once at startup from the environment; an unresolvable
/// configuration terminates startup, there is no degraded mode.
#[derive(Clone, Debug)]
pub struct Config {
    pub database_url: String,
    pub server_addr: String,
}

impl Config {
    /// Resolve the configuration from what the environment supplied. The
    /// storage connection string is required — without it startup fails —
    /// while the bind address falls back to the service's documented default.
    pub fn resolve(
        database_url: Option<String>,
        server_addr: Option<String>,
        default_addr: &str,
    ) -> (r: Result<Config, ServiceError>)
        ensures
            database_url is None <==> (r matches Err(e) && e == ServiceError::Validation),
            database_url matches Some(d) ==> (r matches Ok(c) && {
                &&& c.database_url@ == d@
                &&& c.server_addr@ == (match server_addr {
                    Some(a) => a@,
                    None => default_addr@,
                })
            }),
    {
        let url = match database_url {
            Some(d) => d,
            None => {
                return Err(ServiceError::Validation);
            },
        };
        let addr = match server_addr {
            Some(a) => a,
            None => String::from_str(default_addr),
        };
        Ok(Config { database_url: url, server_addr: addr })
    }
}

/// Resolve the token-signing secret from what the environment supplied. A
/// missing secret fails startup: falling back to a fixed default key would
/// leave every deployment signing with a publicly known secret, so no
/// fallback exists.
pub fn resolve_secret(secret: Option<String>) -> (r: Result<String, ServiceError>)
    ensures
        secret is None <==> (r matches Err(e) && e == ServiceError::Validation),
        secret matches Some(s) ==> (r matches Ok(out) && out@ == s@),
{
    match secret {
        Some(s) => Ok(s),
        None => Err(ServiceError::Validation),
    }
}

} // verus!
