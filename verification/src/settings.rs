//! The configuration the bootstrap consumes, as plain values. Loading and
//! merging configuration files is the surrounding program's business; the
//! core only reads these settings.

use vstd::prelude::*;

verus! {

/// Where the HTTP server listens.
#[derive(Clone, Debug)]
pub struct Server {
    pub host: String,
    pub port: u16,
}

/// How verbosely the process logs.
#[derive(Clone, Debug)]
pub struct Logger {
    pub level: String,
}

/// What the database bootstrap needs: the dialect-bearing connection URI,
/// the operator's clean-start flag, and the optional migration directory.
#[derive(Clone, Debug)]
pub struct Database {
    pub migration_path: Option<String>,
    pub clean_start: bool,
    pub url: String,
}

/// Where the optional broker control channel connects.
#[derive(Clone, Debug)]
pub struct Control {
    pub embed: bool,
    pub client_id: String,
    pub host: String,
    pub port: u16,
}

/// What token issuance needs: the signing secret and the token lifetime in
/// seconds.
#[derive(Clone, Debug)]
pub struct Auth {
    pub secret: String,
    pub expiration: u64,
}

/// The whole settings object handed in once at startup.
#[derive(Clone, Debug)]
pub struct Settings {
    pub server: Server,
    pub logger: Logger,
    pub database: Database,
    pub control: Control,
    pub auth: Auth,
}

} // verus!
