//! Server configuration and module-catalogue records. Reading these from
//! the command line or from files is the application shell's business; the
//! library only consumes the plain values.

use vstd::prelude::*;

verus! {

/// The data server's launch options.
#[derive(Debug, Clone)]
pub struct CmdOptions {
    /// Disable server TLS.
    pub no_tls: bool,
    /// When set, the only OIDC subject allowed on the data plane.
    pub authorized_subject: Option<String>,
    /// CSV-backed dataset provider, when chosen.
    pub csv_file: Option<String>,
    /// Financial-filing dataset provider, when chosen.
    pub edinet_db: Option<String>,
    /// Cache directory of the filing provider.
    pub parquet_path: String,
    /// Path of the subject-scoped table store.
    pub storage_db: String,
    /// Path of the read-only policy store.
    pub policy_db: String,
    /// TLS certificate path.
    pub cert: String,
    /// TLS key path.
    pub key: String,
    /// Listen port.
    pub port: u16,
    /// Replace the handshake nonce with the fixed test pattern.
    pub use_test_challenge: bool,
    /// Expected 48-byte launch measurement, base64-encoded.
    pub server_ld: Option<String>,
}

/// Catalogue of the guest modules a deployment offers.
#[derive(Debug, Clone)]
pub struct Modules {
    pub procedure: Module,
    pub executions: Vec<Module>,
    pub http_executions: Vec<Module>,
    pub functions: Vec<Module>,
    pub http_functions: Vec<Module>,
    pub table_verifiers: Vec<Module>,
}

/// One catalogue entry: a named module and where it lives.
#[derive(Debug, Clone)]
pub struct Module {
    pub name: String,
    pub path: String,
    pub verifier: String,
    pub home_path: Option<String>,
}

/// Catalogue of execution modules, keyed by name.
#[derive(Debug, Clone)]
pub struct ExecutionModules {
    pub executions: std::collections::HashMap<String, ExecutionModule>,
}

/// One execution-module entry.
#[derive(Debug, Clone)]
pub struct ExecutionModule {
    pub kind: String,
    pub path: String,
}

} // verus!
