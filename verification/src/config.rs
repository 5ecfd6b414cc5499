//! Service configuration data.
//!
//! Plain settings records for the service around the library. Argument and
//! file parsing lives outside the library; these types only carry the
//! parsed values.

use vstd::prelude::*;

verus! {

/// Settings for the indexer's own infrastructure.
#[derive(Clone, Debug)]
pub struct IndexerInfrastructure {
    pub port: u32,
    pub metrics_port: u16,
    pub graph_node_query_endpoint: String,
    pub graph_node_status_endpoint: String,
    pub log_level: Option<String>,
    pub gcloud_profiling: bool,
    pub free_query_auth_token: Option<String>,
}

/// Settings for the receipt database.
#[derive(Clone, Debug)]
pub struct Postgres {
    pub postgres_host: String,
    pub postgres_port: usize,
    pub postgres_database: String,
    pub postgres_username: String,
    pub postgres_password: String,
}

/// Settings for the network subgraph that feeds allocation eligibility.
#[derive(Clone, Debug)]
pub struct NetworkSubgraph {
    pub network_subgraph_deployment: Option<String>,
    pub network_subgraph_endpoint: String,
    pub network_subgraph_auth_token: Option<String>,
    pub serve_network_subgraph: bool,
    pub allocation_syncing_interval: u64,
    pub client_signer_address: Option<String>,
}

/// Settings for the escrow subgraph that feeds sender eligibility.
#[derive(Clone, Debug)]
pub struct EscrowSubgraph {
    pub escrow_subgraph_deployment: String,
    pub escrow_syncing_interval: u64,
}

/// Log verbosity levels, in increasing order of severity.
#[derive(Clone, Copy, Debug, PartialEq, Eq, Structural)]
pub enum LogLevel {
    Trace,
    Debug,
    Info,
    Warn,
    Error,
    Fatal,
}

} // verus!
