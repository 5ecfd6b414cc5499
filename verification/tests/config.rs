use indexer_service::config::EscrowSubgraph;
use indexer_service::config::IndexerInfrastructure;
use indexer_service::config::LogLevel;
use indexer_service::config::NetworkSubgraph;
use indexer_service::config::Postgres;

#[test]
fn test_config_records_carry_their_values() {
    let infrastructure = IndexerInfrastructure {
        port: 7600,
        metrics_port: 7300,
        graph_node_query_endpoint: "http://0.0.0.0:8000".to_string(),
        graph_node_status_endpoint: "http://0.0.0.0:8030".to_string(),
        log_level: None,
        gcloud_profiling: false,
        free_query_auth_token: None,
    };
    assert_eq!(infrastructure.port, 7600);
    assert_eq!(infrastructure.metrics_port, 7300);

    let postgres = Postgres {
        postgres_host: "http://0.0.0.0/".to_string(),
        postgres_port: 5432,
        postgres_database: "indexer".to_string(),
        postgres_username: "postgres".to_string(),
        postgres_password: String::new(),
    };
    assert_eq!(postgres.postgres_port, 5432);

    let network = NetworkSubgraph {
        network_subgraph_deployment: None,
        network_subgraph_endpoint: "https://example.invalid/network".to_string(),
        network_subgraph_auth_token: None,
        serve_network_subgraph: false,
        allocation_syncing_interval: 120_000,
        client_signer_address: None,
    };
    assert_eq!(network.allocation_syncing_interval, 120_000);

    let escrow = EscrowSubgraph {
        escrow_subgraph_deployment: "Qm".to_string(),
        escrow_syncing_interval: 120_000,
    };
    assert_eq!(escrow.escrow_syncing_interval, 120_000);
}

#[test]
fn test_log_levels_are_distinct() {
    assert_eq!(LogLevel::Debug, LogLevel::Debug);
    assert_ne!(LogLevel::Trace, LogLevel::Fatal);
    assert_ne!(LogLevel::Info, LogLevel::Warn);
}
