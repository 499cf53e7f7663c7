use blockspeed::cli::{Cli, ConfigError};
use blockspeed::health::{beacon_health, execution_health, is_health_request, HealthError};
use blockspeed::probe_cli;
use blockspeed::sink::{connect_influxdb, Output, SinkError};

fn cli(ws: Option<&str>) -> Cli {
    Cli {
        addr: "0.0.0.0".to_string(),
        port: 3031,
        metrics_addr: "0.0.0.0".to_string(),
        metrics_port: 3001,
        ws_rpc_url: ws.map(|s| s.to_string()),
        influxdb_host: "http://localhost:8086".to_string(),
        influxdb_org: "org".to_string(),
        influxdb_token: "token".to_string(),
        influxdb_bucket: "bucket".to_string(),
    }
}

fn probe(node_uri: &str, min_peers: u16) -> probe_cli::Cli {
    probe_cli::Cli {
        addr: "0.0.0.0".to_string(),
        port: 3031,
        metrics_addr: "0.0.0.0".to_string(),
        metrics_port: 3001,
        node_uri: node_uri.to_string(),
        min_peers,
        max_block_delay_seconds: 60,
    }
}

#[test]
fn ws_rpc_url_must_be_a_websocket_url() {
    let url = cli(Some("ws://localhost:8546")).resolve_ws_rpc_url().unwrap();
    assert_eq!(url.as_str(), "ws://localhost:8546/");
    assert!(cli(Some("wss://node.example")).resolve_ws_rpc_url().is_ok());
    assert_eq!(
        cli(Some("http://localhost:8545")).resolve_ws_rpc_url().unwrap_err(),
        ConfigError::WsRpcUrlScheme
    );
    assert_eq!(cli(Some("not a url")).resolve_ws_rpc_url().unwrap_err(), ConfigError::WsRpcUrlInvalid);
    assert_eq!(cli(None).resolve_ws_rpc_url().unwrap_err(), ConfigError::WsRpcUrlMissing);
}

#[test]
fn influxdb_settings_must_not_be_empty() {
    let c = cli(None);
    assert_eq!(c.resolve_influxdb_host().unwrap(), "http://localhost:8086");
    assert_eq!(c.resolve_influxdb_org().unwrap(), "org");
    assert_eq!(c.resolve_influxdb_token().unwrap(), "token");
    assert_eq!(c.resolve_influxdb_bucket().unwrap(), "bucket");
    let mut e = cli(None);
    e.influxdb_host = String::new();
    e.influxdb_org = String::new();
    e.influxdb_token = String::new();
    e.influxdb_bucket = String::new();
    assert_eq!(e.resolve_influxdb_host().unwrap_err(), ConfigError::InfluxdbHostMissing);
    assert_eq!(e.resolve_influxdb_org().unwrap_err(), ConfigError::InfluxdbOrgMissing);
    assert_eq!(e.resolve_influxdb_token().unwrap_err(), ConfigError::InfluxdbTokenMissing);
    assert_eq!(e.resolve_influxdb_bucket().unwrap_err(), ConfigError::InfluxdbBucketMissing);
}

#[test]
fn node_uri_must_be_http() {
    assert_eq!(probe("http://localhost:8545", 2).resolve_node_uri().unwrap(), "http://localhost:8545");
    assert!(probe("https://node.example", 2).resolve_node_uri().is_ok());
    assert_eq!(probe("ws://localhost:8546", 2).resolve_node_uri().unwrap_err(), ConfigError::NodeUriScheme);
    assert_eq!(probe("localhost", 2).resolve_node_uri().unwrap_err(), ConfigError::NodeUriInvalid);
}

#[test]
fn min_peers_is_capped() {
    assert_eq!(probe("http://x", 5).resolve_min_peers().unwrap(), 5);
    assert_eq!(probe("http://x", 6).resolve_min_peers().unwrap_err(), ConfigError::MinPeersTooHigh);
    assert_eq!(probe("http://x", 0).resolve_max_block_delay_seconds().unwrap(), 60);
}

#[test]
fn execution_node_verdicts() {
    assert_eq!(execution_health(false, 3, 2, 100, 1_000, 1_030), Ok(()));
    assert_eq!(execution_health(true, 3, 2, 100, 1_000, 1_030), Err(HealthError::Syncing));
    assert_eq!(
        execution_health(false, 1, 2, 100, 1_000, 1_030),
        Err(HealthError::TooFewPeers { min_peers: 2, peer_count: 1 })
    );
    assert_eq!(execution_health(false, 3, 2, 0, 1_000, 1_030), Err(HealthError::NoBlocks));
    assert_eq!(
        execution_health(false, 3, 2, 100, 1_000, 1_061),
        Err(HealthError::BlockStale { diff_secs: 61 })
    );
    assert_eq!(execution_health(false, 3, 2, 100, 1_000, 1_060), Ok(()));
    assert_eq!(
        execution_health(false, 3, 2, 100, 1_100, 1_000),
        Err(HealthError::BlockInFuture { diff_secs: 100 })
    );
}

#[test]
fn beacon_and_route_verdicts() {
    assert_eq!(beacon_health(200), Ok(()));
    assert_eq!(beacon_health(503), Err(HealthError::BadStatus { status: 503 }));
    assert!(is_health_request(true, "/health"));
    assert!(!is_health_request(false, "/health"));
    assert!(!is_health_request(true, "/"));
}

#[test]
fn sink_handle_keeps_its_credentials() {
    let mut out = Output::new("http://localhost:8086", "token", "org", "bucket").unwrap();
    assert_eq!(out.url(), "http://localhost:8086");
    assert_eq!(out.bucket(), "bucket");
    assert_eq!(out.client().org, "org");
    assert!(out.rebuild_client().is_ok());
    assert_eq!(out.url(), "http://localhost:8086");
    assert!(connect_influxdb("http://localhost:8086", "t", "o", "b").is_ok());
}

#[test]
fn sink_url_must_parse() {
    assert_eq!(Output::new("/3242/23", "t", "o", "b").err(), Some(SinkError::InvalidUrl));
    assert_eq!(connect_influxdb("", "t", "o", "b").err(), Some(SinkError::InvalidUrl));
}
