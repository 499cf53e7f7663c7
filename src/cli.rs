//! The settings of the throughput service, and the checks made on them.

use crate::text::same_text;
use crate::urls::{parse_url, url_scheme};
use vstd::prelude::*;

verus! {

/// Why a setting cannot be used.
#[derive(Clone, Copy, Debug, PartialEq, Eq, Structural)]
pub enum ConfigError {
    WsRpcUrlMissing,
    /// The streaming endpoint does not parse as a URL.
    WsRpcUrlInvalid,
    /// The streaming endpoint's scheme is neither `ws` nor `wss`.
    WsRpcUrlScheme,
    InfluxdbHostMissing,
    InfluxdbOrgMissing,
    InfluxdbTokenMissing,
    InfluxdbBucketMissing,
    /// The node URI does not parse as a URL.
    NodeUriInvalid,
    /// The node URI's scheme is neither `http` nor `https`.
    NodeUriScheme,
    /// More peers are asked for than the check allows.
    MinPeersTooHigh,
}

/// The throughput service's settings, as given on the command line or in the
/// environment.
#[derive(Clone, Debug)]
pub struct Cli {
    pub addr: String,
    pub port: u16,
    pub metrics_addr: String,
    pub metrics_port: u16,
    pub ws_rpc_url: Option<String>,
    pub influxdb_host: String,
    pub influxdb_org: String,
    pub influxdb_token: String,
    pub influxdb_bucket: String,
}

/// A required text setting: refused when empty.
fn required(value: &String, missing: ConfigError) -> (r: Result<String, ConfigError>)
    ensures
        value@.len() == 0 ==> r == Err::<String, ConfigError>(missing),
        value@.len() != 0 ==> (r matches Ok(v) && v@ == value@),
{
    if value.as_str().is_empty() {
        Err(missing)
    } else {
        Ok(value.clone())
    }
}

/// What the streaming endpoint setting resolves to: whether it is usable, or
/// why not.
pub open spec fn ws_rpc_url_check(setting: Option<Seq<char>>) -> Result<(), ConfigError> {
    match setting {
        None => Err(ConfigError::WsRpcUrlMissing),
        Some(s) => match url_scheme(s) {
            None => Err(ConfigError::WsRpcUrlInvalid),
            Some(scheme) => if scheme == "ws"@ || scheme == "wss"@ {
                Ok(())
            } else {
                Err(ConfigError::WsRpcUrlScheme)
            },
        },
    }
}

pub open spec fn option_view(o: Option<String>) -> Option<Seq<char>> {
    match o {
        Some(s) => Some(s@),
        None => None,
    }
}

impl Cli {
    /// The streaming endpoint, which must be a `ws` or `wss` URL.
    pub fn resolve_ws_rpc_url(&self) -> (r: Result<url::Url, ConfigError>)
        ensures
            ws_rpc_url_check(option_view(self.ws_rpc_url)) is Ok <==> r is Ok,
            ws_rpc_url_check(option_view(self.ws_rpc_url)) matches Err(e) ==> r == Err::<
                url::Url,
                ConfigError,
            >(e),
    {
        match &self.ws_rpc_url {
            None => Err(ConfigError::WsRpcUrlMissing),
            Some(text) => match parse_url(text.as_str()) {
                Err(_) => Err(ConfigError::WsRpcUrlInvalid),
                Ok((url, scheme)) => {
                    if same_text(scheme.as_str(), "ws") || same_text(scheme.as_str(), "wss") {
                        Ok(url)
                    } else {
                        Err(ConfigError::WsRpcUrlScheme)
                    }
                },
            },
        }
    }

    /// The sink's host; it must not be empty.
    pub fn resolve_influxdb_host(&self) -> (r: Result<String, ConfigError>)
        ensures
            self.influxdb_host@.len() == 0 ==> r == Err::<String, ConfigError>(
                ConfigError::InfluxdbHostMissing,
            ),
            self.influxdb_host@.len() != 0 ==> (r matches Ok(v) && v@ == self.influxdb_host@),
    {
        required(&self.influxdb_host, ConfigError::InfluxdbHostMissing)
    }

    /// The sink's organisation; it must not be empty.
    pub fn resolve_influxdb_org(&self) -> (r: Result<String, ConfigError>)
        ensures
            self.influxdb_org@.len() == 0 ==> r == Err::<String, ConfigError>(
                ConfigError::InfluxdbOrgMissing,
            ),
            self.influxdb_org@.len() != 0 ==> (r matches Ok(v) && v@ == self.influxdb_org@),
    {
        required(&self.influxdb_org, ConfigError::InfluxdbOrgMissing)
    }

    /// The sink's token; it must not be empty.
    pub fn resolve_influxdb_token(&self) -> (r: Result<String, ConfigError>)
        ensures
            self.influxdb_token@.len() == 0 ==> r == Err::<String, ConfigError>(
                ConfigError::InfluxdbTokenMissing,
            ),
            self.influxdb_token@.len() != 0 ==> (r matches Ok(v) && v@ == self.influxdb_token@),
    {
        required(&self.influxdb_token, ConfigError::InfluxdbTokenMissing)
    }

    /// The sink's bucket; it must not be empty.
    pub fn resolve_influxdb_bucket(&self) -> (r: Result<String, ConfigError>)
        ensures
            self.influxdb_bucket@.len() == 0 ==> r == Err::<String, ConfigError>(
                ConfigError::InfluxdbBucketMissing,
            ),
            self.influxdb_bucket@.len() != 0 ==> (r matches Ok(v) && v@ == self.influxdb_bucket@),
    {
        required(&self.influxdb_bucket, ConfigError::InfluxdbBucketMissing)
    }
}

} // verus!
