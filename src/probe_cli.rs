//! The settings of the execution-node probe, and the checks made on them.

use crate::cli::ConfigError;
use crate::text::same_text;
use crate::urls::{parse_url, url_scheme};
use vstd::prelude::*;

verus! {

/// The largest number of peers the probe may ask a node for.
pub const MAX_MIN_PEERS: u16 = 5;

/// The probe's settings, as given on the command line or in the environment.
#[derive(Clone, Debug)]
pub struct Cli {
    pub addr: String,
    pub port: u16,
    pub metrics_addr: String,
    pub metrics_port: u16,
    pub node_uri: String,
    pub min_peers: u16,
    pub max_block_delay_seconds: u64,
}

/// What the node URI setting resolves to: whether it is usable, or why not.
pub open spec fn node_uri_check(s: Seq<char>) -> Result<(), ConfigError> {
    match url_scheme(s) {
        None => Err(ConfigError::NodeUriInvalid),
        Some(scheme) => if scheme == "http"@ || scheme == "https"@ {
            Ok(())
        } else {
            Err(ConfigError::NodeUriScheme)
        },
    }
}

impl Cli {
    /// The node's URI, which must be an `http` or `https` URL; it is handed
    /// back as given.
    pub fn resolve_node_uri(&self) -> (r: Result<&str, ConfigError>)
        ensures
            node_uri_check(self.node_uri@) matches Err(e) ==> r == Err::<&str, ConfigError>(e),
            node_uri_check(self.node_uri@) is Ok ==> (r matches Ok(u) && u@ == self.node_uri@),
    {
        match parse_url(self.node_uri.as_str()) {
            Err(_) => Err(ConfigError::NodeUriInvalid),
            Ok((_, scheme)) => {
                if same_text(scheme.as_str(), "http") || same_text(scheme.as_str(), "https") {
                    Ok(self.node_uri.as_str())
                } else {
                    Err(ConfigError::NodeUriScheme)
                }
            },
        }
    }

    /// How old the latest block may be, in seconds.
    pub fn resolve_max_block_delay_seconds(&self) -> (r: Result<u64, ConfigError>)
        ensures
            r == Ok::<u64, ConfigError>(self.max_block_delay_seconds),
    {
        Ok(self.max_block_delay_seconds)
    }

    /// The number of peers a healthy node needs; at most five.
    pub fn resolve_min_peers(&self) -> (r: Result<u16, ConfigError>)
        ensures
            self.min_peers > MAX_MIN_PEERS ==> r == Err::<u16, ConfigError>(
                ConfigError::MinPeersTooHigh,
            ),
            self.min_peers <= MAX_MIN_PEERS ==> r == Ok::<u16, ConfigError>(self.min_peers),
    {
        if self.min_peers > MAX_MIN_PEERS {
            return Err(ConfigError::MinPeersTooHigh);
        }
        Ok(self.min_peers)
    }
}

} // verus!
