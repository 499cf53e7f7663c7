//! The verdicts of the node health probes, from what the node reported.

use crate::text::same_text;
use vstd::prelude::*;

verus! {

/// How far, in seconds, the latest block's time may lie from now.
pub const MAX_BLOCK_AGE_SECS: u64 = 60;

/// Why a node is reported unhealthy.
#[derive(Clone, Copy, Debug, PartialEq, Eq, Structural)]
pub enum HealthError {
    /// The node is still syncing.
    Syncing,
    /// The node has fewer peers than required.
    TooFewPeers { min_peers: u16, peer_count: u64 },
    /// The node has no block past genesis.
    NoBlocks,
    /// The latest block's time lies this many seconds in the future.
    BlockInFuture { diff_secs: u64 },
    /// The latest block is this many seconds old.
    BlockStale { diff_secs: u64 },
    /// The beacon node answered its health query with this status.
    BadStatus { status: u16 },
}

/// `|a - b|`
pub open spec fn abs_diff(a: u64, b: u64) -> u64 {
    if a >= b {
        (a - b) as u64
    } else {
        (b - a) as u64
    }
}

/// The execution node's verdict; the checks come in the order of the node's
/// answers: sync status, peer count, latest block.
pub open spec fn execution_health_spec(
    syncing: bool,
    peer_count: u64,
    min_peers: u16,
    block_number: u64,
    block_timestamp: u64,
    now_secs: u64,
) -> Result<(), HealthError> {
    if syncing {
        Err(HealthError::Syncing)
    } else if peer_count < min_peers {
        Err(HealthError::TooFewPeers { min_peers, peer_count })
    } else if block_number == 0 {
        Err(HealthError::NoBlocks)
    } else if abs_diff(now_secs, block_timestamp) > MAX_BLOCK_AGE_SECS {
        if block_timestamp > now_secs {
            Err(HealthError::BlockInFuture { diff_secs: abs_diff(now_secs, block_timestamp) })
        } else {
            Err(HealthError::BlockStale { diff_secs: abs_diff(now_secs, block_timestamp) })
        }
    } else {
        Ok(())
    }
}

/// Judges an execution node from its sync status, its peer count and its
/// latest block's number and time, at `now_secs`.
pub fn execution_health(
    syncing: bool,
    peer_count: u64,
    min_peers: u16,
    block_number: u64,
    block_timestamp: u64,
    now_secs: u64,
) -> (r: Result<(), HealthError>)
    ensures
        r == execution_health_spec(
            syncing,
            peer_count,
            min_peers,
            block_number,
            block_timestamp,
            now_secs,
        ),
{
    if syncing {
        return Err(HealthError::Syncing);
    }
    if peer_count < min_peers as u64 {
        return Err(HealthError::TooFewPeers { min_peers, peer_count });
    }
    if block_number == 0 {
        return Err(HealthError::NoBlocks);
    }
    let diff_secs = if now_secs >= block_timestamp {
        now_secs - block_timestamp
    } else {
        block_timestamp - now_secs
    };
    if diff_secs > MAX_BLOCK_AGE_SECS {
        if block_timestamp > now_secs {
            return Err(HealthError::BlockInFuture { diff_secs });
        }
        return Err(HealthError::BlockStale { diff_secs });
    }
    Ok(())
}

/// Judges a beacon node from the status of its health query: only 200 passes.
pub fn beacon_health(status: u16) -> (r: Result<(), HealthError>)
    ensures
        status == 200 ==> r == Ok::<(), HealthError>(()),
        status != 200 ==> r == Err::<(), HealthError>(HealthError::BadStatus { status }),
{
    if status != 200 {
        return Err(HealthError::BadStatus { status });
    }
    Ok(())
}

/// Whether a request is the liveness probe: a `GET` of `/health`.
pub fn is_health_request(is_get: bool, path: &str) -> (r: bool)
    ensures
        r == (is_get && path@ == "/health"@),
{
    is_get && same_text(path, "/health")
}

} // verus!
