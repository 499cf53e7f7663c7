//! The transaction-count poll that enriches a head event: it retries until the
//! node has the block, with no bound on the number of tries.

use crate::hex::{hex_quantity, parse_hex_quantity};
use crate::pipeline::HeadError;
use vstd::prelude::*;

verus! {

/// How long one transaction-count request may take.
pub const COUNT_REQUEST_TIMEOUT_MS: u64 = 1000;

/// The pause before the next request, whatever made the last one fail.
pub const COUNT_RETRY_DELAY_MS: u64 = 150;

/// What one transaction-count request came back with.
#[derive(Clone, Debug)]
pub enum CountReply {
    /// No answer within the request timeout.
    TimedOut,
    /// The call itself failed.
    RpcError,
    /// The node does not have the block yet (a null answer).
    NotReady,
    /// The count, as a hex quantity.
    Ready(String),
}

/// What to do after a reply.
#[derive(Clone, Copy, Debug, PartialEq, Eq, Structural)]
pub enum EnrichStep {
    /// Wait, then ask again.
    RetryAfter { delay_ms: u64 },
    /// The block holds this many transactions.
    Counted(u64),
    /// The answer cannot be read: the event is dropped.
    Failed(HeadError),
}

pub open spec fn enrich_step_spec(reply: CountReply) -> EnrichStep {
    match reply {
        CountReply::Ready(text) => match hex_quantity(text@) {
            Some(n) => EnrichStep::Counted(n),
            None => EnrichStep::Failed(HeadError::MalformedTxCount),
        },
        _ => EnrichStep::RetryAfter { delay_ms: COUNT_RETRY_DELAY_MS },
    }
}

/// Decides what follows a transaction-count reply: a timeout, a failed call or a
/// block that is not there yet all mean another try after a short pause.
pub fn enrich_step(reply: &CountReply) -> (r: EnrichStep)
    ensures
        r == enrich_step_spec(*reply),
{
    match reply {
        CountReply::Ready(text) => match parse_hex_quantity(text.as_str()) {
            Some(n) => EnrichStep::Counted(n),
            None => EnrichStep::Failed(HeadError::MalformedTxCount),
        },
        _ => EnrichStep::RetryAfter { delay_ms: COUNT_RETRY_DELAY_MS },
    }
}

} // verus!
