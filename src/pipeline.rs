//! One head event, from its payload to the points written for it.

use crate::hex::{hex_quantity, parse_hex_quantity};
use crate::points::{data_points, event_points, DataPoint};
use crate::throughput::{derive_metrics, derive_spec};
use vstd::prelude::*;

verus! {

/// The fields of a new-head notification that the metrics use.
#[derive(Clone, Debug)]
pub struct HeadEvent {
    /// The block hash, as sent.
    pub hash: String,
    /// The gas used by the block, as a hex quantity.
    pub gas_used_hex: String,
}

/// Why one event was dropped; the subscription itself goes on.
#[derive(Clone, Copy, Debug, PartialEq, Eq, Structural)]
pub enum HeadError {
    /// The transaction count the node gave is not a hex quantity.
    MalformedTxCount,
    /// The event's gas used is not a hex quantity.
    MalformedGasUsed,
}

/// The wall-clock time, in nanoseconds, at which the last event arrived.
#[derive(Clone, Copy, Debug, PartialEq, Eq, Structural)]
pub struct ArrivalClock {
    pub last_ns: u64,
}

impl ArrivalClock {
    pub fn new(now_ns: u64) -> (r: ArrivalClock)
        ensures
            r.last_ns == now_ns,
    {
        ArrivalClock { last_ns: now_ns }
    }

    /// Records an arrival at `now_ns` and returns the one before it.
    pub fn advance(&mut self, now_ns: u64) -> (prev_ns: u64)
        ensures
            prev_ns == old(self).last_ns,
            final(self).last_ns == now_ns,
    {
        let prev_ns = self.last_ns;
        self.last_ns = now_ns;
        prev_ns
    }
}

/// The streaming endpoint whose new heads are measured; its URI tags every
/// data point.
#[derive(Clone, Debug)]
pub struct WsConnection {
    uri: String,
}

impl View for WsConnection {
    type V = Seq<char>;

    closed spec fn view(&self) -> Seq<char> {
        self.uri@
    }
}

impl WsConnection {
    pub fn new(uri: &str) -> (r: WsConnection)
        ensures
            r@ == uri@,
    {
        WsConnection { uri: uri.to_owned() }
    }

    pub fn uri(&self) -> (r: &str)
        ensures
            r@ == self@,
    {
        self.uri.as_str()
    }

    /// Turns an event that arrived at `now_ns` (the one before at `prev_ns`),
    /// whose block holds `tx_count` transactions, into its five data points,
    /// tagged with this endpoint's URI and stamped `now_ns`; an unreadable gas
    /// used drops the event.
    pub fn process_head(&self, head: &HeadEvent, prev_ns: u64, now_ns: u64, tx_count: u64) -> (r:
        Result<Vec<DataPoint>, HeadError>)
        requires
            prev_ns <= now_ns,
        ensures
            match hex_quantity(head.gas_used_hex@) {
                None => r == Err::<Vec<DataPoint>, HeadError>(HeadError::MalformedGasUsed),
                Some(gas_used) => r matches Ok(points) && event_points(
                    points@,
                    self@,
                    head.hash@,
                    derive_spec(prev_ns, now_ns, gas_used, tx_count),
                    now_ns,
                ),
            },
    {
        match parse_hex_quantity(head.gas_used_hex.as_str()) {
            None => Err(HeadError::MalformedGasUsed),
            Some(gas_used) => {
                let metrics = derive_metrics(prev_ns, now_ns, gas_used, tx_count);
                Ok(data_points(self.uri.as_str(), head.hash.as_str(), &metrics, now_ns))
            },
        }
    }
}

} // verus!
