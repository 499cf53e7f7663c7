//! The data points written to the time-series sink for one head event.

use crate::throughput::{DerivedMetrics, Rate};
use vstd::prelude::*;

verus! {

/// The series a data point belongs to.
#[derive(Clone, Copy, Debug, PartialEq, Eq, Structural)]
pub enum Measurement {
    Mgas,
    Tps,
    GasUsed,
    Txs,
    BlockPerSec,
}

impl Measurement {
    pub open spec fn name_spec(self) -> Seq<char> {
        match self {
            Measurement::Mgas => "blockspeed_mgas"@,
            Measurement::Tps => "blockspeed_tps"@,
            Measurement::GasUsed => "blockspeed_gas_used"@,
            Measurement::Txs => "blockspeed_txs"@,
            Measurement::BlockPerSec => "blockspeed_block_per_sec"@,
        }
    }

    /// The measurement name the sink stores the series under.
    pub fn name(&self) -> (r: &'static str)
        ensures
            r@ == self.name_spec(),
    {
        match self {
            Measurement::Mgas => "blockspeed_mgas",
            Measurement::Tps => "blockspeed_tps",
            Measurement::GasUsed => "blockspeed_gas_used",
            Measurement::Txs => "blockspeed_txs",
            Measurement::BlockPerSec => "blockspeed_block_per_sec",
        }
    }
}

/// One timestamped, tagged value; `block_hash` is the optional second tag.
#[derive(Clone, Debug)]
pub struct DataPoint {
    pub measurement: Measurement,
    pub uri: String,
    pub block_hash: Option<String>,
    pub value: Rate,
    pub timestamp_ns: u64,
}

impl DataPoint {
    /// The point holds exactly these tags, value and timestamp.
    pub open spec fn holds(
        self,
        measurement: Measurement,
        uri: Seq<char>,
        block_hash: Option<Seq<char>>,
        value: Rate,
        timestamp_ns: u64,
    ) -> bool {
        &&& self.measurement == measurement
        &&& self.uri@ == uri
        &&& match (self.block_hash, block_hash) {
            (Some(h), Some(g)) => h@ == g,
            (None, None) => true,
            _ => false,
        }
        &&& self.value == value
        &&& self.timestamp_ns == timestamp_ns
    }
}

/// `r` is the five points of one event, in the order they are written.
pub open spec fn event_points(
    r: Seq<DataPoint>,
    uri: Seq<char>,
    block_hash: Seq<char>,
    metrics: DerivedMetrics,
    timestamp_ns: u64,
) -> bool {
    &&& r.len() == 5
    &&& r[0].holds(Measurement::Mgas, uri, Some(block_hash), metrics.mgas, timestamp_ns)
    &&& r[1].holds(Measurement::Tps, uri, Some(block_hash), metrics.tps, timestamp_ns)
    &&& r[2].holds(
        Measurement::GasUsed,
        uri,
        Some(block_hash),
        Rate { numer: metrics.gas_used as u128, denom: 1 },
        timestamp_ns,
    )
    &&& r[3].holds(
        Measurement::Txs,
        uri,
        Some(block_hash),
        Rate { numer: metrics.tx_count as u128, denom: 1 },
        timestamp_ns,
    )
    &&& r[4].holds(Measurement::BlockPerSec, uri, None, metrics.block_per_sec, timestamp_ns)
}

fn hashed_point(
    measurement: Measurement,
    uri: &str,
    block_hash: &str,
    value: Rate,
    timestamp_ns: u64,
) -> (r: DataPoint)
    ensures
        r.holds(measurement, uri@, Some(block_hash@), value, timestamp_ns),
{
    DataPoint {
        measurement,
        uri: uri.to_owned(),
        block_hash: Some(block_hash.to_owned()),
        value,
        timestamp_ns,
    }
}

/// The five points of one event, in the order they are written: megagas per
/// second, transactions per second, gas used, transaction count, and the
/// block marker, which carries no block hash.
pub fn data_points(uri: &str, block_hash: &str, metrics: &DerivedMetrics, timestamp_ns: u64) -> (r:
    Vec<DataPoint>)
    ensures
        event_points(r@, uri@, block_hash@, *metrics, timestamp_ns),
{
    let mut r: Vec<DataPoint> = Vec::new();
    r.push(hashed_point(Measurement::Mgas, uri, block_hash, metrics.mgas, timestamp_ns));
    r.push(hashed_point(Measurement::Tps, uri, block_hash, metrics.tps, timestamp_ns));
    r.push(
        hashed_point(
            Measurement::GasUsed,
            uri,
            block_hash,
            Rate::whole(metrics.gas_used),
            timestamp_ns,
        ),
    );
    r.push(
        hashed_point(Measurement::Txs, uri, block_hash, Rate::whole(metrics.tx_count), timestamp_ns),
    );
    r.push(
        DataPoint {
            measurement: Measurement::BlockPerSec,
            uri: uri.to_owned(),
            block_hash: None,
            value: metrics.block_per_sec,
            timestamp_ns,
        },
    );
    r
}

} // verus!
