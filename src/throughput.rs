//! The metrics derived from one head event and the gap since the one before.
//!
//! Rates are kept as exact fractions: `numer / denom`. A zero `denom` stands for
//! a division by a zero gap, which floating point turns into an infinity.

use vstd::prelude::*;

verus! {

pub const NANOS_PER_SECOND: u64 = 1_000_000_000;

/// `numer / denom`, exactly.
#[derive(Clone, Copy, Debug, PartialEq, Eq, Structural)]
pub struct Rate {
    pub numer: u128,
    pub denom: u64,
}

impl Rate {
    /// A whole number, as a rate over one.
    pub fn whole(n: u64) -> (r: Rate)
        ensures
            r.numer == n,
            r.denom == 1,
    {
        Rate { numer: n as u128, denom: 1 }
    }
}

/// The five values derived from one head event.
#[derive(Clone, Copy, Debug, PartialEq, Eq, Structural)]
pub struct DerivedMetrics {
    /// Megagas per second: `gas_used / (gap_ns / 10^9) / 10^6`.
    pub mgas: Rate,
    /// Transactions per second, or the raw count when the gap is under a second.
    pub tps: Rate,
    /// Gas used by the block.
    pub gas_used: u64,
    /// Transactions in the block.
    pub tx_count: u64,
    /// One block per processed event.
    pub block_per_sec: Rate,
}

/// Megagas per second over a gap: `gas_used * 10^9 / gap_ns / 10^6`, reduced.
pub open spec fn mgas_spec(gas_used: u64, gap_ns: u64) -> Rate {
    Rate { numer: (gas_used * 1000) as u128, denom: gap_ns }
}

/// Transactions per second over a gap of at least a second; under a second,
/// the raw count stands in for the rate.
pub open spec fn tps_spec(tx_count: u64, gap_ns: u64) -> Rate {
    if gap_ns >= NANOS_PER_SECOND {
        Rate { numer: (tx_count * NANOS_PER_SECOND) as u128, denom: gap_ns }
    } else {
        Rate { numer: tx_count as u128, denom: 1 }
    }
}

pub open spec fn derive_spec(prev_ns: u64, now_ns: u64, gas_used: u64, tx_count: u64) -> DerivedMetrics
    recommends
        prev_ns <= now_ns,
{
    let gap = (now_ns - prev_ns) as u64;
    DerivedMetrics {
        mgas: mgas_spec(gas_used, gap),
        tps: tps_spec(tx_count, gap),
        gas_used,
        tx_count,
        block_per_sec: Rate { numer: 1, denom: 1 },
    }
}

/// Derives the metrics of one event that arrived at `now_ns`, the one before
/// it having arrived at `prev_ns`.
pub fn derive_metrics(prev_ns: u64, now_ns: u64, gas_used: u64, tx_count: u64) -> (r:
    DerivedMetrics)
    requires
        prev_ns <= now_ns,
    ensures
        r == derive_spec(prev_ns, now_ns, gas_used, tx_count),
{
    let gap = now_ns - prev_ns;
    let mgas = Rate { numer: gas_used as u128 * 1000, denom: gap };
    let tps = if gap >= NANOS_PER_SECOND {
        Rate { numer: tx_count as u128 * 1_000_000_000u128, denom: gap }
    } else {
        Rate::whole(tx_count)
    };
    DerivedMetrics { mgas, tps, gas_used, tx_count, block_per_sec: Rate::whole(1) }
}

} // verus!
