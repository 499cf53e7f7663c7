use blockspeed::enrich::{enrich_step, CountReply, EnrichStep, COUNT_RETRY_DELAY_MS};
use blockspeed::hex::parse_hex_quantity;
use blockspeed::pipeline::{ArrivalClock, HeadError, HeadEvent, WsConnection};
use blockspeed::points::Measurement;
use blockspeed::throughput::{derive_metrics, Rate};

fn value(r: Rate) -> f64 {
    r.numer as f64 / r.denom as f64
}

#[test]
fn mgas_is_one_for_two_million_gas_over_two_seconds() {
    let m = derive_metrics(1_000, 1_000 + 2_000_000_000, 2_000_000, 0);
    assert_eq!(value(m.mgas), 1.0);
}

#[test]
fn tps_is_raw_count_under_one_second() {
    let m = derive_metrics(0, 500_000_000, 0, 7);
    assert_eq!(value(m.tps), 7.0);
    assert_eq!(m.tps, Rate { numer: 7, denom: 1 });
}

#[test]
fn tps_is_rate_over_two_seconds() {
    let m = derive_metrics(0, 2_000_000_000, 0, 10);
    assert_eq!(value(m.tps), 5.0);
}

#[test]
fn tps_at_exactly_one_second_is_a_rate() {
    let m = derive_metrics(0, 1_000_000_000, 0, 9);
    assert_eq!(m.tps, Rate { numer: 9_000_000_000, denom: 1_000_000_000 });
    assert_eq!(value(m.tps), 9.0);
}

#[test]
fn mgas_over_zero_gap_is_infinite() {
    let m = derive_metrics(5, 5, 100, 3);
    assert_eq!(m.mgas.denom, 0);
    assert!(value(m.mgas).is_infinite());
    assert_eq!(value(m.tps), 3.0);
}

#[test]
fn raw_values_and_marker_are_kept() {
    let m = derive_metrics(0, 3_000_000_000, 123, 45);
    assert_eq!(m.gas_used, 123);
    assert_eq!(m.tx_count, 45);
    assert_eq!(value(m.block_per_sec), 1.0);
    assert_eq!(m.mgas, Rate { numer: 123_000, denom: 3_000_000_000 });
}

#[test]
fn hex_quantities() {
    assert_eq!(parse_hex_quantity("0x1e8480"), Some(2_000_000));
    assert_eq!(parse_hex_quantity("1e8480"), Some(2_000_000));
    assert_eq!(parse_hex_quantity("0x0x10"), Some(16));
    assert_eq!(parse_hex_quantity("+ff"), Some(255));
    assert_eq!(parse_hex_quantity("0xFF"), Some(255));
    assert_eq!(parse_hex_quantity("0x0"), Some(0));
    assert_eq!(parse_hex_quantity("0xffffffffffffffff"), Some(u64::MAX));
    assert_eq!(parse_hex_quantity("0x10000000000000000"), None);
    assert_eq!(parse_hex_quantity(""), None);
    assert_eq!(parse_hex_quantity("0x"), None);
    assert_eq!(parse_hex_quantity("+"), None);
    assert_eq!(parse_hex_quantity("0xg1"), None);
    assert_eq!(parse_hex_quantity("0XFF"), None);
    assert_eq!(parse_hex_quantity("-1"), None);
}

#[test]
fn enrichment_retries_until_a_count_comes() {
    let retry = EnrichStep::RetryAfter { delay_ms: COUNT_RETRY_DELAY_MS };
    assert_eq!(enrich_step(&CountReply::TimedOut), retry);
    assert_eq!(enrich_step(&CountReply::RpcError), retry);
    assert_eq!(enrich_step(&CountReply::NotReady), retry);
    assert_eq!(COUNT_RETRY_DELAY_MS, 150);
    assert_eq!(enrich_step(&CountReply::Ready("0x5".to_string())), EnrichStep::Counted(5));
    assert_eq!(
        enrich_step(&CountReply::Ready("five".to_string())),
        EnrichStep::Failed(HeadError::MalformedTxCount)
    );
}

#[test]
fn head_event_end_to_end() {
    let mut clock = ArrivalClock::new(10_000_000_000);
    let now = 12_000_000_000;
    let prev = clock.advance(now);
    assert_eq!(prev, 10_000_000_000);
    assert_eq!(clock.last_ns, now);
    let tx_count = match enrich_step(&CountReply::Ready("0x5".to_string())) {
        EnrichStep::Counted(n) => n,
        other => panic!("unexpected {:?}", other),
    };
    let head = HeadEvent { hash: "0xabc".to_string(), gas_used_hex: "0x1e8480".to_string() };
    let connection = WsConnection::new("ws://node:8546");
    assert_eq!(connection.uri(), "ws://node:8546");
    let points = connection.process_head(&head, prev, now, tx_count).unwrap();
    assert_eq!(points.len(), 5);
    let expected = [
        (Measurement::Mgas, 1.0),
        (Measurement::Tps, 2.5),
        (Measurement::GasUsed, 2_000_000.0),
        (Measurement::Txs, 5.0),
        (Measurement::BlockPerSec, 1.0),
    ];
    for (p, (m, v)) in points.iter().zip(expected.iter()) {
        assert_eq!(p.measurement, *m);
        assert_eq!(value(p.value), *v);
        assert_eq!(p.timestamp_ns, now);
        assert_eq!(p.uri, "ws://node:8546");
    }
    for p in &points[..4] {
        assert_eq!(p.block_hash.as_deref(), Some("0xabc"));
    }
    assert_eq!(points[4].block_hash, None);
    assert_eq!(points[0].measurement.name(), "blockspeed_mgas");
    assert_eq!(points[3].measurement.name(), "blockspeed_txs");
    assert_eq!(points[4].measurement.name(), "blockspeed_block_per_sec");
}

#[test]
fn malformed_gas_drops_the_event() {
    let head = HeadEvent { hash: "0xabc".to_string(), gas_used_hex: "0xzz".to_string() };
    assert_eq!(
        WsConnection::new("ws://node").process_head(&head, 0, 1, 1).unwrap_err(),
        HeadError::MalformedGasUsed
    );
}
