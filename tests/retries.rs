use blockspeed::backoff::BackoffPolicy;
use blockspeed::subscription::{LinkAction, LinkEvent, Phase, SubscriptionManager};
use blockspeed::writer::{is_connection_error, WriteOutcome, WriteRetry, WriteStep};

#[test]
fn backoff_doubles_up_to_cap() {
    let p = BackoffPolicy::new(1000, 30000);
    assert_eq!(p.next_delay(1000), 2000);
    assert_eq!(p.next_delay(15000), 30000);
    assert_eq!(p.next_delay(16000), 30000);
    assert_eq!(p.next_delay(30000), 30000);
    assert_eq!(p.next_delay(u64::MAX), 30000);
}

#[test]
fn connection_errors_are_recognised() {
    assert!(is_connection_error("error trying to connect: Connection refused (os error 111)"));
    assert!(is_connection_error("Connection error"));
    assert!(is_connection_error("Network unreachable"));
    assert!(is_connection_error("operation timeout"));
    assert!(is_connection_error("Connection reset by peer"));
    assert!(is_connection_error("Broken pipe"));
    assert!(!is_connection_error("HTTP request returned an error: 401 Unauthorized"));
    assert!(!is_connection_error("connection refused"));
    assert!(!is_connection_error(""));
}

#[test]
fn failing_write_retries_five_times_and_rebuilds_once() {
    let mut w = WriteRetry::new();
    let delays = [500, 1000, 2000, 4000, 8000];
    for (k, d) in delays.iter().enumerate() {
        let step = w.on_outcome(WriteOutcome::Failed { connection: true });
        assert_eq!(step, WriteStep::Retry { rebuild_client: k == 0, delay_ms: *d });
    }
    assert_eq!(w.on_outcome(WriteOutcome::Failed { connection: true }), WriteStep::GiveUp);
    assert_eq!(w.on_outcome(WriteOutcome::Failed { connection: true }), WriteStep::GiveUp);
    assert_eq!(w.state().retries, 5);
}

#[test]
fn other_write_errors_are_not_retried() {
    let mut w = WriteRetry::new();
    assert_eq!(w.on_outcome(WriteOutcome::Failed { connection: false }), WriteStep::GiveUp);
    assert_eq!(w.state().retries, 0);
}

#[test]
fn write_succeeds_after_a_retry() {
    let mut w = WriteRetry::new();
    assert_eq!(
        w.on_outcome(WriteOutcome::Failed { connection: true }),
        WriteStep::Retry { rebuild_client: true, delay_ms: 500 }
    );
    assert_eq!(w.on_outcome(WriteOutcome::Written), WriteStep::Done);
    assert!(w.state().finished);
}

#[test]
fn gives_up_after_ten_failed_connections() {
    let mut m = SubscriptionManager::new();
    let delays = [1000, 2000, 4000, 8000, 16000, 30000, 30000, 30000, 30000];
    for d in delays {
        assert_eq!(m.on_event(LinkEvent::ConnectFailed), LinkAction::WaitThenConnect { delay_ms: d });
    }
    assert_eq!(m.on_event(LinkEvent::ConnectFailed), LinkAction::Fail);
    assert_eq!(m.state().phase, Phase::Failed);
    assert_eq!(m.on_event(LinkEvent::Connected), LinkAction::Fail);
    assert_eq!(m.on_event(LinkEvent::ConnectFailed), LinkAction::Fail);
}

#[test]
fn backoff_resets_on_connection() {
    let mut m = SubscriptionManager::new();
    for _ in 0..3 {
        m.on_event(LinkEvent::ConnectFailed);
    }
    assert_eq!(m.state().backoff_ms, 8000);
    assert_eq!(m.on_event(LinkEvent::Connected), LinkAction::Subscribe);
    assert_eq!(m.state().attempts, 0);
    assert_eq!(m.state().backoff_ms, 1000);
    assert_eq!(m.on_event(LinkEvent::SubscribeOk), LinkAction::AwaitHead);
    assert_eq!(m.on_event(LinkEvent::HeadReceived), LinkAction::ProcessHead);
    assert_eq!(m.on_event(LinkEvent::StreamEnded), LinkAction::Connect);
    assert_eq!(m.on_event(LinkEvent::ConnectFailed), LinkAction::WaitThenConnect { delay_ms: 1000 });
}

#[test]
fn subscription_failure_keeps_the_backoff() {
    let mut m = SubscriptionManager::new();
    assert_eq!(m.on_event(LinkEvent::Connected), LinkAction::Subscribe);
    assert_eq!(m.on_event(LinkEvent::SubscribeFailed), LinkAction::Connect);
    assert_eq!(m.state().phase, Phase::Connecting);
    assert_eq!(m.on_event(LinkEvent::ConnectFailed), LinkAction::WaitThenConnect { delay_ms: 1000 });
    assert_eq!(m.on_event(LinkEvent::ConnectFailed), LinkAction::WaitThenConnect { delay_ms: 2000 });
}

#[test]
fn shutdown_stops_from_any_live_phase() {
    let mut m = SubscriptionManager::new();
    assert_eq!(m.on_event(LinkEvent::ShutdownSignal), LinkAction::Stop);
    assert_eq!(m.on_event(LinkEvent::Connected), LinkAction::Stop);
    let mut m = SubscriptionManager::new();
    m.on_event(LinkEvent::Connected);
    m.on_event(LinkEvent::SubscribeOk);
    assert_eq!(m.on_event(LinkEvent::ShutdownSignal), LinkAction::Stop);
    assert_eq!(m.state().phase, Phase::ShutDown);
}

#[test]
fn events_out_of_place_change_nothing() {
    let mut m = SubscriptionManager::new();
    assert_eq!(m.on_event(LinkEvent::HeadReceived), LinkAction::Connect);
    assert_eq!(m.state().phase, Phase::Connecting);
    assert_eq!(m.state().attempts, 0);
}
