use amqp_events::callbacks::DefaultConnectionCallback;
use amqp_events::dispatch::{ConnectionDispatcher, DispatchOutcome, OrderingViolation};
use amqp_events::events::{
    BlockedEvent, CloseEvent, ConnectionEvent, ConnectionHandle, UnblockedEvent,
};
use amqp_events::log::{LogLevel, LogRecord};

fn handle() -> ConnectionHandle {
    ConnectionHandle { id: 7 }
}

fn blocked(reason: &str) -> ConnectionEvent {
    ConnectionEvent::Blocked(BlockedEvent {
        reason: reason.to_string(),
    })
}

fn unblocked() -> ConnectionEvent {
    ConnectionEvent::Unblocked(UnblockedEvent {})
}

fn close(code: u16, text: &str) -> ConnectionEvent {
    ConnectionEvent::Close(CloseEvent {
        reply_code: code,
        reply_text: text.to_string(),
    })
}

#[test]
fn delivery_order_matches_classification_order() {
    let mut d = ConnectionDispatcher::new(DefaultConnectionCallback::new(), handle());
    assert_eq!(d.dispatch(blocked("resource alarm")), DispatchOutcome::Delivered);
    assert_eq!(d.dispatch(unblocked()), DispatchOutcome::Delivered);
    assert_eq!(d.dispatch(close(320, "CONNECTION_FORCED")), DispatchOutcome::Delivered);
    assert_eq!(
        d.sink.records,
        vec![
            LogRecord::ConnectionBlocked(BlockedEvent {
                reason: "resource alarm".to_string()
            }),
            LogRecord::ConnectionUnblocked,
            LogRecord::ConnectionClosed(CloseEvent {
                reply_code: 320,
                reply_text: "CONNECTION_FORCED".to_string()
            }),
        ]
    );
}

#[test]
fn unblocked_without_blocked_is_rejected() {
    let mut d = ConnectionDispatcher::new(DefaultConnectionCallback::new(), handle());
    assert_eq!(
        d.dispatch(unblocked()),
        DispatchOutcome::Rejected(OrderingViolation::UnmatchedUnblocked)
    );
    assert!(d.sink.records.is_empty());
}

#[test]
fn unblocked_consumes_its_blocked() {
    let mut d = ConnectionDispatcher::new(DefaultConnectionCallback::new(), handle());
    assert_eq!(d.dispatch(blocked("alarm")), DispatchOutcome::Delivered);
    assert_eq!(d.dispatch(unblocked()), DispatchOutcome::Delivered);
    assert_eq!(
        d.dispatch(unblocked()),
        DispatchOutcome::Rejected(OrderingViolation::UnmatchedUnblocked)
    );
    assert_eq!(d.sink.records.len(), 2);
}

#[test]
fn duplicate_blocked_is_rejected() {
    let mut d = ConnectionDispatcher::new(DefaultConnectionCallback::new(), handle());
    assert_eq!(d.dispatch(blocked("alarm")), DispatchOutcome::Delivered);
    assert_eq!(
        d.dispatch(blocked("alarm again")),
        DispatchOutcome::Rejected(OrderingViolation::DuplicateBlocked)
    );
    assert_eq!(d.sink.records.len(), 1);
}

#[test]
fn nothing_is_delivered_after_close() {
    let mut d = ConnectionDispatcher::new(DefaultConnectionCallback::new(), handle());
    assert_eq!(d.dispatch(close(320, "CONNECTION_FORCED")), DispatchOutcome::Delivered);
    assert_eq!(
        d.dispatch(blocked("late")),
        DispatchOutcome::Rejected(OrderingViolation::AfterClose)
    );
    assert_eq!(
        d.dispatch(close(200, "again")),
        DispatchOutcome::Rejected(OrderingViolation::AfterClose)
    );
    assert_eq!(d.sink.records.len(), 1);
}

#[test]
fn install_returns_previous_sink_unchanged() {
    let mut d = ConnectionDispatcher::new(DefaultConnectionCallback::new(), handle());
    assert_eq!(d.dispatch(blocked("alarm")), DispatchOutcome::Delivered);
    let prev = d.install_connection_sink(DefaultConnectionCallback::new());
    assert_eq!(
        prev.records,
        vec![LogRecord::ConnectionBlocked(BlockedEvent {
            reason: "alarm".to_string()
        })]
    );
    assert_eq!(d.dispatch(unblocked()), DispatchOutcome::Delivered);
    // Later events reach the new sink only; the old one is unchanged.
    assert_eq!(d.sink.records, vec![LogRecord::ConnectionUnblocked]);
    assert_eq!(prev.records.len(), 1);
}

#[test]
fn connection_record_levels() {
    let mut d = ConnectionDispatcher::new(DefaultConnectionCallback::new(), handle());
    d.dispatch(blocked("alarm"));
    d.dispatch(unblocked());
    d.dispatch(close(320, "CONNECTION_FORCED"));
    let levels: Vec<LogLevel> = d.sink.records.iter().map(|r| r.level()).collect();
    assert_eq!(levels, vec![LogLevel::Info, LogLevel::Info, LogLevel::Error]);
}
