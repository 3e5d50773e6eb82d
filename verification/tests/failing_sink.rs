use amqp_events::callbacks::{ConnectionCallback, HandlerError};
use amqp_events::dispatch::{ConnectionDispatcher, DispatchOutcome};
use amqp_events::events::{BlockedEvent, CloseEvent, ConnectionEvent, ConnectionHandle,
    UnblockedEvent};

/// A custom sink that fails every notification, to exercise the boundary's
/// catch: the failure comes back as an outcome and the dispatcher survives.
struct FailingSink {
    calls: usize,
}

impl ConnectionCallback for FailingSink {
    // In the compiled (erased) crate the contract hooks are ordinary trait
    // items; a custom sink that promises nothing implements them as `true`.
    fn close_ens(
        _: Self,
        _: Self,
        _: ConnectionHandle,
        _: CloseEvent,
        _: Result<(), HandlerError>,
    ) -> bool {
        true
    }

    fn blocked_ens(
        _: Self,
        _: Self,
        _: ConnectionHandle,
        _: BlockedEvent,
        _: Result<(), HandlerError>,
    ) -> bool {
        true
    }

    fn unblocked_ens(
        _: Self,
        _: Self,
        _: ConnectionHandle,
        _: UnblockedEvent,
        _: Result<(), HandlerError>,
    ) -> bool {
        true
    }

    fn close(&mut self, _connection: &ConnectionHandle, _close: CloseEvent)
        -> Result<(), HandlerError> {
        self.calls += 1;
        Err(HandlerError { message: "close handler broke".to_string() })
    }

    fn blocked(&mut self, _connection: &ConnectionHandle, _blocked: BlockedEvent)
        -> Result<(), HandlerError> {
        self.calls += 1;
        Err(HandlerError { message: "blocked handler broke".to_string() })
    }

    fn unblocked(&mut self, _connection: &ConnectionHandle, _unblocked: UnblockedEvent)
        -> Result<(), HandlerError> {
        self.calls += 1;
        Err(HandlerError { message: "unblocked handler broke".to_string() })
    }
}

#[test]
fn handler_failure_is_caught_not_propagated() {
    let mut d = ConnectionDispatcher::new(FailingSink { calls: 0 }, ConnectionHandle { id: 1 });
    let outcome = d.dispatch(ConnectionEvent::Blocked(BlockedEvent {
        reason: "alarm".to_string(),
    }));
    assert_eq!(
        outcome,
        DispatchOutcome::HandlerFailed(HandlerError {
            message: "blocked handler broke".to_string()
        })
    );
    // The event was observed by the sink and the dispatch loop goes on.
    assert_eq!(d.sink.calls, 1);
    let outcome = d.dispatch(ConnectionEvent::Unblocked(UnblockedEvent {}));
    assert_eq!(
        outcome,
        DispatchOutcome::HandlerFailed(HandlerError {
            message: "unblocked handler broke".to_string()
        })
    );
    assert_eq!(d.sink.calls, 2);
}
