use amqp_events::callbacks::DefaultChannelCallback;
use amqp_events::dispatch::{ChannelDispatcher, DispatchOutcome, OrderingViolation};
use amqp_events::events::{
    AckEvent, ChannelEvent, ChannelHandle, CloseEvent, FlowEvent, MessageProperties, NackEvent,
    ReturnEvent,
};
use amqp_events::log::LogRecord;

fn handle() -> ChannelHandle {
    ChannelHandle {
        connection_id: 7,
        channel_number: 3,
    }
}

fn ack(tag: u64, multiple: bool) -> ChannelEvent {
    ChannelEvent::Ack(AckEvent {
        delivery_tag: tag,
        multiple,
    })
}

fn nack(tag: u64, multiple: bool) -> ChannelEvent {
    ChannelEvent::Nack(NackEvent {
        delivery_tag: tag,
        multiple,
    })
}

fn close(code: u16, text: &str) -> ChannelEvent {
    ChannelEvent::Close(CloseEvent {
        reply_code: code,
        reply_text: text.to_string(),
    })
}

fn returned(routing_key: &str, body: &[u8]) -> ChannelEvent {
    ChannelEvent::Return(
        ReturnEvent {
            reply_code: 312,
            reply_text: "NO_ROUTE".to_string(),
            exchange: "orders".to_string(),
            routing_key: routing_key.to_string(),
        },
        MessageProperties {
            content_type: Some("text/plain".to_string()),
            headers: vec![("retry".to_string(), "0".to_string())],
        },
        body.to_vec(),
    )
}

#[test]
fn channel_delivery_order_matches_classification_order() {
    let mut d = ChannelDispatcher::new(DefaultChannelCallback::new(), handle());
    assert_eq!(
        d.dispatch(ChannelEvent::Flow(FlowEvent { active: false })),
        DispatchOutcome::Delivered
    );
    assert_eq!(d.dispatch(ack(1, false)), DispatchOutcome::Delivered);
    assert_eq!(d.dispatch(nack(2, false)), DispatchOutcome::Delivered);
    assert_eq!(
        d.sink.records,
        vec![
            LogRecord::ChannelFlow(FlowEvent { active: false }),
            LogRecord::PublishAcked(AckEvent {
                delivery_tag: 1,
                multiple: false
            }),
            LogRecord::PublishNacked(NackEvent {
                delivery_tag: 2,
                multiple: false
            }),
        ]
    );
}

#[test]
fn confirm_tags_may_repeat_but_never_decrease() {
    let mut d = ChannelDispatcher::new(DefaultChannelCallback::new(), handle());
    assert_eq!(d.dispatch(ack(1, false)), DispatchOutcome::Delivered);
    assert_eq!(d.dispatch(ack(2, false)), DispatchOutcome::Delivered);
    assert_eq!(d.dispatch(nack(2, false)), DispatchOutcome::Delivered);
    assert_eq!(d.dispatch(ack(7, true)), DispatchOutcome::Delivered);
    assert_eq!(d.sink.records.len(), 4);
}

#[test]
fn stale_confirm_tag_is_rejected() {
    let mut d = ChannelDispatcher::new(DefaultChannelCallback::new(), handle());
    assert_eq!(d.dispatch(ack(5, false)), DispatchOutcome::Delivered);
    assert_eq!(
        d.dispatch(ack(3, false)),
        DispatchOutcome::Rejected(OrderingViolation::StaleDeliveryTag)
    );
    assert_eq!(
        d.dispatch(nack(4, false)),
        DispatchOutcome::Rejected(OrderingViolation::StaleDeliveryTag)
    );
    assert_eq!(d.sink.records.len(), 1);
}

#[test]
fn channel_close_is_terminal() {
    let mut d = ChannelDispatcher::new(DefaultChannelCallback::new(), handle());
    assert_eq!(d.dispatch(close(404, "NOT_FOUND")), DispatchOutcome::Delivered);
    assert_eq!(
        d.dispatch(ack(1, false)),
        DispatchOutcome::Rejected(OrderingViolation::AfterClose)
    );
    assert_eq!(d.sink.records.len(), 1);
}

#[test]
fn returned_message_travels_as_a_unit() {
    let mut d = ChannelDispatcher::new(DefaultChannelCallback::new(), handle());
    assert_eq!(
        d.dispatch(returned("no.such.key", b"original payload")),
        DispatchOutcome::Delivered
    );
    assert_eq!(d.sink.records.len(), 2);
    match &d.sink.records[0] {
        LogRecord::PublishReturned(ret, props) => {
            assert_eq!(ret.routing_key, "no.such.key");
            assert_eq!(ret.exchange, "orders");
            assert_eq!(ret.reply_code, 312);
            assert_eq!(props.content_type.as_deref(), Some("text/plain"));
        }
        other => panic!("expected a return header record, got {:?}", other),
    }
    // The body bytes delivered with the return are exactly the published ones.
    assert_eq!(
        d.sink.records[1],
        LogRecord::ReturnedBodyText("original payload".to_string())
    );
}

#[test]
fn install_returns_previous_channel_sink_unchanged() {
    let mut d = ChannelDispatcher::new(DefaultChannelCallback::new(), handle());
    assert_eq!(d.dispatch(ack(1, false)), DispatchOutcome::Delivered);
    let prev = d.install_channel_sink(DefaultChannelCallback::new());
    assert_eq!(
        prev.records,
        vec![LogRecord::PublishAcked(AckEvent {
            delivery_tag: 1,
            multiple: false
        })]
    );
    assert_eq!(d.dispatch(ack(2, false)), DispatchOutcome::Delivered);
    assert_eq!(
        d.sink.records,
        vec![LogRecord::PublishAcked(AckEvent {
            delivery_tag: 2,
            multiple: false
        })]
    );
    assert_eq!(prev.records.len(), 1);
}
