//! The two callback capability sets and their reference implementations.
//!
//! A sink is the object a connection or channel context invokes when the
//! frame-dispatch loop classifies an incoming event. Each trait method takes
//! a short-lived handle to the owning context plus one event record and
//! reports failure through its result instead of raising: the dispatch
//! boundary catches that result and never propagates it into the loop.
//!
//! Every method's postcondition is a spec-function hook chosen by the
//! implementation, so custom sinks state whatever they can promise while the
//! default sinks carry exact contracts: they append structured records to
//! their own log and always succeed.

use vstd::prelude::*;

use crate::events::{
    AckEvent, BlockedEvent, ChannelHandle, CloseEvent, ConnectionHandle, FlowEvent,
    MessageProperties, NackEvent, ReturnEvent, UnblockedEvent,
};
use crate::log::LogRecord;

verus! {

/// Failure raised by a custom sink during notification, carried back to the
/// dispatch boundary instead of unwinding through it.
#[derive(Clone, Debug, PartialEq, Eq)]
pub struct HandlerError {
    pub message: String,
}

/// Capability set for connection-scoped events.
pub trait ConnectionCallback: Sized {
    /// What `close` promises: relates the sink before and after the call to
    /// the delivered event and the reported result.
    spec fn close_ens(
        pre: Self,
        post: Self,
        connection: ConnectionHandle,
        close: CloseEvent,
        r: Result<(), HandlerError>,
    ) -> bool;

    /// What `blocked` promises.
    spec fn blocked_ens(
        pre: Self,
        post: Self,
        connection: ConnectionHandle,
        blocked: BlockedEvent,
        r: Result<(), HandlerError>,
    ) -> bool;

    /// What `unblocked` promises.
    spec fn unblocked_ens(
        pre: Self,
        post: Self,
        connection: ConnectionHandle,
        unblocked: UnblockedEvent,
        r: Result<(), HandlerError>,
    ) -> bool;

    /// The peer closed the connection; terminal for this context.
    fn close(&mut self, connection: &ConnectionHandle, close: CloseEvent) -> (r: Result<
        (),
        HandlerError,
    >)
        ensures
            Self::close_ens(*old(self), *final(self), *connection, close, r),
    ;

    /// The server signalled backpressure on this connection.
    fn blocked(&mut self, connection: &ConnectionHandle, blocked: BlockedEvent) -> (r: Result<
        (),
        HandlerError,
    >)
        ensures
            Self::blocked_ens(*old(self), *final(self), *connection, blocked, r),
    ;

    /// The server lifted backpressure on this connection.
    fn unblocked(&mut self, connection: &ConnectionHandle, unblocked: UnblockedEvent) -> (r: Result<
        (),
        HandlerError,
    >)
        ensures
            Self::unblocked_ens(*old(self), *final(self), *connection, unblocked, r),
    ;
}

/// Capability set for channel-scoped events.
pub trait ChannelCallback: Sized {
    /// What `close` promises.
    spec fn close_ens(
        pre: Self,
        post: Self,
        channel: ChannelHandle,
        close: CloseEvent,
        r: Result<(), HandlerError>,
    ) -> bool;

    /// What `flow` promises.
    spec fn flow_ens(
        pre: Self,
        post: Self,
        channel: ChannelHandle,
        flow: FlowEvent,
        r: Result<(), HandlerError>,
    ) -> bool;

    /// What `publish_ack` promises.
    spec fn publish_ack_ens(
        pre: Self,
        post: Self,
        channel: ChannelHandle,
        ack: AckEvent,
        r: Result<(), HandlerError>,
    ) -> bool;

    /// What `publish_nack` promises.
    spec fn publish_nack_ens(
        pre: Self,
        post: Self,
        channel: ChannelHandle,
        nack: NackEvent,
        r: Result<(), HandlerError>,
    ) -> bool;

    /// What `publish_return` promises.
    spec fn publish_return_ens(
        pre: Self,
        post: Self,
        channel: ChannelHandle,
        ret: ReturnEvent,
        basic_properties: MessageProperties,
        content: Vec<u8>,
        r: Result<(), HandlerError>,
    ) -> bool;

    /// The peer closed this channel; terminal for this context.
    fn close(&mut self, channel: &ChannelHandle, close: CloseEvent) -> (r: Result<
        (),
        HandlerError,
    >)
        ensures
            Self::close_ens(*old(self), *final(self), *channel, close, r),
    ;

    /// Server-directed pause or resume of publishing on this channel.
    fn flow(&mut self, channel: &ChannelHandle, flow: FlowEvent) -> (r: Result<(), HandlerError>)
        ensures
            Self::flow_ens(*old(self), *final(self), *channel, flow, r),
    ;

    /// A published message was accepted by the server.
    fn publish_ack(&mut self, channel: &ChannelHandle, ack: AckEvent) -> (r: Result<
        (),
        HandlerError,
    >)
        ensures
            Self::publish_ack_ens(*old(self), *final(self), *channel, ack, r),
    ;

    /// A published message was rejected by the server.
    fn publish_nack(&mut self, channel: &ChannelHandle, nack: NackEvent) -> (r: Result<
        (),
        HandlerError,
    >)
        ensures
            Self::publish_nack_ens(*old(self), *final(self), *channel, nack, r),
    ;

    /// An undeliverable published message came back. The event record, the
    /// message properties and the body bytes describe one returned message
    /// and are delivered together as a unit.
    fn publish_return(
        &mut self,
        channel: &ChannelHandle,
        ret: ReturnEvent,
        basic_properties: MessageProperties,
        content: Vec<u8>,
    ) -> (r: Result<(), HandlerError>)
        ensures
            Self::publish_return_ens(
                *old(self),
                *final(self),
                *channel,
                ret,
                basic_properties,
                content,
                r,
            ),
    ;
}

/// Relies on `String::from_utf8` (std): it returns `Ok` exactly when the
/// bytes are valid UTF-8, and then the string's characters are the decoded
/// Unicode scalar values; vstd's `valid_utf8` and `decode_utf8` state both.
#[verifier::external_body]
fn body_as_text(content: &Vec<u8>) -> (r: Option<String>)
    ensures
        r is Some <==> vstd::utf8::valid_utf8(content@),
        r matches Some(t) ==> t@ == vstd::utf8::decode_utf8(content@),
{
    String::from_utf8(content.clone()).ok()
}

/// The records a default sink appends for one returned message: the header
/// entry with the event and properties, then the body rendered as text when
/// the bytes are valid UTF-8 and a byte-length diagnostic otherwise.
pub open spec fn return_records_match(
    pre: Seq<LogRecord>,
    post: Seq<LogRecord>,
    ret: ReturnEvent,
    basic_properties: MessageProperties,
    body: Seq<u8>,
) -> bool {
    if vstd::utf8::valid_utf8(body) {
        &&& post.len() == pre.len() + 2
        &&& post =~= pre.push(LogRecord::PublishReturned(ret, basic_properties)).push(post.last())
        &&& (post.last() matches LogRecord::ReturnedBodyText(t) && t@ == vstd::utf8::decode_utf8(
            body,
        ))
    } else {
        post =~= pre.push(LogRecord::PublishReturned(ret, basic_properties)).push(
            LogRecord::ReturnedBodyNotText(body.len() as usize),
        )
    }
}

/// Reference connection sink: appends one structured record per event to its
/// own log and never fails.
pub struct DefaultConnectionCallback {
    pub records: Vec<LogRecord>,
}

impl DefaultConnectionCallback {
    /// A fresh default sink with an empty record log.
    pub fn new() -> (s: Self)
        ensures
            s.records@ == Seq::<LogRecord>::empty(),
    {
        DefaultConnectionCallback { records: Vec::new() }
    }
}

impl ConnectionCallback for DefaultConnectionCallback {
    open spec fn close_ens(
        pre: Self,
        post: Self,
        connection: ConnectionHandle,
        close: CloseEvent,
        r: Result<(), HandlerError>,
    ) -> bool {
        &&& r is Ok
        &&& post.records@ == pre.records@.push(LogRecord::ConnectionClosed(close))
    }

    open spec fn blocked_ens(
        pre: Self,
        post: Self,
        connection: ConnectionHandle,
        blocked: BlockedEvent,
        r: Result<(), HandlerError>,
    ) -> bool {
        &&& r is Ok
        &&& post.records@ == pre.records@.push(LogRecord::ConnectionBlocked(blocked))
    }

    open spec fn unblocked_ens(
        pre: Self,
        post: Self,
        connection: ConnectionHandle,
        unblocked: UnblockedEvent,
        r: Result<(), HandlerError>,
    ) -> bool {
        &&& r is Ok
        &&& post.records@ == pre.records@.push(LogRecord::ConnectionUnblocked)
    }

    fn close(&mut self, connection: &ConnectionHandle, close: CloseEvent) -> (r: Result<
        (),
        HandlerError,
    >) {
        self.records.push(LogRecord::ConnectionClosed(close));
        Ok(())
    }

    fn blocked(&mut self, connection: &ConnectionHandle, blocked: BlockedEvent) -> (r: Result<
        (),
        HandlerError,
    >) {
        self.records.push(LogRecord::ConnectionBlocked(blocked));
        Ok(())
    }

    fn unblocked(&mut self, connection: &ConnectionHandle, unblocked: UnblockedEvent) -> (r: Result<
        (),
        HandlerError,
    >) {
        self.records.push(LogRecord::ConnectionUnblocked);
        Ok(())
    }
}

/// Reference channel sink: appends structured records to its own log and
/// never fails; a returned message body that is not valid UTF-8 is reported
/// as a warning record rather than escalated.
pub struct DefaultChannelCallback {
    pub records: Vec<LogRecord>,
}

impl DefaultChannelCallback {
    /// A fresh default sink with an empty record log.
    pub fn new() -> (s: Self)
        ensures
            s.records@ == Seq::<LogRecord>::empty(),
    {
        DefaultChannelCallback { records: Vec::new() }
    }
}

impl ChannelCallback for DefaultChannelCallback {
    open spec fn close_ens(
        pre: Self,
        post: Self,
        channel: ChannelHandle,
        close: CloseEvent,
        r: Result<(), HandlerError>,
    ) -> bool {
        &&& r is Ok
        &&& post.records@ == pre.records@.push(LogRecord::ChannelClosed(close))
    }

    open spec fn flow_ens(
        pre: Self,
        post: Self,
        channel: ChannelHandle,
        flow: FlowEvent,
        r: Result<(), HandlerError>,
    ) -> bool {
        &&& r is Ok
        &&& post.records@ == pre.records@.push(LogRecord::ChannelFlow(flow))
    }

    open spec fn publish_ack_ens(
        pre: Self,
        post: Self,
        channel: ChannelHandle,
        ack: AckEvent,
        r: Result<(), HandlerError>,
    ) -> bool {
        &&& r is Ok
        &&& post.records@ == pre.records@.push(LogRecord::PublishAcked(ack))
    }

    open spec fn publish_nack_ens(
        pre: Self,
        post: Self,
        channel: ChannelHandle,
        nack: NackEvent,
        r: Result<(), HandlerError>,
    ) -> bool {
        &&& r is Ok
        &&& post.records@ == pre.records@.push(LogRecord::PublishNacked(nack))
    }

    open spec fn publish_return_ens(
        pre: Self,
        post: Self,
        channel: ChannelHandle,
        ret: ReturnEvent,
        basic_properties: MessageProperties,
        content: Vec<u8>,
        r: Result<(), HandlerError>,
    ) -> bool {
        &&& r is Ok
        &&& return_records_match(pre.records@, post.records@, ret, basic_properties, content@)
    }

    fn close(&mut self, channel: &ChannelHandle, close: CloseEvent) -> (r: Result<
        (),
        HandlerError,
    >) {
        self.records.push(LogRecord::ChannelClosed(close));
        Ok(())
    }

    fn flow(&mut self, channel: &ChannelHandle, flow: FlowEvent) -> (r: Result<(), HandlerError>) {
        self.records.push(LogRecord::ChannelFlow(flow));
        Ok(())
    }

    fn publish_ack(&mut self, channel: &ChannelHandle, ack: AckEvent) -> (r: Result<
        (),
        HandlerError,
    >) {
        self.records.push(LogRecord::PublishAcked(ack));
        Ok(())
    }

    fn publish_nack(&mut self, channel: &ChannelHandle, nack: NackEvent) -> (r: Result<
        (),
        HandlerError,
    >) {
        self.records.push(LogRecord::PublishNacked(nack));
        Ok(())
    }

    fn publish_return(
        &mut self,
        channel: &ChannelHandle,
        ret: ReturnEvent,
        basic_properties: MessageProperties,
        content: Vec<u8>,
    ) -> (r: Result<(), HandlerError>) {
        self.records.push(LogRecord::PublishReturned(ret, basic_properties));
        match body_as_text(&content) {
            Some(t) => self.records.push(LogRecord::ReturnedBodyText(t)),
            None => self.records.push(LogRecord::ReturnedBodyNotText(content.len())),
        }
        Ok(())
    }
}

} // verus!
