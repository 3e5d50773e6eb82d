//! Immutable event records delivered to callback sinks, and the lightweight
//! context handles passed alongside them. Records are passed by value at the
//! moment of delivery and carry no reference back to the context that
//! produced them.

use vstd::prelude::*;

verus! {

/// Peer-initiated connection or channel shutdown: the reply code and text of
/// the close frame.
#[derive(Clone, Debug, PartialEq, Eq)]
pub struct CloseEvent {
    pub reply_code: u16,
    pub reply_text: String,
}

/// Server-imposed backpressure activated, with the server's stated reason.
#[derive(Clone, Debug, PartialEq, Eq)]
pub struct BlockedEvent {
    pub reason: String,
}

/// Backpressure released; the record carries no data.
#[derive(Clone, Debug, PartialEq, Eq)]
pub struct UnblockedEvent {}

/// Per-channel flow-control directive from the server: `active` asks the
/// publisher to resume (`true`) or pause (`false`).
#[derive(Clone, Debug, PartialEq, Eq)]
pub struct FlowEvent {
    pub active: bool,
}

/// Publisher confirm: the message with this delivery tag was accepted. A set
/// `multiple` marker extends the outcome to all lower unconfirmed tags.
#[derive(Clone, Debug, PartialEq, Eq)]
pub struct AckEvent {
    pub delivery_tag: u64,
    pub multiple: bool,
}

/// Publisher confirm: the message with this delivery tag was rejected. A set
/// `multiple` marker extends the outcome to all lower unconfirmed tags.
#[derive(Clone, Debug, PartialEq, Eq)]
pub struct NackEvent {
    pub delivery_tag: u64,
    pub multiple: bool,
}

/// An undeliverable published message echoed back by the server: why it was
/// returned and where it had been addressed.
#[derive(Clone, Debug, PartialEq, Eq)]
pub struct ReturnEvent {
    pub reply_code: u16,
    pub reply_text: String,
    pub exchange: String,
    pub routing_key: String,
}

/// Metadata attached to a returned message: an opaque bag of optional
/// content type plus named header values.
#[derive(Clone, Debug, PartialEq, Eq)]
pub struct MessageProperties {
    pub content_type: Option<String>,
    pub headers: Vec<(String, String)>,
}

/// Stable identifier of the owning connection, passed to sink calls for the
/// call's duration; sinks must not store it beyond the call.
#[derive(Clone, Copy, Debug, PartialEq, Eq, Structural)]
pub struct ConnectionHandle {
    pub id: u64,
}

/// Stable identifier of the owning channel within its connection.
#[derive(Clone, Copy, Debug, PartialEq, Eq, Structural)]
pub struct ChannelHandle {
    pub connection_id: u64,
    pub channel_number: u16,
}

/// A classified connection-scoped event, as handed to the dispatch boundary
/// by the frame classifier.
#[derive(Clone, Debug, PartialEq, Eq)]
pub enum ConnectionEvent {
    Close(CloseEvent),
    Blocked(BlockedEvent),
    Unblocked(UnblockedEvent),
}

/// A classified channel-scoped event. A returned message travels as one
/// variant so its event record, properties and body bytes stay a unit.
#[derive(Clone, Debug, PartialEq, Eq)]
pub enum ChannelEvent {
    Close(CloseEvent),
    Flow(FlowEvent),
    Ack(AckEvent),
    Nack(NackEvent),
    Return(ReturnEvent, MessageProperties, Vec<u8>),
}

} // verus!
