//! The dispatch boundary between the frame-dispatch loop and a context's
//! sink. A dispatcher owns exactly one sink for its context, delivers
//! classified events to it one at a time in classification order, and
//! enforces the ordering rules before any sink call: nothing is delivered
//! after a close, an unblocked requires an active blocked, and a confirm's
//! delivery tag never falls below the last one delivered. An inadmissible
//! event is rejected with a diagnostic and reaches no sink; a failure
//! reported by the sink is caught and handed back as an outcome, never
//! propagated. The ghost history records every delivered event, so the
//! ordering laws of `history` hold of everything the sink ever observed.

use vstd::prelude::*;

use crate::callbacks::{ChannelCallback, ConnectionCallback, HandlerError};
use crate::events::{ChannelEvent, ChannelHandle, ConnectionEvent, ConnectionHandle};
use crate::history::{
    chan_admissible, chan_closed, chan_history_wf, chan_last_tag, conn_admissible, conn_blocked,
    conn_closed, conn_history_wf, lemma_push_step,
};

verus! {

/// Why an event was rejected before reaching the sink: a collaborator defect
/// surfaced as a diagnostic rather than silently ignored.
#[derive(Clone, Copy, Debug, PartialEq, Eq, Structural)]
pub enum OrderingViolation {
    /// An event arrived after close was delivered for the same context.
    AfterClose,
    /// A blocked signal arrived while backpressure was already active.
    DuplicateBlocked,
    /// An unblocked signal arrived without an unmatched blocked before it.
    UnmatchedUnblocked,
    /// A confirm carried a delivery tag below the last delivered one.
    StaleDeliveryTag,
}

/// What became of one classified event at the dispatch boundary. Nothing is
/// escalated: the dispatch loop survives every outcome.
#[derive(Clone, Debug, PartialEq, Eq)]
pub enum DispatchOutcome {
    /// The sink observed the event and completed.
    Delivered,
    /// The sink observed the event and reported a failure, which the
    /// boundary caught.
    HandlerFailed(HandlerError),
    /// The event was inadmissible and no sink call was made.
    Rejected(OrderingViolation),
}

/// The diagnostic an inadmissible connection event is rejected with.
pub open spec fn conn_violation(h: Seq<ConnectionEvent>, e: ConnectionEvent) -> OrderingViolation {
    if conn_closed(h) {
        OrderingViolation::AfterClose
    } else if e is Blocked {
        OrderingViolation::DuplicateBlocked
    } else {
        OrderingViolation::UnmatchedUnblocked
    }
}

/// The diagnostic an inadmissible channel event is rejected with.
pub open spec fn chan_violation(h: Seq<ChannelEvent>, e: ChannelEvent) -> OrderingViolation {
    if chan_closed(h) {
        OrderingViolation::AfterClose
    } else {
        OrderingViolation::StaleDeliveryTag
    }
}

/// Fold the sink's report into the boundary's outcome: completion is
/// delivered, a reported failure is caught and carried, nothing unwinds.
fn outcome_of(res: Result<(), HandlerError>) -> (r: DispatchOutcome)
    ensures
        res is Ok ==> res == Ok::<(), HandlerError>(()) && r == DispatchOutcome::Delivered,
        res matches Err(e) ==> r == DispatchOutcome::HandlerFailed(e),
{
    let ghost g = res;
    match res {
        Ok(_) => {
            proof {
                assert(g->Ok_0 == ());
                assert(g == Ok::<(), HandlerError>(()));
            }
            DispatchOutcome::Delivered
        },
        Err(err) => DispatchOutcome::HandlerFailed(err),
    }
}

/// Connection-scoped dispatch boundary: owns the connection's sink, tracks
/// closure and backpressure, and keeps the ghost history of everything the
/// sink observed.
pub struct ConnectionDispatcher<C: ConnectionCallback> {
    /// The exclusively owned sink; every delivery goes to this instance.
    pub sink: C,
    /// Handle passed to the sink for each call's duration.
    pub handle: ConnectionHandle,
    /// Whether close has been delivered; terminal.
    pub closed: bool,
    /// Whether an unmatched blocked has been delivered.
    pub blocked: bool,
    /// Every event delivered to the sink, in delivery order.
    pub history: Ghost<Seq<ConnectionEvent>>,
}

impl<C: ConnectionCallback> ConnectionDispatcher<C> {
    /// The dispatcher's invariant: the history is well-formed and the two
    /// state flags agree with it.
    pub open spec fn wf(self) -> bool {
        &&& conn_history_wf(self.history@)
        &&& self.closed == conn_closed(self.history@)
        &&& self.blocked == conn_blocked(self.history@)
    }

    /// A fresh boundary for one connection, owning the given sink, with
    /// nothing delivered yet.
    pub fn new(sink: C, handle: ConnectionHandle) -> (d: Self)
        ensures
            d.wf(),
            d.sink == sink,
            d.handle == handle,
            d.history@ == Seq::<ConnectionEvent>::empty(),
            !d.closed,
            !d.blocked,
    {
        ConnectionDispatcher {
            sink,
            handle,
            closed: false,
            blocked: false,
            history: Ghost(Seq::empty()),
        }
    }

    /// Install a new sink, transferring ownership of the previous one back
    /// to the caller unchanged; delivery state and history are untouched, so
    /// every later event goes to the new sink only.
    pub fn install_connection_sink(&mut self, sink: C) -> (prev: C)
        ensures
            prev == old(self).sink,
            final(self).sink == sink,
            final(self).handle == old(self).handle,
            final(self).closed == old(self).closed,
            final(self).blocked == old(self).blocked,
            final(self).history@ == old(self).history@,
    {
        let mut prev = sink;
        core::mem::swap(&mut self.sink, &mut prev);
        prev
    }

    /// Deliver one classified event to the sink, in classification order.
    ///
    /// An admissible event is appended to the history and handed to the
    /// sink exactly once, with the sink's own promise carried into the
    /// outcome; an inadmissible one is rejected with its diagnostic, and
    /// neither the sink nor the history changes.
    pub fn dispatch(&mut self, event: ConnectionEvent) -> (r: DispatchOutcome)
        requires
            old(self).wf(),
        ensures
            final(self).wf(),
            final(self).handle == old(self).handle,
            conn_admissible(old(self).history@, event) ==> {
                &&& final(self).history@ == old(self).history@.push(event)
                &&& match event {
                    ConnectionEvent::Close(e) => (match r {
                        DispatchOutcome::Delivered => C::close_ens(
                            old(self).sink,
                            final(self).sink,
                            old(self).handle,
                            e,
                            Ok(()),
                        ),
                        DispatchOutcome::HandlerFailed(err) => C::close_ens(
                            old(self).sink,
                            final(self).sink,
                            old(self).handle,
                            e,
                            Err(err),
                        ),
                        DispatchOutcome::Rejected(_) => false,
                    }),
                    ConnectionEvent::Blocked(e) => (match r {
                        DispatchOutcome::Delivered => C::blocked_ens(
                            old(self).sink,
                            final(self).sink,
                            old(self).handle,
                            e,
                            Ok(()),
                        ),
                        DispatchOutcome::HandlerFailed(err) => C::blocked_ens(
                            old(self).sink,
                            final(self).sink,
                            old(self).handle,
                            e,
                            Err(err),
                        ),
                        DispatchOutcome::Rejected(_) => false,
                    }),
                    ConnectionEvent::Unblocked(e) => (match r {
                        DispatchOutcome::Delivered => C::unblocked_ens(
                            old(self).sink,
                            final(self).sink,
                            old(self).handle,
                            e,
                            Ok(()),
                        ),
                        DispatchOutcome::HandlerFailed(err) => C::unblocked_ens(
                            old(self).sink,
                            final(self).sink,
                            old(self).handle,
                            e,
                            Err(err),
                        ),
                        DispatchOutcome::Rejected(_) => false,
                    }),
                }
            },
            !conn_admissible(old(self).history@, event) ==> {
                &&& *final(self) == *old(self)
                &&& r == DispatchOutcome::Rejected(conn_violation(old(self).history@, event))
            },
    {
        let ghost pre = self.history@;
        let ghost gev = event;
        proof {
            lemma_push_step(pre, gev);
        }
        match event {
            ConnectionEvent::Close(e) => {
                if self.closed {
                    return DispatchOutcome::Rejected(OrderingViolation::AfterClose);
                }
                let handle = self.handle;
                let res = self.sink.close(&handle, e);
                self.closed = true;
                self.history = Ghost(pre.push(gev));
                outcome_of(res)
            },
            ConnectionEvent::Blocked(e) => {
                if self.closed {
                    return DispatchOutcome::Rejected(OrderingViolation::AfterClose);
                }
                if self.blocked {
                    return DispatchOutcome::Rejected(OrderingViolation::DuplicateBlocked);
                }
                let handle = self.handle;
                let res = self.sink.blocked(&handle, e);
                self.blocked = true;
                self.history = Ghost(pre.push(gev));
                outcome_of(res)
            },
            ConnectionEvent::Unblocked(e) => {
                if self.closed {
                    return DispatchOutcome::Rejected(OrderingViolation::AfterClose);
                }
                if !self.blocked {
                    return DispatchOutcome::Rejected(OrderingViolation::UnmatchedUnblocked);
                }
                let handle = self.handle;
                let res = self.sink.unblocked(&handle, e);
                self.blocked = false;
                self.history = Ghost(pre.push(gev));
                outcome_of(res)
            },
        }
    }
}

/// Channel-scoped dispatch boundary: owns the channel's sink, tracks closure
/// and the last delivered confirm tag, and keeps the ghost history of
/// everything the sink observed.
pub struct ChannelDispatcher<C: ChannelCallback> {
    /// The exclusively owned sink; every delivery goes to this instance.
    pub sink: C,
    /// Handle passed to the sink for each call's duration.
    pub handle: ChannelHandle,
    /// Whether close has been delivered; terminal.
    pub closed: bool,
    /// Delivery tag of the most recent confirm delivered; zero before any.
    pub last_tag: u64,
    /// Every event delivered to the sink, in delivery order.
    pub history: Ghost<Seq<ChannelEvent>>,
}

impl<C: ChannelCallback> ChannelDispatcher<C> {
    /// The dispatcher's invariant: the history is well-formed and the state
    /// fields agree with it.
    pub open spec fn wf(self) -> bool {
        &&& chan_history_wf(self.history@)
        &&& self.closed == chan_closed(self.history@)
        &&& self.last_tag == chan_last_tag(self.history@)
    }

    /// A fresh boundary for one channel, owning the given sink, with
    /// nothing delivered yet.
    pub fn new(sink: C, handle: ChannelHandle) -> (d: Self)
        ensures
            d.wf(),
            d.sink == sink,
            d.handle == handle,
            d.history@ == Seq::<ChannelEvent>::empty(),
            !d.closed,
            d.last_tag == 0,
    {
        ChannelDispatcher { sink, handle, closed: false, last_tag: 0, history: Ghost(Seq::empty()) }
    }

    /// Install a new sink, transferring ownership of the previous one back
    /// to the caller unchanged; delivery state and history are untouched, so
    /// every later event goes to the new sink only.
    pub fn install_channel_sink(&mut self, sink: C) -> (prev: C)
        ensures
            prev == old(self).sink,
            final(self).sink == sink,
            final(self).handle == old(self).handle,
            final(self).closed == old(self).closed,
            final(self).last_tag == old(self).last_tag,
            final(self).history@ == old(self).history@,
    {
        let mut prev = sink;
        core::mem::swap(&mut self.sink, &mut prev);
        prev
    }

    /// Deliver one classified event to the sink, in classification order.
    ///
    /// An admissible event is appended to the history and handed to the
    /// sink exactly once — a returned message as one call carrying its
    /// event record, properties and body together — with the sink's own
    /// promise carried into the outcome. An inadmissible event is rejected
    /// with its diagnostic, and neither the sink nor the history changes.
    pub fn dispatch(&mut self, event: ChannelEvent) -> (r: DispatchOutcome)
        requires
            old(self).wf(),
        ensures
            final(self).wf(),
            final(self).handle == old(self).handle,
            chan_admissible(old(self).history@, event) ==> {
                &&& final(self).history@ == old(self).history@.push(event)
                &&& match event {
                    ChannelEvent::Close(e) => (match r {
                        DispatchOutcome::Delivered => C::close_ens(
                            old(self).sink,
                            final(self).sink,
                            old(self).handle,
                            e,
                            Ok(()),
                        ),
                        DispatchOutcome::HandlerFailed(err) => C::close_ens(
                            old(self).sink,
                            final(self).sink,
                            old(self).handle,
                            e,
                            Err(err),
                        ),
                        DispatchOutcome::Rejected(_) => false,
                    }),
                    ChannelEvent::Flow(e) => (match r {
                        DispatchOutcome::Delivered => C::flow_ens(
                            old(self).sink,
                            final(self).sink,
                            old(self).handle,
                            e,
                            Ok(()),
                        ),
                        DispatchOutcome::HandlerFailed(err) => C::flow_ens(
                            old(self).sink,
                            final(self).sink,
                            old(self).handle,
                            e,
                            Err(err),
                        ),
                        DispatchOutcome::Rejected(_) => false,
                    }),
                    ChannelEvent::Ack(e) => (match r {
                        DispatchOutcome::Delivered => C::publish_ack_ens(
                            old(self).sink,
                            final(self).sink,
                            old(self).handle,
                            e,
                            Ok(()),
                        ),
                        DispatchOutcome::HandlerFailed(err) => C::publish_ack_ens(
                            old(self).sink,
                            final(self).sink,
                            old(self).handle,
                            e,
                            Err(err),
                        ),
                        DispatchOutcome::Rejected(_) => false,
                    }),
                    ChannelEvent::Nack(e) => (match r {
                        DispatchOutcome::Delivered => C::publish_nack_ens(
                            old(self).sink,
                            final(self).sink,
                            old(self).handle,
                            e,
                            Ok(()),
                        ),
                        DispatchOutcome::HandlerFailed(err) => C::publish_nack_ens(
                            old(self).sink,
                            final(self).sink,
                            old(self).handle,
                            e,
                            Err(err),
                        ),
                        DispatchOutcome::Rejected(_) => false,
                    }),
                    ChannelEvent::Return(ret, props, content) => (match r {
                        DispatchOutcome::Delivered => C::publish_return_ens(
                            old(self).sink,
                            final(self).sink,
                            old(self).handle,
                            ret,
                            props,
                            content,
                            Ok(()),
                        ),
                        DispatchOutcome::HandlerFailed(err) => C::publish_return_ens(
                            old(self).sink,
                            final(self).sink,
                            old(self).handle,
                            ret,
                            props,
                            content,
                            Err(err),
                        ),
                        DispatchOutcome::Rejected(_) => false,
                    }),
                }
            },
            !chan_admissible(old(self).history@, event) ==> {
                &&& *final(self) == *old(self)
                &&& r == DispatchOutcome::Rejected(chan_violation(old(self).history@, event))
            },
    {
        let ghost pre = self.history@;
        let ghost gev = event;
        proof {
            lemma_push_step(pre, gev);
        }
        if self.closed {
            return DispatchOutcome::Rejected(OrderingViolation::AfterClose);
        }
        match event {
            ChannelEvent::Close(e) => {
                let handle = self.handle;
                let res = self.sink.close(&handle, e);
                self.closed = true;
                self.history = Ghost(pre.push(gev));
                outcome_of(res)
            },
            ChannelEvent::Flow(e) => {
                let handle = self.handle;
                let res = self.sink.flow(&handle, e);
                self.history = Ghost(pre.push(gev));
                outcome_of(res)
            },
            ChannelEvent::Ack(e) => {
                if e.delivery_tag < self.last_tag {
                    return DispatchOutcome::Rejected(OrderingViolation::StaleDeliveryTag);
                }
                let handle = self.handle;
                let tag = e.delivery_tag;
                let res = self.sink.publish_ack(&handle, e);
                self.last_tag = tag;
                self.history = Ghost(pre.push(gev));
                outcome_of(res)
            },
            ChannelEvent::Nack(e) => {
                if e.delivery_tag < self.last_tag {
                    return DispatchOutcome::Rejected(OrderingViolation::StaleDeliveryTag);
                }
                let handle = self.handle;
                let tag = e.delivery_tag;
                let res = self.sink.publish_nack(&handle, e);
                self.last_tag = tag;
                self.history = Ghost(pre.push(gev));
                outcome_of(res)
            },
            ChannelEvent::Return(ret, props, content) => {
                let handle = self.handle;
                let res = self.sink.publish_return(&handle, ret, props, content);
                self.history = Ghost(pre.push(gev));
                outcome_of(res)
            },
        }
    }
}


} // verus!
