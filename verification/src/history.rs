//! Mathematical model of a context's delivery history: the sequence of
//! events its sink has observed, in observation order. A history is
//! well-formed when every event was admissible at the moment it was
//! delivered; the dispatch boundary maintains exactly that. The proof
//! functions state the ordering laws a well-formed history obeys: close is
//! terminal, every unblocked is preceded by exactly one unmatched blocked,
//! and confirm delivery tags never decrease.

use vstd::prelude::*;

use crate::events::{ChannelEvent, ConnectionEvent};

verus! {

/// Whether a close has been delivered somewhere in the history.
pub open spec fn conn_closed(h: Seq<ConnectionEvent>) -> bool
    decreases h.len(),
{
    if h.len() == 0 {
        false
    } else {
        conn_closed(h.drop_last()) || h.last() is Close
    }
}

/// Whether backpressure is active after the history: a blocked event was
/// delivered and not yet matched by an unblocked one.
pub open spec fn conn_blocked(h: Seq<ConnectionEvent>) -> bool
    decreases h.len(),
{
    if h.len() == 0 {
        false
    } else {
        match h.last() {
            ConnectionEvent::Blocked(_) => true,
            ConnectionEvent::Unblocked(_) => false,
            _ => conn_blocked(h.drop_last()),
        }
    }
}

/// Whether the event may be delivered after the given history: nothing
/// follows a close, blocked requires backpressure inactive, unblocked
/// requires it active.
pub open spec fn conn_admissible(h: Seq<ConnectionEvent>, e: ConnectionEvent) -> bool {
    match e {
        ConnectionEvent::Close(_) => !conn_closed(h),
        ConnectionEvent::Blocked(_) => !conn_closed(h) && !conn_blocked(h),
        ConnectionEvent::Unblocked(_) => !conn_closed(h) && conn_blocked(h),
    }
}

/// A history in which every event was admissible when it was delivered.
pub open spec fn conn_history_wf(h: Seq<ConnectionEvent>) -> bool
    decreases h.len(),
{
    h.len() == 0 || (conn_history_wf(h.drop_last()) && conn_admissible(h.drop_last(), h.last()))
}

/// How many blocked events the history holds.
pub open spec fn count_blocked(h: Seq<ConnectionEvent>) -> int
    decreases h.len(),
{
    if h.len() == 0 {
        0
    } else {
        count_blocked(h.drop_last()) + if h.last() is Blocked {
            1int
        } else {
            0int
        }
    }
}

/// How many unblocked events the history holds.
pub open spec fn count_unblocked(h: Seq<ConnectionEvent>) -> int
    decreases h.len(),
{
    if h.len() == 0 {
        0
    } else {
        count_unblocked(h.drop_last()) + if h.last() is Unblocked {
            1int
        } else {
            0int
        }
    }
}

/// Pushing an event extends a sequence by exactly that event.
pub proof fn lemma_push_step<T>(h: Seq<T>, e: T)
    ensures
        h.push(e).drop_last() == h,
        h.push(e).last() == e,
        h.push(e).len() == h.len() + 1,
{
    assert(h.push(e).drop_last() =~= h);
}

/// Every prefix of a well-formed connection history is well-formed.
pub proof fn lemma_conn_wf_prefix(h: Seq<ConnectionEvent>, i: int)
    requires
        conn_history_wf(h),
        0 <= i <= h.len(),
    ensures
        conn_history_wf(h.take(i)),
    decreases h.len() - i,
{
    if i == h.len() {
        assert(h.take(i) =~= h);
    } else {
        lemma_conn_wf_prefix(h, i + 1);
        assert(h.take(i + 1).drop_last() =~= h.take(i));
        if h.take(i + 1).len() != 0 {
            assert(conn_history_wf(h.take(i + 1).drop_last()));
        }
    }
}

/// In a well-formed history the unmatched blocked count is the backpressure
/// state: one while blocked, zero otherwise.
pub proof fn lemma_conn_blocked_balance(h: Seq<ConnectionEvent>)
    requires
        conn_history_wf(h),
    ensures
        count_blocked(h) - count_unblocked(h) == if conn_blocked(h) {
            1int
        } else {
            0int
        },
    decreases h.len(),
{
    if h.len() > 0 {
        lemma_conn_blocked_balance(h.drop_last());
    }
}

/// Law: an unblocked event is observed only with exactly one preceding
/// unmatched blocked event on the same connection — at the moment it is
/// delivered, the blocked events seen so far outnumber the unblocked ones by
/// exactly one.
pub proof fn lemma_unblocked_has_one_unmatched_blocked(h: Seq<ConnectionEvent>, i: int)
    requires
        conn_history_wf(h),
        0 <= i < h.len(),
        h[i] is Unblocked,
    ensures
        count_blocked(h.take(i)) - count_unblocked(h.take(i)) == 1,
{
    lemma_conn_wf_prefix(h, i + 1);
    assert(h.take(i + 1).drop_last() =~= h.take(i));
    assert(h.take(i + 1).last() == h[i]);
    assert(conn_admissible(h.take(i), h[i]));
    lemma_conn_wf_prefix(h, i);
    lemma_conn_blocked_balance(h.take(i));
}

/// Law: close is terminal for a connection — in a well-formed history a
/// close event can only be the last one.
pub proof fn lemma_conn_close_terminal(h: Seq<ConnectionEvent>, i: int)
    requires
        conn_history_wf(h),
        0 <= i < h.len(),
        h[i] is Close,
    ensures
        i == h.len() - 1,
{
    if i < h.len() - 1 {
        assert(h.take(i + 1).last() == h[i]);
        assert(conn_closed(h.take(i + 1)));
        lemma_conn_wf_prefix(h, i + 2);
        assert(h.take(i + 2).drop_last() =~= h.take(i + 1));
        assert(h.take(i + 2).last() == h[i + 1]);
        assert(conn_admissible(h.take(i + 1), h[i + 1]));
    }
}

/// Whether a close has been delivered somewhere in the channel history.
pub open spec fn chan_closed(h: Seq<ChannelEvent>) -> bool
    decreases h.len(),
{
    if h.len() == 0 {
        false
    } else {
        chan_closed(h.drop_last()) || h.last() is Close
    }
}

/// Whether the event is a publisher confirm (ack or nack).
pub open spec fn is_confirm(e: ChannelEvent) -> bool {
    e is Ack || e is Nack
}

/// The delivery tag a confirm event carries; zero for other events.
pub open spec fn event_tag(e: ChannelEvent) -> u64 {
    match e {
        ChannelEvent::Ack(a) => a.delivery_tag,
        ChannelEvent::Nack(n) => n.delivery_tag,
        _ => 0,
    }
}

/// The delivery tag of the most recent confirm in the history; zero before
/// any confirm was delivered.
pub open spec fn chan_last_tag(h: Seq<ChannelEvent>) -> u64
    decreases h.len(),
{
    if h.len() == 0 {
        0
    } else if is_confirm(h.last()) {
        event_tag(h.last())
    } else {
        chan_last_tag(h.drop_last())
    }
}

/// Whether the event may be delivered after the given channel history:
/// nothing follows a close, and a confirm's delivery tag must not fall below
/// the most recent confirm's tag.
pub open spec fn chan_admissible(h: Seq<ChannelEvent>, e: ChannelEvent) -> bool {
    &&& !chan_closed(h)
    &&& (is_confirm(e) ==> event_tag(e) >= chan_last_tag(h))
}

/// A channel history in which every event was admissible when delivered.
pub open spec fn chan_history_wf(h: Seq<ChannelEvent>) -> bool
    decreases h.len(),
{
    h.len() == 0 || (chan_history_wf(h.drop_last()) && chan_admissible(h.drop_last(), h.last()))
}

/// Every prefix of a well-formed channel history is well-formed.
pub proof fn lemma_chan_wf_prefix(h: Seq<ChannelEvent>, i: int)
    requires
        chan_history_wf(h),
        0 <= i <= h.len(),
    ensures
        chan_history_wf(h.take(i)),
    decreases h.len() - i,
{
    if i == h.len() {
        assert(h.take(i) =~= h);
    } else {
        lemma_chan_wf_prefix(h, i + 1);
        assert(h.take(i + 1).drop_last() =~= h.take(i));
        if h.take(i + 1).len() != 0 {
            assert(chan_history_wf(h.take(i + 1).drop_last()));
        }
    }
}

/// The most recent confirm tag never decreases as a well-formed history
/// grows.
pub proof fn lemma_chan_last_tag_monotone(h: Seq<ChannelEvent>, i: int, j: int)
    requires
        chan_history_wf(h),
        0 <= i <= j <= h.len(),
    ensures
        chan_last_tag(h.take(i)) <= chan_last_tag(h.take(j)),
    decreases j - i,
{
    if i < j {
        lemma_chan_wf_prefix(h, j);
        assert(h.take(j).drop_last() =~= h.take(j - 1));
        assert(h.take(j).last() == h[j - 1]);
        assert(chan_admissible(h.take(j - 1), h[j - 1]));
        lemma_chan_last_tag_monotone(h, i, j - 1);
    }
}

/// Law: the delivery tags of the confirms a channel's sink observes are
/// non-decreasing over the channel's lifetime.
pub proof fn lemma_confirm_tags_non_decreasing(h: Seq<ChannelEvent>, i: int, j: int)
    requires
        chan_history_wf(h),
        0 <= i <= j < h.len(),
        is_confirm(h[i]),
        is_confirm(h[j]),
    ensures
        event_tag(h[i]) <= event_tag(h[j]),
{
    if i < j {
        assert(h.take(i + 1).drop_last() =~= h.take(i));
        assert(h.take(i + 1).last() == h[i]);
        assert(chan_last_tag(h.take(i + 1)) == event_tag(h[i]));
        lemma_chan_last_tag_monotone(h, i + 1, j);
        lemma_chan_wf_prefix(h, j + 1);
        assert(h.take(j + 1).drop_last() =~= h.take(j));
        assert(h.take(j + 1).last() == h[j]);
        assert(chan_admissible(h.take(j), h[j]));
    }
}

/// Law: close is terminal for a channel — in a well-formed history a close
/// event can only be the last one.
pub proof fn lemma_chan_close_terminal(h: Seq<ChannelEvent>, i: int)
    requires
        chan_history_wf(h),
        0 <= i < h.len(),
        h[i] is Close,
    ensures
        i == h.len() - 1,
{
    if i < h.len() - 1 {
        assert(h.take(i + 1).last() == h[i]);
        assert(chan_closed(h.take(i + 1)));
        lemma_chan_wf_prefix(h, i + 2);
        assert(h.take(i + 2).drop_last() =~= h.take(i + 1));
        assert(h.take(i + 2).last() == h[i + 1]);
        assert(chan_admissible(h.take(i + 1), h[i + 1]));
    }
}

} // verus!
