//! What holds of a session over whole runs of events.
//!
//! The contracts of the session's methods say what one transition does.
//! The theorems here follow a session through any number of transitions:
//! a response reaches the caller of its request however the events in
//! between are interleaved, a response is delivered once, a deadline that
//! has passed cannot be undone by a late response, and a second disconnect
//! does nothing.

use vstd::prelude::*;
use crate::envelope::RawResponse;
use crate::error::ClientError;
use crate::registry::{connection_lost, timed_out, timeout_of, Completion, Pending};
use crate::session::{ConnectionState, Dispatch, SessionModel};

verus! {

/// An event in the life of a session: each stands for one call of a method
/// of the session.
pub enum Event<C, T> {
    Connect,
    Established(C),
    Failed,
    SetTimeout(u64),
    Send { id: Seq<char>, slot: T, now: u64 },
    Receive(RawResponse),
    Expire(u64),
    Cancel(Seq<char>),
    Disconnect,
}

impl<C, T> Event<C, T> {
    /// Whether this event ends the wait for the request `id` whose deadline
    /// is `deadline`: a well-formed response with that id, the passing of
    /// the deadline, the caller giving up, or the end of the connection.
    pub open spec fn settles(self, id: Seq<char>, deadline: u64) -> bool {
        match self {
            Event::Receive(raw) => raw.is_well_formed() && raw.id->0@ == id,
            Event::Expire(now) => deadline <= now,
            Event::Cancel(cancelled) => cancelled == id,
            Event::Disconnect => true,
            _ => false,
        }
    }
}

impl<C, T> SessionModel<C, T> {
    /// The session after one event.
    pub open spec fn step(self, event: Event<C, T>) -> Self {
        match event {
            Event::Connect => self.connect(),
            Event::Established(channel) => self.established(channel),
            Event::Failed => self.failed(),
            Event::SetTimeout(timeout) => SessionModel { timeout, ..self },
            Event::Send { id, slot, now } => self.send(id, slot, now),
            Event::Receive(raw) => self.receive(raw),
            Event::Expire(now) => self.expire(now),
            Event::Cancel(id) => self.cancel(id),
            Event::Disconnect => self.disconnect(),
        }
    }

    /// The session after the events of `events`, in their order.
    pub open spec fn run(self, events: Seq<Event<C, T>>) -> Self
        decreases events.len(),
    {
        if events.len() == 0 {
            self
        } else {
            self.run(events.drop_last()).step(events.last())
        }
    }
}

/// No event breaks the invariant of a session.
pub proof fn lemma_step_keeps_invariant<C, T>(before: SessionModel<C, T>, event: Event<C, T>)
    requires
        before.inv(),
    ensures
        before.step(event).inv(),
{
    match event {
        Event::Expire(now) => {
            let after = before.expire(now);
            assert(after.pending.dom().subset_of(before.pending.dom()));
            vstd::set_lib::lemma_len_subset(after.pending.dom(), before.pending.dom());
            if before.state != ConnectionState::Connected {
                assert(after.pending =~= Map::<Seq<char>, Pending<T>>::empty());
            }
        },
        _ => {},
    }
}

/// No run of events breaks the invariant of a session.
pub proof fn lemma_run_keeps_invariant<C, T>(before: SessionModel<C, T>, events: Seq<Event<C, T>>)
    requires
        before.inv(),
    ensures
        before.run(events).inv(),
    decreases events.len(),
{
    if events.len() > 0 {
        lemma_run_keeps_invariant(before, events.drop_last());
        lemma_step_keeps_invariant(before.run(events.drop_last()), events.last());
    }
}

/// A pending request stays in the table, with its deadline and its slot,
/// through every run of events of which none settles it. Requests sent and
/// answered in between, in whatever order, do not touch it.
pub proof fn lemma_unsettled_request_stays<C, T>(
    before: SessionModel<C, T>,
    id: Seq<char>,
    events: Seq<Event<C, T>>,
)
    requires
        before.inv(),
        before.pending.contains_key(id),
        forall|i: int|
            0 <= i < events.len() ==> !(#[trigger] events[i]).settles(
                id,
                before.pending[id].deadline,
            ),
    ensures
        before.run(events).inv(),
        before.run(events).pending.contains_key(id),
        before.run(events).pending[id] == before.pending[id],
    decreases events.len(),
{
    if events.len() > 0 {
        let front = events.drop_last();
        assert forall|i: int| 0 <= i < front.len() implies !(#[trigger] front[i]).settles(
            id,
            before.pending[id].deadline,
        ) by {
            assert(front[i] == events[i]);
        }
        lemma_unsettled_request_stays(before, id, front);
        let middle = before.run(front);
        assert(!events[events.len() - 1].settles(id, before.pending[id].deadline));
        lemma_step_keeps_invariant(middle, events.last());
    }
}

/// Correlation. A request accepted under the id `id` with the slot `slot`,
/// then any run of events that does not settle it, then a well-formed
/// response with the id `id`: that response is delivered to `slot`, and the
/// id it carries is the id of the request.
pub proof fn theorem_response_reaches_its_caller<C, T>(
    before: SessionModel<C, T>,
    id: Seq<char>,
    slot: T,
    now: u64,
    events: Seq<Event<C, T>>,
    raw: RawResponse,
)
    requires
        before.inv(),
        before.accepts(id),
        forall|i: int|
            0 <= i < events.len() ==> !(#[trigger] events[i]).settles(id, before.deadline(now)),
        raw.is_well_formed(),
        raw.id->0@ == id,
    ensures
        before.send(id, slot, now).run(events).dispatch(raw) == Dispatch::Deliver(
            Completion { slot, outcome: Ok(raw.validated()) },
        ),
        raw.validated().id@ == id,
        !before.send(id, slot, now).run(events).receive(raw).pending.contains_key(id),
{
    let sent = before.send(id, slot, now);
    lemma_step_keeps_invariant(before, Event::Send { id, slot, now });
    assert(sent == before.step(Event::Send { id, slot, now }));
    lemma_unsettled_request_stays(sent, id, events);
}

/// A response is delivered once. After a well-formed response was taken,
/// another with the same id finds nobody waiting and changes nothing.
pub proof fn theorem_response_is_delivered_once<C, T>(
    before: SessionModel<C, T>,
    raw: RawResponse,
    again: RawResponse,
)
    requires
        raw.is_well_formed(),
        again.is_well_formed(),
        again.id->0@ == raw.id->0@,
    ensures
        before.receive(raw).dispatch(again) == (Dispatch::<T>::Unmatched {
            response: again.validated(),
        }),
        before.receive(raw).receive(again) == before.receive(raw),
{
}

/// A response for which no request is pending, and a malformed response,
/// leave every entry of the table where it is.
pub proof fn theorem_stray_response_resolves_nothing<C, T>(
    before: SessionModel<C, T>,
    raw: RawResponse,
)
    requires
        !raw.is_well_formed() || !before.pending.contains_key(raw.id->0@),
    ensures
        before.receive(raw) == before,
        !(before.dispatch(raw) is Deliver),
        !raw.is_well_formed() ==> before.dispatch(raw) == Dispatch::<T>::Malformed,
{
}

/// A deadline that has passed stands. When the time `now` has reached the
/// deadline of the request `id`, expiry hands out its slot and takes its
/// entry away; a response with that id that arrives later finds nobody
/// waiting and is not delivered. The state of the session is not touched.
pub proof fn theorem_late_response_is_unmatched<C, T>(
    before: SessionModel<C, T>,
    id: Seq<char>,
    now: u64,
    late: RawResponse,
)
    requires
        before.pending.contains_key(id),
        before.pending[id].deadline <= now,
        late.is_well_formed(),
        late.id->0@ == id,
    ensures
        timed_out(before.pending, now).contains_key(id),
        timed_out(before.pending, now)[id] == timeout_of(before.pending[id].slot),
        !before.expire(now).pending.contains_key(id),
        before.expire(now).state == before.state,
        before.expire(now).dispatch(late) == (Dispatch::<T>::Unmatched {
            response: late.validated(),
        }),
        before.expire(now).receive(late) == before.expire(now),
{
}

/// A request that is sent and not settled times out at its deadline: the
/// deadline is the time of sending plus the timeout of the session, and at
/// any time from then on expiry hands out the slot of the request.
pub proof fn theorem_unanswered_request_times_out<C, T>(
    before: SessionModel<C, T>,
    id: Seq<char>,
    slot: T,
    now: u64,
    events: Seq<Event<C, T>>,
    later: u64,
)
    requires
        before.inv(),
        before.accepts(id),
        forall|i: int|
            0 <= i < events.len() ==> !(#[trigger] events[i]).settles(id, before.deadline(now)),
        before.deadline(now) <= later,
    ensures
        timed_out(before.send(id, slot, now).run(events).pending, later).contains_key(id),
        timed_out(before.send(id, slot, now).run(events).pending, later)[id] == timeout_of(slot),
        !before.send(id, slot, now).run(events).expire(later).pending.contains_key(id),
{
    let sent = before.send(id, slot, now);
    lemma_step_keeps_invariant(before, Event::Send { id, slot, now });
    assert(sent == before.step(Event::Send { id, slot, now }));
    lemma_unsettled_request_stays(sent, id, events);
}

/// Disconnecting hands out the slot of every pending request and leaves
/// none behind, so a second disconnect hands out nothing and changes
/// nothing.
pub proof fn theorem_disconnect_is_idempotent<C, T>(before: SessionModel<C, T>)
    ensures
        before.disconnect().inv(),
        before.disconnect().disconnect() == before.disconnect(),
        connection_lost(before.disconnect().pending) == Map::<Seq<char>, Completion<T>>::empty(),
        before.disconnect().channel == None::<C>,
{
    assert(connection_lost(before.disconnect().pending) =~= Map::<
        Seq<char>,
        Completion<T>,
    >::empty());
}

/// A session that is not connected takes no request: whatever the id, the
/// request is refused with `NotConnected` and the session stays as it is.
pub proof fn theorem_send_needs_a_connection<C, T>(
    before: SessionModel<C, T>,
    id: Seq<char>,
    slot: T,
    now: u64,
)
    requires
        before.state != ConnectionState::Connected,
    ensures
        !before.accepts(id),
        before.refusal(id) == ClientError::NotConnected,
        before.send(id, slot, now) == before,
{
}

} // verus!
