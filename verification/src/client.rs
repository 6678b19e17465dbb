//! What every backend adapter can do: connect, send a request, disconnect.

use vstd::prelude::*;
use crate::envelope::{is_uuid_v4_text, MCPRequest};
use crate::error::ClientError;
use crate::registry::connection_lost;
use crate::session::{
    ConnectStep, ConnectionState, Rejected, Session, SessionModel, Teardown,
};
use crate::string_map::{distinct_keys, pairs_to_map};

verus! {

/// The time, in milliseconds, that a request of a new adapter waits for its
/// response.
pub const DEFAULT_TIMEOUT_MS: u64 = 30_000;

/// The capabilities that all backend adapters share, with the meaning that
/// the session gives them. Code written against this trait works with any
/// backend.
pub trait MCPClient<C, T> {
    /// The invariant of the adapter.
    spec fn wf(&self) -> bool;

    /// The state of the adapter's session.
    spec fn model(&self) -> SessionModel<C, T>;

    /// Asks the adapter to connect: see [`Session::connect`].
    fn connect(&mut self) -> (step: ConnectStep)
        requires
            old(self).wf(),
        ensures
            final(self).wf(),
            final(self).model() == old(self).model().connect(),
            step == old(self).model().connect_step(),
    ;

    /// Takes a request for transmission: see [`Session::send_request`].
    fn send_request(&mut self, request: MCPRequest, slot: T, now: u64) -> (step: Result<
        MCPRequest,
        Rejected<T>,
    >)
        requires
            old(self).wf(),
        ensures
            final(self).wf(),
            final(self).model() == old(self).model().send(request.id@, slot, now),
            old(self).model().accepts(request.id@) ==> step == Ok::<MCPRequest, Rejected<T>>(
                request,
            ),
            !old(self).model().accepts(request.id@) ==> step == Err::<MCPRequest, Rejected<T>>(
                Rejected { error: old(self).model().refusal(request.id@), slot },
            ),
    ;

    /// Tears the connection down: see [`Session::disconnect`].
    fn disconnect(&mut self) -> (teardown: Teardown<C, T>)
        requires
            old(self).wf(),
        ensures
            final(self).wf(),
            final(self).model() == old(self).model().disconnect(),
            teardown.channel == old(self).model().channel,
            distinct_keys(teardown.lost@),
            pairs_to_map(teardown.lost@) == connection_lost(old(self).model().pending),
    ;
}

/// What holds after a request with a fresh id was offered to a session that
/// was in the state `before`.
///
/// An accepted request is in the table of `after` under its id, which is the
/// text of a random UUID. A refused one leaves the session as it was: with
/// `NotConnected` unless the session is connected, and with
/// `InvalidParameter` where the fresh id is in flight already. So a
/// connected session with no UUID among its pending ids accepts.
pub open spec fn fresh_send<C, T>(
    before: SessionModel<C, T>,
    after: SessionModel<C, T>,
    step: Result<MCPRequest, Rejected<T>>,
    slot: T,
    now: u64,
) -> bool {
    match step {
        Ok(request) => {
            &&& is_uuid_v4_text(request.id@)
            &&& before.accepts(request.id@)
            &&& after == before.send(request.id@, slot, now)
        },
        Err(rejected) => {
            &&& rejected.slot == slot
            &&& after == before
            &&& if before.state != ConnectionState::Connected {
                rejected.error == ClientError::NotConnected
            } else {
                &&& rejected.error == ClientError::InvalidParameter
                &&& exists|id: Seq<char>| is_uuid_v4_text(id) && #[trigger] before.pending.contains_key(id)
            }
        },
    }
}

/// Offers a request that an operation has built to the session: a request
/// goes to [`Session::send_request`], and the error of an operation that
/// refused its arguments is handed on with the slot, the session untouched.
pub(crate) fn submit<C, T>(
    session: &mut Session<C, T>,
    built: Result<MCPRequest, ClientError>,
    slot: T,
    now: u64,
) -> (step: Result<MCPRequest, Rejected<T>>)
    requires
        old(session).wf(),
    ensures
        final(session).wf(),
        match built {
            Ok(request) => {
                &&& final(session)@ == old(session)@.send(request.id@, slot, now)
                &&& old(session)@.accepts(request.id@) ==> step == Ok::<MCPRequest, Rejected<T>>(
                    request,
                )
                &&& !old(session)@.accepts(request.id@) ==> step == Err::<MCPRequest, Rejected<T>>(
                    Rejected { error: old(session)@.refusal(request.id@), slot },
                )
            },
            Err(error) => {
                &&& final(session)@ == old(session)@
                &&& step == Err::<MCPRequest, Rejected<T>>(Rejected { error, slot })
            },
        },
{
    match built {
        Ok(request) => session.send_request(request, slot, now),
        Err(error) => Err(Rejected { error, slot }),
    }
}

} // verus!
