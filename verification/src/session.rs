//! One logical connection to one backend, as a state machine.
//!
//! A session is `Disconnected`, `Connecting` or `Connected`. Requests are
//! accepted only while it is `Connected`; each accepted request is entered in
//! the table of pending requests until its response arrives, its deadline
//! passes, its caller gives up, or the session is torn down.
//!
//! The session does no I/O. Each method is one transition: it updates the
//! session and tells the runtime what to do. [`SessionModel`] is the
//! mathematical state that the contracts speak of.

use vstd::prelude::*;
use crate::envelope::{validate_response, MCPRequest, MCPResponse, RawResponse};
use crate::error::ClientError;
use crate::registry::{
    connection_lost, timed_out, unexpired, Completion, Pending, PendingRegistry,
};
use crate::string_map::{distinct_keys, pairs_to_map};

verus! {

/// Where a session stands in its life.
#[derive(Clone, Copy, Debug, PartialEq, Eq, Structural)]
pub enum ConnectionState {
    Disconnected,
    Connecting,
    Connected,
}

/// What the runtime has to do after asking a session to connect.
#[derive(Clone, Copy, Debug, PartialEq, Eq, Structural)]
pub enum ConnectStep {
    /// The session is now `Connecting`: establish the channel to its
    /// endpoint and report how that went.
    Dial,
    /// The session is connected already.
    AlreadyConnected,
    /// The channel is being established already.
    InProgress,
}

/// A request that was refused, with the slot of its caller handed back.
#[derive(Debug)]
pub struct Rejected<T> {
    pub error: ClientError,
    pub slot: T,
}

/// What became of a response off the transport.
#[derive(Debug)]
pub enum Dispatch<T> {
    /// The response answers a pending request: it is the outcome for the
    /// caller behind the slot. The entry is gone from the table.
    Deliver(Completion<T>),
    /// No request with the id of the response is pending: nobody waits for
    /// it. The session is unharmed.
    Unmatched { response: MCPResponse },
    /// The response failed validation and was dropped.
    Malformed,
}

/// What a torn-down session leaves behind: the channel to close, and for
/// each request that was in flight, by its id, the completion that tells its
/// caller that the connection is lost.
#[derive(Debug)]
pub struct Teardown<C, T> {
    pub channel: Option<C>,
    pub lost: Vec<(String, Completion<T>)>,
}

/// The state of a session, as the contracts see it.
pub struct SessionModel<C, T> {
    pub endpoint: Seq<char>,
    pub timeout: u64,
    pub state: ConnectionState,
    pub channel: Option<C>,
    pub pending: Map<Seq<char>, Pending<T>>,
}

impl<C, T> SessionModel<C, T> {
    /// What holds of every session: it has a channel exactly while it is
    /// connected, and only a connected session has requests in flight.
    pub open spec fn inv(self) -> bool {
        &&& self.channel.is_some() <==> self.state == ConnectionState::Connected
        &&& self.state != ConnectionState::Connected ==> self.pending == Map::<
            Seq<char>,
            Pending<T>,
        >::empty()
        &&& self.pending.dom().finite()
    }

    /// A fresh session for `endpoint`.
    pub open spec fn initial(endpoint: Seq<char>, timeout: u64) -> Self {
        SessionModel {
            endpoint,
            timeout,
            state: ConnectionState::Disconnected,
            channel: None,
            pending: Map::empty(),
        }
    }

    /// What the runtime has to do when this session is asked to connect.
    pub open spec fn connect_step(self) -> ConnectStep {
        match self.state {
            ConnectionState::Disconnected => ConnectStep::Dial,
            ConnectionState::Connecting => ConnectStep::InProgress,
            ConnectionState::Connected => ConnectStep::AlreadyConnected,
        }
    }

    /// A disconnected session starts connecting; any other stays as it is.
    pub open spec fn connect(self) -> Self {
        if self.state == ConnectionState::Disconnected {
            SessionModel { state: ConnectionState::Connecting, ..self }
        } else {
            self
        }
    }

    /// A connecting session takes the channel and is connected; any other
    /// stays as it is.
    pub open spec fn established(self, channel: C) -> Self {
        if self.state == ConnectionState::Connecting {
            SessionModel { state: ConnectionState::Connected, channel: Some(channel), ..self }
        } else {
            self
        }
    }

    /// A connecting session falls back to disconnected; any other stays as
    /// it is.
    pub open spec fn failed(self) -> Self {
        if self.state == ConnectionState::Connecting {
            SessionModel { state: ConnectionState::Disconnected, ..self }
        } else {
            self
        }
    }

    /// The deadline of a request sent at `now`: `now` plus the timeout, or
    /// the largest time where that sum is out of range.
    pub open spec fn deadline(self, now: u64) -> u64 {
        if now + self.timeout > u64::MAX {
            u64::MAX
        } else {
            (now + self.timeout) as u64
        }
    }

    /// Whether a request with the id `id` is accepted: the session is
    /// connected and no request with that id is in flight.
    pub open spec fn accepts(self, id: Seq<char>) -> bool {
        self.state == ConnectionState::Connected && !self.pending.contains_key(id)
    }

    /// Why a request with the id `id` is refused, where it is.
    pub open spec fn refusal(self, id: Seq<char>) -> ClientError {
        if self.state != ConnectionState::Connected {
            ClientError::NotConnected
        } else {
            ClientError::InvalidParameter
        }
    }

    /// An accepted request is entered in the table with its deadline; a
    /// refused one changes nothing.
    pub open spec fn send(self, id: Seq<char>, slot: T, now: u64) -> Self {
        if self.accepts(id) {
            SessionModel {
                pending: self.pending.insert(id, Pending { deadline: self.deadline(now), slot }),
                ..self
            }
        } else {
            self
        }
    }

    /// What becomes of the response `raw`.
    pub open spec fn dispatch(self, raw: RawResponse) -> Dispatch<T> {
        if !raw.is_well_formed() {
            Dispatch::Malformed
        } else if self.pending.contains_key(raw.id->0@) {
            Dispatch::Deliver(
                Completion { slot: self.pending[raw.id->0@].slot, outcome: Ok(raw.validated()) },
            )
        } else {
            Dispatch::Unmatched { response: raw.validated() }
        }
    }

    /// A well-formed response takes the entry of its id out of the table,
    /// where there is one; nothing else changes.
    pub open spec fn receive(self, raw: RawResponse) -> Self {
        if raw.is_well_formed() && self.pending.contains_key(raw.id->0@) {
            SessionModel { pending: self.pending.remove(raw.id->0@), ..self }
        } else {
            self
        }
    }

    /// The entries whose deadline has come at `now` leave the table.
    pub open spec fn expire(self, now: u64) -> Self {
        SessionModel { pending: unexpired(self.pending, now), ..self }
    }

    /// The entry of `id` leaves the table, where there is one.
    pub open spec fn cancel(self, id: Seq<char>) -> Self {
        if self.pending.contains_key(id) {
            SessionModel { pending: self.pending.remove(id), ..self }
        } else {
            self
        }
    }

    /// The session is disconnected, without a channel and with nothing in
    /// flight.
    pub open spec fn disconnect(self) -> Self {
        SessionModel {
            state: ConnectionState::Disconnected,
            channel: None,
            pending: Map::empty(),
            ..self
        }
    }
}

/// A session with a backend. `C` is the handle of the outbound channel and
/// `T` the slot through which a waiting caller is told the outcome; the
/// session keeps both and looks into neither.
#[derive(Debug)]
pub struct Session<C, T> {
    endpoint: String,
    timeout: u64,
    state: ConnectionState,
    channel: Option<C>,
    pending: PendingRegistry<T>,
}

impl<C, T> View for Session<C, T> {
    type V = SessionModel<C, T>;

    closed spec fn view(&self) -> SessionModel<C, T> {
        SessionModel {
            endpoint: self.endpoint@,
            timeout: self.timeout,
            state: self.state,
            channel: self.channel,
            pending: self.pending@,
        }
    }
}

impl<C, T> Session<C, T> {
    /// The invariant of the representation. Every constructor establishes it
    /// and every method keeps it; it includes the invariant of the model.
    pub closed spec fn wf(&self) -> bool {
        self.pending.wf() && self@.inv()
    }

    /// Every well-formed session satisfies the invariant of the model.
    pub proof fn lemma_wf_inv(&self)
        requires
            self.wf(),
        ensures
            self@.inv(),
    {
    }

    /// A disconnected session for `endpoint`, whose requests wait `timeout`
    /// units of time for their response.
    pub fn new(endpoint: String, timeout: u64) -> (session: Self)
        ensures
            session.wf(),
            session@ == SessionModel::<C, T>::initial(endpoint@, timeout),
    {
        Session {
            endpoint,
            timeout,
            state: ConnectionState::Disconnected,
            channel: None,
            pending: PendingRegistry::new(),
        }
    }

    /// Where the session stands.
    pub fn state(&self) -> (state: ConnectionState)
        ensures
            state == self@.state,
    {
        self.state
    }

    /// The address of the backend.
    pub fn endpoint(&self) -> (endpoint: &str)
        ensures
            endpoint@ == self@.endpoint,
    {
        self.endpoint.as_str()
    }

    /// The time that a request waits for its response.
    pub fn timeout(&self) -> (timeout: u64)
        ensures
            timeout == self@.timeout,
    {
        self.timeout
    }

    /// Sets the time that requests sent from now on wait for their response.
    pub fn set_timeout(&mut self, timeout: u64)
        requires
            old(self).wf(),
        ensures
            final(self).wf(),
            final(self)@ == (SessionModel { timeout, ..old(self)@ }),
    {
        self.timeout = timeout;
    }

    /// The outbound channel, while the session is connected.
    pub fn channel(&self) -> (channel: Option<&C>)
        ensures
            channel.is_some() == self@.channel.is_some(),
            channel.is_some() ==> *channel.unwrap() == self@.channel.unwrap(),
    {
        self.channel.as_ref()
    }

    /// The number of requests in flight.
    pub fn pending_count(&self) -> (n: usize)
        requires
            self.wf(),
        ensures
            n == self@.pending.len(),
    {
        self.pending.len()
    }

    /// Whether a request with the id `id` is in flight.
    pub fn is_pending(&self, id: &str) -> (pending: bool)
        ensures
            pending == self@.pending.contains_key(id@),
    {
        self.pending.contains(id)
    }

    /// Asks the session to connect. Only a disconnected session changes: it
    /// is `Connecting` afterwards, and the runtime has to dial.
    pub fn connect(&mut self) -> (step: ConnectStep)
        requires
            old(self).wf(),
        ensures
            final(self).wf(),
            final(self)@ == old(self)@.connect(),
            step == old(self)@.connect_step(),
    {
        match self.state {
            ConnectionState::Disconnected => {
                self.state = ConnectionState::Connecting;
                ConnectStep::Dial
            },
            ConnectionState::Connecting => ConnectStep::InProgress,
            ConnectionState::Connected => ConnectStep::AlreadyConnected,
        }
    }

    /// Reports that the channel stands. A connecting session keeps it and is
    /// connected; any other session is left alone and the channel comes
    /// back.
    pub fn established(&mut self, channel: C) -> (unused: Option<C>)
        requires
            old(self).wf(),
        ensures
            final(self).wf(),
            final(self)@ == old(self)@.established(channel),
            unused == if old(self)@.state == ConnectionState::Connecting {
                None::<C>
            } else {
                Some(channel)
            },
    {
        match self.state {
            ConnectionState::Connecting => {
                self.channel = Some(channel);
                self.state = ConnectionState::Connected;
                None
            },
            _ => Some(channel),
        }
    }

    /// Reports that the channel could not be established. A connecting
    /// session is disconnected again. The error is the one to hand to
    /// whoever asked for the connection.
    pub fn failed(&mut self) -> (error: ClientError)
        requires
            old(self).wf(),
        ensures
            final(self).wf(),
            final(self)@ == old(self)@.failed(),
            error == ClientError::ConnectionError,
    {
        match self.state {
            ConnectionState::Connecting => {
                self.state = ConnectionState::Disconnected;
            },
            _ => {},
        }
        ClientError::ConnectionError
    }

    /// Takes a request for transmission at the time `now`.
    ///
    /// A connected session with no request of that id in flight enters the
    /// request in its table and hands it back: the runtime has to transmit
    /// it. Otherwise nothing is entered and nothing is to be transmitted:
    /// the error is `NotConnected` unless the session is connected, and
    /// `InvalidParameter` where the id is in flight already.
    pub fn send_request(&mut self, request: MCPRequest, slot: T, now: u64) -> (step: Result<
        MCPRequest,
        Rejected<T>,
    >)
        requires
            old(self).wf(),
        ensures
            final(self).wf(),
            final(self)@ == old(self)@.send(request.id@, slot, now),
            old(self)@.accepts(request.id@) ==> step == Ok::<MCPRequest, Rejected<T>>(request),
            !old(self)@.accepts(request.id@) ==> step == Err::<MCPRequest, Rejected<T>>(
                Rejected { error: old(self)@.refusal(request.id@), slot },
            ),
            old(self)@.state != ConnectionState::Connected ==> final(self)@ == old(self)@ && step
                == Err::<MCPRequest, Rejected<T>>(
                Rejected { error: ClientError::NotConnected, slot },
            ),
    {
        match self.state {
            ConnectionState::Connected => {
                let deadline = if now > u64::MAX - self.timeout {
                    u64::MAX
                } else {
                    now + self.timeout
                };
                match self.pending.register(request.id.clone(), deadline, slot) {
                    Ok(_) => Ok(request),
                    Err(slot) => Err(Rejected { error: ClientError::InvalidParameter, slot }),
                }
            },
            _ => Err(Rejected { error: ClientError::NotConnected, slot }),
        }
    }

    /// Takes a response off the transport.
    ///
    /// A malformed response is dropped. A well-formed one that answers a
    /// request in flight takes the entry out of the table and is to be
    /// delivered to its caller. Any other finds nobody waiting. Only in the
    /// second case does the session change.
    pub fn receive(&mut self, raw: RawResponse) -> (dispatch: Dispatch<T>)
        requires
            old(self).wf(),
        ensures
            final(self).wf(),
            final(self)@ == old(self)@.receive(raw),
            dispatch == old(self)@.dispatch(raw),
            !raw.is_well_formed() ==> dispatch == Dispatch::<T>::Malformed && final(self)@ == old(
                self,
            )@,
            raw.is_well_formed() && !old(self)@.pending.contains_key(raw.id->0@) ==> dispatch == (
            Dispatch::<T>::Unmatched { response: raw.validated() }) && final(self)@ == old(self)@,
            dispatch matches Dispatch::Deliver(completion) ==> {
                &&& completion.outcome == Ok::<MCPResponse, ClientError>(raw.validated())
                &&& raw.validated().is_well_formed()
                &&& raw.validated().id@ == raw.id->0@
                &&& old(self)@.pending.contains_key(raw.id->0@)
                &&& completion.slot == old(self)@.pending[raw.id->0@].slot
                &&& !final(self)@.pending.contains_key(raw.id->0@)
            },
    {
        match validate_response(raw) {
            Err(_) => Dispatch::Malformed,
            Ok(response) => {
                match self.pending.resolve(response.id.as_str()) {
                    Some(slot) => Dispatch::Deliver(Completion { slot, outcome: Ok(response) }),
                    None => {
                        assert(self.pending@ =~= old(self).pending@);
                        Dispatch::Unmatched { response }
                    },
                }
            },
        }
    }

    /// Lets the time `now` pass: every request whose deadline has come
    /// leaves the table and is handed over, by its id and once, as the
    /// completion that reports the timeout. The session stays in its state.
    pub fn expire(&mut self, now: u64) -> (expired: Vec<(String, Completion<T>)>)
        requires
            old(self).wf(),
        ensures
            final(self).wf(),
            final(self)@ == old(self)@.expire(now),
            distinct_keys(expired@),
            pairs_to_map(expired@) == timed_out(old(self)@.pending, now),
    {
        let expired = self.pending.expire(now);
        proof {
            self.pending.lemma_finite();
            if self.state != ConnectionState::Connected {
                assert(self.pending@ =~= Map::<Seq<char>, Pending<T>>::empty());
            }
        }
        expired
    }

    /// Gives up the wait for the request `id`: its entry leaves the table
    /// and its slot comes back. Where `id` is not in flight nothing changes.
    pub fn cancel(&mut self, id: &str) -> (slot: Option<T>)
        requires
            old(self).wf(),
        ensures
            final(self).wf(),
            final(self)@ == old(self)@.cancel(id@),
            slot == if old(self)@.pending.contains_key(id@) {
                Some(old(self)@.pending[id@].slot)
            } else {
                None::<T>
            },
    {
        let slot = self.pending.resolve(id);
        proof {
            if !old(self)@.pending.contains_key(id@) {
                assert(self.pending@ =~= old(self).pending@);
            }
        }
        slot
    }

    /// Tears the session down. It is disconnected afterwards, whatever it
    /// was; its channel is handed over, and every request in flight, by its
    /// id and once, as the completion that reports the loss of the
    /// connection. On a disconnected session this does nothing.
    pub fn disconnect(&mut self) -> (teardown: Teardown<C, T>)
        requires
            old(self).wf(),
        ensures
            final(self).wf(),
            final(self)@ == old(self)@.disconnect(),
            teardown.channel == old(self)@.channel,
            distinct_keys(teardown.lost@),
            pairs_to_map(teardown.lost@) == connection_lost(old(self)@.pending),
    {
        let channel = self.channel.take();
        let lost = self.pending.drain();
        self.state = ConnectionState::Disconnected;
        Teardown { channel, lost }
    }
}

} // verus!
