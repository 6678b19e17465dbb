//! The adapter of the messaging-gateway backend.

use vstd::prelude::*;
use crate::client::{fresh_send, submit, MCPClient, DEFAULT_TIMEOUT_MS};
use crate::envelope::{fresh_id, MCPRequest};
use crate::json::JsonValue;
use crate::session::{ConnectStep, Rejected, Session, SessionModel, Teardown};
use crate::string_map::StringMap;

verus! {

/// The request that sends a message: its parameters are `phone_number` and
/// `message`.
pub open spec fn is_send_message_request(
    request: MCPRequest,
    phone_number: Seq<char>,
    message: Seq<char>,
    id: Seq<char>,
) -> bool {
    &&& request.method@ == "send_message"@
    &&& request.id@ == id
    &&& request.params.wf()
    &&& forall|key: Seq<char>| #[trigger]
        request.params@.contains_key(key) <==> key == "phone_number"@ || key == "message"@
    &&& request.has_string_param("phone_number"@, phone_number)
    &&& request.has_string_param("message"@, message)
}

/// The request for the status of a chat: its one parameter is `chat_id`.
pub open spec fn is_chat_status_request(request: MCPRequest, chat_id: Seq<char>, id: Seq<char>) -> bool {
    &&& request.method@ == "get_chat_status"@
    &&& request.id@ == id
    &&& request.params.wf()
    &&& forall|key: Seq<char>| #[trigger] request.params@.contains_key(key) <==> key == "chat_id"@
    &&& request.has_string_param("chat_id"@, chat_id)
}

/// Each operation of this adapter has a method name of its own.
pub proof fn lemma_method_names_differ()
    ensures
        "send_message"@ != "get_chat_status"@,
{
    reveal_strlit("send_message");
    reveal_strlit("get_chat_status");
    assert("send_message"@[0] == 's');
    assert("get_chat_status"@[0] == 'g');
}

/// The names of the parameters of one operation differ from each other.
proof fn lemma_names_differ()
    ensures
        "phone_number"@ != "message"@,
{
    reveal_strlit("phone_number");
    reveal_strlit("message");
    assert("phone_number"@.len() == 12);
    assert("message"@.len() == 7);
}

/// Builds the request that sends a message, under the id `id`.
pub fn send_message_request(phone_number: &str, message: &str, id: String) -> (request: MCPRequest)
    ensures
        is_send_message_request(request, phone_number@, message@, id@),
{
    proof {
        lemma_names_differ();
    }
    let mut params = StringMap::new();
    params.insert("phone_number".to_owned(), JsonValue::string(phone_number));
    params.insert("message".to_owned(), JsonValue::string(message));
    MCPRequest::new("send_message".to_owned(), params, id)
}

/// Builds the request for the status of a chat, under the id `id`.
pub fn chat_status_request(chat_id: &str, id: String) -> (request: MCPRequest)
    ensures
        is_chat_status_request(request, chat_id@, id@),
{
    let mut params = StringMap::new();
    params.insert("chat_id".to_owned(), JsonValue::string(chat_id));
    MCPRequest::new("get_chat_status".to_owned(), params, id)
}

/// The client of the messaging-gateway backend. It owns its session.
#[derive(Debug)]
pub struct WaSenderMCPClient<C, T> {
    pub session: Session<C, T>,
}

impl<C, T> WaSenderMCPClient<C, T> {
    /// A disconnected client for the server at `server_url`.
    pub fn new(server_url: String) -> (client: Self)
        ensures
            client.wf(),
            client.model() == SessionModel::<C, T>::initial(server_url@, DEFAULT_TIMEOUT_MS),
    {
        WaSenderMCPClient { session: Session::new(server_url, DEFAULT_TIMEOUT_MS) }
    }

    /// Sends `message` to the recipient at `phone_number`.
    pub fn send_message(&mut self, phone_number: &str, message: &str, slot: T, now: u64) -> (step:
        Result<MCPRequest, Rejected<T>>)
        requires
            old(self).wf(),
        ensures
            final(self).wf(),
            fresh_send(old(self).model(), final(self).model(), step, slot, now),
            step matches Ok(request) ==> is_send_message_request(
                request,
                phone_number@,
                message@,
                request.id@,
            ),
    {
        let request = send_message_request(phone_number, message, fresh_id());
        submit(&mut self.session, Ok(request), slot, now)
    }

    /// Asks for the status of the chat `chat_id`.
    pub fn get_chat_status(&mut self, chat_id: &str, slot: T, now: u64) -> (step: Result<
        MCPRequest,
        Rejected<T>,
    >)
        requires
            old(self).wf(),
        ensures
            final(self).wf(),
            fresh_send(old(self).model(), final(self).model(), step, slot, now),
            step matches Ok(request) ==> is_chat_status_request(request, chat_id@, request.id@),
    {
        let request = chat_status_request(chat_id, fresh_id());
        submit(&mut self.session, Ok(request), slot, now)
    }
}

impl<C, T> MCPClient<C, T> for WaSenderMCPClient<C, T> {
    open spec fn wf(&self) -> bool {
        self.session.wf()
    }

    open spec fn model(&self) -> SessionModel<C, T> {
        self.session@
    }

    fn connect(&mut self) -> (step: ConnectStep) {
        self.session.connect()
    }

    fn send_request(&mut self, request: MCPRequest, slot: T, now: u64) -> (step: Result<
        MCPRequest,
        Rejected<T>,
    >) {
        self.session.send_request(request, slot, now)
    }

    fn disconnect(&mut self) -> (teardown: Teardown<C, T>) {
        self.session.disconnect()
    }
}

} // verus!
