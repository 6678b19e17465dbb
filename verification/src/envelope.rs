//! The request, response and error messages, and the ids that tie a
//! response to its request.

use vstd::prelude::*;
use crate::error::ClientError;
use crate::json::{Double, JsonValue};
use crate::string_map::StringMap;

verus! {

/// The error a backend reports. The code is the backend's own; the core
/// passes it on without reading it.
#[derive(Debug, PartialEq, Eq)]
pub struct MCPError {
    pub code: i32,
    pub message: String,
    pub data: Option<JsonValue>,
}

/// A request to a backend. The id must differ from the id of every other
/// request that awaits its response on the same session.
#[derive(Debug)]
pub struct MCPRequest {
    pub method: String,
    pub params: StringMap<JsonValue>,
    pub id: String,
}

/// A response from a backend. A valid response holds either a result or an
/// error, never both and never neither.
#[derive(Debug, PartialEq, Eq)]
pub struct MCPResponse {
    pub result: Option<JsonValue>,
    pub error: Option<MCPError>,
    pub id: String,
}

/// A response as it came off the transport, before validation: any of its
/// three members may be absent.
#[derive(Debug, PartialEq, Eq)]
pub struct RawResponse {
    pub result: Option<JsonValue>,
    pub error: Option<MCPError>,
    pub id: Option<String>,
}

/// A lower-case hexadecimal digit.
pub open spec fn is_lower_hex(c: char) -> bool {
    ('0' <= c && c <= '9') || ('a' <= c && c <= 'f')
}

/// The hyphenated lower-case text of a random (version 4) UUID:
/// `xxxxxxxx-xxxx-4xxx-Nxxx-xxxxxxxxxxxx`, where `N` is one of `8`, `9`, `a`
/// and `b`.
pub open spec fn is_uuid_v4_text(text: Seq<char>) -> bool {
    &&& text.len() == 36
    &&& forall|i: int|
        0 <= i < 36 ==> if i == 8 || i == 13 || i == 18 || i == 23 {
            #[trigger] text[i] == '-'
        } else if i == 14 {
            text[i] == '4'
        } else if i == 19 {
            text[i] == '8' || text[i] == '9' || text[i] == 'a' || text[i] == 'b'
        } else {
            is_lower_hex(text[i])
        }
}

/// A fresh correlation id: 122 random bits as the text of a version 4 UUID.
///
/// Trusted: this is `uuid::Uuid::new_v4` followed by `to_string`. `new_v4`
/// draws 128 bits from the operating system and overwrites six of them with
/// the version and the variant; `to_string` writes the hyphenated lower-case
/// form. The contract states the shape of that text and nothing of the
/// random digits. `new_v4` panics when the operating system cannot supply
/// random bytes.
#[verifier::external_body]
pub(crate) fn fresh_id() -> (id: String)
    ensures
        is_uuid_v4_text(id@),
{
    uuid::Uuid::new_v4().to_string()
}

impl MCPRequest {
    /// The parameter `key` is the JSON string with the text `text`.
    pub open spec fn has_string_param(&self, key: Seq<char>, text: Seq<char>) -> bool {
        self.params@.contains_key(key) && self.params@[key].is_string(text)
    }

    /// The parameter `key` is the JSON number that holds the double `d`.
    pub open spec fn has_double_param(&self, key: Seq<char>, d: Double) -> bool {
        self.params@.contains_key(key) && self.params@[key].is_double(d)
    }

    /// The request with the given members.
    pub fn new(method: String, params: StringMap<JsonValue>, id: String) -> (request: MCPRequest)
        ensures
            request.method == method,
            request.params == params,
            request.id == id,
    {
        MCPRequest { method, params, id }
    }
}

/// A request for `method` with the parameters `params` and a fresh id.
///
/// The id is random: that it differs from every id in flight is a matter of
/// probability, and the session refuses a request whose id is pending.
pub fn make_request(method: &str, params: StringMap<JsonValue>) -> (request: MCPRequest)
    ensures
        request.method@ == method@,
        request.params == params,
        is_uuid_v4_text(request.id@),
{
    MCPRequest::new(method.to_owned(), params, fresh_id())
}

impl RawResponse {
    /// The id is present, and exactly one of result and error.
    pub open spec fn is_well_formed(&self) -> bool {
        self.id.is_some() && (self.result.is_some() != self.error.is_some())
    }

    /// The response that a well-formed raw response stands for.
    pub open spec fn validated(self) -> MCPResponse
        recommends
            self.is_well_formed(),
    {
        MCPResponse { result: self.result, error: self.error, id: self.id->0 }
    }

    /// Whether this raw response passes validation.
    pub fn well_formed(&self) -> (ok: bool)
        ensures
            ok == self.is_well_formed(),
    {
        self.id.is_some() && (self.result.is_some() != self.error.is_some())
    }
}

/// Validates a response off the transport. It is accepted exactly when its
/// id is present and it holds a result or an error but not both; anything
/// else is a malformed response.
pub fn validate_response(raw: RawResponse) -> (checked: Result<MCPResponse, ClientError>)
    ensures
        raw.is_well_formed() ==> checked == Ok::<MCPResponse, ClientError>(raw.validated()),
        !raw.is_well_formed() ==> checked == Err::<MCPResponse, ClientError>(
            ClientError::MalformedResponse,
        ),
        checked matches Ok(response) ==> response.is_well_formed(),
{
    if !raw.well_formed() {
        return Err(ClientError::MalformedResponse);
    }
    match raw.id {
        Some(id) => Ok(MCPResponse { result: raw.result, error: raw.error, id }),
        None => Err(ClientError::MalformedResponse),
    }
}

/// Whether `response` settles its request. Every response does: the protocol
/// has no partial or streamed responses.
pub fn is_terminal(response: &MCPResponse) -> (terminal: bool)
    ensures
        terminal,
{
    true
}

impl MCPResponse {
    /// Exactly one of result and error is present.
    pub open spec fn is_well_formed(&self) -> bool {
        self.result.is_some() != self.error.is_some()
    }

    /// The response that reports `result` for the request `id`.
    pub fn success(id: String, result: JsonValue) -> (response: MCPResponse)
        ensures
            response == (MCPResponse { result: Some(result), error: None, id }),
            response.is_well_formed(),
    {
        MCPResponse { result: Some(result), error: None, id }
    }

    /// The response that reports `error` for the request `id`.
    pub fn failure(id: String, error: MCPError) -> (response: MCPResponse)
        ensures
            response == (MCPResponse { result: None, error: Some(error), id }),
            response.is_well_formed(),
    {
        MCPResponse { result: None, error: Some(error), id }
    }

    /// This response as it travels: with its id present.
    pub fn into_raw(self) -> (raw: RawResponse)
        ensures
            raw == (RawResponse { result: self.result, error: self.error, id: Some(self.id) }),
            raw.is_well_formed() == self.is_well_formed(),
            raw.validated() == self,
    {
        RawResponse { result: self.result, error: self.error, id: Some(self.id) }
    }

    /// What the caller of an operation is handed for this response: the
    /// response itself, or, where it bears an error, that error as the
    /// backend reported it.
    pub open spec fn outcome(self) -> Result<MCPResponse, ClientError> {
        match self.error {
            Some(error) => Err(ClientError::BackendError(error)),
            None => Ok(self),
        }
    }

    /// Turns this response into what the caller of the operation is handed:
    /// the response itself, or, where it bears an error, that error with
    /// its code, message and data unchanged.
    pub fn into_outcome(self) -> (outcome: Result<MCPResponse, ClientError>)
        ensures
            outcome == self.outcome(),
    {
        match self.error {
            Some(error) => Err(ClientError::BackendError(error)),
            None => Ok(MCPResponse { result: self.result, error: None, id: self.id }),
        }
    }
}

/// The text of the result that the loopback transport answers with.
pub open spec fn loopback_result() -> Seq<char> {
    "mock_response"@
}

/// The answer of the loopback transport, which reaches no backend: a
/// success with a fixed result, under the id of the request.
pub fn loopback_reply(request: &MCPRequest) -> (raw: RawResponse)
    ensures
        raw.is_well_formed(),
        raw.id == Some(request.id),
        raw.error.is_none(),
        raw.result.is_some(),
        raw.result->0.is_string(loopback_result()),
{
    RawResponse {
        result: Some(JsonValue::string("mock_response")),
        error: None,
        id: Some(request.id.clone()),
    }
}

} // verus!
