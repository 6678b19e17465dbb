//! Chat messages and the intent behind them.

use vstd::prelude::*;
use crate::error::ClientError;

verus! {

/// A message as a channel delivers it.
#[derive(Clone, Debug, PartialEq, Eq)]
pub struct Message {
    pub id: String,
    pub content: String,
    pub sender: String,
    pub timestamp: i64,
}

/// What the sender of a message wants.
#[derive(Clone, Copy, Debug, PartialEq, Eq, Structural)]
pub enum MessageIntent {
    WalletFund,
    VendorSearch,
    Unknown,
}

/// The label of an intent that could not be told.
pub open spec fn unknown_label() -> Seq<char> {
    "unknown"@
}

/// The client of the service that classifies messages.
#[derive(Debug)]
pub struct WitClient {
    api_token: String,
}

impl WitClient {
    /// The token that this client presents to the service.
    pub closed spec fn token(&self) -> Seq<char> {
        self.api_token@
    }

    /// A client that presents `api_token`.
    pub fn new(api_token: String) -> (client: Self)
        ensures
            client.token() == api_token@,
    {
        Self { api_token }
    }

    /// The label of the intent of `message`. No message is told apart yet:
    /// the label is always the one for an unknown intent.
    pub fn classify_intent(&self, message: &str) -> (label: Result<String, ClientError>)
        ensures
            label matches Ok(text) && text@ == unknown_label(),
    {
        Ok("unknown".to_owned())
    }
}

} // verus!
