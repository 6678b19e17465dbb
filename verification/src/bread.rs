//! The adapter of the financial-rails backend.

use vstd::prelude::*;
use crate::client::{fresh_send, submit, MCPClient, DEFAULT_TIMEOUT_MS};
use crate::envelope::{fresh_id, MCPRequest};
use crate::error::ClientError;
use crate::json::{Double, JsonValue};
use crate::session::{ConnectStep, Rejected, Session, SessionModel, Teardown};
use crate::string_map::StringMap;

verus! {

/// The request that opens an account: its parameters are the data of the
/// user, as given.
pub open spec fn is_create_account_request(
    request: MCPRequest,
    user_data: StringMap<JsonValue>,
    id: Seq<char>,
) -> bool {
    &&& request.method@ == "create_account"@
    &&& request.id@ == id
    &&& request.params == user_data
}

/// The request for a quote: its parameters are `amount` and `currency`.
pub open spec fn is_quote_request(
    request: MCPRequest,
    amount: Double,
    currency: Seq<char>,
    id: Seq<char>,
) -> bool {
    &&& request.method@ == "get_quote"@
    &&& request.id@ == id
    &&& request.params.wf()
    &&& forall|key: Seq<char>| #[trigger]
        request.params@.contains_key(key) <==> key == "amount"@ || key == "currency"@
    &&& request.has_double_param("amount"@, amount)
    &&& request.has_string_param("currency"@, currency)
}

/// The request that funds a wallet: its parameters are `wallet_address` and
/// `amount`.
pub open spec fn is_fund_wallet_request(
    request: MCPRequest,
    wallet_address: Seq<char>,
    amount: Double,
    id: Seq<char>,
) -> bool {
    &&& request.method@ == "fund_wallet"@
    &&& request.id@ == id
    &&& request.params.wf()
    &&& forall|key: Seq<char>| #[trigger]
        request.params@.contains_key(key) <==> key == "wallet_address"@ || key == "amount"@
    &&& request.has_string_param("wallet_address"@, wallet_address)
    &&& request.has_double_param("amount"@, amount)
}

/// The request that withdraws funds: its parameters are `wallet_address`,
/// `amount` and the bank details. The two arguments stand whatever the bank
/// details hold: a bank detail named `wallet_address` or `amount` does not
/// reach the request.
pub open spec fn is_withdraw_funds_request(
    request: MCPRequest,
    wallet_address: Seq<char>,
    amount: Double,
    bank_details: Map<Seq<char>, JsonValue>,
    id: Seq<char>,
) -> bool {
    &&& request.method@ == "withdraw_funds"@
    &&& request.id@ == id
    &&& request.params.wf()
    &&& forall|key: Seq<char>| #[trigger]
        request.params@.contains_key(key) <==> key == "wallet_address"@ || key == "amount"@
            || bank_details.contains_key(key)
    &&& request.has_string_param("wallet_address"@, wallet_address)
    &&& request.has_double_param("amount"@, amount)
    &&& forall|key: Seq<char>| #[trigger]
        bank_details.contains_key(key) && key != "wallet_address"@ && key != "amount"@
            ==> request.params@[key] == bank_details[key]
}

/// Each operation of this adapter has a method name of its own.
pub proof fn lemma_method_names_differ()
    ensures
        "create_account"@ != "get_quote"@,
        "create_account"@ != "fund_wallet"@,
        "create_account"@ != "withdraw_funds"@,
        "get_quote"@ != "fund_wallet"@,
        "get_quote"@ != "withdraw_funds"@,
        "fund_wallet"@ != "withdraw_funds"@,
{
    reveal_strlit("create_account");
    reveal_strlit("get_quote");
    reveal_strlit("fund_wallet");
    reveal_strlit("withdraw_funds");
    assert("create_account"@[0] == 'c');
    assert("get_quote"@[0] == 'g');
    assert("fund_wallet"@[0] == 'f');
    assert("withdraw_funds"@[0] == 'w');
}

/// The names of the parameters of one operation differ from each other.
proof fn lemma_names_differ()
    ensures
        "amount"@ != "currency"@,
        "wallet_address"@ != "amount"@,
{
    reveal_strlit("amount");
    reveal_strlit("currency");
    reveal_strlit("wallet_address");
    assert("amount"@.len() == 6);
    assert("currency"@.len() == 8);
    assert("wallet_address"@.len() == 14);
}

/// Builds the request that opens an account, under the id `id`.
pub fn create_account_request(user_data: StringMap<JsonValue>, id: String) -> (request: MCPRequest)
    ensures
        is_create_account_request(request, user_data, id@),
{
    MCPRequest::new("create_account".to_owned(), user_data, id)
}

/// Builds the request for a quote, under the id `id`. The amount has to be
/// finite and not below zero.
pub fn quote_request(amount: Double, currency: &str, id: String) -> (built: Result<
    MCPRequest,
    ClientError,
>)
    ensures
        amount.is_finite_non_negative() ==> (built matches Ok(request) && is_quote_request(
            request,
            amount,
            currency@,
            id@,
        )),
        !amount.is_finite_non_negative() ==> built == Err::<MCPRequest, ClientError>(
            ClientError::InvalidParameter,
        ),
{
    if !amount.finite_non_negative() {
        return Err(ClientError::InvalidParameter);
    }
    proof {
        lemma_names_differ();
    }
    let mut params = StringMap::new();
    params.insert("amount".to_owned(), JsonValue::double(amount));
    params.insert("currency".to_owned(), JsonValue::string(currency));
    Ok(MCPRequest::new("get_quote".to_owned(), params, id))
}

/// Builds the request that funds a wallet, under the id `id`. The amount has
/// to be finite and not below zero.
pub fn fund_wallet_request(wallet_address: &str, amount: Double, id: String) -> (built: Result<
    MCPRequest,
    ClientError,
>)
    ensures
        amount.is_finite_non_negative() ==> (built matches Ok(request) && is_fund_wallet_request(
            request,
            wallet_address@,
            amount,
            id@,
        )),
        !amount.is_finite_non_negative() ==> built == Err::<MCPRequest, ClientError>(
            ClientError::InvalidParameter,
        ),
{
    if !amount.finite_non_negative() {
        return Err(ClientError::InvalidParameter);
    }
    proof {
        lemma_names_differ();
    }
    let mut params = StringMap::new();
    params.insert("wallet_address".to_owned(), JsonValue::string(wallet_address));
    params.insert("amount".to_owned(), JsonValue::double(amount));
    Ok(MCPRequest::new("fund_wallet".to_owned(), params, id))
}

/// Builds the request that withdraws funds, under the id `id`. The amount
/// has to be finite and not below zero, and it is the amount of the
/// request: the bank details cannot put another in its place.
pub fn withdraw_funds_request(
    wallet_address: &str,
    amount: Double,
    bank_details: StringMap<JsonValue>,
    id: String,
) -> (built: Result<MCPRequest, ClientError>)
    requires
        bank_details.wf(),
    ensures
        amount.is_finite_non_negative() ==> (built matches Ok(request) && is_withdraw_funds_request(
            request,
            wallet_address@,
            amount,
            bank_details@,
            id@,
        )),
        !amount.is_finite_non_negative() ==> built == Err::<MCPRequest, ClientError>(
            ClientError::InvalidParameter,
        ),
{
    if !amount.finite_non_negative() {
        return Err(ClientError::InvalidParameter);
    }
    proof {
        lemma_names_differ();
    }
    let mut params = bank_details;
    params.insert("wallet_address".to_owned(), JsonValue::string(wallet_address));
    params.insert("amount".to_owned(), JsonValue::double(amount));
    Ok(MCPRequest::new("withdraw_funds".to_owned(), params, id))
}

/// The client of the financial-rails backend. It owns its session.
#[derive(Debug)]
pub struct BreadMCPClient<C, T> {
    pub session: Session<C, T>,
}

impl<C, T> BreadMCPClient<C, T> {
    /// A disconnected client for the server at `server_url`.
    pub fn new(server_url: String) -> (client: Self)
        ensures
            client.wf(),
            client.model() == SessionModel::<C, T>::initial(server_url@, DEFAULT_TIMEOUT_MS),
    {
        BreadMCPClient { session: Session::new(server_url, DEFAULT_TIMEOUT_MS) }
    }

    /// Opens an account for the user described by `user_data`.
    pub fn create_account(&mut self, user_data: StringMap<JsonValue>, slot: T, now: u64) -> (step:
        Result<MCPRequest, Rejected<T>>)
        requires
            old(self).wf(),
        ensures
            final(self).wf(),
            fresh_send(old(self).model(), final(self).model(), step, slot, now),
            step matches Ok(request) ==> is_create_account_request(request, user_data, request.id@),
    {
        let request = create_account_request(user_data, fresh_id());
        submit(&mut self.session, Ok(request), slot, now)
    }

    /// Asks what `amount` of `currency` costs. An amount that is not finite
    /// or is below zero is refused with `InvalidParameter`, and nothing is
    /// entered or transmitted.
    pub fn get_quote(&mut self, amount: Double, currency: &str, slot: T, now: u64) -> (step: Result<
        MCPRequest,
        Rejected<T>,
    >)
        requires
            old(self).wf(),
        ensures
            final(self).wf(),
            !amount.is_finite_non_negative() ==> final(self).model() == old(self).model() && step
                == Err::<MCPRequest, Rejected<T>>(
                Rejected { error: ClientError::InvalidParameter, slot },
            ),
            amount.is_finite_non_negative() ==> fresh_send(
                old(self).model(),
                final(self).model(),
                step,
                slot,
                now,
            ),
            step matches Ok(request) ==> is_quote_request(request, amount, currency@, request.id@),
    {
        if !amount.finite_non_negative() {
            return Err(Rejected { error: ClientError::InvalidParameter, slot });
        }
        let built = quote_request(amount, currency, fresh_id());
        submit(&mut self.session, built, slot, now)
    }

    /// Moves `amount` into the wallet at `wallet_address`. An amount that is
    /// not finite or is below zero is refused with `InvalidParameter`, and
    /// nothing is entered or transmitted.
    pub fn fund_wallet(&mut self, wallet_address: &str, amount: Double, slot: T, now: u64) -> (step:
        Result<MCPRequest, Rejected<T>>)
        requires
            old(self).wf(),
        ensures
            final(self).wf(),
            !amount.is_finite_non_negative() ==> final(self).model() == old(self).model() && step
                == Err::<MCPRequest, Rejected<T>>(
                Rejected { error: ClientError::InvalidParameter, slot },
            ),
            amount.is_finite_non_negative() ==> fresh_send(
                old(self).model(),
                final(self).model(),
                step,
                slot,
                now,
            ),
            step matches Ok(request) ==> is_fund_wallet_request(
                request,
                wallet_address@,
                amount,
                request.id@,
            ),
    {
        if !amount.finite_non_negative() {
            return Err(Rejected { error: ClientError::InvalidParameter, slot });
        }
        let built = fund_wallet_request(wallet_address, amount, fresh_id());
        submit(&mut self.session, built, slot, now)
    }

    /// Moves `amount` out of the wallet at `wallet_address` to the bank
    /// account described by `bank_details`. An amount that is not finite or
    /// is below zero is refused with `InvalidParameter`, and nothing is
    /// entered or transmitted.
    pub fn withdraw_funds(
        &mut self,
        wallet_address: &str,
        amount: Double,
        bank_details: StringMap<JsonValue>,
        slot: T,
        now: u64,
    ) -> (step: Result<MCPRequest, Rejected<T>>)
        requires
            old(self).wf(),
            bank_details.wf(),
        ensures
            final(self).wf(),
            !amount.is_finite_non_negative() ==> final(self).model() == old(self).model() && step
                == Err::<MCPRequest, Rejected<T>>(
                Rejected { error: ClientError::InvalidParameter, slot },
            ),
            amount.is_finite_non_negative() ==> fresh_send(
                old(self).model(),
                final(self).model(),
                step,
                slot,
                now,
            ),
            step matches Ok(request) ==> is_withdraw_funds_request(
                request,
                wallet_address@,
                amount,
                bank_details@,
                request.id@,
            ),
    {
        if !amount.finite_non_negative() {
            return Err(Rejected { error: ClientError::InvalidParameter, slot });
        }
        let built = withdraw_funds_request(wallet_address, amount, bank_details, fresh_id());
        submit(&mut self.session, built, slot, now)
    }
}

impl<C, T> MCPClient<C, T> for BreadMCPClient<C, T> {
    open spec fn wf(&self) -> bool {
        self.session.wf()
    }

    open spec fn model(&self) -> SessionModel<C, T> {
        self.session@
    }

    fn connect(&mut self) -> (step: ConnectStep) {
        self.session.connect()
    }

    fn send_request(&mut self, request: MCPRequest, slot: T, now: u64) -> (step: Result<
        MCPRequest,
        Rejected<T>,
    >) {
        self.session.send_request(request, slot, now)
    }

    fn disconnect(&mut self) -> (teardown: Teardown<C, T>) {
        self.session.disconnect()
    }
}

} // verus!
