use linka_core::bread::{
    create_account_request, fund_wallet_request, quote_request, withdraw_funds_request,
    BreadMCPClient,
};
use linka_core::client::{MCPClient, DEFAULT_TIMEOUT_MS};
use linka_core::envelope::{loopback_reply, MCPRequest, MCPResponse};
use linka_core::error::ClientError;
use linka_core::intent::{Message, MessageIntent, WitClient};
use linka_core::json::{Double, JsonNumber, JsonValue};
use linka_core::session::{ConnectStep, ConnectionState, Dispatch, Rejected};
use linka_core::string_map::StringMap;
use linka_core::wallet::Wallet;
use linka_core::wasender::{chat_status_request, send_message_request, WaSenderMCPClient};

fn double(x: f64) -> Double {
    Double::from_bits(x.to_bits())
}

fn number(x: f64) -> JsonValue {
    JsonValue::Number(JsonNumber::Float(double(x)))
}

fn text(s: &str) -> JsonValue {
    JsonValue::String(s.to_string())
}

fn bread() -> BreadMCPClient<&'static str, u32> {
    let mut client = BreadMCPClient::new("wss://bread.example/mcp".to_string());
    assert_eq!(client.connect(), ConnectStep::Dial);
    assert_eq!(client.session.established("channel"), None);
    client
}

fn wasender() -> WaSenderMCPClient<&'static str, u32> {
    let mut client = WaSenderMCPClient::new("wss://wasender.example/mcp".to_string());
    assert_eq!(client.connect(), ConnectStep::Dial);
    assert_eq!(client.session.established("channel"), None);
    client
}

fn round_trip<M: MCPClient<&'static str, u32>>(client: &mut M, id: &str) -> Result<MCPRequest, Rejected<u32>> {
    assert_eq!(client.connect(), ConnectStep::Dial);
    let request = MCPRequest::new("op".to_string(), StringMap::new(), id.to_string());
    let step = client.send_request(request, 9, 0);
    let teardown = client.disconnect();
    assert_eq!(teardown.channel, None);
    assert!(teardown.lost.is_empty());
    step
}

#[test]
fn new_clients_are_disconnected() {
    let bread: BreadMCPClient<&str, u32> = BreadMCPClient::new("wss://bread".to_string());
    assert_eq!(bread.session.state(), ConnectionState::Disconnected);
    assert_eq!(bread.session.endpoint(), "wss://bread");
    assert_eq!(bread.session.timeout(), DEFAULT_TIMEOUT_MS);
    assert_eq!(bread.session.timeout(), 30_000);
    assert_eq!(bread.session.channel(), None);
    let wasender: WaSenderMCPClient<&str, u32> = WaSenderMCPClient::new("wss://wa".to_string());
    assert_eq!(wasender.session.state(), ConnectionState::Disconnected);
    assert_eq!(wasender.session.endpoint(), "wss://wa");
    assert_eq!(wasender.session.timeout(), 30_000);
}

#[test]
fn quote_end_to_end() {
    let mut client = bread();
    let request = client.get_quote(double(100.0), "USD", 1, 0).unwrap();
    assert_eq!(request.method, "get_quote");
    assert_eq!(request.params.len(), 2);
    assert_eq!(request.params.get("amount"), Some(&number(100.0)));
    assert_eq!(request.params.get("currency"), Some(&text("USD")));
    assert!(client.session.is_pending(&request.id));
    let injected = loopback_reply(&request);
    match client.session.receive(injected) {
        Dispatch::Deliver(completion) => {
            assert_eq!(completion.slot, 1);
            let response = completion.outcome.unwrap();
            assert_eq!(response.id, request.id);
            let delivered = response.into_outcome().unwrap();
            assert_eq!(delivered, MCPResponse::success(request.id, text("mock_response")));
        }
        other => panic!("{:?}", other),
    }
    assert_eq!(client.session.pending_count(), 0);
}

#[test]
fn disconnect_while_fund_wallet_is_pending_reports_the_lost_connection() {
    let mut client = bread();
    let request = client.fund_wallet("0xabc", double(25.5), 4, 0).unwrap();
    assert_eq!(request.method, "fund_wallet");
    let teardown = client.disconnect();
    assert_eq!(teardown.channel, Some("channel"));
    assert_eq!(teardown.lost.len(), 1);
    let (id, completion) = teardown.lost.into_iter().next().unwrap();
    assert_eq!(id, request.id);
    assert_eq!(completion.slot, 4);
    assert_eq!(completion.outcome, Err(ClientError::ConnectionLost));
    assert_eq!(client.session.state(), ConnectionState::Disconnected);
}

#[test]
fn operations_on_a_client_that_is_not_connected_are_refused() {
    let mut client: BreadMCPClient<&str, u32> = BreadMCPClient::new("wss://bread".to_string());
    let rejected = client.get_quote(double(1.0), "USD", 3, 0).unwrap_err();
    assert_eq!(rejected.error, ClientError::NotConnected);
    assert_eq!(rejected.slot, 3);
    assert_eq!(client.session.pending_count(), 0);
    client.connect();
    let rejected = client.fund_wallet("0xabc", double(1.0), 4, 0).unwrap_err();
    assert_eq!(rejected.error, ClientError::NotConnected);
    assert_eq!(rejected.slot, 4);
    let mut client: WaSenderMCPClient<&str, u32> = WaSenderMCPClient::new("wss://wa".to_string());
    let rejected = client.send_message("+15550100", "hi", 5, 0).unwrap_err();
    assert_eq!(rejected.error, ClientError::NotConnected);
    assert_eq!(rejected.slot, 5);
}

#[test]
fn amounts_that_are_not_finite_or_are_negative_are_refused() {
    let mut client = bread();
    for bad in [f64::NAN, f64::INFINITY, f64::NEG_INFINITY, -0.01, -1e300, -5e-324] {
        let rejected = client.get_quote(double(bad), "USD", 3, 0).unwrap_err();
        assert_eq!(rejected.error, ClientError::InvalidParameter);
        assert_eq!(rejected.slot, 3);
        let rejected = client.fund_wallet("0xabc", double(bad), 4, 0).unwrap_err();
        assert_eq!(rejected.error, ClientError::InvalidParameter);
        assert_eq!(rejected.slot, 4);
        let rejected =
            client.withdraw_funds("0xabc", double(bad), StringMap::new(), 5, 0).unwrap_err();
        assert_eq!(rejected.error, ClientError::InvalidParameter);
        assert_eq!(rejected.slot, 5);
    }
    assert_eq!(client.session.pending_count(), 0);
    assert_eq!(client.session.state(), ConnectionState::Connected);
}

#[test]
fn invalid_amount_is_reported_even_when_not_connected() {
    let mut client: BreadMCPClient<&str, u32> = BreadMCPClient::new("wss://bread".to_string());
    let rejected = client.get_quote(double(f64::NAN), "USD", 3, 0).unwrap_err();
    assert_eq!(rejected.error, ClientError::InvalidParameter);
}

#[test]
fn zero_and_the_largest_double_are_valid_amounts() {
    let mut client = bread();
    for good in [0.0, -0.0, 5e-324, 0.01, 100.0, f64::MAX] {
        let request = client.get_quote(double(good), "USD", 3, 0).unwrap();
        assert_eq!(request.params.get("amount"), Some(&number(good)));
    }
    assert_eq!(client.session.pending_count(), 6);
}

#[test]
fn quote_request_is_built_under_the_given_id() {
    let request = quote_request(double(100.0), "USD", "id-1".to_string()).unwrap();
    assert_eq!(request.method, "get_quote");
    assert_eq!(request.id, "id-1");
    assert_eq!(request.params.len(), 2);
    assert_eq!(request.params.get("amount"), Some(&number(100.0)));
    assert_eq!(request.params.get("currency"), Some(&text("USD")));
    assert_eq!(
        quote_request(double(-1.0), "USD", "id-2".to_string()).unwrap_err(),
        ClientError::InvalidParameter
    );
}

#[test]
fn fund_wallet_request_is_built_under_the_given_id() {
    let request = fund_wallet_request("0xabc", double(12.5), "id-1".to_string()).unwrap();
    assert_eq!(request.method, "fund_wallet");
    assert_eq!(request.id, "id-1");
    assert_eq!(request.params.len(), 2);
    assert_eq!(request.params.get("wallet_address"), Some(&text("0xabc")));
    assert_eq!(request.params.get("amount"), Some(&number(12.5)));
    assert_eq!(
        fund_wallet_request("0xabc", double(f64::INFINITY), "id-2".to_string()).unwrap_err(),
        ClientError::InvalidParameter
    );
}

#[test]
fn withdraw_funds_request_carries_the_bank_details() {
    let mut bank = StringMap::new();
    bank.insert("iban".to_string(), text("DE02120300000000202051"));
    bank.insert("holder".to_string(), text("A. Person"));
    let request = withdraw_funds_request("0xabc", double(40.0), bank, "id-1".to_string()).unwrap();
    assert_eq!(request.method, "withdraw_funds");
    assert_eq!(request.id, "id-1");
    assert_eq!(request.params.len(), 4);
    assert_eq!(request.params.get("wallet_address"), Some(&text("0xabc")));
    assert_eq!(request.params.get("amount"), Some(&number(40.0)));
    assert_eq!(request.params.get("iban"), Some(&text("DE02120300000000202051")));
    assert_eq!(request.params.get("holder"), Some(&text("A. Person")));
}

#[test]
fn bank_details_cannot_replace_the_arguments() {
    let mut bank = StringMap::new();
    bank.insert("wallet_address".to_string(), text("0xdef"));
    bank.insert("amount".to_string(), number(-5.0));
    bank.insert("iban".to_string(), JsonValue::Null);
    let request = withdraw_funds_request("0xabc", double(10.0), bank, "id-1".to_string()).unwrap();
    assert_eq!(request.params.len(), 3);
    assert_eq!(request.params.get("wallet_address"), Some(&text("0xabc")));
    assert_eq!(request.params.get("amount"), Some(&number(10.0)));
    assert_eq!(request.params.get("iban"), Some(&JsonValue::Null));
}

#[test]
fn withdraw_funds_never_sends_an_amount_from_the_bank_details() {
    let mut client = bread();
    for smuggled in [-5.0, f64::NAN, f64::INFINITY, 99.0] {
        let mut bank = StringMap::new();
        bank.insert("amount".to_string(), number(smuggled));
        let request = client.withdraw_funds("0xabc", double(10.0), bank, 2, 0).unwrap();
        assert_eq!(request.params.len(), 2);
        assert_eq!(request.params.get("amount"), Some(&number(10.0)));
        assert_eq!(request.params.get("wallet_address"), Some(&text("0xabc")));
    }
    let mut bank = StringMap::new();
    bank.insert("amount".to_string(), number(10.0));
    let rejected = client.withdraw_funds("0xabc", double(-5.0), bank, 3, 0).unwrap_err();
    assert_eq!(rejected.error, ClientError::InvalidParameter);
    assert_eq!(rejected.slot, 3);
    assert_eq!(client.session.pending_count(), 4);
}

#[test]
fn withdraw_funds_with_an_invalid_amount_is_refused() {
    let mut bank = StringMap::new();
    bank.insert("iban".to_string(), JsonValue::Null);
    assert_eq!(
        withdraw_funds_request("0xabc", double(f64::NAN), bank, "id-1".to_string()).unwrap_err(),
        ClientError::InvalidParameter
    );
}

#[test]
fn create_account_request_carries_the_user_data() {
    let mut user = StringMap::new();
    user.insert("email".to_string(), text("a@example.org"));
    user.insert("age".to_string(), JsonValue::Number(JsonNumber::PosInt(33)));
    let request = create_account_request(user, "id-1".to_string());
    assert_eq!(request.method, "create_account");
    assert_eq!(request.id, "id-1");
    assert_eq!(request.params.len(), 2);
    assert_eq!(request.params.get("email"), Some(&text("a@example.org")));
    assert_eq!(request.params.get("age"), Some(&JsonValue::Number(JsonNumber::PosInt(33))));
}

#[test]
fn create_account_sends_the_user_data() {
    let mut client = bread();
    let mut user = StringMap::new();
    user.insert("email".to_string(), text("a@example.org"));
    let request = client.create_account(user, 2, 0).unwrap();
    assert_eq!(request.method, "create_account");
    assert_eq!(request.params.len(), 1);
    assert_eq!(request.params.get("email"), Some(&text("a@example.org")));
    assert!(client.session.is_pending(&request.id));
}

#[test]
fn withdraw_funds_sends_a_request() {
    let mut client = bread();
    let mut bank = StringMap::new();
    bank.insert("iban".to_string(), text("DE02"));
    let request = client.withdraw_funds("0xabc", double(3.0), bank, 2, 0).unwrap();
    assert_eq!(request.method, "withdraw_funds");
    assert_eq!(request.params.len(), 3);
    assert!(client.session.is_pending(&request.id));
}

#[test]
fn send_message_request_is_built_under_the_given_id() {
    let request = send_message_request("+15550100", "hello", "id-1".to_string());
    assert_eq!(request.method, "send_message");
    assert_eq!(request.id, "id-1");
    assert_eq!(request.params.len(), 2);
    assert_eq!(request.params.get("phone_number"), Some(&text("+15550100")));
    assert_eq!(request.params.get("message"), Some(&text("hello")));
}

#[test]
fn chat_status_request_is_built_under_the_given_id() {
    let request = chat_status_request("chat-9", "id-1".to_string());
    assert_eq!(request.method, "get_chat_status");
    assert_eq!(request.id, "id-1");
    assert_eq!(request.params.len(), 1);
    assert_eq!(request.params.get("chat_id"), Some(&text("chat-9")));
}

#[test]
fn messaging_operations_send_requests() {
    let mut client = wasender();
    let first = client.send_message("+15550100", "hello", 1, 0).unwrap();
    let second = client.get_chat_status("chat-9", 2, 0).unwrap();
    assert_eq!(first.method, "send_message");
    assert_eq!(second.method, "get_chat_status");
    assert_ne!(first.id, second.id);
    assert_eq!(client.session.pending_count(), 2);
    match client.session.receive(loopback_reply(&second)) {
        Dispatch::Deliver(completion) => assert_eq!(completion.slot, 2),
        other => panic!("{:?}", other),
    }
    match client.session.receive(loopback_reply(&first)) {
        Dispatch::Deliver(completion) => assert_eq!(completion.slot, 1),
        other => panic!("{:?}", other),
    }
}

#[test]
fn each_operation_uses_a_fresh_id() {
    let mut client = bread();
    let mut ids: Vec<String> = Vec::new();
    for i in 0..50u32 {
        let request = client.get_quote(double(1.0), "USD", i, 0).unwrap();
        assert_eq!(request.id.len(), 36);
        assert!(!ids.contains(&request.id));
        ids.push(request.id);
    }
    assert_eq!(client.session.pending_count(), 50);
}

#[test]
fn adapters_are_interchangeable_behind_the_trait() {
    let mut bread: BreadMCPClient<&str, u32> = BreadMCPClient::new("wss://bread".to_string());
    let mut wasender: WaSenderMCPClient<&str, u32> = WaSenderMCPClient::new("wss://wa".to_string());
    let first = round_trip(&mut bread, "a").unwrap_err();
    let second = round_trip(&mut wasender, "a").unwrap_err();
    assert_eq!(first.error, ClientError::NotConnected);
    assert_eq!(second.error, ClientError::NotConnected);
    assert_eq!(first.slot, 9);
    assert_eq!(second.slot, 9);
}

#[test]
fn trait_send_request_on_a_connected_client() {
    let mut client = wasender();
    let request = MCPRequest::new("op".to_string(), StringMap::new(), "a".to_string());
    let sent = MCPClient::send_request(&mut client, request, 1, 0).unwrap();
    assert_eq!(sent.id, "a");
    let teardown = MCPClient::disconnect(&mut client);
    assert_eq!(teardown.lost.len(), 1);
    assert_eq!(teardown.lost[0].0, "a");
    assert_eq!(teardown.lost[0].1.outcome, Err(ClientError::ConnectionLost));
}

#[test]
fn classifier_knows_no_intent_yet() {
    let client = WitClient::new("token".to_string());
    assert_eq!(client.classify_intent("please fund my wallet"), Ok("unknown".to_string()));
    assert_eq!(client.classify_intent(""), Ok("unknown".to_string()));
}

#[test]
fn message_and_intent_are_plain_values() {
    let message = Message {
        id: "m1".to_string(),
        content: "hello".to_string(),
        sender: "+15550100".to_string(),
        timestamp: -5,
    };
    assert_eq!(message.clone(), message);
    assert_ne!(MessageIntent::WalletFund, MessageIntent::VendorSearch);
    assert_ne!(MessageIntent::VendorSearch, MessageIntent::Unknown);
}

#[test]
fn new_wallet_has_the_zero_address() {
    let wallet = Wallet::new().unwrap();
    assert_eq!(wallet.address, "0x0000000000000000000000000000000000000000");
    assert_eq!(wallet.address.len(), 42);
}
