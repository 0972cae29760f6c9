use trading_core::client::HttpMethod;
use trading_core::order_manager::complete_call;
use trading_core::order_manager::HandleFailure;
use trading_core::Config;
use trading_core::OrderManagerActor;
use trading_core::OrderMessage;

fn test_actor() -> OrderManagerActor {
    let config = Config::new(
        "https://api.example.com".to_string(),
        "the-api-key".to_string(),
        "the-api-secret".to_string(),
    );
    OrderManagerActor::new(&config)
}

fn place_order_message() -> OrderMessage {
    OrderMessage::PlaceOrder {
        symbol: "BTCUSDT".to_string(),
        side: "BUY".to_string(),
        quantity: "0.001".to_string(),
        price: "89889".to_string(),
    }
}

#[test]
fn each_command_is_dispatched_to_its_own_request() {
    let actor = test_actor();
    let order = actor.plan_request(&place_order_message(), 7);
    assert!(matches!(order.method, HttpMethod::Post));
    assert_eq!(order.url, "https://api.example.com/api/v3/order");

    let account = actor.plan_request(&OrderMessage::GetAccountInfo, 7);
    assert!(matches!(account.method, HttpMethod::Get));
    assert!(account.url.starts_with("https://api.example.com/api/v3/account?timestamp=7&signature="));

    let price = actor.plan_request(&OrderMessage::GetPrice { symbol: "ETHUSDT".to_string() }, 7);
    assert!(matches!(price.method, HttpMethod::Get));
    assert_eq!(price.url, "https://api.example.com/api/v3/ticker/price?symbol=ETHUSDT");
    assert!(!price.needs_api_key);
}

#[test]
fn successful_outcomes_pass_the_response_through() {
    let actor = test_actor();
    let reply = actor.handle_outcome(
        &place_order_message(),
        &Ok("{\"orderId\":1}".to_string()),
    );
    assert_eq!(reply, Ok("{\"orderId\":1}".to_string()));
}

#[test]
fn a_price_reply_is_the_extracted_price_string() {
    let actor = test_actor();
    let msg = OrderMessage::GetPrice { symbol: "BTCUSDT".to_string() };
    let reply = actor.handle_outcome(&msg, &Ok("{\"price\":\"68250.12\"}".to_string()));
    assert_eq!(reply, Ok("68250.12".to_string()));
}

#[test]
fn a_malformed_response_body_is_an_error_reply() {
    let actor = test_actor();
    let bad = Ok("not json at all".to_string());
    assert_eq!(
        actor.handle_outcome(&OrderMessage::GetPrice { symbol: "BTCUSDT".to_string() }, &bad),
        Err("Failed to get price: invalid response body".to_string())
    );
    assert_eq!(
        actor.handle_outcome(&OrderMessage::GetAccountInfo, &bad),
        Err("Failed to get account: invalid response body".to_string())
    );
    assert_eq!(
        actor.handle_outcome(&place_order_message(), &bad),
        Err("Order failed: invalid response body".to_string())
    );
}

#[test]
fn failed_outcomes_carry_the_command_kind_in_the_error() {
    let actor = test_actor();
    let boom = Err("connection reset".to_string());
    assert_eq!(
        actor.handle_outcome(&place_order_message(), &boom),
        Err("Order failed: connection reset".to_string())
    );
    assert_eq!(
        actor.handle_outcome(&OrderMessage::GetAccountInfo, &boom),
        Err("Failed to get account: connection reset".to_string())
    );
    assert_eq!(
        actor.handle_outcome(&OrderMessage::GetPrice { symbol: "BTCUSDT".to_string() }, &boom),
        Err("Failed to get price: connection reset".to_string())
    );
}

#[test]
fn every_command_receives_exactly_one_reply_in_arrival_order() {
    let actor = test_actor();
    let msgs = vec![
        place_order_message(),
        OrderMessage::GetPrice { symbol: "BTCUSDT".to_string() },
        OrderMessage::GetAccountInfo,
    ];
    let outcomes = vec![
        Ok("{\"status\":\"FILLED\"}".to_string()),
        Ok("{\"price\":\"68250.12\"}".to_string()),
        Err("timeout".to_string()),
    ];
    let replies = actor.run(&msgs, &outcomes);
    assert_eq!(replies.len(), 3);
    assert_eq!(replies[0], Ok("{\"status\":\"FILLED\"}".to_string()));
    assert_eq!(replies[1], Ok("68250.12".to_string()));
    assert_eq!(replies[2], Err("Failed to get account: timeout".to_string()));
}

#[test]
fn a_failed_call_leaves_the_following_commands_unaffected() {
    let actor = test_actor();
    let msgs = vec![OrderMessage::GetAccountInfo, OrderMessage::GetAccountInfo];
    let outcomes = vec![Err("boom".to_string()), Ok("{\"balances\":[]}".to_string())];
    let replies = actor.run(&msgs, &outcomes);
    assert_eq!(replies.len(), 2);
    assert_eq!(replies[0], Err("Failed to get account: boom".to_string()));
    assert_eq!(replies[1], Ok("{\"balances\":[]}".to_string()));
}

#[test]
fn an_exhausted_queue_ends_the_loop_cleanly() {
    let actor = test_actor();
    let replies = actor.run(&Vec::new(), &Vec::new());
    assert!(replies.is_empty());
}

#[test]
fn a_failed_enqueue_reports_the_mailbox_closed() {
    let r = complete_call(false, None);
    assert_eq!(r, Err("Actor is dead".to_string()));
    let r = complete_call(false, Some(Ok("ignored".to_string())));
    assert_eq!(r, Err("Actor is dead".to_string()));
}

#[test]
fn a_lost_reply_is_distinct_from_an_exchange_error() {
    let r = complete_call(true, None);
    assert_eq!(r, Err("Actor dropped response".to_string()));
    let r = complete_call(true, Some(Err("exchange says no".to_string())));
    assert_eq!(r, Err("exchange says no".to_string()));
}

#[test]
fn a_delivered_reply_is_handed_back_unchanged() {
    let r = complete_call(true, Some(Ok("{\"price\":\"1\"}".to_string())));
    assert_eq!(r, Ok("{\"price\":\"1\"}".to_string()));
}

#[test]
fn structural_failures_have_their_own_texts() {
    assert_eq!(HandleFailure::MailboxClosed.message(), "Actor is dead");
    assert_eq!(HandleFailure::ResponseLost.message(), "Actor dropped response");
}
