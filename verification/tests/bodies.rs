use bitvavo_api_client::requests::{OrderRequest, UpdateOrderRequest, WithdrawalRequest};
use bitvavo_api_client::{OrderType, Side};

#[test]
fn order_request_serializes_required_fields() {
    let order = OrderRequest::limit("BTC-EUR", Side::Buy, "0.1", "20000");
    let value: serde_json::Value = serde_json::from_str(&order.to_json()).unwrap();
    assert_eq!(value["market"], "BTC-EUR");
    assert_eq!(value["side"], "buy");
    assert_eq!(value["orderType"], "limit");
    assert_eq!(value["amount"], "0.1");
    assert_eq!(value["price"], "20000");
    assert!(value.get("postOnly").is_none());
}

#[test]
fn order_body_text_is_compact_and_ordered_by_key() {
    let order = OrderRequest::limit("BTC-EUR", Side::Buy, "0.1", "20000");
    assert_eq!(
        order.to_json(),
        "{\"amount\":\"0.1\",\"market\":\"BTC-EUR\",\"orderType\":\"limit\",\"price\":\"20000\",\"side\":\"buy\"}"
    );
    let full = OrderRequest::new("ETH-EUR", Side::Sell, OrderType::StopLossLimit)
        .amount("1")
        .amount_quote("2")
        .price("3")
        .time_in_force("GTC")
        .self_trade_prevention("decrementAndCancel")
        .post_only(true)
        .disable_market_protection(false)
        .trigger("price", "lastTrade", "4")
        .client_order_id("c-1")
        .operator_id(-7);
    assert_eq!(
        full.to_json(),
        "{\"amount\":\"1\",\"amountQuote\":\"2\",\"clientOrderId\":\"c-1\",\"disableMarketProtection\":false,\
\"market\":\"ETH-EUR\",\"operatorId\":-7,\"orderType\":\"stopLossLimit\",\"postOnly\":true,\"price\":\"3\",\
\"selfTradePrevention\":\"decrementAndCancel\",\"side\":\"sell\",\"timeInForce\":\"GTC\",\"triggerAmount\":\"4\",\
\"triggerReference\":\"lastTrade\",\"triggerType\":\"price\"}"
    );
}

#[test]
fn market_orders_set_one_amount() {
    let base = OrderRequest::market_amount("BTC-EUR", Side::Sell, "0.5");
    assert_eq!(base.order_type, OrderType::Market);
    assert_eq!(base.amount.as_deref(), Some("0.5"));
    assert!(base.amount_quote.is_none());
    let quote = OrderRequest::market_amount_quote("BTC-EUR", Side::Buy, "100");
    assert_eq!(quote.amount_quote.as_deref(), Some("100"));
    assert!(quote.amount.is_none());
    assert_eq!(
        quote.to_json(),
        "{\"amountQuote\":\"100\",\"market\":\"BTC-EUR\",\"orderType\":\"market\",\"side\":\"buy\"}"
    );
}

#[test]
fn update_and_withdrawal_bodies() {
    let update = UpdateOrderRequest::new("BTC-EUR", "id-1").price("10").amount_remaining("0.2").operator_id(3);
    assert_eq!(
        update.to_json(),
        "{\"amountRemaining\":\"0.2\",\"market\":\"BTC-EUR\",\"operatorId\":3,\"orderId\":\"id-1\",\"price\":\"10\"}"
    );
    let withdrawal = WithdrawalRequest::new("BTC", "0.01", "addr\"x").payment_id("p").internal(true).add_withdrawal_fee(false);
    assert_eq!(
        withdrawal.to_json(),
        "{\"addWithdrawalFee\":false,\"address\":\"addr\\\"x\",\"amount\":\"0.01\",\"internal\":true,\"paymentId\":\"p\",\"symbol\":\"BTC\"}"
    );
    let parsed: serde_json::Value = serde_json::from_str(&withdrawal.to_json()).unwrap();
    assert_eq!(parsed["address"], "addr\"x");
}
