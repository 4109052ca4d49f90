use bitvavo_api_client::{OrderType, Side};

#[test]
fn side_serializes_lowercase() {
    assert_eq!(Side::Buy.to_json(), "\"buy\"");
    assert_eq!(Side::Sell.to_json(), "\"sell\"");
}

#[test]
fn order_type_serializes_camel_case() {
    assert_eq!(OrderType::StopLossLimit.to_json(), "\"stopLossLimit\"");
}

#[test]
fn order_type_names() {
    assert_eq!(OrderType::Limit.as_str(), "limit");
    assert_eq!(OrderType::Market.as_str(), "market");
    assert_eq!(OrderType::StopLoss.as_str(), "stopLoss");
    assert_eq!(OrderType::TakeProfit.as_str(), "takeProfit");
    assert_eq!(OrderType::TakeProfitLimit.as_str(), "takeProfitLimit");
}
