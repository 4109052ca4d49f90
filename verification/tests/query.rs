use bitvavo_api_client::params::{to_query, CandlesParams, HistoryParams, OrdersParams, TradesParams};

fn pairs(items: &[(&str, &str)]) -> Vec<(String, String)> {
    items.iter().map(|(k, v)| (k.to_string(), v.to_string())).collect()
}

#[test]
fn to_query_skips_none_fields() {
    let params = TradesParams::new().limit(10);
    let query = to_query(&params);
    assert_eq!(query, vec![("limit".to_string(), "10".to_string())]);
}

#[test]
fn query_pairs_are_ordered_by_key() {
    let params = TradesParams::new()
        .trade_id_to("t2")
        .start(5)
        .trade_id_from("t1")
        .end(9)
        .limit(3);
    assert_eq!(
        to_query(&params),
        pairs(&[("end", "9"), ("limit", "3"), ("start", "5"), ("tradeIdFrom", "t1"), ("tradeIdTo", "t2")])
    );
    let orders = OrdersParams::new().order_id_to("b").order_id_from("a").start(1).limit(2).end(3);
    assert_eq!(
        to_query(&orders),
        pairs(&[("end", "3"), ("limit", "2"), ("orderIdFrom", "a"), ("orderIdTo", "b"), ("start", "1")])
    );
    let history = HistoryParams::new().symbol("BTC").limit(7);
    assert_eq!(to_query(&history), pairs(&[("limit", "7"), ("symbol", "BTC")]));
    let candles = CandlesParams::new().end(u64::MAX).start(0);
    assert_eq!(
        to_query(&candles),
        pairs(&[("end", "18446744073709551615"), ("start", "0")])
    );
}

#[test]
fn empty_parameters_give_an_empty_query() {
    assert!(to_query(&TradesParams::new()).is_empty());
    assert!(to_query(&CandlesParams::new()).is_empty());
    assert!(to_query(&OrdersParams::new()).is_empty());
    assert!(to_query(&HistoryParams::new()).is_empty());
}

#[test]
fn a_setter_called_twice_keeps_the_last_value() {
    let params = CandlesParams::new().limit(1).limit(2);
    assert_eq!(params.limit, Some(2));
    assert_eq!(to_query(&params), pairs(&[("limit", "2")]));
}
