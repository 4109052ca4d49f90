use bitvavo_api_client::params::{CandlesParams, HistoryParams, TradesParams};
use bitvavo_api_client::requests::OrderRequest;
use bitvavo_api_client::rest::{
    check_response, path_with_query, prepare_request, HttpMethod, RateLimit, RestRequest,
};
use bitvavo_api_client::{ClientConfig, Error, Side};

fn pairs(items: &[(&str, &str)]) -> Vec<(String, String)> {
    items.iter().map(|(k, v)| (k.to_string(), v.to_string())).collect()
}

#[test]
fn endpoint_paths_and_queries() {
    let book = RestRequest::order_book("BTC-EUR", Some(5));
    assert_eq!(book.method, HttpMethod::Get);
    assert_eq!(book.path, "/BTC-EUR/book");
    assert_eq!(book.query, pairs(&[("depth", "5")]));
    assert!(!book.private);
    assert!(RestRequest::order_book("BTC-EUR", None).query.is_empty());

    let candles = RestRequest::candles("BTC-EUR", "1h", &CandlesParams::new().limit(10));
    assert_eq!(candles.path, "/BTC-EUR/candles");
    assert_eq!(candles.query, pairs(&[("interval", "1h"), ("limit", "10")]));

    let cancel = RestRequest::cancel_order("BTC-EUR", "o1", Some(-2));
    assert_eq!(cancel.method, HttpMethod::Delete);
    assert_eq!(cancel.query, pairs(&[("market", "BTC-EUR"), ("orderId", "o1"), ("operatorId", "-2")]));
    assert!(cancel.private);

    let open = RestRequest::open_orders(None);
    assert_eq!(open.path, "/ordersOpen");
    assert!(open.query.is_empty());
    assert_eq!(RestRequest::cancel_orders(Some("ETH-EUR")).query, pairs(&[("market", "ETH-EUR")]));
    assert_eq!(RestRequest::fees(Some("ETH-EUR")).path, "/account/fees");

    let trades = RestRequest::trades("BTC-EUR", &TradesParams::new().limit(2));
    assert_eq!(trades.query, pairs(&[("market", "BTC-EUR"), ("limit", "2")]));
    let history = RestRequest::withdrawal_history(&HistoryParams::new().symbol("EUR"));
    assert_eq!(history.path, "/withdrawalHistory");
    assert_eq!(history.query, pairs(&[("symbol", "EUR")]));

    let order = OrderRequest::limit("BTC-EUR", Side::Buy, "0.1", "20000");
    let place = RestRequest::place_order(&order);
    assert_eq!(place.method, HttpMethod::Post);
    assert_eq!(place.body.as_deref(), Some(order.to_json().as_str()));
    assert!(place.private);
}

#[test]
fn path_with_query_joins_pairs() {
    assert_eq!(path_with_query("/time", &Vec::new()), "/time");
    assert_eq!(
        path_with_query("/order", &pairs(&[("market", "BTC-EUR"), ("orderId", "x")])),
        "/order?market=BTC-EUR&orderId=x"
    );
}

#[test]
fn private_endpoints_need_credentials() {
    let config = ClientConfig::new();
    let result = prepare_request(&config, &RestRequest::balances(), 1);
    assert_eq!(result.unwrap_err(), Error::MissingCredentials);
    let public = prepare_request(&config, &RestRequest::time(), 1).unwrap();
    assert_eq!(public.url, "https://api.bitvavo.com/v2/time");
    assert!(public.headers.is_empty());
    assert!(public.body.is_none());
}

#[test]
fn requests_are_signed_when_credentials_are_set() {
    let config = ClientConfig::with_credentials("key", "s3cr3t");
    let prepared = prepare_request(&config, &RestRequest::market("BTC-EUR"), 1_700_000_000_000).unwrap();
    assert_eq!(prepared.path_with_query, "/markets?market=BTC-EUR");
    assert_eq!(prepared.url, "https://api.bitvavo.com/v2/markets?market=BTC-EUR");
    assert_eq!(
        prepared.headers,
        pairs(&[
            ("bitvavo-access-key", "key"),
            ("bitvavo-access-signature", "f7f3c275b2cfcd1cad9959af5af97cb2aac9ab64bdfa64c9db7ab201c34a6007"),
            ("bitvavo-access-timestamp", "1700000000000"),
            ("bitvavo-access-window", "10000"),
        ])
    );

    let order = OrderRequest::limit("BTC-EUR", Side::Buy, "0.1", "20000");
    let placed = prepare_request(&config, &RestRequest::place_order(&order), 1_700_000_000_000).unwrap();
    assert_eq!(placed.method.as_str(), "POST");
    assert_eq!(placed.headers.len(), 5);
    assert_eq!(
        placed.headers[1].1,
        "403a8d6357fff60d75d0e158e11873882fb09ff8667c62cc54c63490ccf51c25"
    );
    assert_eq!(placed.headers[4], ("content-type".to_string(), "application/json".to_string()));
    assert_eq!(placed.body, Some(order.to_json()));
}

#[test]
fn response_checks() {
    assert_eq!(check_response(200, None, "{}"), Ok(()));
    assert_eq!(
        check_response(200, Some((205, "bad".to_string())), "{}"),
        Err(Error::Api { code: 205, message: "bad".to_string() })
    );
    assert_eq!(
        check_response(502, None, "gateway"),
        Err(Error::Api { code: 502, message: "gateway".to_string() })
    );
    assert_eq!(check_response(299, None, ""), Ok(()));
    assert!(check_response(300, None, "").is_err());
    assert!(check_response(199, None, "").is_err());
}

#[test]
fn rate_limit_follows_headers() {
    let mut limit = RateLimit::new();
    assert_eq!((limit.remaining, limit.reset_at), (1000, 0));
    limit.update(Some("990"), Some("1700000000000"));
    assert_eq!((limit.remaining, limit.reset_at), (990, 1_700_000_000_000));
    limit.update(Some("not a number"), None);
    assert_eq!((limit.remaining, limit.reset_at), (990, 1_700_000_000_000));
    limit.update(Some("-1"), Some("5"));
    assert_eq!((limit.remaining, limit.reset_at), (-1, 5));
    let before = limit;
    limit.update(Some("7"), None);
    limit.update(Some("7"), None);
    assert_eq!((limit.remaining, limit.reset_at), (7, before.reset_at));
}
