//! The REST API: what each endpoint sends, how a request is addressed and
//! signed, what a response status means, and the rate limit the server reports.
//!
//! Endpoint reference: <https://docs.bitvavo.com/>.

use crate::auth::{sign, signature};
use crate::config::ClientConfig;
use crate::error::{Error, Result};
use crate::params::{
    opt_decimal32, opt_pair, push_number32, to_query, CandlesParams, HistoryParams,
    OrdersParams, QueryParams, QueryView, TradesParams,
};
use crate::requests::{OrderRequest, UpdateOrderRequest, WithdrawalRequest};
use crate::text::{decimal, decimal_string, parse_i64, parse_i64_spec, signed_decimal, signed_decimal_string};
use vstd::prelude::*;
use vstd::string::StringExecFns;

verus! {

/// HTTP method of an endpoint.
#[derive(Debug, Clone, Copy, PartialEq, Eq, Structural)]
pub enum HttpMethod {
    Get,
    Post,
    Put,
    Delete,
}

impl HttpMethod {
    /// The method's name on the wire, upper case.
    pub open spec fn spec_name(self) -> Seq<char> {
        match self {
            HttpMethod::Get => "GET"@,
            HttpMethod::Post => "POST"@,
            HttpMethod::Put => "PUT"@,
            HttpMethod::Delete => "DELETE"@,
        }
    }

    /// Each method is named by its HTTP verb in upper case, so that what is
    /// signed names the verb that is sent, and no two methods share a name.
    pub proof fn lemma_names_are_verbs()
        ensures
            HttpMethod::Get.spec_name() == seq!['G', 'E', 'T'],
            HttpMethod::Post.spec_name() == seq!['P', 'O', 'S', 'T'],
            HttpMethod::Put.spec_name() == seq!['P', 'U', 'T'],
            HttpMethod::Delete.spec_name() == seq!['D', 'E', 'L', 'E', 'T', 'E'],
            forall|a: HttpMethod, b: HttpMethod| a != b ==> #[trigger] a.spec_name() != #[trigger] b.spec_name(),
    {
        reveal_strlit("GET");
        reveal_strlit("POST");
        reveal_strlit("PUT");
        reveal_strlit("DELETE");
        assert("GET"@ =~= seq!['G', 'E', 'T']);
        assert("POST"@ =~= seq!['P', 'O', 'S', 'T']);
        assert("PUT"@ =~= seq!['P', 'U', 'T']);
        assert("DELETE"@ =~= seq!['D', 'E', 'L', 'E', 'T', 'E']);
        assert forall|a: HttpMethod, b: HttpMethod| a != b implies #[trigger] a.spec_name() != #[trigger] b.spec_name() by {
            let x = a.spec_name();
            let y = b.spec_name();
            if x.len() == y.len() {
                assert(x[0] != y[0] || x[1] != y[1]);
            }
        }
    }

    /// The method's name on the wire.
    pub fn as_str(&self) -> (s: &'static str)
        ensures
            s@ == self.spec_name(),
    {
        match self {
            HttpMethod::Get => "GET",
            HttpMethod::Post => "POST",
            HttpMethod::Put => "PUT",
            HttpMethod::Delete => "DELETE",
        }
    }
}

/// What an endpoint sends: method, path below the base URL, query pairs,
/// JSON body, and whether it needs API credentials.
#[derive(Debug, Clone)]
pub struct RestRequest {
    pub method: HttpMethod,
    pub path: String,
    pub query: Vec<(String, String)>,
    pub body: Option<String>,
    /// The endpoint is private: it is refused without API credentials.
    pub private: bool,
}

/// `"/"`, the market and then `suffix`: a path below one market.
pub open spec fn market_path(market: Seq<char>, suffix: Seq<char>) -> Seq<char> {
    "/"@ + market + suffix
}

/// The pair `(key, value)` on its own.
pub open spec fn one_pair(key: Seq<char>, value: Seq<char>) -> QueryView {
    seq![(key, value)]
}

/// The signed decimal notation of a number that may be absent.
pub open spec fn opt_signed_decimal(value: Option<i64>) -> Option<Seq<char>> {
    match value {
        Some(v) => Some(signed_decimal(v as int)),
        None => None,
    }
}

/// Text that may be absent, by its characters.
pub open spec fn opt_text(value: Option<&str>) -> Option<Seq<char>> {
    match value {
        Some(v) => Some(v@),
        None => None,
    }
}

fn pair(key: &str, value: &str) -> (p: (String, String))
    ensures
        p.deep_view() == (key@, value@),
{
    (String::from_str(key), String::from_str(value))
}

fn path_below(market: &str, suffix: &str) -> (p: String)
    ensures
        p@ == market_path(market@, suffix@),
{
    let mut p = String::from_str("/");
    p.append(market);
    p.append(suffix);
    p
}

fn push_opt_text(q: &mut Vec<(String, String)>, key: &str, value: Option<&str>)
    ensures
        final(q).deep_view() == old(q).deep_view() + opt_pair(key@, opt_text(value)),
{
    if let Some(v) = value {
        q.push(pair(key, v));
    }
    assert(final(q).deep_view() =~= old(q).deep_view() + opt_pair(key@, opt_text(value)));
}

fn append_query(q: &mut Vec<(String, String)>, more: Vec<(String, String)>)
    ensures
        final(q).deep_view() == old(q).deep_view() + more.deep_view(),
{
    let mut more = more;
    let ghost m = more.deep_view();
    q.append(&mut more);
    assert(final(q).deep_view() =~= old(q).deep_view() + m);
}

impl RestRequest {
    /// The request has exactly these parts.
    pub open spec fn describes(
        &self,
        method: HttpMethod,
        path: Seq<char>,
        query: QueryView,
        body: Option<Seq<char>>,
        private: bool,
    ) -> bool {
        &&& self.method == method
        &&& self.path@ == path
        &&& self.query.deep_view() == query
        &&& self.body.deep_view() == body
        &&& self.private == private
    }

    fn public_get(path: &str, query: Vec<(String, String)>) -> (r: Self)
        ensures
            r.describes(HttpMethod::Get, path@, query.deep_view(), None, false),
    {
        RestRequest { method: HttpMethod::Get, path: String::from_str(path), query, body: None, private: false }
    }

    fn private_call(method: HttpMethod, path: &str, query: Vec<(String, String)>, body: Option<String>) -> (r: Self)
        ensures
            r.describes(method, path@, query.deep_view(), body.deep_view(), true),
    {
        RestRequest { method, path: String::from_str(path), query, body, private: true }
    }

    // Public endpoints.

    /// `GET /time`.
    pub fn time() -> (r: Self)
        ensures
            r.describes(HttpMethod::Get, "/time"@, seq![], None, false),
    {
        let q: Vec<(String, String)> = Vec::new();
        assert(q.deep_view() =~= seq![]);
        Self::public_get("/time", q)
    }

    /// `GET /markets`.
    pub fn markets() -> (r: Self)
        ensures
            r.describes(HttpMethod::Get, "/markets"@, seq![], None, false),
    {
        let q: Vec<(String, String)> = Vec::new();
        assert(q.deep_view() =~= seq![]);
        Self::public_get("/markets", q)
    }

    /// `GET /markets?market={market}`.
    pub fn market(market: &str) -> (r: Self)
        ensures
            r.describes(HttpMethod::Get, "/markets"@, one_pair("market"@, market@), None, false),
    {
        let q = vec![pair("market", market)];
        assert(q.deep_view() =~= one_pair("market"@, market@));
        Self::public_get("/markets", q)
    }

    /// `GET /assets`.
    pub fn assets() -> (r: Self)
        ensures
            r.describes(HttpMethod::Get, "/assets"@, seq![], None, false),
    {
        let q: Vec<(String, String)> = Vec::new();
        assert(q.deep_view() =~= seq![]);
        Self::public_get("/assets", q)
    }

    /// `GET /assets?symbol={symbol}`.
    pub fn asset(symbol: &str) -> (r: Self)
        ensures
            r.describes(HttpMethod::Get, "/assets"@, one_pair("symbol"@, symbol@), None, false),
    {
        let q = vec![pair("symbol", symbol)];
        assert(q.deep_view() =~= one_pair("symbol"@, symbol@));
        Self::public_get("/assets", q)
    }

    /// `GET /{market}/book`, with the depth when one is given.
    pub fn order_book(market: &str, depth: Option<u32>) -> (r: Self)
        ensures
            r.describes(
                HttpMethod::Get,
                market_path(market@, "/book"@),
                opt_pair("depth"@, opt_decimal32(depth)),
                None,
                false,
            ),
    {
        let mut q: Vec<(String, String)> = Vec::new();
        push_number32(&mut q, "depth", depth);
        assert(q.deep_view() =~= opt_pair("depth"@, opt_decimal32(depth)));
        RestRequest { method: HttpMethod::Get, path: path_below(market, "/book"), query: q, body: None, private: false }
    }

    /// `GET /{market}/trades`.
    pub fn public_trades(market: &str, params: &TradesParams) -> (r: Self)
        ensures
            r.describes(HttpMethod::Get, market_path(market@, "/trades"@), params.spec_query(), None, false),
    {
        RestRequest {
            method: HttpMethod::Get,
            path: path_below(market, "/trades"),
            query: to_query(params),
            body: None,
            private: false,
        }
    }

    /// `GET /{market}/candles`: the interval first, then the parameters.
    pub fn candles(market: &str, interval: &str, params: &CandlesParams) -> (r: Self)
        ensures
            r.describes(
                HttpMethod::Get,
                market_path(market@, "/candles"@),
                one_pair("interval"@, interval@) + params.spec_query(),
                None,
                false,
            ),
    {
        let mut q = vec![pair("interval", interval)];
        assert(q.deep_view() =~= one_pair("interval"@, interval@));
        append_query(&mut q, to_query(params));
        RestRequest { method: HttpMethod::Get, path: path_below(market, "/candles"), query: q, body: None, private: false }
    }

    /// `GET /ticker/price`.
    pub fn ticker_prices() -> (r: Self)
        ensures
            r.describes(HttpMethod::Get, "/ticker/price"@, seq![], None, false),
    {
        let q: Vec<(String, String)> = Vec::new();
        assert(q.deep_view() =~= seq![]);
        Self::public_get("/ticker/price", q)
    }

    /// `GET /ticker/price?market={market}`.
    pub fn ticker_price(market: &str) -> (r: Self)
        ensures
            r.describes(HttpMethod::Get, "/ticker/price"@, one_pair("market"@, market@), None, false),
    {
        let q = vec![pair("market", market)];
        assert(q.deep_view() =~= one_pair("market"@, market@));
        Self::public_get("/ticker/price", q)
    }

    /// `GET /ticker/book`.
    pub fn ticker_books() -> (r: Self)
        ensures
            r.describes(HttpMethod::Get, "/ticker/book"@, seq![], None, false),
    {
        let q: Vec<(String, String)> = Vec::new();
        assert(q.deep_view() =~= seq![]);
        Self::public_get("/ticker/book", q)
    }

    /// `GET /ticker/book?market={market}`.
    pub fn ticker_book(market: &str) -> (r: Self)
        ensures
            r.describes(HttpMethod::Get, "/ticker/book"@, one_pair("market"@, market@), None, false),
    {
        let q = vec![pair("market", market)];
        assert(q.deep_view() =~= one_pair("market"@, market@));
        Self::public_get("/ticker/book", q)
    }

    /// `GET /ticker/24h`.
    pub fn tickers_24h() -> (r: Self)
        ensures
            r.describes(HttpMethod::Get, "/ticker/24h"@, seq![], None, false),
    {
        let q: Vec<(String, String)> = Vec::new();
        assert(q.deep_view() =~= seq![]);
        Self::public_get("/ticker/24h", q)
    }

    /// `GET /ticker/24h?market={market}`.
    pub fn ticker_24h(market: &str) -> (r: Self)
        ensures
            r.describes(HttpMethod::Get, "/ticker/24h"@, one_pair("market"@, market@), None, false),
    {
        let q = vec![pair("market", market)];
        assert(q.deep_view() =~= one_pair("market"@, market@));
        Self::public_get("/ticker/24h", q)
    }

    // Private endpoints.

    /// `POST /order` with the order as JSON body.
    pub fn place_order(order: &OrderRequest) -> (r: Self)
        ensures
            r.describes(
                HttpMethod::Post,
                "/order"@,
                seq![],
                Some(crate::text::json_object(order.spec_members())),
                true,
            ),
    {
        let q: Vec<(String, String)> = Vec::new();
        assert(q.deep_view() =~= seq![]);
        Self::private_call(HttpMethod::Post, "/order", q, Some(order.to_json()))
    }

    /// `GET /order?market={market}&orderId={order_id}`.
    pub fn get_order(market: &str, order_id: &str) -> (r: Self)
        ensures
            r.describes(
                HttpMethod::Get,
                "/order"@,
                one_pair("market"@, market@) + one_pair("orderId"@, order_id@),
                None,
                true,
            ),
    {
        let q = vec![pair("market", market), pair("orderId", order_id)];
        assert(q.deep_view() =~= one_pair("market"@, market@) + one_pair("orderId"@, order_id@));
        Self::private_call(HttpMethod::Get, "/order", q, None)
    }

    /// `PUT /order` with the update as JSON body.
    pub fn update_order(update: &UpdateOrderRequest) -> (r: Self)
        ensures
            r.describes(
                HttpMethod::Put,
                "/order"@,
                seq![],
                Some(crate::text::json_object(update.spec_members())),
                true,
            ),
    {
        let q: Vec<(String, String)> = Vec::new();
        assert(q.deep_view() =~= seq![]);
        Self::private_call(HttpMethod::Put, "/order", q, Some(update.to_json()))
    }

    /// `DELETE /order?market={market}&orderId={order_id}`, with the operator
    /// id when one is given.
    pub fn cancel_order(market: &str, order_id: &str, operator_id: Option<i64>) -> (r: Self)
        ensures
            r.describes(
                HttpMethod::Delete,
                "/order"@,
                one_pair("market"@, market@) + one_pair("orderId"@, order_id@) + opt_pair(
                    "operatorId"@,
                    opt_signed_decimal(operator_id),
                ),
                None,
                true,
            ),
    {
        let mut q = vec![pair("market", market), pair("orderId", order_id)];
        if let Some(id) = operator_id {
            q.push((String::from_str("operatorId"), signed_decimal_string(id)));
        }
        assert(q.deep_view() =~= one_pair("market"@, market@) + one_pair("orderId"@, order_id@)
            + opt_pair("operatorId"@, opt_signed_decimal(operator_id)));
        Self::private_call(HttpMethod::Delete, "/order", q, None)
    }

    /// `GET /orders`: the market first, then the parameters.
    pub fn get_orders(market: &str, params: &OrdersParams) -> (r: Self)
        ensures
            r.describes(
                HttpMethod::Get,
                "/orders"@,
                one_pair("market"@, market@) + params.spec_query(),
                None,
                true,
            ),
    {
        let mut q = vec![pair("market", market)];
        assert(q.deep_view() =~= one_pair("market"@, market@));
        append_query(&mut q, to_query(params));
        Self::private_call(HttpMethod::Get, "/orders", q, None)
    }

    /// `DELETE /orders`, for one market when one is given.
    pub fn cancel_orders(market: Option<&str>) -> (r: Self)
        ensures
            r.describes(HttpMethod::Delete, "/orders"@, opt_pair("market"@, opt_text(market)), None, true),
    {
        let mut q: Vec<(String, String)> = Vec::new();
        push_opt_text(&mut q, "market", market);
        assert(q.deep_view() =~= opt_pair("market"@, opt_text(market)));
        Self::private_call(HttpMethod::Delete, "/orders", q, None)
    }

    /// `GET /ordersOpen`, for one market when one is given.
    pub fn open_orders(market: Option<&str>) -> (r: Self)
        ensures
            r.describes(HttpMethod::Get, "/ordersOpen"@, opt_pair("market"@, opt_text(market)), None, true),
    {
        let mut q: Vec<(String, String)> = Vec::new();
        push_opt_text(&mut q, "market", market);
        assert(q.deep_view() =~= opt_pair("market"@, opt_text(market)));
        Self::private_call(HttpMethod::Get, "/ordersOpen", q, None)
    }

    /// `GET /trades`: the market first, then the parameters.
    pub fn trades(market: &str, params: &TradesParams) -> (r: Self)
        ensures
            r.describes(
                HttpMethod::Get,
                "/trades"@,
                one_pair("market"@, market@) + params.spec_query(),
                None,
                true,
            ),
    {
        let mut q = vec![pair("market", market)];
        assert(q.deep_view() =~= one_pair("market"@, market@));
        append_query(&mut q, to_query(params));
        Self::private_call(HttpMethod::Get, "/trades", q, None)
    }

    /// `GET /account`.
    pub fn account() -> (r: Self)
        ensures
            r.describes(HttpMethod::Get, "/account"@, seq![], None, true),
    {
        let q: Vec<(String, String)> = Vec::new();
        assert(q.deep_view() =~= seq![]);
        Self::private_call(HttpMethod::Get, "/account", q, None)
    }

    /// `GET /account/fees`, for one market when one is given.
    pub fn fees(market: Option<&str>) -> (r: Self)
        ensures
            r.describes(HttpMethod::Get, "/account/fees"@, opt_pair("market"@, opt_text(market)), None, true),
    {
        let mut q: Vec<(String, String)> = Vec::new();
        push_opt_text(&mut q, "market", market);
        assert(q.deep_view() =~= opt_pair("market"@, opt_text(market)));
        Self::private_call(HttpMethod::Get, "/account/fees", q, None)
    }

    /// `GET /balance`.
    pub fn balances() -> (r: Self)
        ensures
            r.describes(HttpMethod::Get, "/balance"@, seq![], None, true),
    {
        let q: Vec<(String, String)> = Vec::new();
        assert(q.deep_view() =~= seq![]);
        Self::private_call(HttpMethod::Get, "/balance", q, None)
    }

    /// `GET /balance?symbol={symbol}`.
    pub fn balance(symbol: &str) -> (r: Self)
        ensures
            r.describes(HttpMethod::Get, "/balance"@, one_pair("symbol"@, symbol@), None, true),
    {
        let q = vec![pair("symbol", symbol)];
        assert(q.deep_view() =~= one_pair("symbol"@, symbol@));
        Self::private_call(HttpMethod::Get, "/balance", q, None)
    }

    /// `GET /depositAssets?symbol={symbol}`.
    pub fn deposit_assets(symbol: &str) -> (r: Self)
        ensures
            r.describes(HttpMethod::Get, "/depositAssets"@, one_pair("symbol"@, symbol@), None, true),
    {
        let q = vec![pair("symbol", symbol)];
        assert(q.deep_view() =~= one_pair("symbol"@, symbol@));
        Self::private_call(HttpMethod::Get, "/depositAssets", q, None)
    }

    /// `POST /withdrawal` with the request as JSON body.
    pub fn withdraw_assets(request: &WithdrawalRequest) -> (r: Self)
        ensures
            r.describes(
                HttpMethod::Post,
                "/withdrawal"@,
                seq![],
                Some(crate::text::json_object(request.spec_members())),
                true,
            ),
    {
        let q: Vec<(String, String)> = Vec::new();
        assert(q.deep_view() =~= seq![]);
        Self::private_call(HttpMethod::Post, "/withdrawal", q, Some(request.to_json()))
    }

    /// `GET /depositHistory`.
    pub fn deposit_history(params: &HistoryParams) -> (r: Self)
        ensures
            r.describes(HttpMethod::Get, "/depositHistory"@, params.spec_query(), None, true),
    {
        Self::private_call(HttpMethod::Get, "/depositHistory", to_query(params), None)
    }

    /// `GET /withdrawalHistory`.
    pub fn withdrawal_history(params: &HistoryParams) -> (r: Self)
        ensures
            r.describes(HttpMethod::Get, "/withdrawalHistory"@, params.spec_query(), None, true),
    {
        Self::private_call(HttpMethod::Get, "/withdrawalHistory", to_query(params), None)
    }
}

/// One query pair as text: `key=value`, neither part escaped.
pub open spec fn query_pair_text(p: (Seq<char>, Seq<char>)) -> Seq<char> {
    p.0 + seq!['='] + p.1
}

/// Query pairs joined by `&`.
pub open spec fn query_text(q: QueryView) -> Seq<char>
    decreases q.len(),
{
    if q.len() == 0 {
        seq![]
    } else if q.len() == 1 {
        query_pair_text(q[0])
    } else {
        query_text(q.drop_last()) + seq!['&'] + query_pair_text(q.last())
    }
}

/// The path, then `?` and the query text when there are query pairs.
pub open spec fn path_with_query_spec(path: Seq<char>, q: QueryView) -> Seq<char> {
    if q.len() == 0 {
        path
    } else {
        path + seq!['?'] + query_text(q)
    }
}

/// Appends the query text of `query` to a path: nothing when the query is
/// empty, else `?` and the pairs as `key=value` joined by `&`.
pub fn path_with_query(path: &str, query: &Vec<(String, String)>) -> (s: String)
    ensures
        s@ == path_with_query_spec(path@, query.deep_view()),
{
    let ghost q = query.deep_view();
    let mut s = String::from_str(path);
    if query.len() == 0 {
        return s;
    }
    s.push('?');
    let mut i: usize = 0;
    while i < query.len()
        invariant
            0 < query@.len(),
            i <= query@.len(),
            q == query.deep_view(),
            s@ == path@ + seq!['?'] + query_text(q.take(i as int)),
        decreases query@.len() - i,
    {
        if i > 0 {
            s.push('&');
        }
        s.append(query[i].0.as_str());
        s.push('=');
        s.append(query[i].1.as_str());
        assert(q.take(i + 1).drop_last() =~= q.take(i as int));
        assert(q[i as int] == (query@[i as int].0@, query@[i as int].1@));
        assert(s@ =~= path@ + seq!['?'] + query_text(q.take(i + 1)));
        i = i + 1;
    }
    assert(q.take(i as int) =~= q);
    s
}

/// A request ready to send: where it goes, its headers and its body.
#[derive(Debug, Clone)]
pub struct PreparedRequest {
    pub method: HttpMethod,
    /// The base URL followed by the path and its query.
    pub url: String,
    /// The path and its query, as signed.
    pub path_with_query: String,
    pub headers: Vec<(String, String)>,
    pub body: Option<String>,
}

/// Text that may be absent, or the empty text.
pub open spec fn text_or_empty(v: Option<Seq<char>>) -> Seq<char> {
    match v {
        Some(t) => t,
        None => seq![],
    }
}

/// The authentication headers of a signed request.
pub open spec fn auth_headers(
    key: Seq<char>,
    secret: Seq<char>,
    window_ms: u64,
    timestamp: u64,
    method: Seq<char>,
    path_with_query: Seq<char>,
    body: Seq<char>,
) -> QueryView {
    seq![
        ("bitvavo-access-key"@, key),
        ("bitvavo-access-signature"@, signature(secret, timestamp as nat, method, path_with_query, body)),
        ("bitvavo-access-timestamp"@, decimal(timestamp as nat)),
        ("bitvavo-access-window"@, decimal(window_ms as nat)),
    ]
}

/// The headers sent with a request: the authentication headers whenever
/// credentials are configured, then the JSON content type when there is a body.
pub open spec fn request_headers(
    config: ClientConfig,
    timestamp: u64,
    method: Seq<char>,
    path_with_query: Seq<char>,
    body: Option<Seq<char>>,
) -> QueryView {
    (if config.spec_has_credentials() {
        auth_headers(
            config.api_key.deep_view()->Some_0,
            config.api_secret.deep_view()->Some_0,
            config.access_window_ms,
            timestamp,
            method,
            path_with_query,
            text_or_empty(body),
        )
    } else {
        seq![]
    }) + (if body is Some {
        seq![("content-type"@, "application/json"@)]
    } else {
        seq![]
    })
}

impl PreparedRequest {
    /// The prepared form of `request` under `config` at `timestamp`.
    pub open spec fn prepares(&self, config: ClientConfig, request: RestRequest, timestamp: u64) -> bool {
        let pwq = path_with_query_spec(request.path@, request.query.deep_view());
        &&& self.method == request.method
        &&& self.path_with_query@ == pwq
        &&& self.url@ == config.rest_url@ + pwq
        &&& self.body.deep_view() == request.body.deep_view()
        &&& self.headers.deep_view() == request_headers(
            config,
            timestamp,
            request.method.spec_name(),
            pwq,
            request.body.deep_view(),
        )
    }
}

/// The signature of a prepared request covers exactly what is sent: the
/// method, the path and query that the URL ends with, and the body (or the
/// empty text when there is none), under the configured secret at the given
/// timestamp. Without credentials no authentication header is sent at all.
pub proof fn lemma_signature_covers_what_is_sent(
    config: ClientConfig,
    request: RestRequest,
    timestamp: u64,
    prepared: PreparedRequest,
)
    requires
        prepared.prepares(config, request, timestamp),
    ensures
        prepared.url@ == config.rest_url@ + prepared.path_with_query@,
        config.spec_has_credentials() ==> prepared.headers.deep_view()[1] == (
            "bitvavo-access-signature"@,
            signature(
                config.api_secret.deep_view()->Some_0,
                timestamp as nat,
                prepared.method.spec_name(),
                prepared.path_with_query@,
                text_or_empty(prepared.body.deep_view()),
            ),
        ),
        !config.spec_has_credentials() ==> prepared.headers.deep_view() == (if prepared.body is Some {
            seq![("content-type"@, "application/json"@)]
        } else {
            Seq::<(Seq<char>, Seq<char>)>::empty()
        }),
{
    if !config.spec_has_credentials() {
        assert(prepared.body is Some <==> request.body is Some);
        assert(prepared.headers.deep_view() =~= (if prepared.body is Some {
            seq![("content-type"@, "application/json"@)]
        } else {
            Seq::<(Seq<char>, Seq<char>)>::empty()
        }));
    }
}

fn push_header(h: &mut Vec<(String, String)>, key: &str, value: String)
    ensures
        final(h).deep_view() == old(h).deep_view() + seq![(key@, value@)],
{
    h.push((String::from_str(key), value));
    assert(final(h).deep_view() =~= old(h).deep_view() + seq![(key@, value@)]);
}

/// Addresses, signs and heads a request. A private endpoint without
/// credentials is refused with `MissingCredentials`; any request is signed
/// whenever credentials are configured.
pub fn prepare_request(config: &ClientConfig, request: &RestRequest, timestamp: u64) -> (r: Result<PreparedRequest>)
    ensures
        request.private && !config.spec_has_credentials() ==> r == Err::<PreparedRequest, Error>(
            Error::MissingCredentials,
        ),
        !(request.private && !config.spec_has_credentials()) ==> (r matches Ok(p) && p.prepares(
            *config,
            *request,
            timestamp,
        )),
{
    if request.private && !config.has_credentials() {
        return Err(Error::MissingCredentials);
    }
    let pwq = path_with_query(request.path.as_str(), &request.query);
    let mut url = config.rest_url.clone();
    url.append(pwq.as_str());
    let body_text: String = match &request.body {
        Some(b) => b.clone(),
        None => String::new(),
    };
    assert(body_text@ == text_or_empty(request.body.deep_view()));
    let mut headers: Vec<(String, String)> = Vec::new();
    let ghost method = request.method.spec_name();
    match config.credentials() {
        Ok((key, secret)) => {
            let signature = sign(secret, timestamp, request.method.as_str(), pwq.as_str(), body_text.as_str());
            push_header(&mut headers, "bitvavo-access-key", String::from_str(key));
            push_header(&mut headers, "bitvavo-access-signature", signature);
            push_header(&mut headers, "bitvavo-access-timestamp", decimal_string(timestamp));
            push_header(&mut headers, "bitvavo-access-window", decimal_string(config.access_window_ms));
        },
        Err(_) => {},
    }
    let ghost auth = headers.deep_view();
    if request.body.is_some() {
        push_header(&mut headers, "content-type", String::from_str("application/json"));
    }
    assert(headers.deep_view() =~= request_headers(*config, timestamp, method, pwq@, request.body.deep_view()));
    Ok(PreparedRequest {
        method: request.method,
        url,
        path_with_query: pwq,
        headers,
        body: request.body.clone(),
    })
}

/// The status codes of a successful response: 200 to 299.
pub open spec fn is_success(status: u16) -> bool {
    200 <= status && status <= 299
}

/// Decides what a response means before its body is decoded. An error body
/// from the API (`errorCode` and `error`) is that API error whatever the
/// status; else a status outside 200..=299 is an API error with the status as
/// code and the response text as message; else the body can be decoded.
pub fn check_response(status: u16, error_body: Option<(i64, String)>, text: &str) -> (r: Result<()>)
    ensures
        error_body matches Some((code, message)) ==> r == Err::<(), Error>(Error::Api { code, message }),
        error_body is None && !is_success(status) ==> (r matches Err(Error::Api { code, message })
            && code == status as i64 && message@ == text@),
        error_body is None && is_success(status) ==> r is Ok,
{
    match error_body {
        Some((code, message)) => Err(Error::Api { code, message }),
        None => {
            if 200 <= status && status <= 299 {
                Ok(())
            } else {
                Err(Error::Api { code: status as i64, message: String::from_str(text) })
            }
        },
    }
}

/// Initial number of rate limit points, before the server reports any.
pub const INITIAL_RATE_LIMIT_REMAINING: i64 = 1000;

/// The rate limit the server last reported.
#[derive(Debug, Clone, Copy, PartialEq, Eq)]
pub struct RateLimit {
    /// Rate limit points left in the current window.
    pub remaining: i64,
    /// Unix time in milliseconds at which the rate limit resets.
    pub reset_at: i64,
}

/// The new value of a figure: the header's number when it parses, else the old value.
pub open spec fn header_update(old_value: i64, header: Option<Seq<char>>) -> i64 {
    match header {
        Some(h) => match parse_i64_spec(h) {
            Some(v) => v,
            None => old_value,
        },
        None => old_value,
    }
}

impl RateLimit {
    /// The state after the `bitvavo-ratelimit-remaining` and
    /// `bitvavo-ratelimit-resetat` headers of a response.
    pub open spec fn after(self, remaining: Option<Seq<char>>, reset_at: Option<Seq<char>>) -> RateLimit {
        RateLimit {
            remaining: header_update(self.remaining, remaining),
            reset_at: header_update(self.reset_at, reset_at),
        }
    }

    /// The state before any response: 1000 points and no reset time.
    pub fn new() -> (r: Self)
        ensures
            r.remaining == INITIAL_RATE_LIMIT_REMAINING,
            r.reset_at == 0,
    {
        RateLimit { remaining: INITIAL_RATE_LIMIT_REMAINING, reset_at: 0 }
    }

    /// Takes in the rate limit headers of a response: each figure changes
    /// only when its header is present and holds a number.
    pub fn update(&mut self, remaining: Option<&str>, reset_at: Option<&str>)
        ensures
            *final(self) == old(self).after(opt_text(remaining), opt_text(reset_at)),
    {
        if let Some(h) = remaining {
            if let Some(v) = parse_i64(h) {
                self.remaining = v;
            }
        }
        if let Some(h) = reset_at {
            if let Some(v) = parse_i64(h) {
                self.reset_at = v;
            }
        }
    }
}

/// Taking in the same rate limit headers twice leaves the state of taking them in once.
pub proof fn lemma_rate_limit_update_idempotent(
    state: RateLimit,
    remaining: Option<Seq<char>>,
    reset_at: Option<Seq<char>>,
)
    ensures
        state.after(remaining, reset_at).after(remaining, reset_at) == state.after(remaining, reset_at),
{
}

/// A header that holds the decimal notation of a number sets its figure to
/// that number, whatever the state was; the other figure changes only by its
/// own header.
pub proof fn lemma_rate_limit_takes_reported_figures(state: RateLimit, remaining: i64, reset_at: i64)
    ensures
        state.after(Some(signed_decimal(remaining as int)), Some(signed_decimal(reset_at as int))) == (RateLimit {
            remaining,
            reset_at,
        }),
        state.after(Some(signed_decimal(remaining as int)), None) == (RateLimit { remaining, reset_at: state.reset_at }),
        state.after(None, Some(signed_decimal(reset_at as int))) == (RateLimit { remaining: state.remaining, reset_at }),
{
    crate::text::lemma_parse_i64_reads_signed_decimal(remaining);
    crate::text::lemma_parse_i64_reads_signed_decimal(reset_at);
}

/// A response without rate limit headers leaves the state unchanged.
pub proof fn lemma_rate_limit_unchanged_without_headers(state: RateLimit)
    ensures
        state.after(None, None) == state,
{
}

} // verus!
