//! The WebSocket API: the messages the client sends, how a received message
//! is classified, and the decisions of the connection loop.
//!
//! Messages are compact JSON objects whose members are ordered by key name.

use crate::auth::{sign, signature};
use crate::config::ClientConfig;
use crate::error::{Error, Result};
use crate::text::{
    decimal, decimal_string, json_elements, json_object, json_object_text, json_string,
    json_string_text, keys_ascending, push_json_string, str_eq, text_lt, value_under,
};
use vstd::prelude::*;
use vstd::string::StringExecFns;

verus! {

/// Operation that caused a WebSocket connection error.
#[derive(Debug, Clone, Copy, PartialEq, Eq, Structural)]
#[non_exhaustive]
pub enum WsConnectionOperation {
    /// Reading a message from the server.
    Read,
    /// Writing a message to the server.
    Write,
}

/// A compact JSON array of the given element texts.
pub open spec fn json_array(elements: Seq<Seq<char>>) -> Seq<char> {
    seq!['['] + json_elements(elements) + seq![']']
}

/// The JSON strings of a list of texts.
pub open spec fn json_strings(items: Seq<&str>) -> Seq<Seq<char>> {
    items.map_values(|m: &str| json_string(m@))
}

/// Writes a JSON array of strings.
pub fn json_string_array(items: &[&str]) -> (s: String)
    ensures
        s@ == json_array(json_strings(items@)),
{
    let ghost es = json_strings(items@);
    let mut s = String::new();
    s.push('[');
    let mut i: usize = 0;
    while i < items.len()
        invariant
            i <= items@.len(),
            es == json_strings(items@),
            s@ == seq!['['] + json_elements(es.take(i as int)),
        decreases items@.len() - i,
    {
        if i > 0 {
            s.push(',');
        }
        push_json_string(&mut s, items[i]);
        assert(es.take(i + 1).drop_last() =~= es.take(i as int));
        assert(s@ =~= seq!['['] + json_elements(es.take(i + 1)));
        i = i + 1;
    }
    assert(es.take(i as int) =~= es);
    s.push(']');
    assert(s@ =~= json_array(es));
    s
}

fn member(key: &str, value: String) -> (m: (String, String))
    ensures
        m.deep_view() == (key@, value@),
{
    (String::from_str(key), value)
}

/// The members of the `authenticate` message.
pub open spec fn authenticate_members(
    key: Seq<char>,
    signature_text: Seq<char>,
    timestamp: u64,
    window_ms: u64,
) -> Seq<(Seq<char>, Seq<char>)> {
    seq![
        ("action"@, json_string("authenticate"@)),
        ("key"@, json_string(key)),
        ("signature"@, json_string(signature_text)),
        ("timestamp"@, decimal(timestamp as nat)),
        ("window"@, json_string(decimal(window_ms as nat))),
    ]
}

/// The `authenticate` message carries the action, the API key, the signature,
/// the timestamp as a number and the access window as a string, each under
/// its own key, ordered by key.
pub proof fn lemma_authenticate_members_values(key: Seq<char>, signature_text: Seq<char>, timestamp: u64, window_ms: u64)
    ensures
        value_under(authenticate_members(key, signature_text, timestamp, window_ms), "action"@) == Some(
            json_string("authenticate"@),
        ),
        value_under(authenticate_members(key, signature_text, timestamp, window_ms), "key"@) == Some(json_string(key)),
        value_under(authenticate_members(key, signature_text, timestamp, window_ms), "signature"@) == Some(
            json_string(signature_text),
        ),
        value_under(authenticate_members(key, signature_text, timestamp, window_ms), "timestamp"@) == Some(
            decimal(timestamp as nat),
        ),
        value_under(authenticate_members(key, signature_text, timestamp, window_ms), "window"@) == Some(
            json_string(decimal(window_ms as nat)),
        ),
        keys_ascending(authenticate_members(key, signature_text, timestamp, window_ms)),
{
    reveal_strlit("action");
    reveal_strlit("key");
    reveal_strlit("signature");
    reveal_strlit("timestamp");
    reveal_strlit("window");
    reveal_with_fuel(value_under, 6);
    reveal_with_fuel(text_lt, 3);
    let m = authenticate_members(key, signature_text, timestamp, window_ms);
    assert(m.drop_last().drop_last().drop_last().drop_last().drop_last() =~= seq![]);
    assert forall|i: int, j: int| 0 <= i < j < m.len() implies text_lt(#[trigger] m[i].0, #[trigger] m[j].0) by {
        let ks = seq!["action"@, "key"@, "signature"@, "timestamp"@, "window"@];
        assert(m[i].0 == ks[i] && m[j].0 == ks[j]);
    }
}

/// The `authenticate` message: the API key, the signature of
/// `GET /websocket` with an empty body at `timestamp`, the timestamp as a
/// number and the access window as a string. Refused with
/// `MissingCredentials` when either credential is unset.
pub fn authenticate_message(config: &ClientConfig, timestamp: u64) -> (r: Result<String>)
    ensures
        !config.spec_has_credentials() ==> r == Err::<String, Error>(Error::MissingCredentials),
        config.spec_has_credentials() ==> (r matches Ok(m) && m@ == json_object(
            authenticate_members(
                config.api_key.deep_view()->Some_0,
                signature(config.api_secret.deep_view()->Some_0, timestamp as nat, "GET"@, "/websocket"@, ""@),
                timestamp,
                config.access_window_ms,
            ),
        )),
{
    let (key, secret) = match config.credentials() {
        Ok(pair) => pair,
        Err(e) => return Err(e),
    };
    let sig = sign(secret, timestamp, "GET", "/websocket", "");
    let ghost sig_view = sig@;
    let members = vec![
        member("action", json_string_text("authenticate")),
        member("key", json_string_text(key)),
        member("signature", json_string_text(sig.as_str())),
        member("timestamp", decimal_string(timestamp)),
        member("window", json_string_text(decimal_string(config.access_window_ms).as_str())),
    ];
    assert(members.deep_view() =~= authenticate_members(key@, sig_view, timestamp, config.access_window_ms));
    Ok(json_object_text(&members))
}

/// The JSON object of a channel: its interval when it has one, its markets and its name.
pub open spec fn channel_members(name: Seq<char>, markets: Seq<&str>, interval: Option<Seq<char>>) -> Seq<
    (Seq<char>, Seq<char>),
> {
    (match interval {
        Some(i) => seq![("interval"@, json_array(seq![json_string(i)]))],
        None => seq![],
    }) + seq![("markets"@, json_array(json_strings(markets))), ("name"@, json_string(name))]
}

/// A channel's object carries its name, its markets as a list of strings,
/// and its interval as a one-string list when it has one (else no interval
/// member), each under its own key, ordered by key.
pub proof fn lemma_channel_members_values(name: Seq<char>, markets: Seq<&str>, interval: Option<Seq<char>>)
    ensures
        value_under(channel_members(name, markets, interval), "name"@) == Some(json_string(name)),
        value_under(channel_members(name, markets, interval), "markets"@) == Some(json_array(json_strings(markets))),
        value_under(channel_members(name, markets, interval), "interval"@) == match interval {
            Some(i) => Some(json_array(seq![json_string(i)])),
            None => None::<Seq<char>>,
        },
        keys_ascending(channel_members(name, markets, interval)),
{
    reveal_strlit("interval");
    reveal_strlit("markets");
    reveal_strlit("name");
    reveal_with_fuel(value_under, 4);
    reveal_with_fuel(text_lt, 3);
    let m = channel_members(name, markets, interval);
    assert(m.drop_last().drop_last().drop_last() =~= seq![] || m.drop_last().drop_last() =~= seq![]);
    assert forall|i: int, j: int| 0 <= i < j < m.len() implies text_lt(#[trigger] m[i].0, #[trigger] m[j].0) by {
        let ks = if interval is Some {
            seq!["interval"@, "markets"@, "name"@]
        } else {
            seq!["markets"@, "name"@]
        };
        assert(m[i].0 == ks[i] && m[j].0 == ks[j]);
    }
}

/// The text of a subscription message: the action and a one-channel list.
pub open spec fn subscription_text(action: Seq<char>, channel: Seq<char>) -> Seq<char> {
    json_object(seq![("action"@, json_string(action)), ("channels"@, json_array(seq![channel]))])
}

/// A subscription message: `action` on one channel for the given markets.
pub open spec fn channel_message(action: Seq<char>, name: Seq<char>, markets: Seq<&str>, interval: Option<Seq<char>>) -> Seq<char> {
    subscription_text(action, json_object(channel_members(name, markets, interval)))
}

/// Writes a subscription message for one channel.
pub fn channel_message_text(action: &str, name: &str, markets: &[&str], interval: Option<&str>) -> (s: String)
    ensures
        s@ == channel_message(
            action@,
            name@,
            markets@,
            match interval {
                Some(i) => Some(i@),
                None => None,
            },
        ),
{
    let ghost iv = match interval {
        Some(i) => Some(i@),
        None => None,
    };
    let mut channel: Vec<(String, String)> = Vec::new();
    if let Some(i) = interval {
        let mut arr = String::new();
        arr.push('[');
        push_json_string(&mut arr, i);
        arr.push(']');
        assert(json_elements(seq![json_string(i@)]) == json_string(i@));
        assert(arr@ =~= json_array(seq![json_string(i@)]));
        channel.push(member("interval", arr));
    }
    channel.push(member("markets", json_string_array(markets)));
    channel.push(member("name", json_string_text(name)));
    assert(channel.deep_view() =~= channel_members(name@, markets@, iv));
    let channel_text = json_object_text(&channel);
    let mut list = String::new();
    list.push('[');
    list.append(channel_text.as_str());
    list.push(']');
    assert(json_elements(seq![channel_text@]) == channel_text@);
    assert(list@ =~= json_array(seq![channel_text@]));
    let members = vec![member("action", json_string_text(action)), member("channels", list)];
    assert(members.deep_view() =~= seq![("action"@, json_string(action@)), ("channels"@, json_array(seq![channel_text@]))]);
    json_object_text(&members)
}

/// Subscribes to the `ticker` channel for the given markets.
pub fn subscribe_ticker_message(markets: &[&str]) -> (s: String)
    ensures
        s@ == channel_message("subscribe"@, "ticker"@, markets@, None),
{
    channel_message_text("subscribe", "ticker", markets, None)
}

/// Subscribes to the `ticker24h` channel for the given markets.
pub fn subscribe_ticker_24h_message(markets: &[&str]) -> (s: String)
    ensures
        s@ == channel_message("subscribe"@, "ticker24h"@, markets@, None),
{
    channel_message_text("subscribe", "ticker24h", markets, None)
}

/// Subscribes to the `trades` channel for the given markets.
pub fn subscribe_trades_message(markets: &[&str]) -> (s: String)
    ensures
        s@ == channel_message("subscribe"@, "trades"@, markets@, None),
{
    channel_message_text("subscribe", "trades", markets, None)
}

/// Subscribes to the `candles` channel for the given markets and interval.
pub fn subscribe_candles_message(markets: &[&str], interval: &str) -> (s: String)
    ensures
        s@ == channel_message("subscribe"@, "candles"@, markets@, Some(interval@)),
{
    channel_message_text("subscribe", "candles", markets, Some(interval))
}

/// Subscribes to the `book` channel for the given markets.
pub fn subscribe_book_message(markets: &[&str]) -> (s: String)
    ensures
        s@ == channel_message("subscribe"@, "book"@, markets@, None),
{
    channel_message_text("subscribe", "book", markets, None)
}

/// Subscribes to the `account` channel for the given markets.
pub fn subscribe_account_message(markets: &[&str]) -> (s: String)
    ensures
        s@ == channel_message("subscribe"@, "account"@, markets@, None),
{
    channel_message_text("subscribe", "account", markets, None)
}

/// Unsubscribes from a channel for the given markets.
pub fn unsubscribe_message(channel: &str, markets: &[&str]) -> (s: String)
    ensures
        s@ == channel_message("unsubscribe"@, channel@, markets@, None),
{
    channel_message_text("unsubscribe", channel, markets, None)
}

/// Requests an order book snapshot for a market.
pub fn get_book_message(market: &str) -> (s: String)
    ensures
        s@ == json_object(seq![("action"@, json_string("getBook"@)), ("market"@, json_string(market@))]),
{
    let members = vec![member("action", json_string_text("getBook")), member("market", json_string_text(market))];
    assert(members.deep_view() =~= seq![("action"@, json_string("getBook"@)), ("market"@, json_string(market@))]);
    json_object_text(&members)
}

/// The typed events the server announces in the `event` field.
#[derive(Debug, Clone, Copy, PartialEq, Eq, Structural)]
pub enum EventKind {
    /// `authenticate`: authentication succeeded.
    Authenticated,
    /// `subscribed`: subscription confirmation.
    Subscribed,
    /// `unsubscribed`: unsubscription confirmation.
    Unsubscribed,
    /// `ticker`: update on the `ticker` channel.
    Ticker,
    /// `ticker24h`: update on the `ticker24h` channel.
    Ticker24h,
    /// `candle`: update on the `candles` channel.
    Candle,
    /// `trade`: update on the `trades` channel.
    Trade,
    /// `book`: order book delta.
    Book,
    /// `order`: order update on the `account` channel.
    Order,
    /// `fill`: fill on the `account` channel.
    Fill,
}

/// The event kind an `event` name announces, if the name is a known one.
pub open spec fn event_kind_of(name: Seq<char>) -> Option<EventKind> {
    if name == "authenticate"@ {
        Some(EventKind::Authenticated)
    } else if name == "subscribed"@ {
        Some(EventKind::Subscribed)
    } else if name == "unsubscribed"@ {
        Some(EventKind::Unsubscribed)
    } else if name == "ticker"@ {
        Some(EventKind::Ticker)
    } else if name == "ticker24h"@ {
        Some(EventKind::Ticker24h)
    } else if name == "candle"@ {
        Some(EventKind::Candle)
    } else if name == "trade"@ {
        Some(EventKind::Trade)
    } else if name == "book"@ {
        Some(EventKind::Book)
    } else if name == "order"@ {
        Some(EventKind::Order)
    } else if name == "fill"@ {
        Some(EventKind::Fill)
    } else {
        None
    }
}

/// Each event name the server documents announces its own kind, and no other
/// name announces any kind.
pub proof fn lemma_event_names()
    ensures
        event_kind_of(seq!['a', 'u', 't', 'h', 'e', 'n', 't', 'i', 'c', 'a', 't', 'e']) == Some(EventKind::Authenticated),
        event_kind_of(seq!['s', 'u', 'b', 's', 'c', 'r', 'i', 'b', 'e', 'd']) == Some(EventKind::Subscribed),
        event_kind_of(seq!['u', 'n', 's', 'u', 'b', 's', 'c', 'r', 'i', 'b', 'e', 'd']) == Some(EventKind::Unsubscribed),
        event_kind_of(seq!['t', 'i', 'c', 'k', 'e', 'r']) == Some(EventKind::Ticker),
        event_kind_of(seq!['t', 'i', 'c', 'k', 'e', 'r', '2', '4', 'h']) == Some(EventKind::Ticker24h),
        event_kind_of(seq!['c', 'a', 'n', 'd', 'l', 'e']) == Some(EventKind::Candle),
        event_kind_of(seq!['t', 'r', 'a', 'd', 'e']) == Some(EventKind::Trade),
        event_kind_of(seq!['b', 'o', 'o', 'k']) == Some(EventKind::Book),
        event_kind_of(seq!['o', 'r', 'd', 'e', 'r']) == Some(EventKind::Order),
        event_kind_of(seq!['f', 'i', 'l', 'l']) == Some(EventKind::Fill),
        forall|name: Seq<char>|
            #[trigger] event_kind_of(name) is Some ==> {
                ||| name == seq!['a', 'u', 't', 'h', 'e', 'n', 't', 'i', 'c', 'a', 't', 'e']
                ||| name == seq!['s', 'u', 'b', 's', 'c', 'r', 'i', 'b', 'e', 'd']
                ||| name == seq!['u', 'n', 's', 'u', 'b', 's', 'c', 'r', 'i', 'b', 'e', 'd']
                ||| name == seq!['t', 'i', 'c', 'k', 'e', 'r']
                ||| name == seq!['t', 'i', 'c', 'k', 'e', 'r', '2', '4', 'h']
                ||| name == seq!['c', 'a', 'n', 'd', 'l', 'e']
                ||| name == seq!['t', 'r', 'a', 'd', 'e']
                ||| name == seq!['b', 'o', 'o', 'k']
                ||| name == seq!['o', 'r', 'd', 'e', 'r']
                ||| name == seq!['f', 'i', 'l', 'l']
            },
{
    reveal_strlit("authenticate");
    reveal_strlit("subscribed");
    reveal_strlit("unsubscribed");
    reveal_strlit("ticker");
    reveal_strlit("ticker24h");
    reveal_strlit("candle");
    reveal_strlit("trade");
    reveal_strlit("book");
    reveal_strlit("order");
    reveal_strlit("fill");
    assert("authenticate"@ =~= seq!['a', 'u', 't', 'h', 'e', 'n', 't', 'i', 'c', 'a', 't', 'e']);
    assert("subscribed"@ =~= seq!['s', 'u', 'b', 's', 'c', 'r', 'i', 'b', 'e', 'd']);
    assert("unsubscribed"@ =~= seq!['u', 'n', 's', 'u', 'b', 's', 'c', 'r', 'i', 'b', 'e', 'd']);
    assert("ticker"@ =~= seq!['t', 'i', 'c', 'k', 'e', 'r']);
    assert("ticker24h"@ =~= seq!['t', 'i', 'c', 'k', 'e', 'r', '2', '4', 'h']);
    assert("candle"@ =~= seq!['c', 'a', 'n', 'd', 'l', 'e']);
    assert("trade"@ =~= seq!['t', 'r', 'a', 'd', 'e']);
    assert("book"@ =~= seq!['b', 'o', 'o', 'k']);
    assert("order"@ =~= seq!['o', 'r', 'd', 'e', 'r']);
    assert("fill"@ =~= seq!['f', 'i', 'l', 'l']);
}

/// What a received JSON message is, decided from its top-level fields.
#[derive(Debug, Clone)]
pub enum EventClass {
    /// An error message from the server.
    Error { code: i64, message: String },
    /// A known event; its payload is decoded by the kind, and a payload that
    /// does not decode makes the message unknown.
    Event(EventKind),
    /// A response to a request sent over the socket, for example `getBook`.
    Response { action: String },
    /// A message that does not match any known shape.
    Unknown,
}

/// Whether a received message is an error, a known event, a response or unknown.
pub open spec fn event_class_matches(
    class: EventClass,
    error_code: Option<i64>,
    error: Option<Seq<char>>,
    event: Option<Seq<char>>,
    action: Option<Seq<char>>,
) -> bool {
    match error_code {
        Some(code) => class matches EventClass::Error { code: c, message: m } && c == code
            && m@ == (match error {
            Some(e) => e,
            None => Seq::<char>::empty(),
        }),
        None => match event {
            Some(name) => match event_kind_of(name) {
                Some(kind) => class == EventClass::Event(kind),
                None => class is Unknown,
            },
            None => match action {
                Some(a) => class matches EventClass::Response { action: x } && x@ == a,
                None => class is Unknown,
            },
        },
    }
}

fn event_kind_from_name(name: &str) -> (k: Option<EventKind>)
    ensures
        k == event_kind_of(name@),
{
    if str_eq(name, "authenticate") {
        Some(EventKind::Authenticated)
    } else if str_eq(name, "subscribed") {
        Some(EventKind::Subscribed)
    } else if str_eq(name, "unsubscribed") {
        Some(EventKind::Unsubscribed)
    } else if str_eq(name, "ticker") {
        Some(EventKind::Ticker)
    } else if str_eq(name, "ticker24h") {
        Some(EventKind::Ticker24h)
    } else if str_eq(name, "candle") {
        Some(EventKind::Candle)
    } else if str_eq(name, "trade") {
        Some(EventKind::Trade)
    } else if str_eq(name, "book") {
        Some(EventKind::Book)
    } else if str_eq(name, "order") {
        Some(EventKind::Order)
    } else if str_eq(name, "fill") {
        Some(EventKind::Fill)
    } else {
        None
    }
}

/// Classifies a received message from its top-level fields: an integer
/// `errorCode` makes it an error (with the `error` text, or empty text);
/// else a string `event` names the event (an unknown name makes it unknown);
/// else a string `action` makes it a response; else it is unknown.
pub fn classify_event(
    error_code: Option<i64>,
    error: Option<&str>,
    event: Option<&str>,
    action: Option<&str>,
) -> (class: EventClass)
    ensures
        event_class_matches(
            class,
            error_code,
            crate::rest::opt_text(error),
            crate::rest::opt_text(event),
            crate::rest::opt_text(action),
        ),
{
    if let Some(code) = error_code {
        let message = match error {
            Some(e) => String::from_str(e),
            None => String::new(),
        };
        return EventClass::Error { code, message };
    }
    if let Some(name) = event {
        return match event_kind_from_name(name) {
            Some(kind) => EventClass::Event(kind),
            None => EventClass::Unknown,
        };
    }
    if let Some(a) = action {
        return EventClass::Response { action: String::from_str(a) };
    }
    EventClass::Unknown
}

/// A top-level member of a JSON object, as far as the classification reads it.
#[derive(Debug, Clone)]
pub enum JsonLeaf {
    /// A number: its value when it is an integer that fits an `i64`.
    Int(Option<i64>),
    /// A string.
    Str(String),
    /// `null`, a boolean, an array or an object.
    Other,
}

/// A top-level member of a JSON object, by value.
pub enum JsonLeafView {
    Int(Option<i64>),
    Str(Seq<char>),
    Other,
}

impl DeepView for JsonLeaf {
    type V = JsonLeafView;

    open spec fn deep_view(&self) -> JsonLeafView {
        match self {
            JsonLeaf::Int(i) => JsonLeafView::Int(*i),
            JsonLeaf::Str(s) => JsonLeafView::Str(s@),
            JsonLeaf::Other => JsonLeafView::Other,
        }
    }
}

/// A member read, by value.
pub open spec fn member_view(m: std::result::Result<Option<JsonLeaf>, String>) -> std::result::Result<
    Option<JsonLeafView>,
    Seq<char>,
> {
    match m {
        Ok(leaf) => Ok(leaf.deep_view()),
        Err(e) => Err(e@),
    }
}

/// What a JSON text holds under a top-level key: `Err` with the parser's
/// message when the text is not JSON, else the member (absent when the text
/// is not an object or has no such key).
pub uninterp spec fn json_top_member(text: Seq<char>, key: Seq<char>) -> std::result::Result<Option<JsonLeafView>, Seq<char>>;

/// Parses the text with `serde_json::from_str::<serde_json::Value>` and takes
/// `Value::get(key)`, turning each variant of the member into a `JsonLeaf`
/// (a number by `Number::as_i64`) and a parse error into its `Display` text.
/// Claimed: the result is the named `json_top_member` of the text and the
/// key, a function of these alone.
#[verifier::external_body]
fn read_top_member(text: &str, key: &str) -> (r: std::result::Result<Option<JsonLeaf>, String>)
    ensures
        member_view(r) == json_top_member(text@, key@),
{
    match serde_json::from_str::<serde_json::Value>(text) {
        Err(err) => Err(err.to_string()),
        Ok(value) => Ok(match value.get(key) {
            None => None,
            Some(serde_json::Value::Number(n)) => Some(JsonLeaf::Int(n.as_i64())),
            Some(serde_json::Value::String(s)) => Some(JsonLeaf::Str(s.clone())),
            Some(_) => Some(JsonLeaf::Other),
        }),
    }
}

/// The integer under a key, when the member is a number that fits an `i64`.
pub open spec fn member_int(m: std::result::Result<Option<JsonLeafView>, Seq<char>>) -> Option<i64> {
    match m {
        Ok(Some(JsonLeafView::Int(Some(i)))) => Some(i),
        _ => None,
    }
}

/// The text under a key, when the member is a string.
pub open spec fn member_str(m: std::result::Result<Option<JsonLeafView>, Seq<char>>) -> Option<Seq<char>> {
    match m {
        Ok(Some(JsonLeafView::Str(s))) => Some(s),
        _ => None,
    }
}

fn int_member(m: &std::result::Result<Option<JsonLeaf>, String>) -> (r: Option<i64>)
    ensures
        r == member_int(member_view(*m)),
{
    match m {
        Ok(Some(JsonLeaf::Int(Some(i)))) => Some(*i),
        _ => None,
    }
}

fn str_member(m: &std::result::Result<Option<JsonLeaf>, String>) -> (r: Option<&str>)
    ensures
        crate::rest::opt_text(r) == member_str(member_view(*m)),
{
    match m {
        Ok(Some(JsonLeaf::Str(s))) => Some(s.as_str()),
        _ => None,
    }
}

/// The code of the error event that answers a text which is not JSON.
pub const INVALID_JSON_CODE: i64 = -1;

/// Classifies a received text message. A text that is not JSON is an error
/// with code -1 and the message `invalid json: ` followed by the parser's
/// message; otherwise the top-level `errorCode`, `error`, `event` and
/// `action` decide, as in `classify_event`.
pub fn classify_text(text: &str) -> (r: EventClass)
    ensures
        json_top_member(text@, "errorCode"@) matches Err(e) ==> (r matches EventClass::Error {
            code,
            message,
        } && code == INVALID_JSON_CODE && message@ == "invalid json: "@ + e),
        json_top_member(text@, "errorCode"@) is Ok ==> event_class_matches(
            r,
            member_int(json_top_member(text@, "errorCode"@)),
            member_str(json_top_member(text@, "error"@)),
            member_str(json_top_member(text@, "event"@)),
            member_str(json_top_member(text@, "action"@)),
        ),
{
    let code = read_top_member(text, "errorCode");
    if let Err(e) = &code {
        let mut message = String::from_str("invalid json: ");
        message.append(e.as_str());
        return EventClass::Error { code: INVALID_JSON_CODE, message };
    }
    let error = read_top_member(text, "error");
    let event = read_top_member(text, "event");
    let action = read_top_member(text, "action");
    classify_event(int_member(&code), str_member(&error), str_member(&event), str_member(&action))
}

/// Where the payload of a classified message is found.
#[derive(Debug, Clone, Copy, PartialEq, Eq)]
pub enum PayloadSource {
    /// The message carries no payload.
    Nothing,
    /// The payload is the whole message.
    Whole,
    /// The payload is the member under this top-level key.
    Member(&'static str),
}

/// The payload of each class: the subscriptions of a (un)subscription
/// confirmation, the `data` list of a 24 hour ticker update, the `response`
/// of a response, the whole message for the other events and for an unknown
/// message, and nothing for authentication and errors.
pub open spec fn payload_matches(class: EventClass, source: PayloadSource) -> bool {
    match class {
        EventClass::Event(EventKind::Authenticated) => source == PayloadSource::Nothing,
        EventClass::Event(EventKind::Subscribed) | EventClass::Event(EventKind::Unsubscribed) => (
        source matches PayloadSource::Member(k) && k@ == "subscriptions"@),
        EventClass::Event(EventKind::Ticker24h) => (source matches PayloadSource::Member(k) && k@
            == "data"@),
        EventClass::Event(_) => source == PayloadSource::Whole,
        EventClass::Response { .. } => (source matches PayloadSource::Member(k) && k@ == "response"@),
        EventClass::Error { .. } => source == PayloadSource::Nothing,
        EventClass::Unknown => source == PayloadSource::Whole,
    }
}

/// Where the payload of a classified message is found.
pub fn payload_source(class: &EventClass) -> (source: PayloadSource)
    ensures
        payload_matches(*class, source),
{
    match class {
        EventClass::Event(EventKind::Authenticated) => PayloadSource::Nothing,
        EventClass::Event(EventKind::Subscribed) => PayloadSource::Member("subscriptions"),
        EventClass::Event(EventKind::Unsubscribed) => PayloadSource::Member("subscriptions"),
        EventClass::Event(EventKind::Ticker24h) => PayloadSource::Member("data"),
        EventClass::Event(_) => PayloadSource::Whole,
        EventClass::Response { .. } => PayloadSource::Member("response"),
        EventClass::Error { .. } => PayloadSource::Nothing,
        EventClass::Unknown => PayloadSource::Whole,
    }
}

/// The payload of a ticker, candle, trade, book, order or fill event, and of
/// an unknown message, is the whole message; a (un)subscription confirmation
/// carries it under `subscriptions`, a 24 hour ticker update under `data`, a
/// response under `response`; authentication and errors carry none.
pub proof fn lemma_payload_locations(class: EventClass, source: PayloadSource)
    requires
        payload_matches(class, source),
    ensures
        (class == EventClass::Event(EventKind::Ticker) || class == EventClass::Event(EventKind::Candle) || class == EventClass::Event(EventKind::Trade) || class == EventClass::Event(EventKind::Book) || class == EventClass::Event(EventKind::Order) || class == EventClass::Event(EventKind::Fill)) ==> source == PayloadSource::Whole,
        class is Unknown ==> source == PayloadSource::Whole,
        (class == EventClass::Event(EventKind::Authenticated) || class is Error) ==> source == PayloadSource::Nothing,
        (class == EventClass::Event(EventKind::Subscribed) || class == EventClass::Event(EventKind::Unsubscribed)) ==> (source matches PayloadSource::Member(m) && m@ == seq!['s', 'u', 'b', 's', 'c', 'r', 'i', 'p', 't', 'i', 'o', 'n', 's']),
        class == EventClass::Event(EventKind::Ticker24h) ==> (source matches PayloadSource::Member(m) && m@ == seq!['d', 'a', 't', 'a']),
        class is Response ==> (source matches PayloadSource::Member(m) && m@ == seq!['r', 'e', 's', 'p', 'o', 'n', 's', 'e']),
{
    reveal_strlit("subscriptions");
    reveal_strlit("data");
    reveal_strlit("response");
    assert("subscriptions"@ =~= seq!['s', 'u', 'b', 's', 'c', 'r', 'i', 'p', 't', 'i', 'o', 'n', 's']);
    assert("data"@ =~= seq!['d', 'a', 't', 'a']);
    assert("response"@ =~= seq!['r', 'e', 's', 'p', 'o', 'n', 's', 'e']);
}

/// What the connection loop has just learned.
#[derive(Debug, Clone, Copy, PartialEq, Eq, Structural)]
pub enum LoopInput {
    /// The handle asked to send a text message.
    SendRequested,
    /// The handle asked to close the connection.
    CloseRequested,
    /// Every handle is gone; no command can arrive any more.
    CommandsEnded,
    /// The frame the loop wrote went out; `closing` tells whether it was the close frame.
    WriteSucceeded { closing: bool },
    /// Writing a frame failed.
    WriteFailed,
    /// A text message arrived.
    TextReceived,
    /// A ping arrived.
    PingReceived,
    /// A close frame arrived.
    CloseReceived,
    /// The server side of the stream ended.
    StreamEnded,
    /// Reading from the stream failed.
    ReadFailed,
    /// Some other frame arrived (binary, pong, raw frame).
    OtherReceived,
    /// The event of a text message was handed to the event receiver.
    EventDelivered,
    /// The event receiver is gone.
    EventReceiverGone,
}

/// What the connection loop does next.
#[derive(Debug, Clone, Copy, PartialEq, Eq, Structural)]
pub enum LoopAction {
    /// Write the requested text as a text frame.
    WriteText,
    /// Write a close frame.
    WriteClose,
    /// Answer the ping with a pong carrying its payload.
    WritePong,
    /// Parse the text and hand the event to the receiver.
    Deliver,
    /// Wait for the next command or frame.
    Continue,
    /// Report a connection error for the operation, then end the loop.
    Fail(WsConnectionOperation),
    /// End the loop.
    Stop,
}

impl LoopAction {
    /// The loop ends after this action (and then announces that it closed).
    pub open spec fn ends(self) -> bool {
        self is Stop || self is Fail
    }
}

/// The decision the connection loop takes on what it has just learned.
pub open spec fn loop_decision(input: LoopInput) -> LoopAction {
    match input {
        LoopInput::SendRequested => LoopAction::WriteText,
        LoopInput::CloseRequested => LoopAction::WriteClose,
        LoopInput::CommandsEnded => LoopAction::Stop,
        LoopInput::WriteSucceeded { closing } => if closing {
            LoopAction::Stop
        } else {
            LoopAction::Continue
        },
        LoopInput::WriteFailed => LoopAction::Fail(WsConnectionOperation::Write),
        LoopInput::TextReceived => LoopAction::Deliver,
        LoopInput::PingReceived => LoopAction::WritePong,
        LoopInput::CloseReceived => LoopAction::Stop,
        LoopInput::StreamEnded => LoopAction::Stop,
        LoopInput::ReadFailed => LoopAction::Fail(WsConnectionOperation::Read),
        LoopInput::OtherReceived => LoopAction::Continue,
        LoopInput::EventDelivered => LoopAction::Continue,
        LoopInput::EventReceiverGone => LoopAction::Stop,
    }
}

/// Decides the next action of the connection loop. The loop ends when every
/// handle is gone, after its close frame went out, when the server closes or
/// ends the stream, when the event receiver is gone, and after a read or
/// write error, which it reports with the failed operation first.
pub fn next_loop_action(input: LoopInput) -> (action: LoopAction)
    ensures
        action == loop_decision(input),
{
    match input {
        LoopInput::SendRequested => LoopAction::WriteText,
        LoopInput::CloseRequested => LoopAction::WriteClose,
        LoopInput::CommandsEnded => LoopAction::Stop,
        LoopInput::WriteSucceeded { closing } => if closing {
            LoopAction::Stop
        } else {
            LoopAction::Continue
        },
        LoopInput::WriteFailed => LoopAction::Fail(WsConnectionOperation::Write),
        LoopInput::TextReceived => LoopAction::Deliver,
        LoopInput::PingReceived => LoopAction::WritePong,
        LoopInput::CloseReceived => LoopAction::Stop,
        LoopInput::StreamEnded => LoopAction::Stop,
        LoopInput::ReadFailed => LoopAction::Fail(WsConnectionOperation::Read),
        LoopInput::OtherReceived => LoopAction::Continue,
        LoopInput::EventDelivered => LoopAction::Continue,
        LoopInput::EventReceiverGone => LoopAction::Stop,
    }
}

/// Every read or write failure ends the connection, and is reported with the
/// operation that failed; nothing else is reported as a connection error.
pub proof fn lemma_failures_end_the_connection(input: LoopInput)
    ensures
        input == LoopInput::ReadFailed <==> loop_decision(input) == LoopAction::Fail(WsConnectionOperation::Read),
        input == LoopInput::WriteFailed <==> loop_decision(input) == LoopAction::Fail(WsConnectionOperation::Write),
        loop_decision(input) is Fail ==> loop_decision(input).ends(),
{
}

/// The loop ends exactly when every handle is gone, after its close frame
/// went out, on a read or write failure, when the server closes or ends the
/// stream, and when the event receiver is gone. It delivers exactly the
/// texts that arrive, answers exactly the pings, writes a text exactly when
/// asked to send one, and a close frame exactly when asked to close.
pub proof fn lemma_loop_reactions(input: LoopInput)
    ensures
        loop_decision(input).ends() <==> ({
            ||| input == LoopInput::CommandsEnded
            ||| input == (LoopInput::WriteSucceeded { closing: true })
            ||| input == LoopInput::WriteFailed
            ||| input == LoopInput::CloseReceived
            ||| input == LoopInput::StreamEnded
            ||| input == LoopInput::ReadFailed
            ||| input == LoopInput::EventReceiverGone
        }),
        loop_decision(input) == LoopAction::Deliver <==> input == LoopInput::TextReceived,
        loop_decision(input) == LoopAction::WritePong <==> input == LoopInput::PingReceived,
        loop_decision(input) == LoopAction::WriteText <==> input == LoopInput::SendRequested,
        loop_decision(input) == LoopAction::WriteClose <==> input == LoopInput::CloseRequested,
{
}

/// Whether the connection loop still runs.
#[derive(Debug, Clone, Copy, PartialEq, Eq, Structural)]
pub enum ConnectionState {
    /// The loop runs and reacts to commands and frames.
    Open,
    /// The loop has ended and has announced that the connection closed.
    Ended,
}

/// What the event stream receives from one step of the connection loop.
#[derive(Debug, Clone, Copy, PartialEq, Eq, Structural)]
pub enum Emission {
    /// The event parsed from a text message.
    Event,
    /// A connection error of the operation that failed.
    ConnectionError(WsConnectionOperation),
    /// The announcement that the connection closed.
    Closed,
}

/// The state and action of one step: an ended loop stays ended and does
/// nothing more; a running loop takes its decision and ends when the
/// decision ends it.
pub open spec fn step_spec(state: ConnectionState, input: LoopInput) -> (ConnectionState, LoopAction) {
    match state {
        ConnectionState::Ended => (ConnectionState::Ended, LoopAction::Stop),
        ConnectionState::Open => {
            let action = loop_decision(input);
            (if action.ends() { ConnectionState::Ended } else { ConnectionState::Open }, action)
        },
    }
}

/// What the event stream receives from one step: the parsed event of a
/// delivered text, and when the step ends the loop, the connection error of
/// a failure followed by the closing announcement. An ended loop sends nothing.
pub open spec fn step_emissions(state: ConnectionState, input: LoopInput) -> Seq<Emission> {
    match state {
        ConnectionState::Ended => seq![],
        ConnectionState::Open => match loop_decision(input) {
            LoopAction::Deliver => seq![Emission::Event],
            LoopAction::Fail(op) => seq![Emission::ConnectionError(op), Emission::Closed],
            LoopAction::Stop => seq![Emission::Closed],
            _ => seq![],
        },
    }
}

/// What the event stream receives over a run of the loop on the given inputs.
pub open spec fn run_emissions(state: ConnectionState, inputs: Seq<LoopInput>) -> Seq<Emission>
    decreases inputs.len(),
{
    if inputs.len() == 0 {
        seq![]
    } else {
        step_emissions(state, inputs[0]) + run_emissions(step_spec(state, inputs[0]).0, inputs.drop_first())
    }
}

/// The state after a run of the loop on the given inputs.
pub open spec fn run_state(state: ConnectionState, inputs: Seq<LoopInput>) -> ConnectionState
    decreases inputs.len(),
{
    if inputs.len() == 0 {
        state
    } else {
        run_state(step_spec(state, inputs[0]).0, inputs.drop_first())
    }
}

/// Takes one step of the connection loop.
pub fn next_step(state: ConnectionState, input: LoopInput) -> (r: (ConnectionState, LoopAction))
    ensures
        r == step_spec(state, input),
{
    match state {
        ConnectionState::Ended => (ConnectionState::Ended, LoopAction::Stop),
        ConnectionState::Open => {
            let action = next_loop_action(input);
            let ends = match action {
                LoopAction::Stop => true,
                LoopAction::Fail(_) => true,
                _ => false,
            };
            (if ends { ConnectionState::Ended } else { ConnectionState::Open }, action)
        },
    }
}

/// The closing announcement comes at most once and last, and a connection
/// error comes only right before it.
pub open spec fn closes_once_and_last(e: Seq<Emission>) -> bool {
    &&& forall|i: int| 0 <= i < e.len() && #[trigger] e[i] == Emission::Closed ==> i == e.len() - 1
    &&& forall|i: int|
        0 <= i < e.len() && (#[trigger] e[i] is ConnectionError) ==> i == e.len() - 2 && e.last()
            == Emission::Closed
}

proof fn lemma_step_shape(state: ConnectionState, input: LoopInput)
    ensures
        state == ConnectionState::Ended ==> step_emissions(state, input) == Seq::<Emission>::empty()
            && step_spec(state, input).0 == ConnectionState::Ended,
        state == ConnectionState::Open && step_spec(state, input).0 == ConnectionState::Ended ==> (
        step_emissions(state, input).len() > 0 && step_emissions(state, input).last() == Emission::Closed
            && closes_once_and_last(step_emissions(state, input))),
        step_spec(state, input).0 == ConnectionState::Open ==> (state == ConnectionState::Open
            && step_emissions(state, input).len() <= 1 && forall|i: int|
            0 <= i < step_emissions(state, input).len() ==> #[trigger] step_emissions(state, input)[i]
                == Emission::Event),
{
    let s = step_emissions(state, input);
    if state == ConnectionState::Ended {
        assert(s =~= Seq::<Emission>::empty());
    }
}

proof fn lemma_events_then_closing(s: Seq<Emission>, r: Seq<Emission>)
    requires
        forall|i: int| 0 <= i < s.len() ==> #[trigger] s[i] == Emission::Event,
        closes_once_and_last(r),
    ensures
        closes_once_and_last(s + r),
        r.len() > 0 ==> (s + r).last() == r.last(),
        r.len() == 0 && s.len() > 0 ==> (s + r).last() == Emission::Event,
{
    let e = s + r;
    assert forall|i: int| 0 <= i < e.len() && #[trigger] e[i] == Emission::Closed implies i == e.len() - 1 by {
        if i < s.len() {
            assert(e[i] == s[i]);
        } else {
            assert(e[i] == r[i - s.len()]);
        }
    }
    assert forall|i: int| 0 <= i < e.len() && (#[trigger] e[i] is ConnectionError) implies i == e.len() - 2
        && e.last() == Emission::Closed by {
        if i < s.len() {
            assert(e[i] == s[i]);
        } else {
            assert(e[i] == r[i - s.len()]);
            assert(e.last() == r.last());
        }
    }
}

/// Over any run of the connection loop, the stream receives the closing
/// announcement at most once and nothing after it, a connection error only
/// right before it, and it receives it exactly when the loop has ended.
pub proof fn lemma_run_closes_once_and_last(state: ConnectionState, inputs: Seq<LoopInput>)
    ensures
        state == ConnectionState::Ended ==> run_emissions(state, inputs) == Seq::<Emission>::empty(),
        closes_once_and_last(run_emissions(state, inputs)),
        state == ConnectionState::Open ==> (run_state(state, inputs) == ConnectionState::Ended <==> (
        run_emissions(state, inputs).len() > 0 && run_emissions(state, inputs).last() == Emission::Closed)),
    decreases inputs.len(),
{
    if inputs.len() == 0 {
        return;
    }
    let next = step_spec(state, inputs[0]).0;
    let rest = inputs.drop_first();
    lemma_run_closes_once_and_last(next, rest);
    lemma_step_shape(state, inputs[0]);
    let s = step_emissions(state, inputs[0]);
    let r = run_emissions(next, rest);
    let e = run_emissions(state, inputs);
    assert(e == s + r);
    assert(run_state(state, inputs) == run_state(next, rest));
    if state == ConnectionState::Ended {
        assert(e =~= Seq::<Emission>::empty());
    } else if next == ConnectionState::Ended {
        assert(e =~= s);
        lemma_ended_stays_ended(rest);
    } else {
        lemma_events_then_closing(s, r);
    }
}

/// An ended loop stays ended whatever it learns.
pub proof fn lemma_ended_stays_ended(inputs: Seq<LoopInput>)
    ensures
        run_state(ConnectionState::Ended, inputs) == ConnectionState::Ended,
    decreases inputs.len(),
{
    if inputs.len() > 0 {
        lemma_ended_stays_ended(inputs.drop_first());
    }
}

/// The text messages the loop takes in while it runs.
pub open spec fn texts_while_open(state: ConnectionState, inputs: Seq<LoopInput>) -> nat
    decreases inputs.len(),
{
    if inputs.len() == 0 {
        0
    } else {
        (if state == ConnectionState::Open && inputs[0] == LoopInput::TextReceived {
            1nat
        } else {
            0nat
        }) + texts_while_open(step_spec(state, inputs[0]).0, inputs.drop_first())
    }
}

/// How many parsed events a sequence of emissions holds.
pub open spec fn event_count(e: Seq<Emission>) -> nat
    decreases e.len(),
{
    if e.len() == 0 {
        0
    } else {
        event_count(e.drop_last()) + (if e.last() == Emission::Event {
            1nat
        } else {
            0nat
        })
    }
}

proof fn lemma_event_count_concat(a: Seq<Emission>, b: Seq<Emission>)
    ensures
        event_count(a + b) == event_count(a) + event_count(b),
    decreases b.len(),
{
    if b.len() == 0 {
        assert(a + b =~= a);
    } else {
        lemma_event_count_concat(a, b.drop_last());
        assert((a + b).drop_last() =~= a + b.drop_last());
    }
}

/// Every text message that arrives while the loop runs becomes exactly one
/// event on the stream, and no other input does.
pub proof fn lemma_one_event_per_text(state: ConnectionState, inputs: Seq<LoopInput>)
    ensures
        event_count(run_emissions(state, inputs)) == texts_while_open(state, inputs),
    decreases inputs.len(),
{
    if inputs.len() > 0 {
        let next = step_spec(state, inputs[0]).0;
        lemma_one_event_per_text(next, inputs.drop_first());
        let s = step_emissions(state, inputs[0]);
        lemma_event_count_concat(s, run_emissions(next, inputs.drop_first()));
        assert(event_count(Seq::<Emission>::empty()) == 0);
        if s.len() == 2 {
            assert(s.drop_last() =~= seq![s[0]]);
            assert(seq![s[0]].drop_last() =~= Seq::<Emission>::empty());
            assert(event_count(seq![s[0]]) == 0);
            assert(event_count(s) == 0);
        } else if s.len() == 1 {
            assert(s.drop_last() =~= Seq::<Emission>::empty());
            assert(event_count(s) == (if s[0] == Emission::Event { 1nat } else { 0nat }));
        } else {
            assert(s =~= Seq::<Emission>::empty());
        }
        assert(loop_decision(inputs[0]) == LoopAction::Deliver <==> inputs[0] == LoopInput::TextReceived);
        assert(event_count(s) == (if state == ConnectionState::Open && inputs[0] == LoopInput::TextReceived {
            1nat
        } else {
            0nat
        }));
    } else {
        assert(run_emissions(state, inputs) =~= Seq::<Emission>::empty());
    }
}

/// The stream receives what the loop emits in the order it takes its inputs:
/// a run on `a` then `b` emits what the run on `a` emits, then what a run on
/// `b` from the state after `a` emits.
pub proof fn lemma_run_in_order(state: ConnectionState, a: Seq<LoopInput>, b: Seq<LoopInput>)
    ensures
        run_emissions(state, a + b) == run_emissions(state, a) + run_emissions(run_state(state, a), b),
        run_state(state, a + b) == run_state(run_state(state, a), b),
    decreases a.len(),
{
    if a.len() == 0 {
        assert(a + b =~= b);
        assert(run_emissions(state, a) =~= Seq::<Emission>::empty());
        assert(run_emissions(state, a) + run_emissions(state, b) =~= run_emissions(state, b));
    } else {
        let next = step_spec(state, a[0]).0;
        lemma_run_in_order(next, a.drop_first(), b);
        assert((a + b).drop_first() =~= a.drop_first() + b);
        assert((a + b)[0] == a[0]);
        let s = step_emissions(state, a[0]);
        assert(run_emissions(state, a + b) == s + run_emissions(next, a.drop_first() + b));
        assert(s + (run_emissions(next, a.drop_first()) + run_emissions(run_state(next, a.drop_first()), b))
            =~= (s + run_emissions(next, a.drop_first())) + run_emissions(run_state(next, a.drop_first()), b));
    }
}

} // verus!
