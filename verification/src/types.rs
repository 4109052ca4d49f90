//! Data types shared by the REST and WebSocket clients.
//!
//! Monetary amounts and prices are kept as strings to preserve the exact
//! decimal representation returned by the exchange.

use crate::text::json_string;
use vstd::prelude::*;

verus! {

/// Order side.
#[derive(Debug, Clone, Copy, PartialEq, Eq, Structural)]
pub enum Side {
    Buy,
    Sell,
}

/// Order type.
#[derive(Debug, Clone, Copy, PartialEq, Eq, Structural)]
pub enum OrderType {
    Limit,
    Market,
    StopLoss,
    StopLossLimit,
    TakeProfit,
    TakeProfitLimit,
}

impl Side {
    /// The name the API uses for the side: lowercase.
    pub open spec fn wire_name(self) -> Seq<char> {
        match self {
            Side::Buy => "buy"@,
            Side::Sell => "sell"@,
        }
    }

    /// The side is named `buy` or `sell`, and the two names differ.
    pub proof fn lemma_names_distinct()
        ensures
            Side::Buy.wire_name() == seq!['b', 'u', 'y'],
            Side::Sell.wire_name() == seq!['s', 'e', 'l', 'l'],
            forall|a: Side, b: Side| a != b ==> #[trigger] a.wire_name() != #[trigger] b.wire_name(),
    {
        reveal_strlit("buy");
        reveal_strlit("sell");
        assert("buy"@ =~= seq!['b', 'u', 'y']);
        assert("sell"@ =~= seq!['s', 'e', 'l', 'l']);
        assert forall|a: Side, b: Side| a != b implies #[trigger] a.wire_name() != #[trigger] b.wire_name() by {
            let x = a.wire_name();
            let y = b.wire_name();
            if x.len() == y.len() {
                assert(exists|i: int| 0 <= i < x.len() && x[i] != y[i]);
            }
        }
    }

    /// The name the API uses for the side.
    pub fn as_str(&self) -> (s: &'static str)
        ensures
            s@ == self.wire_name(),
    {
        match self {
            Side::Buy => "buy",
            Side::Sell => "sell",
        }
    }

    /// The side as a JSON value: its name as a JSON string.
    pub fn to_json(&self) -> (s: String)
        ensures
            s@ == json_string(self.wire_name()),
    {
        let mut s = String::new();
        crate::text::push_json_string(&mut s, self.as_str());
        s
    }
}

impl OrderType {
    /// The name the API uses for the order type: camel case.
    pub open spec fn wire_name(self) -> Seq<char> {
        match self {
            OrderType::Limit => "limit"@,
            OrderType::Market => "market"@,
            OrderType::StopLoss => "stopLoss"@,
            OrderType::StopLossLimit => "stopLossLimit"@,
            OrderType::TakeProfit => "takeProfit"@,
            OrderType::TakeProfitLimit => "takeProfitLimit"@,
        }
    }

    /// Each order type is named in camel case as the API names it, and no two
    /// types share a name.
    pub proof fn lemma_names_distinct()
        ensures
            OrderType::Limit.wire_name() == seq!['l', 'i', 'm', 'i', 't'],
            OrderType::Market.wire_name() == seq!['m', 'a', 'r', 'k', 'e', 't'],
            OrderType::StopLoss.wire_name() == seq!['s', 't', 'o', 'p', 'L', 'o', 's', 's'],
            OrderType::StopLossLimit.wire_name() == seq!['s', 't', 'o', 'p', 'L', 'o', 's', 's', 'L', 'i', 'm', 'i', 't'],
            OrderType::TakeProfit.wire_name() == seq!['t', 'a', 'k', 'e', 'P', 'r', 'o', 'f', 'i', 't'],
            OrderType::TakeProfitLimit.wire_name() == seq!['t', 'a', 'k', 'e', 'P', 'r', 'o', 'f', 'i', 't', 'L', 'i', 'm', 'i', 't'],
            forall|a: OrderType, b: OrderType| a != b ==> #[trigger] a.wire_name() != #[trigger] b.wire_name(),
    {
        reveal_strlit("limit");
        reveal_strlit("market");
        reveal_strlit("stopLoss");
        reveal_strlit("stopLossLimit");
        reveal_strlit("takeProfit");
        reveal_strlit("takeProfitLimit");
        assert("limit"@ =~= seq!['l', 'i', 'm', 'i', 't']);
        assert("market"@ =~= seq!['m', 'a', 'r', 'k', 'e', 't']);
        assert("stopLoss"@ =~= seq!['s', 't', 'o', 'p', 'L', 'o', 's', 's']);
        assert("stopLossLimit"@ =~= seq!['s', 't', 'o', 'p', 'L', 'o', 's', 's', 'L', 'i', 'm', 'i', 't']);
        assert("takeProfit"@ =~= seq!['t', 'a', 'k', 'e', 'P', 'r', 'o', 'f', 'i', 't']);
        assert("takeProfitLimit"@ =~= seq!['t', 'a', 'k', 'e', 'P', 'r', 'o', 'f', 'i', 't', 'L', 'i', 'm', 'i', 't']);
        assert forall|a: OrderType, b: OrderType| a != b implies #[trigger] a.wire_name() != #[trigger] b.wire_name() by {
            let x = a.wire_name();
            let y = b.wire_name();
            if x.len() == y.len() {
                assert(exists|i: int| 0 <= i < x.len() && x[i] != y[i]);
            }
        }
    }

    /// The name the API uses for the order type.
    pub fn as_str(&self) -> (s: &'static str)
        ensures
            s@ == self.wire_name(),
    {
        match self {
            OrderType::Limit => "limit",
            OrderType::Market => "market",
            OrderType::StopLoss => "stopLoss",
            OrderType::StopLossLimit => "stopLossLimit",
            OrderType::TakeProfit => "takeProfit",
            OrderType::TakeProfitLimit => "takeProfitLimit",
        }
    }

    /// The order type as a JSON value: its name as a JSON string.
    pub fn to_json(&self) -> (s: String)
        ensures
            s@ == json_string(self.wire_name()),
    {
        let mut s = String::new();
        crate::text::push_json_string(&mut s, self.as_str());
        s
    }
}

/// A single price level as `[price, size]`.
pub type PriceLevel = [String; 2];

/// Response of `GET /time`.
#[derive(Debug, Clone)]
pub struct ServerTime {
    pub time: u64,
}

/// A tradable market.
#[derive(Debug, Clone)]
pub struct Market {
    pub market: String,
    pub status: String,
    pub base: String,
    pub quote: String,
    pub price_precision: Option<u32>,
    pub min_order_in_base_asset: Option<String>,
    pub min_order_in_quote_asset: Option<String>,
    pub max_order_in_base_asset: Option<String>,
    pub max_order_in_quote_asset: Option<String>,
    pub order_types: Vec<String>,
}

/// A supported asset.
#[derive(Debug, Clone)]
pub struct Asset {
    pub symbol: String,
    pub name: String,
    pub decimals: Option<u32>,
    pub deposit_fee: Option<String>,
    pub deposit_confirmations: Option<u32>,
    pub deposit_status: Option<String>,
    pub withdrawal_fee: Option<String>,
    pub withdrawal_min_amount: Option<String>,
    pub withdrawal_status: Option<String>,
    pub networks: Vec<String>,
    pub message: Option<String>,
}

/// Order book snapshot.
#[derive(Debug, Clone)]
pub struct OrderBook {
    pub market: String,
    pub nonce: u64,
    pub bids: Vec<PriceLevel>,
    pub asks: Vec<PriceLevel>,
}

/// A public trade.
#[derive(Debug, Clone)]
pub struct PublicTrade {
    pub id: String,
    pub timestamp: u64,
    pub amount: String,
    pub price: String,
    pub side: Side,
}

/// A single OHLCV candle.
/// The API returns candles as arrays of the form
/// `[timestamp, open, high, low, close, volume]`.
#[derive(Debug, Clone)]
pub struct Candle {
    pub timestamp: u64,
    pub open: String,
    pub high: String,
    pub low: String,
    pub close: String,
    pub volume: String,
}

/// Latest trade price for a market.
#[derive(Debug, Clone)]
pub struct TickerPrice {
    pub market: String,
    pub price: Option<String>,
}

/// Best bid and ask for a market.
#[derive(Debug, Clone)]
pub struct TickerBook {
    pub market: String,
    pub bid: Option<String>,
    pub ask: Option<String>,
    pub bid_size: Option<String>,
    pub ask_size: Option<String>,
}

/// 24 hour ticker statistics for a market.
#[derive(Debug, Clone)]
pub struct Ticker24h {
    pub market: String,
    pub open: Option<String>,
    pub high: Option<String>,
    pub low: Option<String>,
    pub last: Option<String>,
    pub volume: Option<String>,
    pub volume_quote: Option<String>,
    pub bid: Option<String>,
    pub bid_size: Option<String>,
    pub ask: Option<String>,
    pub ask_size: Option<String>,
    pub timestamp: Option<u64>,
    pub start_timestamp: Option<u64>,
    pub open_timestamp: Option<u64>,
    pub close_timestamp: Option<u64>,
}

/// An order as returned by the trading endpoints.
#[derive(Debug, Clone)]
pub struct Order {
    pub order_id: String,
    pub market: String,
    pub client_order_id: Option<String>,
    pub created: Option<u64>,
    pub updated: Option<u64>,
    pub status: String,
    pub side: Side,
    pub order_type: OrderType,
    pub amount: Option<String>,
    pub amount_remaining: Option<String>,
    pub amount_quote: Option<String>,
    pub amount_quote_remaining: Option<String>,
    pub price: Option<String>,
    pub on_hold: Option<String>,
    pub on_hold_currency: Option<String>,
    pub filled_amount: Option<String>,
    pub filled_amount_quote: Option<String>,
    pub fee_paid: Option<String>,
    pub fee_currency: Option<String>,
    pub fills: Vec<OrderFill>,
    pub trigger_price: Option<String>,
    pub trigger_amount: Option<String>,
    pub trigger_type: Option<String>,
    pub trigger_reference: Option<String>,
    pub time_in_force: Option<String>,
    pub post_only: Option<bool>,
    pub self_trade_prevention: Option<String>,
    pub visible: Option<bool>,
    pub disable_market_protection: Option<bool>,
}

/// A fill embedded in an order response.
#[derive(Debug, Clone)]
pub struct OrderFill {
    pub id: String,
    pub timestamp: u64,
    pub amount: String,
    pub price: String,
    pub taker: Option<bool>,
    pub fee: Option<String>,
    pub fee_currency: Option<String>,
    pub settled: Option<bool>,
}

/// Response of a cancel order request.
#[derive(Debug, Clone)]
pub struct CanceledOrder {
    pub order_id: String,
    pub client_order_id: Option<String>,
}

/// A private trade (an execution of one of your orders).
#[derive(Debug, Clone)]
pub struct Trade {
    pub id: String,
    pub order_id: String,
    pub client_order_id: Option<String>,
    pub timestamp: u64,
    pub market: String,
    pub side: Side,
    pub amount: String,
    pub price: String,
    pub taker: Option<bool>,
    pub fee: Option<String>,
    pub fee_currency: Option<String>,
    pub settled: Option<bool>,
}

/// Balance of one asset.
#[derive(Debug, Clone)]
pub struct Balance {
    pub symbol: String,
    pub available: String,
    pub in_order: String,
}

/// Deposit address or bank details for an asset.
#[derive(Debug, Clone)]
pub struct DepositInfo {
    pub address: Option<String>,
    pub payment_id: Option<String>,
    pub iban: Option<String>,
    pub bic: Option<String>,
    pub description: Option<String>,
}

/// Response of a withdrawal request.
#[derive(Debug, Clone)]
pub struct WithdrawalResponse {
    pub success: bool,
    pub symbol: String,
    pub amount: String,
}

/// A historical deposit.
#[derive(Debug, Clone)]
pub struct DepositEntry {
    pub timestamp: u64,
    pub symbol: String,
    pub amount: String,
    pub address: Option<String>,
    pub payment_id: Option<String>,
    pub tx_id: Option<String>,
    pub fee: Option<String>,
    pub status: Option<String>,
}

/// A historical withdrawal.
#[derive(Debug, Clone)]
pub struct WithdrawalEntry {
    pub timestamp: u64,
    pub symbol: String,
    pub amount: String,
    pub address: Option<String>,
    pub payment_id: Option<String>,
    pub tx_id: Option<String>,
    pub fee: Option<String>,
    pub status: Option<String>,
}

/// Ticker update pushed on the `ticker` WebSocket channel.
#[derive(Debug, Clone)]
pub struct TickerEvent {
    pub market: String,
    pub best_bid: Option<String>,
    pub best_bid_size: Option<String>,
    pub best_ask: Option<String>,
    pub best_ask_size: Option<String>,
    pub last_price: Option<String>,
}

/// Trade pushed on the `trades` WebSocket channel.
#[derive(Debug, Clone)]
pub struct TradeEvent {
    pub id: String,
    pub timestamp: u64,
    pub market: String,
    pub amount: String,
    pub price: String,
    pub side: Side,
}

/// Candle update pushed on the `candles` WebSocket channel.
#[derive(Debug, Clone)]
pub struct CandleEvent {
    pub market: String,
    pub interval: String,
    pub candle: Vec<Candle>,
}

/// Order book delta pushed on the `book` WebSocket channel.
#[derive(Debug, Clone)]
pub struct BookEvent {
    pub market: String,
    pub nonce: u64,
    pub bids: Vec<PriceLevel>,
    pub asks: Vec<PriceLevel>,
}

/// Order update pushed on the `account` WebSocket channel.
#[derive(Debug, Clone)]
pub struct OrderEvent {
    pub order_id: String,
    pub market: String,
    pub client_order_id: Option<String>,
    pub created: Option<u64>,
    pub updated: Option<u64>,
    pub status: String,
    pub side: Side,
    pub order_type: Option<OrderType>,
    pub amount: Option<String>,
    pub amount_remaining: Option<String>,
    pub amount_quote: Option<String>,
    pub amount_quote_remaining: Option<String>,
    pub price: Option<String>,
    pub on_hold: Option<String>,
    pub on_hold_currency: Option<String>,
    pub time_in_force: Option<String>,
    pub post_only: Option<bool>,
    pub self_trade_prevention: Option<String>,
    pub visible: Option<bool>,
}

/// Fill pushed on the `account` WebSocket channel.
#[derive(Debug, Clone)]
pub struct FillEvent {
    pub market: String,
    pub order_id: String,
    pub fill_id: String,
    pub timestamp: u64,
    pub side: Side,
    pub amount: String,
    pub price: String,
    pub taker: Option<bool>,
    pub fee: Option<String>,
    pub fee_currency: Option<String>,
}

} // verus!
