//! Request bodies of the trading and withdrawal endpoints and their JSON text.
//!
//! A body is a compact JSON object that lists the fields that are set, each
//! once, in ascending order of key name; text is a JSON string, flags are
//! `true`/`false`, numbers are decimal.

use crate::text::{
    entries_of, lemma_entries_keys, lemma_entries_of_push, lemma_entries_value, lemma_table_keys_ascending, value_under,
    keys_ascending, lemma_keys_ascending_append, lemma_keys_ascending_append_last, text_lt,
    json_bool, json_bool_text, json_object, json_object_text, json_string, json_string_text,
    signed_decimal, signed_decimal_string,
};
use crate::types::{OrderType, Side};
use vstd::prelude::*;
use vstd::string::StringExecFns;

verus! {

/// Body members as text: each `(key, value JSON text)` member by its characters.
pub type MembersView = Seq<(Seq<char>, Seq<char>)>;

/// One member when the value is present, none otherwise.
pub open spec fn opt_member(key: Seq<char>, value: Option<Seq<char>>) -> MembersView {
    match value {
        Some(v) => seq![(key, v)],
        None => seq![],
    }
}

/// The JSON string for a text that may be absent.
pub open spec fn opt_json_text(v: Option<Seq<char>>) -> Option<Seq<char>> {
    match v {
        Some(t) => Some(json_string(t)),
        None => None,
    }
}

/// The JSON literal for a flag that may be absent.
pub open spec fn opt_json_bool(v: Option<bool>) -> Option<Seq<char>> {
    match v {
        Some(b) => Some(json_bool(b)),
        None => None,
    }
}

/// The JSON number for a signed integer that may be absent.
pub open spec fn opt_json_int(v: Option<i64>) -> Option<Seq<char>> {
    match v {
        Some(i) => Some(signed_decimal(i as int)),
        None => None,
    }
}

fn push_member(ms: &mut Vec<(String, String)>, key: &str, value: String)
    ensures
        final(ms).deep_view() == old(ms).deep_view() + seq![(key@, value@)],
{
    ms.push((String::from_str(key), value));
    assert(final(ms).deep_view() =~= old(ms).deep_view() + seq![(key@, value@)]);
}

fn push_text_member(ms: &mut Vec<(String, String)>, key: &str, value: &Option<String>)
    ensures
        final(ms).deep_view() == old(ms).deep_view() + opt_member(key@, opt_json_text(value.deep_view())),
{
    if let Some(v) = value {
        push_member(ms, key, json_string_text(v.as_str()));
    }
    assert(final(ms).deep_view() =~= old(ms).deep_view() + opt_member(key@, opt_json_text(value.deep_view())));
}

fn push_bool_member(ms: &mut Vec<(String, String)>, key: &str, value: Option<bool>)
    ensures
        final(ms).deep_view() == old(ms).deep_view() + opt_member(key@, opt_json_bool(value)),
{
    if let Some(b) = value {
        push_member(ms, key, json_bool_text(b));
    }
    assert(final(ms).deep_view() =~= old(ms).deep_view() + opt_member(key@, opt_json_bool(value)));
}

fn push_int_member(ms: &mut Vec<(String, String)>, key: &str, value: Option<i64>)
    ensures
        final(ms).deep_view() == old(ms).deep_view() + opt_member(key@, opt_json_int(value)),
{
    if let Some(i) = value {
        push_member(ms, key, signed_decimal_string(i));
    }
    assert(final(ms).deep_view() =~= old(ms).deep_view() + opt_member(key@, opt_json_int(value)));
}

/// Request body for `POST /order`.
#[derive(Debug, Clone)]
pub struct OrderRequest {
    pub market: String,
    pub side: Side,
    pub order_type: OrderType,
    pub amount: Option<String>,
    pub amount_quote: Option<String>,
    pub price: Option<String>,
    pub time_in_force: Option<String>,
    pub self_trade_prevention: Option<String>,
    pub post_only: Option<bool>,
    pub disable_market_protection: Option<bool>,
    pub response_required: Option<bool>,
    pub trigger_type: Option<String>,
    pub trigger_reference: Option<String>,
    pub trigger_amount: Option<String>,
    pub client_order_id: Option<String>,
    pub operator_id: Option<i64>,
}

impl OrderRequest {
    /// Each field that is set stands in the body under its own key with its JSON
    /// value, one that is unset has no member, and no other key occurs.
    pub proof fn lemma_members_hold_fields(&self)
        ensures
            value_under(self.spec_members(), "amount"@) == opt_json_text(self.amount.deep_view()),
            value_under(self.spec_members(), "amountQuote"@) == opt_json_text(self.amount_quote.deep_view()),
            value_under(self.spec_members(), "clientOrderId"@) == opt_json_text(self.client_order_id.deep_view()),
            value_under(self.spec_members(), "disableMarketProtection"@) == opt_json_bool(self.disable_market_protection),
            value_under(self.spec_members(), "market"@) == Some(json_string(self.market@)),
            value_under(self.spec_members(), "operatorId"@) == opt_json_int(self.operator_id),
            value_under(self.spec_members(), "orderType"@) == Some(json_string(self.order_type.wire_name())),
            value_under(self.spec_members(), "postOnly"@) == opt_json_bool(self.post_only),
            value_under(self.spec_members(), "price"@) == opt_json_text(self.price.deep_view()),
            value_under(self.spec_members(), "responseRequired"@) == opt_json_bool(self.response_required),
            value_under(self.spec_members(), "selfTradePrevention"@) == opt_json_text(self.self_trade_prevention.deep_view()),
            value_under(self.spec_members(), "side"@) == Some(json_string(self.side.wire_name())),
            value_under(self.spec_members(), "timeInForce"@) == opt_json_text(self.time_in_force.deep_view()),
            value_under(self.spec_members(), "triggerAmount"@) == opt_json_text(self.trigger_amount.deep_view()),
            value_under(self.spec_members(), "triggerReference"@) == opt_json_text(self.trigger_reference.deep_view()),
            value_under(self.spec_members(), "triggerType"@) == opt_json_text(self.trigger_type.deep_view()),
            forall|i: int|
                0 <= i < self.spec_members().len() ==> {
                    let k = (#[trigger] self.spec_members()[i]).0;
                    k == "amount"@ || k == "amountQuote"@ || k == "clientOrderId"@ || k == "disableMarketProtection"@ || k == "market"@ || k == "operatorId"@ || k == "orderType"@ || k == "postOnly"@ || k == "price"@ || k == "responseRequired"@ || k == "selfTradePrevention"@ || k == "side"@ || k == "timeInForce"@ || k == "triggerAmount"@ || k == "triggerReference"@ || k == "triggerType"@
                },
    {
        reveal_strlit("amount");
        reveal_strlit("amountQuote");
        reveal_strlit("clientOrderId");
        reveal_strlit("disableMarketProtection");
        reveal_strlit("market");
        reveal_strlit("operatorId");
        reveal_strlit("orderType");
        reveal_strlit("postOnly");
        reveal_strlit("price");
        reveal_strlit("responseRequired");
        reveal_strlit("selfTradePrevention");
        reveal_strlit("side");
        reveal_strlit("timeInForce");
        reveal_strlit("triggerAmount");
        reveal_strlit("triggerReference");
        reveal_strlit("triggerType");
        reveal_with_fuel(text_lt, 9);
        let t0 = Seq::<(Seq<char>, Option<Seq<char>>)>::empty();
        let f0 = ("amount"@, opt_json_text(self.amount.deep_view()));
        let t1 = t0.push(f0);
        lemma_entries_of_push(t0, f0);
        let f1 = ("amountQuote"@, opt_json_text(self.amount_quote.deep_view()));
        let t2 = t1.push(f1);
        lemma_entries_of_push(t1, f1);
        let f2 = ("clientOrderId"@, opt_json_text(self.client_order_id.deep_view()));
        let t3 = t2.push(f2);
        lemma_entries_of_push(t2, f2);
        let f3 = ("disableMarketProtection"@, opt_json_bool(self.disable_market_protection));
        let t4 = t3.push(f3);
        lemma_entries_of_push(t3, f3);
        let f4 = ("market"@, Some(json_string(self.market@)));
        let t5 = t4.push(f4);
        lemma_entries_of_push(t4, f4);
        let f5 = ("operatorId"@, opt_json_int(self.operator_id));
        let t6 = t5.push(f5);
        lemma_entries_of_push(t5, f5);
        let f6 = ("orderType"@, Some(json_string(self.order_type.wire_name())));
        let t7 = t6.push(f6);
        lemma_entries_of_push(t6, f6);
        let f7 = ("postOnly"@, opt_json_bool(self.post_only));
        let t8 = t7.push(f7);
        lemma_entries_of_push(t7, f7);
        let f8 = ("price"@, opt_json_text(self.price.deep_view()));
        let t9 = t8.push(f8);
        lemma_entries_of_push(t8, f8);
        let f9 = ("responseRequired"@, opt_json_bool(self.response_required));
        let t10 = t9.push(f9);
        lemma_entries_of_push(t9, f9);
        let f10 = ("selfTradePrevention"@, opt_json_text(self.self_trade_prevention.deep_view()));
        let t11 = t10.push(f10);
        lemma_entries_of_push(t10, f10);
        let f11 = ("side"@, Some(json_string(self.side.wire_name())));
        let t12 = t11.push(f11);
        lemma_entries_of_push(t11, f11);
        let f12 = ("timeInForce"@, opt_json_text(self.time_in_force.deep_view()));
        let t13 = t12.push(f12);
        lemma_entries_of_push(t12, f12);
        let f13 = ("triggerAmount"@, opt_json_text(self.trigger_amount.deep_view()));
        let t14 = t13.push(f13);
        lemma_entries_of_push(t13, f13);
        let f14 = ("triggerReference"@, opt_json_text(self.trigger_reference.deep_view()));
        let t15 = t14.push(f14);
        lemma_entries_of_push(t14, f14);
        let f15 = ("triggerType"@, opt_json_text(self.trigger_type.deep_view()));
        let t16 = t15.push(f15);
        lemma_entries_of_push(t15, f15);
        assert(self.spec_members() =~= entries_of(t16));
        assert forall|i: int| 0 <= i < t16.len() - 1 implies text_lt(#[trigger] t16[i].0, t16[i + 1].0) by {
            if i == 0 {
                assert(text_lt("amount"@, "amountQuote"@));
            } else if i == 1 {
                assert(text_lt("amountQuote"@, "clientOrderId"@));
            } else if i == 2 {
                assert(text_lt("clientOrderId"@, "disableMarketProtection"@));
            } else if i == 3 {
                assert(text_lt("disableMarketProtection"@, "market"@));
            } else if i == 4 {
                assert(text_lt("market"@, "operatorId"@));
            } else if i == 5 {
                assert(text_lt("operatorId"@, "orderType"@));
            } else if i == 6 {
                assert(text_lt("orderType"@, "postOnly"@));
            } else if i == 7 {
                assert(text_lt("postOnly"@, "price"@));
            } else if i == 8 {
                assert(text_lt("price"@, "responseRequired"@));
            } else if i == 9 {
                assert(text_lt("responseRequired"@, "selfTradePrevention"@));
            } else if i == 10 {
                assert(text_lt("selfTradePrevention"@, "side"@));
            } else if i == 11 {
                assert(text_lt("side"@, "timeInForce"@));
            } else if i == 12 {
                assert(text_lt("timeInForce"@, "triggerAmount"@));
            } else if i == 13 {
                assert(text_lt("triggerAmount"@, "triggerReference"@));
            } else if i == 14 {
                assert(text_lt("triggerReference"@, "triggerType"@));
            }
        }
        lemma_table_keys_ascending(t16);
        lemma_entries_value(t16, 0);
        lemma_entries_value(t16, 1);
        lemma_entries_value(t16, 2);
        lemma_entries_value(t16, 3);
        lemma_entries_value(t16, 4);
        lemma_entries_value(t16, 5);
        lemma_entries_value(t16, 6);
        lemma_entries_value(t16, 7);
        lemma_entries_value(t16, 8);
        lemma_entries_value(t16, 9);
        lemma_entries_value(t16, 10);
        lemma_entries_value(t16, 11);
        lemma_entries_value(t16, 12);
        lemma_entries_value(t16, 13);
        lemma_entries_value(t16, 14);
        lemma_entries_value(t16, 15);
        lemma_entries_keys(t16);
        assert forall|i: int| 0 <= i < self.spec_members().len() implies {
            let k = (#[trigger] self.spec_members()[i]).0;
            k == "amount"@ || k == "amountQuote"@ || k == "clientOrderId"@ || k == "disableMarketProtection"@ || k == "market"@ || k == "operatorId"@ || k == "orderType"@ || k == "postOnly"@ || k == "price"@ || k == "responseRequired"@ || k == "selfTradePrevention"@ || k == "side"@ || k == "timeInForce"@ || k == "triggerAmount"@ || k == "triggerReference"@ || k == "triggerType"@
        } by {
            let e = entries_of(t16);
            let j = choose|j: int| 0 <= j < t16.len() && t16[j] == (e[i].0, Some(e[i].1));
        }
    }

    /// The members of the body are ordered by key, and no key repeats.
    pub proof fn lemma_members_ascending(&self)
        ensures
            keys_ascending(self.spec_members()),
    {
        reveal_strlit("amount");
        reveal_strlit("amountQuote");
        reveal_strlit("clientOrderId");
        reveal_strlit("disableMarketProtection");
        reveal_strlit("market");
        reveal_strlit("operatorId");
        reveal_strlit("orderType");
        reveal_strlit("postOnly");
        reveal_strlit("price");
        reveal_strlit("responseRequired");
        reveal_strlit("selfTradePrevention");
        reveal_strlit("side");
        reveal_strlit("timeInForce");
        reveal_strlit("triggerAmount");
        reveal_strlit("triggerReference");
        reveal_strlit("triggerType");
        reveal_with_fuel(text_lt, 9);
        assert(text_lt("amount"@, "amountQuote"@));
        assert(text_lt("amountQuote"@, "clientOrderId"@));
        assert(text_lt("clientOrderId"@, "disableMarketProtection"@));
        assert(text_lt("disableMarketProtection"@, "market"@));
        assert(text_lt("market"@, "operatorId"@));
        assert(text_lt("operatorId"@, "orderType"@));
        assert(text_lt("orderType"@, "postOnly"@));
        assert(text_lt("postOnly"@, "price"@));
        assert(text_lt("price"@, "responseRequired"@));
        assert(text_lt("responseRequired"@, "selfTradePrevention"@));
        assert(text_lt("selfTradePrevention"@, "side"@));
        assert(text_lt("side"@, "timeInForce"@));
        assert(text_lt("timeInForce"@, "triggerAmount"@));
        assert(text_lt("triggerAmount"@, "triggerReference"@));
        assert(text_lt("triggerReference"@, "triggerType"@));
        let e = Seq::<(Seq<char>, Seq<char>)>::empty();
        let p0 = opt_member("amount"@, opt_json_text(self.amount.deep_view()));
        let p1 = opt_member("amountQuote"@, opt_json_text(self.amount_quote.deep_view()));
        let p2 = opt_member("clientOrderId"@, opt_json_text(self.client_order_id.deep_view()));
        let p3 = opt_member("disableMarketProtection"@, opt_json_bool(self.disable_market_protection));
        let p4 = seq![("market"@, json_string(self.market@))];
        let p5 = opt_member("operatorId"@, opt_json_int(self.operator_id));
        let p6 = seq![("orderType"@, json_string(self.order_type.wire_name()))];
        let p7 = opt_member("postOnly"@, opt_json_bool(self.post_only));
        let p8 = opt_member("price"@, opt_json_text(self.price.deep_view()));
        let p9 = opt_member("responseRequired"@, opt_json_bool(self.response_required));
        let p10 = opt_member("selfTradePrevention"@, opt_json_text(self.self_trade_prevention.deep_view()));
        let p11 = seq![("side"@, json_string(self.side.wire_name()))];
        let p12 = opt_member("timeInForce"@, opt_json_text(self.time_in_force.deep_view()));
        let p13 = opt_member("triggerAmount"@, opt_json_text(self.trigger_amount.deep_view()));
        let p14 = opt_member("triggerReference"@, opt_json_text(self.trigger_reference.deep_view()));
        let p15 = opt_member("triggerType"@, opt_json_text(self.trigger_type.deep_view()));
        lemma_keys_ascending_append(e, p0, "amount"@, "amountQuote"@);
        assert(e + p0 =~= p0);
        lemma_keys_ascending_append(p0, p1, "amountQuote"@, "clientOrderId"@);
        lemma_keys_ascending_append(p0 + p1, p2, "clientOrderId"@, "disableMarketProtection"@);
        lemma_keys_ascending_append(p0 + p1 + p2, p3, "disableMarketProtection"@, "market"@);
        lemma_keys_ascending_append(p0 + p1 + p2 + p3, p4, "market"@, "operatorId"@);
        lemma_keys_ascending_append(p0 + p1 + p2 + p3 + p4, p5, "operatorId"@, "orderType"@);
        lemma_keys_ascending_append(p0 + p1 + p2 + p3 + p4 + p5, p6, "orderType"@, "postOnly"@);
        lemma_keys_ascending_append(p0 + p1 + p2 + p3 + p4 + p5 + p6, p7, "postOnly"@, "price"@);
        lemma_keys_ascending_append(p0 + p1 + p2 + p3 + p4 + p5 + p6 + p7, p8, "price"@, "responseRequired"@);
        lemma_keys_ascending_append(p0 + p1 + p2 + p3 + p4 + p5 + p6 + p7 + p8, p9, "responseRequired"@, "selfTradePrevention"@);
        lemma_keys_ascending_append(p0 + p1 + p2 + p3 + p4 + p5 + p6 + p7 + p8 + p9, p10, "selfTradePrevention"@, "side"@);
        lemma_keys_ascending_append(p0 + p1 + p2 + p3 + p4 + p5 + p6 + p7 + p8 + p9 + p10, p11, "side"@, "timeInForce"@);
        lemma_keys_ascending_append(p0 + p1 + p2 + p3 + p4 + p5 + p6 + p7 + p8 + p9 + p10 + p11, p12, "timeInForce"@, "triggerAmount"@);
        lemma_keys_ascending_append(p0 + p1 + p2 + p3 + p4 + p5 + p6 + p7 + p8 + p9 + p10 + p11 + p12, p13, "triggerAmount"@, "triggerReference"@);
        lemma_keys_ascending_append(p0 + p1 + p2 + p3 + p4 + p5 + p6 + p7 + p8 + p9 + p10 + p11 + p12 + p13, p14, "triggerReference"@, "triggerType"@);
        lemma_keys_ascending_append_last(p0 + p1 + p2 + p3 + p4 + p5 + p6 + p7 + p8 + p9 + p10 + p11 + p12 + p13 + p14, p15, "triggerType"@);
        assert(self.spec_members() =~= p0 + p1 + p2 + p3 + p4 + p5 + p6 + p7 + p8 + p9 + p10 + p11 + p12 + p13 + p14 + p15);
    }

    /// The optional fields other than the amount, the quote amount and the price are unset.
    pub open spec fn no_extras(&self) -> bool {
        &&& self.time_in_force is None
        &&& self.self_trade_prevention is None
        &&& self.post_only is None
        &&& self.disable_market_protection is None
        &&& self.response_required is None
        &&& self.trigger_type is None
        &&& self.trigger_reference is None
        &&& self.trigger_amount is None
        &&& self.client_order_id is None
        &&& self.operator_id is None
    }

    /// The members of the JSON body, ordered by key.
    pub open spec fn spec_members(&self) -> MembersView {
        opt_member("amount"@, opt_json_text(self.amount.deep_view()))
            + opt_member("amountQuote"@, opt_json_text(self.amount_quote.deep_view()))
            + opt_member("clientOrderId"@, opt_json_text(self.client_order_id.deep_view()))
            + opt_member("disableMarketProtection"@, opt_json_bool(self.disable_market_protection))
            + seq![("market"@, json_string(self.market@))]
            + opt_member("operatorId"@, opt_json_int(self.operator_id))
            + seq![("orderType"@, json_string(self.order_type.wire_name()))]
            + opt_member("postOnly"@, opt_json_bool(self.post_only))
            + opt_member("price"@, opt_json_text(self.price.deep_view()))
            + opt_member("responseRequired"@, opt_json_bool(self.response_required))
            + opt_member("selfTradePrevention"@, opt_json_text(self.self_trade_prevention.deep_view()))
            + seq![("side"@, json_string(self.side.wire_name()))]
            + opt_member("timeInForce"@, opt_json_text(self.time_in_force.deep_view()))
            + opt_member("triggerAmount"@, opt_json_text(self.trigger_amount.deep_view()))
            + opt_member("triggerReference"@, opt_json_text(self.trigger_reference.deep_view()))
            + opt_member("triggerType"@, opt_json_text(self.trigger_type.deep_view()))
    }

    /// Creates an order request with only the required fields set.
    pub fn new(market: &str, side: Side, order_type: OrderType) -> (r: Self)
        ensures
            r.market@ == market@,
            r.side == side,
            r.order_type == order_type,
            r.amount is None && r.amount_quote is None && r.price is None,
            r.no_extras(),
    {
        OrderRequest {
            market: String::from_str(market),
            side,
            order_type,
            amount: None,
            amount_quote: None,
            price: None,
            time_in_force: None,
            self_trade_prevention: None,
            post_only: None,
            disable_market_protection: None,
            response_required: None,
            trigger_type: None,
            trigger_reference: None,
            trigger_amount: None,
            client_order_id: None,
            operator_id: None,
        }
    }

    /// Creates a limit order request.
    pub fn limit(market: &str, side: Side, amount: &str, price: &str) -> (r: Self)
        ensures
            r.market@ == market@,
            r.side == side,
            r.order_type == OrderType::Limit,
            r.amount.deep_view() == Some(amount@),
            r.price.deep_view() == Some(price@),
            r.amount_quote is None,
            r.no_extras(),
    {
        Self::new(market, side, OrderType::Limit).amount(amount).price(price)
    }

    /// Creates a market order for an amount of the base asset.
    pub fn market_amount(market: &str, side: Side, amount: &str) -> (r: Self)
        ensures
            r.market@ == market@,
            r.side == side,
            r.order_type == OrderType::Market,
            r.amount.deep_view() == Some(amount@),
            r.amount_quote is None && r.price is None,
            r.no_extras(),
    {
        Self::new(market, side, OrderType::Market).amount(amount)
    }

    /// Creates a market order for an amount of the quote asset.
    pub fn market_amount_quote(market: &str, side: Side, amount_quote: &str) -> (r: Self)
        ensures
            r.market@ == market@,
            r.side == side,
            r.order_type == OrderType::Market,
            r.amount_quote.deep_view() == Some(amount_quote@),
            r.amount is None && r.price is None,
            r.no_extras(),
    {
        Self::new(market, side, OrderType::Market).amount_quote(amount_quote)
    }

    pub fn amount(self, amount: &str) -> (r: Self)
        ensures
            r.amount.deep_view() == Some(amount@),
            r == (OrderRequest { amount: r.amount, ..self }),
    {
        OrderRequest { amount: Some(String::from_str(amount)), ..self }
    }

    pub fn amount_quote(self, amount_quote: &str) -> (r: Self)
        ensures
            r.amount_quote.deep_view() == Some(amount_quote@),
            r == (OrderRequest { amount_quote: r.amount_quote, ..self }),
    {
        OrderRequest { amount_quote: Some(String::from_str(amount_quote)), ..self }
    }

    pub fn price(self, price: &str) -> (r: Self)
        ensures
            r.price.deep_view() == Some(price@),
            r == (OrderRequest { price: r.price, ..self }),
    {
        OrderRequest { price: Some(String::from_str(price)), ..self }
    }

    pub fn time_in_force(self, tif: &str) -> (r: Self)
        ensures
            r.time_in_force.deep_view() == Some(tif@),
            r == (OrderRequest { time_in_force: r.time_in_force, ..self }),
    {
        OrderRequest { time_in_force: Some(String::from_str(tif)), ..self }
    }

    pub fn self_trade_prevention(self, stp: &str) -> (r: Self)
        ensures
            r.self_trade_prevention.deep_view() == Some(stp@),
            r == (OrderRequest { self_trade_prevention: r.self_trade_prevention, ..self }),
    {
        OrderRequest { self_trade_prevention: Some(String::from_str(stp)), ..self }
    }

    pub fn post_only(self, post_only: bool) -> (r: Self)
        ensures
            r == (OrderRequest { post_only: Some(post_only), ..self }),
    {
        OrderRequest { post_only: Some(post_only), ..self }
    }

    pub fn disable_market_protection(self, disable: bool) -> (r: Self)
        ensures
            r == (OrderRequest { disable_market_protection: Some(disable), ..self }),
    {
        OrderRequest { disable_market_protection: Some(disable), ..self }
    }

    pub fn trigger(self, trigger_type: &str, reference: &str, amount: &str) -> (r: Self)
        ensures
            r.trigger_type.deep_view() == Some(trigger_type@),
            r.trigger_reference.deep_view() == Some(reference@),
            r.trigger_amount.deep_view() == Some(amount@),
            r == (OrderRequest {
                trigger_type: r.trigger_type,
                trigger_reference: r.trigger_reference,
                trigger_amount: r.trigger_amount,
                ..self
            }),
    {
        OrderRequest {
            trigger_type: Some(String::from_str(trigger_type)),
            trigger_reference: Some(String::from_str(reference)),
            trigger_amount: Some(String::from_str(amount)),
            ..self
        }
    }

    pub fn client_order_id(self, id: &str) -> (r: Self)
        ensures
            r.client_order_id.deep_view() == Some(id@),
            r == (OrderRequest { client_order_id: r.client_order_id, ..self }),
    {
        OrderRequest { client_order_id: Some(String::from_str(id)), ..self }
    }

    pub fn operator_id(self, id: i64) -> (r: Self)
        ensures
            r == (OrderRequest { operator_id: Some(id), ..self }),
    {
        OrderRequest { operator_id: Some(id), ..self }
    }

    /// The members of the JSON body, ordered by key.
    pub fn members(&self) -> (ms: Vec<(String, String)>)
        ensures
            ms.deep_view() == self.spec_members(),
    {
        let mut ms: Vec<(String, String)> = Vec::new();
        push_text_member(&mut ms, "amount", &self.amount);
        push_text_member(&mut ms, "amountQuote", &self.amount_quote);
        push_text_member(&mut ms, "clientOrderId", &self.client_order_id);
        push_bool_member(&mut ms, "disableMarketProtection", self.disable_market_protection);
        push_member(&mut ms, "market", json_string_text(self.market.as_str()));
        push_int_member(&mut ms, "operatorId", self.operator_id);
        push_member(&mut ms, "orderType", self.order_type.to_json());
        push_bool_member(&mut ms, "postOnly", self.post_only);
        push_text_member(&mut ms, "price", &self.price);
        push_bool_member(&mut ms, "responseRequired", self.response_required);
        push_text_member(&mut ms, "selfTradePrevention", &self.self_trade_prevention);
        push_member(&mut ms, "side", self.side.to_json());
        push_text_member(&mut ms, "timeInForce", &self.time_in_force);
        push_text_member(&mut ms, "triggerAmount", &self.trigger_amount);
        push_text_member(&mut ms, "triggerReference", &self.trigger_reference);
        push_text_member(&mut ms, "triggerType", &self.trigger_type);
        assert(ms.deep_view() =~= self.spec_members());
        ms
    }

    /// The compact JSON body of the request.
    pub fn to_json(&self) -> (s: String)
        ensures
            s@ == json_object(self.spec_members()),
            keys_ascending(self.spec_members()),
    {
        proof {
            self.lemma_members_ascending();
        }
        json_object_text(&self.members())
    }
}

/// Request body for `PUT /order`.
#[derive(Debug, Clone)]
pub struct UpdateOrderRequest {
    pub market: String,
    pub order_id: String,
    pub amount: Option<String>,
    pub amount_remaining: Option<String>,
    pub price: Option<String>,
    pub trigger_amount: Option<String>,
    pub time_in_force: Option<String>,
    pub self_trade_prevention: Option<String>,
    pub post_only: Option<bool>,
    pub response_required: Option<bool>,
    pub operator_id: Option<i64>,
}

impl UpdateOrderRequest {
    /// Each field that is set stands in the body under its own key with its JSON
    /// value, one that is unset has no member, and no other key occurs.
    pub proof fn lemma_members_hold_fields(&self)
        ensures
            value_under(self.spec_members(), "amount"@) == opt_json_text(self.amount.deep_view()),
            value_under(self.spec_members(), "amountRemaining"@) == opt_json_text(self.amount_remaining.deep_view()),
            value_under(self.spec_members(), "market"@) == Some(json_string(self.market@)),
            value_under(self.spec_members(), "operatorId"@) == opt_json_int(self.operator_id),
            value_under(self.spec_members(), "orderId"@) == Some(json_string(self.order_id@)),
            value_under(self.spec_members(), "postOnly"@) == opt_json_bool(self.post_only),
            value_under(self.spec_members(), "price"@) == opt_json_text(self.price.deep_view()),
            value_under(self.spec_members(), "responseRequired"@) == opt_json_bool(self.response_required),
            value_under(self.spec_members(), "selfTradePrevention"@) == opt_json_text(self.self_trade_prevention.deep_view()),
            value_under(self.spec_members(), "timeInForce"@) == opt_json_text(self.time_in_force.deep_view()),
            value_under(self.spec_members(), "triggerAmount"@) == opt_json_text(self.trigger_amount.deep_view()),
            forall|i: int|
                0 <= i < self.spec_members().len() ==> {
                    let k = (#[trigger] self.spec_members()[i]).0;
                    k == "amount"@ || k == "amountRemaining"@ || k == "market"@ || k == "operatorId"@ || k == "orderId"@ || k == "postOnly"@ || k == "price"@ || k == "responseRequired"@ || k == "selfTradePrevention"@ || k == "timeInForce"@ || k == "triggerAmount"@
                },
    {
        reveal_strlit("amount");
        reveal_strlit("amountRemaining");
        reveal_strlit("market");
        reveal_strlit("operatorId");
        reveal_strlit("orderId");
        reveal_strlit("postOnly");
        reveal_strlit("price");
        reveal_strlit("responseRequired");
        reveal_strlit("selfTradePrevention");
        reveal_strlit("timeInForce");
        reveal_strlit("triggerAmount");
        reveal_with_fuel(text_lt, 9);
        let t0 = Seq::<(Seq<char>, Option<Seq<char>>)>::empty();
        let f0 = ("amount"@, opt_json_text(self.amount.deep_view()));
        let t1 = t0.push(f0);
        lemma_entries_of_push(t0, f0);
        let f1 = ("amountRemaining"@, opt_json_text(self.amount_remaining.deep_view()));
        let t2 = t1.push(f1);
        lemma_entries_of_push(t1, f1);
        let f2 = ("market"@, Some(json_string(self.market@)));
        let t3 = t2.push(f2);
        lemma_entries_of_push(t2, f2);
        let f3 = ("operatorId"@, opt_json_int(self.operator_id));
        let t4 = t3.push(f3);
        lemma_entries_of_push(t3, f3);
        let f4 = ("orderId"@, Some(json_string(self.order_id@)));
        let t5 = t4.push(f4);
        lemma_entries_of_push(t4, f4);
        let f5 = ("postOnly"@, opt_json_bool(self.post_only));
        let t6 = t5.push(f5);
        lemma_entries_of_push(t5, f5);
        let f6 = ("price"@, opt_json_text(self.price.deep_view()));
        let t7 = t6.push(f6);
        lemma_entries_of_push(t6, f6);
        let f7 = ("responseRequired"@, opt_json_bool(self.response_required));
        let t8 = t7.push(f7);
        lemma_entries_of_push(t7, f7);
        let f8 = ("selfTradePrevention"@, opt_json_text(self.self_trade_prevention.deep_view()));
        let t9 = t8.push(f8);
        lemma_entries_of_push(t8, f8);
        let f9 = ("timeInForce"@, opt_json_text(self.time_in_force.deep_view()));
        let t10 = t9.push(f9);
        lemma_entries_of_push(t9, f9);
        let f10 = ("triggerAmount"@, opt_json_text(self.trigger_amount.deep_view()));
        let t11 = t10.push(f10);
        lemma_entries_of_push(t10, f10);
        assert(self.spec_members() =~= entries_of(t11));
        assert forall|i: int| 0 <= i < t11.len() - 1 implies text_lt(#[trigger] t11[i].0, t11[i + 1].0) by {
            if i == 0 {
                assert(text_lt("amount"@, "amountRemaining"@));
            } else if i == 1 {
                assert(text_lt("amountRemaining"@, "market"@));
            } else if i == 2 {
                assert(text_lt("market"@, "operatorId"@));
            } else if i == 3 {
                assert(text_lt("operatorId"@, "orderId"@));
            } else if i == 4 {
                assert(text_lt("orderId"@, "postOnly"@));
            } else if i == 5 {
                assert(text_lt("postOnly"@, "price"@));
            } else if i == 6 {
                assert(text_lt("price"@, "responseRequired"@));
            } else if i == 7 {
                assert(text_lt("responseRequired"@, "selfTradePrevention"@));
            } else if i == 8 {
                assert(text_lt("selfTradePrevention"@, "timeInForce"@));
            } else if i == 9 {
                assert(text_lt("timeInForce"@, "triggerAmount"@));
            }
        }
        lemma_table_keys_ascending(t11);
        lemma_entries_value(t11, 0);
        lemma_entries_value(t11, 1);
        lemma_entries_value(t11, 2);
        lemma_entries_value(t11, 3);
        lemma_entries_value(t11, 4);
        lemma_entries_value(t11, 5);
        lemma_entries_value(t11, 6);
        lemma_entries_value(t11, 7);
        lemma_entries_value(t11, 8);
        lemma_entries_value(t11, 9);
        lemma_entries_value(t11, 10);
        lemma_entries_keys(t11);
        assert forall|i: int| 0 <= i < self.spec_members().len() implies {
            let k = (#[trigger] self.spec_members()[i]).0;
            k == "amount"@ || k == "amountRemaining"@ || k == "market"@ || k == "operatorId"@ || k == "orderId"@ || k == "postOnly"@ || k == "price"@ || k == "responseRequired"@ || k == "selfTradePrevention"@ || k == "timeInForce"@ || k == "triggerAmount"@
        } by {
            let e = entries_of(t11);
            let j = choose|j: int| 0 <= j < t11.len() && t11[j] == (e[i].0, Some(e[i].1));
        }
    }

    /// The members of the body are ordered by key, and no key repeats.
    pub proof fn lemma_members_ascending(&self)
        ensures
            keys_ascending(self.spec_members()),
    {
        reveal_strlit("amount");
        reveal_strlit("amountRemaining");
        reveal_strlit("market");
        reveal_strlit("operatorId");
        reveal_strlit("orderId");
        reveal_strlit("postOnly");
        reveal_strlit("price");
        reveal_strlit("responseRequired");
        reveal_strlit("selfTradePrevention");
        reveal_strlit("timeInForce");
        reveal_strlit("triggerAmount");
        reveal_with_fuel(text_lt, 9);
        assert(text_lt("amount"@, "amountRemaining"@));
        assert(text_lt("amountRemaining"@, "market"@));
        assert(text_lt("market"@, "operatorId"@));
        assert(text_lt("operatorId"@, "orderId"@));
        assert(text_lt("orderId"@, "postOnly"@));
        assert(text_lt("postOnly"@, "price"@));
        assert(text_lt("price"@, "responseRequired"@));
        assert(text_lt("responseRequired"@, "selfTradePrevention"@));
        assert(text_lt("selfTradePrevention"@, "timeInForce"@));
        assert(text_lt("timeInForce"@, "triggerAmount"@));
        let e = Seq::<(Seq<char>, Seq<char>)>::empty();
        let p0 = opt_member("amount"@, opt_json_text(self.amount.deep_view()));
        let p1 = opt_member("amountRemaining"@, opt_json_text(self.amount_remaining.deep_view()));
        let p2 = seq![("market"@, json_string(self.market@))];
        let p3 = opt_member("operatorId"@, opt_json_int(self.operator_id));
        let p4 = seq![("orderId"@, json_string(self.order_id@))];
        let p5 = opt_member("postOnly"@, opt_json_bool(self.post_only));
        let p6 = opt_member("price"@, opt_json_text(self.price.deep_view()));
        let p7 = opt_member("responseRequired"@, opt_json_bool(self.response_required));
        let p8 = opt_member("selfTradePrevention"@, opt_json_text(self.self_trade_prevention.deep_view()));
        let p9 = opt_member("timeInForce"@, opt_json_text(self.time_in_force.deep_view()));
        let p10 = opt_member("triggerAmount"@, opt_json_text(self.trigger_amount.deep_view()));
        lemma_keys_ascending_append(e, p0, "amount"@, "amountRemaining"@);
        assert(e + p0 =~= p0);
        lemma_keys_ascending_append(p0, p1, "amountRemaining"@, "market"@);
        lemma_keys_ascending_append(p0 + p1, p2, "market"@, "operatorId"@);
        lemma_keys_ascending_append(p0 + p1 + p2, p3, "operatorId"@, "orderId"@);
        lemma_keys_ascending_append(p0 + p1 + p2 + p3, p4, "orderId"@, "postOnly"@);
        lemma_keys_ascending_append(p0 + p1 + p2 + p3 + p4, p5, "postOnly"@, "price"@);
        lemma_keys_ascending_append(p0 + p1 + p2 + p3 + p4 + p5, p6, "price"@, "responseRequired"@);
        lemma_keys_ascending_append(p0 + p1 + p2 + p3 + p4 + p5 + p6, p7, "responseRequired"@, "selfTradePrevention"@);
        lemma_keys_ascending_append(p0 + p1 + p2 + p3 + p4 + p5 + p6 + p7, p8, "selfTradePrevention"@, "timeInForce"@);
        lemma_keys_ascending_append(p0 + p1 + p2 + p3 + p4 + p5 + p6 + p7 + p8, p9, "timeInForce"@, "triggerAmount"@);
        lemma_keys_ascending_append_last(p0 + p1 + p2 + p3 + p4 + p5 + p6 + p7 + p8 + p9, p10, "triggerAmount"@);
        assert(self.spec_members() =~= p0 + p1 + p2 + p3 + p4 + p5 + p6 + p7 + p8 + p9 + p10);
    }

    /// The members of the JSON body, ordered by key.
    pub open spec fn spec_members(&self) -> MembersView {
        opt_member("amount"@, opt_json_text(self.amount.deep_view()))
            + opt_member("amountRemaining"@, opt_json_text(self.amount_remaining.deep_view()))
            + seq![("market"@, json_string(self.market@))]
            + opt_member("operatorId"@, opt_json_int(self.operator_id))
            + seq![("orderId"@, json_string(self.order_id@))]
            + opt_member("postOnly"@, opt_json_bool(self.post_only))
            + opt_member("price"@, opt_json_text(self.price.deep_view()))
            + opt_member("responseRequired"@, opt_json_bool(self.response_required))
            + opt_member("selfTradePrevention"@, opt_json_text(self.self_trade_prevention.deep_view()))
            + opt_member("timeInForce"@, opt_json_text(self.time_in_force.deep_view()))
            + opt_member("triggerAmount"@, opt_json_text(self.trigger_amount.deep_view()))
    }

    /// Creates an update request for an order with no change set yet.
    pub fn new(market: &str, order_id: &str) -> (r: Self)
        ensures
            r.market@ == market@,
            r.order_id@ == order_id@,
            r.amount is None && r.amount_remaining is None && r.price is None,
            r.trigger_amount is None && r.time_in_force is None && r.self_trade_prevention is None,
            r.post_only is None && r.response_required is None && r.operator_id is None,
    {
        UpdateOrderRequest {
            market: String::from_str(market),
            order_id: String::from_str(order_id),
            amount: None,
            amount_remaining: None,
            price: None,
            trigger_amount: None,
            time_in_force: None,
            self_trade_prevention: None,
            post_only: None,
            response_required: None,
            operator_id: None,
        }
    }

    pub fn amount(self, amount: &str) -> (r: Self)
        ensures
            r.amount.deep_view() == Some(amount@),
            r == (UpdateOrderRequest { amount: r.amount, ..self }),
    {
        UpdateOrderRequest { amount: Some(String::from_str(amount)), ..self }
    }

    pub fn amount_remaining(self, amount: &str) -> (r: Self)
        ensures
            r.amount_remaining.deep_view() == Some(amount@),
            r == (UpdateOrderRequest { amount_remaining: r.amount_remaining, ..self }),
    {
        UpdateOrderRequest { amount_remaining: Some(String::from_str(amount)), ..self }
    }

    pub fn price(self, price: &str) -> (r: Self)
        ensures
            r.price.deep_view() == Some(price@),
            r == (UpdateOrderRequest { price: r.price, ..self }),
    {
        UpdateOrderRequest { price: Some(String::from_str(price)), ..self }
    }

    pub fn trigger_amount(self, amount: &str) -> (r: Self)
        ensures
            r.trigger_amount.deep_view() == Some(amount@),
            r == (UpdateOrderRequest { trigger_amount: r.trigger_amount, ..self }),
    {
        UpdateOrderRequest { trigger_amount: Some(String::from_str(amount)), ..self }
    }

    pub fn operator_id(self, id: i64) -> (r: Self)
        ensures
            r == (UpdateOrderRequest { operator_id: Some(id), ..self }),
    {
        UpdateOrderRequest { operator_id: Some(id), ..self }
    }

    /// The members of the JSON body, ordered by key.
    pub fn members(&self) -> (ms: Vec<(String, String)>)
        ensures
            ms.deep_view() == self.spec_members(),
    {
        let mut ms: Vec<(String, String)> = Vec::new();
        push_text_member(&mut ms, "amount", &self.amount);
        push_text_member(&mut ms, "amountRemaining", &self.amount_remaining);
        push_member(&mut ms, "market", json_string_text(self.market.as_str()));
        push_int_member(&mut ms, "operatorId", self.operator_id);
        push_member(&mut ms, "orderId", json_string_text(self.order_id.as_str()));
        push_bool_member(&mut ms, "postOnly", self.post_only);
        push_text_member(&mut ms, "price", &self.price);
        push_bool_member(&mut ms, "responseRequired", self.response_required);
        push_text_member(&mut ms, "selfTradePrevention", &self.self_trade_prevention);
        push_text_member(&mut ms, "timeInForce", &self.time_in_force);
        push_text_member(&mut ms, "triggerAmount", &self.trigger_amount);
        assert(ms.deep_view() =~= self.spec_members());
        ms
    }

    /// The compact JSON body of the request.
    pub fn to_json(&self) -> (s: String)
        ensures
            s@ == json_object(self.spec_members()),
            keys_ascending(self.spec_members()),
    {
        proof {
            self.lemma_members_ascending();
        }
        json_object_text(&self.members())
    }
}

/// Request body for `POST /withdrawal`.
#[derive(Debug, Clone)]
pub struct WithdrawalRequest {
    pub symbol: String,
    pub amount: String,
    pub address: String,
    pub payment_id: Option<String>,
    pub internal: Option<bool>,
    pub add_withdrawal_fee: Option<bool>,
}

impl WithdrawalRequest {
    /// Each field that is set stands in the body under its own key with its JSON
    /// value, one that is unset has no member, and no other key occurs.
    pub proof fn lemma_members_hold_fields(&self)
        ensures
            value_under(self.spec_members(), "addWithdrawalFee"@) == opt_json_bool(self.add_withdrawal_fee),
            value_under(self.spec_members(), "address"@) == Some(json_string(self.address@)),
            value_under(self.spec_members(), "amount"@) == Some(json_string(self.amount@)),
            value_under(self.spec_members(), "internal"@) == opt_json_bool(self.internal),
            value_under(self.spec_members(), "paymentId"@) == opt_json_text(self.payment_id.deep_view()),
            value_under(self.spec_members(), "symbol"@) == Some(json_string(self.symbol@)),
            forall|i: int|
                0 <= i < self.spec_members().len() ==> {
                    let k = (#[trigger] self.spec_members()[i]).0;
                    k == "addWithdrawalFee"@ || k == "address"@ || k == "amount"@ || k == "internal"@ || k == "paymentId"@ || k == "symbol"@
                },
    {
        reveal_strlit("addWithdrawalFee");
        reveal_strlit("address");
        reveal_strlit("amount");
        reveal_strlit("internal");
        reveal_strlit("paymentId");
        reveal_strlit("symbol");
        reveal_with_fuel(text_lt, 9);
        let t0 = Seq::<(Seq<char>, Option<Seq<char>>)>::empty();
        let f0 = ("addWithdrawalFee"@, opt_json_bool(self.add_withdrawal_fee));
        let t1 = t0.push(f0);
        lemma_entries_of_push(t0, f0);
        let f1 = ("address"@, Some(json_string(self.address@)));
        let t2 = t1.push(f1);
        lemma_entries_of_push(t1, f1);
        let f2 = ("amount"@, Some(json_string(self.amount@)));
        let t3 = t2.push(f2);
        lemma_entries_of_push(t2, f2);
        let f3 = ("internal"@, opt_json_bool(self.internal));
        let t4 = t3.push(f3);
        lemma_entries_of_push(t3, f3);
        let f4 = ("paymentId"@, opt_json_text(self.payment_id.deep_view()));
        let t5 = t4.push(f4);
        lemma_entries_of_push(t4, f4);
        let f5 = ("symbol"@, Some(json_string(self.symbol@)));
        let t6 = t5.push(f5);
        lemma_entries_of_push(t5, f5);
        assert(self.spec_members() =~= entries_of(t6));
        assert forall|i: int| 0 <= i < t6.len() - 1 implies text_lt(#[trigger] t6[i].0, t6[i + 1].0) by {
            if i == 0 {
                assert(text_lt("addWithdrawalFee"@, "address"@));
            } else if i == 1 {
                assert(text_lt("address"@, "amount"@));
            } else if i == 2 {
                assert(text_lt("amount"@, "internal"@));
            } else if i == 3 {
                assert(text_lt("internal"@, "paymentId"@));
            } else if i == 4 {
                assert(text_lt("paymentId"@, "symbol"@));
            }
        }
        lemma_table_keys_ascending(t6);
        lemma_entries_value(t6, 0);
        lemma_entries_value(t6, 1);
        lemma_entries_value(t6, 2);
        lemma_entries_value(t6, 3);
        lemma_entries_value(t6, 4);
        lemma_entries_value(t6, 5);
        lemma_entries_keys(t6);
        assert forall|i: int| 0 <= i < self.spec_members().len() implies {
            let k = (#[trigger] self.spec_members()[i]).0;
            k == "addWithdrawalFee"@ || k == "address"@ || k == "amount"@ || k == "internal"@ || k == "paymentId"@ || k == "symbol"@
        } by {
            let e = entries_of(t6);
            let j = choose|j: int| 0 <= j < t6.len() && t6[j] == (e[i].0, Some(e[i].1));
        }
    }

    /// The members of the body are ordered by key, and no key repeats.
    pub proof fn lemma_members_ascending(&self)
        ensures
            keys_ascending(self.spec_members()),
    {
        reveal_strlit("addWithdrawalFee");
        reveal_strlit("address");
        reveal_strlit("amount");
        reveal_strlit("internal");
        reveal_strlit("paymentId");
        reveal_strlit("symbol");
        reveal_with_fuel(text_lt, 9);
        assert(text_lt("addWithdrawalFee"@, "address"@));
        assert(text_lt("address"@, "amount"@));
        assert(text_lt("amount"@, "internal"@));
        assert(text_lt("internal"@, "paymentId"@));
        assert(text_lt("paymentId"@, "symbol"@));
        let e = Seq::<(Seq<char>, Seq<char>)>::empty();
        let p0 = opt_member("addWithdrawalFee"@, opt_json_bool(self.add_withdrawal_fee));
        let p1 = seq![("address"@, json_string(self.address@))];
        let p2 = seq![("amount"@, json_string(self.amount@))];
        let p3 = opt_member("internal"@, opt_json_bool(self.internal));
        let p4 = opt_member("paymentId"@, opt_json_text(self.payment_id.deep_view()));
        let p5 = seq![("symbol"@, json_string(self.symbol@))];
        lemma_keys_ascending_append(e, p0, "addWithdrawalFee"@, "address"@);
        assert(e + p0 =~= p0);
        lemma_keys_ascending_append(p0, p1, "address"@, "amount"@);
        lemma_keys_ascending_append(p0 + p1, p2, "amount"@, "internal"@);
        lemma_keys_ascending_append(p0 + p1 + p2, p3, "internal"@, "paymentId"@);
        lemma_keys_ascending_append(p0 + p1 + p2 + p3, p4, "paymentId"@, "symbol"@);
        lemma_keys_ascending_append_last(p0 + p1 + p2 + p3 + p4, p5, "symbol"@);
        assert(self.spec_members() =~= p0 + p1 + p2 + p3 + p4 + p5);
    }

    /// The members of the JSON body, ordered by key.
    pub open spec fn spec_members(&self) -> MembersView {
        opt_member("addWithdrawalFee"@, opt_json_bool(self.add_withdrawal_fee))
            + seq![("address"@, json_string(self.address@))]
            + seq![("amount"@, json_string(self.amount@))]
            + opt_member("internal"@, opt_json_bool(self.internal))
            + opt_member("paymentId"@, opt_json_text(self.payment_id.deep_view()))
            + seq![("symbol"@, json_string(self.symbol@))]
    }

    /// Creates a withdrawal request with only the required fields set.
    pub fn new(symbol: &str, amount: &str, address: &str) -> (r: Self)
        ensures
            r.symbol@ == symbol@,
            r.amount@ == amount@,
            r.address@ == address@,
            r.payment_id is None && r.internal is None && r.add_withdrawal_fee is None,
    {
        WithdrawalRequest {
            symbol: String::from_str(symbol),
            amount: String::from_str(amount),
            address: String::from_str(address),
            payment_id: None,
            internal: None,
            add_withdrawal_fee: None,
        }
    }

    pub fn payment_id(self, id: &str) -> (r: Self)
        ensures
            r.payment_id.deep_view() == Some(id@),
            r == (WithdrawalRequest { payment_id: r.payment_id, ..self }),
    {
        WithdrawalRequest { payment_id: Some(String::from_str(id)), ..self }
    }

    pub fn internal(self, internal: bool) -> (r: Self)
        ensures
            r == (WithdrawalRequest { internal: Some(internal), ..self }),
    {
        WithdrawalRequest { internal: Some(internal), ..self }
    }

    pub fn add_withdrawal_fee(self, add: bool) -> (r: Self)
        ensures
            r == (WithdrawalRequest { add_withdrawal_fee: Some(add), ..self }),
    {
        WithdrawalRequest { add_withdrawal_fee: Some(add), ..self }
    }

    /// The members of the JSON body, ordered by key.
    pub fn members(&self) -> (ms: Vec<(String, String)>)
        ensures
            ms.deep_view() == self.spec_members(),
    {
        let mut ms: Vec<(String, String)> = Vec::new();
        push_bool_member(&mut ms, "addWithdrawalFee", self.add_withdrawal_fee);
        push_member(&mut ms, "address", json_string_text(self.address.as_str()));
        push_member(&mut ms, "amount", json_string_text(self.amount.as_str()));
        push_bool_member(&mut ms, "internal", self.internal);
        push_text_member(&mut ms, "paymentId", &self.payment_id);
        push_member(&mut ms, "symbol", json_string_text(self.symbol.as_str()));
        assert(ms.deep_view() =~= self.spec_members());
        ms
    }

    /// The compact JSON body of the request.
    pub fn to_json(&self) -> (s: String)
        ensures
            s@ == json_object(self.spec_members()),
            keys_ascending(self.spec_members()),
    {
        proof {
            self.lemma_members_ascending();
        }
        json_object_text(&self.members())
    }
}

} // verus!
