//! Parameters of the listing endpoints and their query strings.
//!
//! A query lists the parameters that are set, each once, in ascending order
//! of key name; numbers are written in decimal and text as it is.

use crate::text::{
    decimal, entries_of, lemma_entries_keys, lemma_entries_of_push, lemma_entries_value, lemma_table_keys_ascending,
    value_under, keys_ascending, lemma_keys_ascending_append, lemma_keys_ascending_append_last, push_decimal,
    text_lt,
};
use vstd::prelude::*;
use vstd::string::StringExecFns;

verus! {

/// Query pairs as text: each `(key, value)` pair by the characters it holds.
pub type QueryView = Seq<(Seq<char>, Seq<char>)>;

/// One query pair when the value is present, none otherwise.
pub open spec fn opt_pair(key: Seq<char>, value: Option<Seq<char>>) -> QueryView {
    match value {
        Some(v) => seq![(key, v)],
        None => seq![],
    }
}

/// The decimal notation of a number that may be absent.
pub open spec fn opt_decimal(value: Option<u64>) -> Option<Seq<char>> {
    match value {
        Some(v) => Some(decimal(v as nat)),
        None => None,
    }
}

/// The decimal notation of a 32-bit number that may be absent.
pub open spec fn opt_decimal32(value: Option<u32>) -> Option<Seq<char>> {
    match value {
        Some(v) => Some(decimal(v as nat)),
        None => None,
    }
}

/// Parameters that turn into query string pairs.
pub trait QueryParams {
    /// The query pairs these parameters stand for.
    spec fn spec_query(&self) -> QueryView;

    /// The query pairs, one for each parameter that is set.
    fn to_query(&self) -> (q: Vec<(String, String)>)
        ensures
            q.deep_view() == self.spec_query(),
    ;

    /// The keys of the query pairs are sorted, and none repeats.
    proof fn lemma_keys_ascending(&self)
        ensures
            keys_ascending(self.spec_query()),
    ;
}

/// Serializes a parameter set into query string pairs: one pair for each
/// parameter that is set, ordered by key, no key twice.
pub fn to_query<P: QueryParams>(params: &P) -> (q: Vec<(String, String)>)
    ensures
        q.deep_view() == params.spec_query(),
        keys_ascending(q.deep_view()),
{
    proof {
        params.lemma_keys_ascending();
    }
    params.to_query()
}

/// Appends `(key, value)` when a number is present.
pub fn push_number(q: &mut Vec<(String, String)>, key: &str, value: Option<u64>)
    ensures
        final(q).deep_view() == old(q).deep_view() + opt_pair(key@, opt_decimal(value)),
{
    if let Some(v) = value {
        let mut text = String::new();
        push_decimal(&mut text, v);
        q.push((String::from_str(key), text));
    }
    assert(final(q).deep_view() =~= old(q).deep_view() + opt_pair(key@, opt_decimal(value)));
}

/// Appends `(key, value)` when a 32-bit number is present.
pub fn push_number32(q: &mut Vec<(String, String)>, key: &str, value: Option<u32>)
    ensures
        final(q).deep_view() == old(q).deep_view() + opt_pair(key@, opt_decimal32(value)),
{
    let wide: Option<u64> = match value {
        Some(v) => Some(v as u64),
        None => None,
    };
    push_number(q, key, wide);
}

/// Appends `(key, value)` when a text is present.
pub fn push_text(q: &mut Vec<(String, String)>, key: &str, value: &Option<String>)
    ensures
        final(q).deep_view() == old(q).deep_view() + opt_pair(key@, value.deep_view()),
{
    if let Some(v) = value {
        q.push((String::from_str(key), v.clone()));
    }
    assert(final(q).deep_view() =~= old(q).deep_view() + opt_pair(key@, value.deep_view()));
}

/// Parameters for trade listing endpoints.
#[derive(Debug, Clone)]
pub struct TradesParams {
    pub limit: Option<u32>,
    pub start: Option<u64>,
    pub end: Option<u64>,
    pub trade_id_from: Option<String>,
    pub trade_id_to: Option<String>,
}

impl Default for TradesParams {
    fn default() -> (p: Self)
        ensures
            p.limit is None && p.start is None && p.end is None,
            p.trade_id_from is None && p.trade_id_to is None,
    {
        TradesParams { limit: None, start: None, end: None, trade_id_from: None, trade_id_to: None }
    }
}

impl TradesParams {
    /// No parameter set.
    pub fn new() -> (p: Self)
        ensures
            p.spec_query() == Seq::<(Seq<char>, Seq<char>)>::empty(),
            p.limit is None && p.start is None && p.end is None,
            p.trade_id_from is None && p.trade_id_to is None,
    {
        Self::default()
    }

    pub fn limit(self, limit: u32) -> (p: Self)
        ensures
            p == (TradesParams { limit: Some(limit), ..self }),
    {
        TradesParams { limit: Some(limit), ..self }
    }

    pub fn start(self, start_ms: u64) -> (p: Self)
        ensures
            p == (TradesParams { start: Some(start_ms), ..self }),
    {
        TradesParams { start: Some(start_ms), ..self }
    }

    pub fn end(self, end_ms: u64) -> (p: Self)
        ensures
            p == (TradesParams { end: Some(end_ms), ..self }),
    {
        TradesParams { end: Some(end_ms), ..self }
    }

    pub fn trade_id_from(self, id: &str) -> (p: Self)
        ensures
            p.trade_id_from.deep_view() == Some(id@),
            p == (TradesParams { trade_id_from: p.trade_id_from, ..self }),
    {
        TradesParams { trade_id_from: Some(String::from_str(id)), ..self }
    }

    pub fn trade_id_to(self, id: &str) -> (p: Self)
        ensures
            p.trade_id_to.deep_view() == Some(id@),
            p == (TradesParams { trade_id_to: p.trade_id_to, ..self }),
    {
        TradesParams { trade_id_to: Some(String::from_str(id)), ..self }
    }
}

impl TradesParams {
    /// Each parameter that is set stands in the query under its own key with its
    /// value, one that is unset has no pair, and no other key occurs.
    pub proof fn lemma_query_values(&self)
        ensures
            value_under(self.spec_query(), "end"@) == opt_decimal(self.end),
            value_under(self.spec_query(), "limit"@) == opt_decimal32(self.limit),
            value_under(self.spec_query(), "start"@) == opt_decimal(self.start),
            value_under(self.spec_query(), "tradeIdFrom"@) == self.trade_id_from.deep_view(),
            value_under(self.spec_query(), "tradeIdTo"@) == self.trade_id_to.deep_view(),
            forall|i: int|
                0 <= i < self.spec_query().len() ==> {
                    let k = (#[trigger] self.spec_query()[i]).0;
                    k == "end"@ || k == "limit"@ || k == "start"@ || k == "tradeIdFrom"@ || k == "tradeIdTo"@
                },
    {
        reveal_strlit("end");
        reveal_strlit("limit");
        reveal_strlit("start");
        reveal_strlit("tradeIdFrom");
        reveal_strlit("tradeIdTo");
        reveal_with_fuel(text_lt, 9);
        let t0 = Seq::<(Seq<char>, Option<Seq<char>>)>::empty();
        let f0 = ("end"@, opt_decimal(self.end));
        let t1 = t0.push(f0);
        lemma_entries_of_push(t0, f0);
        let f1 = ("limit"@, opt_decimal32(self.limit));
        let t2 = t1.push(f1);
        lemma_entries_of_push(t1, f1);
        let f2 = ("start"@, opt_decimal(self.start));
        let t3 = t2.push(f2);
        lemma_entries_of_push(t2, f2);
        let f3 = ("tradeIdFrom"@, self.trade_id_from.deep_view());
        let t4 = t3.push(f3);
        lemma_entries_of_push(t3, f3);
        let f4 = ("tradeIdTo"@, self.trade_id_to.deep_view());
        let t5 = t4.push(f4);
        lemma_entries_of_push(t4, f4);
        assert(self.spec_query() =~= entries_of(t5));
        assert forall|i: int| 0 <= i < t5.len() - 1 implies text_lt(#[trigger] t5[i].0, t5[i + 1].0) by {
            if i == 0 {
                assert(text_lt("end"@, "limit"@));
            } else if i == 1 {
                assert(text_lt("limit"@, "start"@));
            } else if i == 2 {
                assert(text_lt("start"@, "tradeIdFrom"@));
            } else if i == 3 {
                assert(text_lt("tradeIdFrom"@, "tradeIdTo"@));
            }
        }
        lemma_table_keys_ascending(t5);
        lemma_entries_value(t5, 0);
        lemma_entries_value(t5, 1);
        lemma_entries_value(t5, 2);
        lemma_entries_value(t5, 3);
        lemma_entries_value(t5, 4);
        lemma_entries_keys(t5);
        assert forall|i: int| 0 <= i < self.spec_query().len() implies {
            let k = (#[trigger] self.spec_query()[i]).0;
            k == "end"@ || k == "limit"@ || k == "start"@ || k == "tradeIdFrom"@ || k == "tradeIdTo"@
        } by {
            let e = entries_of(t5);
            let j = choose|j: int| 0 <= j < t5.len() && t5[j] == (e[i].0, Some(e[i].1));
        }
    }
}

impl QueryParams for TradesParams {
    proof fn lemma_keys_ascending(&self)
        ensures
            keys_ascending(self.spec_query()),
    {
        reveal_strlit("end");
        reveal_strlit("limit");
        reveal_strlit("start");
        reveal_strlit("tradeIdFrom");
        reveal_strlit("tradeIdTo");
        reveal_with_fuel(text_lt, 9);
        assert(text_lt("end"@, "limit"@));
        assert(text_lt("limit"@, "start"@));
        assert(text_lt("start"@, "tradeIdFrom"@));
        assert(text_lt("tradeIdFrom"@, "tradeIdTo"@));
        let e = Seq::<(Seq<char>, Seq<char>)>::empty();
        let p0 = opt_pair("end"@, opt_decimal(self.end));
        let p1 = opt_pair("limit"@, opt_decimal32(self.limit));
        let p2 = opt_pair("start"@, opt_decimal(self.start));
        let p3 = opt_pair("tradeIdFrom"@, self.trade_id_from.deep_view());
        let p4 = opt_pair("tradeIdTo"@, self.trade_id_to.deep_view());
        lemma_keys_ascending_append(e, p0, "end"@, "limit"@);
        assert(e + p0 =~= p0);
        lemma_keys_ascending_append(p0, p1, "limit"@, "start"@);
        lemma_keys_ascending_append(p0 + p1, p2, "start"@, "tradeIdFrom"@);
        lemma_keys_ascending_append(p0 + p1 + p2, p3, "tradeIdFrom"@, "tradeIdTo"@);
        lemma_keys_ascending_append_last(p0 + p1 + p2 + p3, p4, "tradeIdTo"@);
        assert(self.spec_query() =~= p0 + p1 + p2 + p3 + p4);
    }

    open spec fn spec_query(&self) -> QueryView {
        opt_pair("end"@, opt_decimal(self.end)) + opt_pair("limit"@, opt_decimal32(self.limit))
            + opt_pair("start"@, opt_decimal(self.start))
            + opt_pair("tradeIdFrom"@, self.trade_id_from.deep_view())
            + opt_pair("tradeIdTo"@, self.trade_id_to.deep_view())
    }

    fn to_query(&self) -> (q: Vec<(String, String)>) {
        let mut q: Vec<(String, String)> = Vec::new();
        push_number(&mut q, "end", self.end);
        push_number32(&mut q, "limit", self.limit);
        push_number(&mut q, "start", self.start);
        push_text(&mut q, "tradeIdFrom", &self.trade_id_from);
        push_text(&mut q, "tradeIdTo", &self.trade_id_to);
        assert(q.deep_view() =~= self.spec_query());
        q
    }
}

/// Parameters for `GET /{market}/candles`.
#[derive(Debug, Clone)]
pub struct CandlesParams {
    pub limit: Option<u32>,
    pub start: Option<u64>,
    pub end: Option<u64>,
}

impl Default for CandlesParams {
    fn default() -> (p: Self)
        ensures
            p.limit is None && p.start is None && p.end is None,
    {
        CandlesParams { limit: None, start: None, end: None }
    }
}

impl CandlesParams {
    /// No parameter set.
    pub fn new() -> (p: Self)
        ensures
            p.spec_query() == Seq::<(Seq<char>, Seq<char>)>::empty(),
            p.limit is None && p.start is None && p.end is None,
    {
        Self::default()
    }

    pub fn limit(self, limit: u32) -> (p: Self)
        ensures
            p == (CandlesParams { limit: Some(limit), ..self }),
    {
        CandlesParams { limit: Some(limit), ..self }
    }

    pub fn start(self, start_ms: u64) -> (p: Self)
        ensures
            p == (CandlesParams { start: Some(start_ms), ..self }),
    {
        CandlesParams { start: Some(start_ms), ..self }
    }

    pub fn end(self, end_ms: u64) -> (p: Self)
        ensures
            p == (CandlesParams { end: Some(end_ms), ..self }),
    {
        CandlesParams { end: Some(end_ms), ..self }
    }
}

impl CandlesParams {
    /// Each parameter that is set stands in the query under its own key with its
    /// value, one that is unset has no pair, and no other key occurs.
    pub proof fn lemma_query_values(&self)
        ensures
            value_under(self.spec_query(), "end"@) == opt_decimal(self.end),
            value_under(self.spec_query(), "limit"@) == opt_decimal32(self.limit),
            value_under(self.spec_query(), "start"@) == opt_decimal(self.start),
            forall|i: int|
                0 <= i < self.spec_query().len() ==> {
                    let k = (#[trigger] self.spec_query()[i]).0;
                    k == "end"@ || k == "limit"@ || k == "start"@
                },
    {
        reveal_strlit("end");
        reveal_strlit("limit");
        reveal_strlit("start");
        reveal_with_fuel(text_lt, 9);
        let t0 = Seq::<(Seq<char>, Option<Seq<char>>)>::empty();
        let f0 = ("end"@, opt_decimal(self.end));
        let t1 = t0.push(f0);
        lemma_entries_of_push(t0, f0);
        let f1 = ("limit"@, opt_decimal32(self.limit));
        let t2 = t1.push(f1);
        lemma_entries_of_push(t1, f1);
        let f2 = ("start"@, opt_decimal(self.start));
        let t3 = t2.push(f2);
        lemma_entries_of_push(t2, f2);
        assert(self.spec_query() =~= entries_of(t3));
        assert forall|i: int| 0 <= i < t3.len() - 1 implies text_lt(#[trigger] t3[i].0, t3[i + 1].0) by {
            if i == 0 {
                assert(text_lt("end"@, "limit"@));
            } else if i == 1 {
                assert(text_lt("limit"@, "start"@));
            }
        }
        lemma_table_keys_ascending(t3);
        lemma_entries_value(t3, 0);
        lemma_entries_value(t3, 1);
        lemma_entries_value(t3, 2);
        lemma_entries_keys(t3);
        assert forall|i: int| 0 <= i < self.spec_query().len() implies {
            let k = (#[trigger] self.spec_query()[i]).0;
            k == "end"@ || k == "limit"@ || k == "start"@
        } by {
            let e = entries_of(t3);
            let j = choose|j: int| 0 <= j < t3.len() && t3[j] == (e[i].0, Some(e[i].1));
        }
    }
}

impl QueryParams for CandlesParams {
    proof fn lemma_keys_ascending(&self)
        ensures
            keys_ascending(self.spec_query()),
    {
        reveal_strlit("end");
        reveal_strlit("limit");
        reveal_strlit("start");
        reveal_with_fuel(text_lt, 9);
        assert(text_lt("end"@, "limit"@));
        assert(text_lt("limit"@, "start"@));
        let e = Seq::<(Seq<char>, Seq<char>)>::empty();
        let p0 = opt_pair("end"@, opt_decimal(self.end));
        let p1 = opt_pair("limit"@, opt_decimal32(self.limit));
        let p2 = opt_pair("start"@, opt_decimal(self.start));
        lemma_keys_ascending_append(e, p0, "end"@, "limit"@);
        assert(e + p0 =~= p0);
        lemma_keys_ascending_append(p0, p1, "limit"@, "start"@);
        lemma_keys_ascending_append_last(p0 + p1, p2, "start"@);
        assert(self.spec_query() =~= p0 + p1 + p2);
    }

    open spec fn spec_query(&self) -> QueryView {
        opt_pair("end"@, opt_decimal(self.end)) + opt_pair("limit"@, opt_decimal32(self.limit))
            + opt_pair("start"@, opt_decimal(self.start))
    }

    fn to_query(&self) -> (q: Vec<(String, String)>) {
        let mut q: Vec<(String, String)> = Vec::new();
        push_number(&mut q, "end", self.end);
        push_number32(&mut q, "limit", self.limit);
        push_number(&mut q, "start", self.start);
        assert(q.deep_view() =~= self.spec_query());
        q
    }
}

/// Parameters for `GET /orders`.
#[derive(Debug, Clone)]
pub struct OrdersParams {
    pub limit: Option<u32>,
    pub start: Option<u64>,
    pub end: Option<u64>,
    pub order_id_from: Option<String>,
    pub order_id_to: Option<String>,
}

impl Default for OrdersParams {
    fn default() -> (p: Self)
        ensures
            p.limit is None && p.start is None && p.end is None,
            p.order_id_from is None && p.order_id_to is None,
    {
        OrdersParams { limit: None, start: None, end: None, order_id_from: None, order_id_to: None }
    }
}

impl OrdersParams {
    /// No parameter set.
    pub fn new() -> (p: Self)
        ensures
            p.spec_query() == Seq::<(Seq<char>, Seq<char>)>::empty(),
            p.limit is None && p.start is None && p.end is None,
            p.order_id_from is None && p.order_id_to is None,
    {
        Self::default()
    }

    pub fn limit(self, limit: u32) -> (p: Self)
        ensures
            p == (OrdersParams { limit: Some(limit), ..self }),
    {
        OrdersParams { limit: Some(limit), ..self }
    }

    pub fn start(self, start_ms: u64) -> (p: Self)
        ensures
            p == (OrdersParams { start: Some(start_ms), ..self }),
    {
        OrdersParams { start: Some(start_ms), ..self }
    }

    pub fn end(self, end_ms: u64) -> (p: Self)
        ensures
            p == (OrdersParams { end: Some(end_ms), ..self }),
    {
        OrdersParams { end: Some(end_ms), ..self }
    }

    pub fn order_id_from(self, id: &str) -> (p: Self)
        ensures
            p.order_id_from.deep_view() == Some(id@),
            p == (OrdersParams { order_id_from: p.order_id_from, ..self }),
    {
        OrdersParams { order_id_from: Some(String::from_str(id)), ..self }
    }

    pub fn order_id_to(self, id: &str) -> (p: Self)
        ensures
            p.order_id_to.deep_view() == Some(id@),
            p == (OrdersParams { order_id_to: p.order_id_to, ..self }),
    {
        OrdersParams { order_id_to: Some(String::from_str(id)), ..self }
    }
}

impl OrdersParams {
    /// Each parameter that is set stands in the query under its own key with its
    /// value, one that is unset has no pair, and no other key occurs.
    pub proof fn lemma_query_values(&self)
        ensures
            value_under(self.spec_query(), "end"@) == opt_decimal(self.end),
            value_under(self.spec_query(), "limit"@) == opt_decimal32(self.limit),
            value_under(self.spec_query(), "orderIdFrom"@) == self.order_id_from.deep_view(),
            value_under(self.spec_query(), "orderIdTo"@) == self.order_id_to.deep_view(),
            value_under(self.spec_query(), "start"@) == opt_decimal(self.start),
            forall|i: int|
                0 <= i < self.spec_query().len() ==> {
                    let k = (#[trigger] self.spec_query()[i]).0;
                    k == "end"@ || k == "limit"@ || k == "orderIdFrom"@ || k == "orderIdTo"@ || k == "start"@
                },
    {
        reveal_strlit("end");
        reveal_strlit("limit");
        reveal_strlit("orderIdFrom");
        reveal_strlit("orderIdTo");
        reveal_strlit("start");
        reveal_with_fuel(text_lt, 9);
        let t0 = Seq::<(Seq<char>, Option<Seq<char>>)>::empty();
        let f0 = ("end"@, opt_decimal(self.end));
        let t1 = t0.push(f0);
        lemma_entries_of_push(t0, f0);
        let f1 = ("limit"@, opt_decimal32(self.limit));
        let t2 = t1.push(f1);
        lemma_entries_of_push(t1, f1);
        let f2 = ("orderIdFrom"@, self.order_id_from.deep_view());
        let t3 = t2.push(f2);
        lemma_entries_of_push(t2, f2);
        let f3 = ("orderIdTo"@, self.order_id_to.deep_view());
        let t4 = t3.push(f3);
        lemma_entries_of_push(t3, f3);
        let f4 = ("start"@, opt_decimal(self.start));
        let t5 = t4.push(f4);
        lemma_entries_of_push(t4, f4);
        assert(self.spec_query() =~= entries_of(t5));
        assert forall|i: int| 0 <= i < t5.len() - 1 implies text_lt(#[trigger] t5[i].0, t5[i + 1].0) by {
            if i == 0 {
                assert(text_lt("end"@, "limit"@));
            } else if i == 1 {
                assert(text_lt("limit"@, "orderIdFrom"@));
            } else if i == 2 {
                assert(text_lt("orderIdFrom"@, "orderIdTo"@));
            } else if i == 3 {
                assert(text_lt("orderIdTo"@, "start"@));
            }
        }
        lemma_table_keys_ascending(t5);
        lemma_entries_value(t5, 0);
        lemma_entries_value(t5, 1);
        lemma_entries_value(t5, 2);
        lemma_entries_value(t5, 3);
        lemma_entries_value(t5, 4);
        lemma_entries_keys(t5);
        assert forall|i: int| 0 <= i < self.spec_query().len() implies {
            let k = (#[trigger] self.spec_query()[i]).0;
            k == "end"@ || k == "limit"@ || k == "orderIdFrom"@ || k == "orderIdTo"@ || k == "start"@
        } by {
            let e = entries_of(t5);
            let j = choose|j: int| 0 <= j < t5.len() && t5[j] == (e[i].0, Some(e[i].1));
        }
    }
}

impl QueryParams for OrdersParams {
    proof fn lemma_keys_ascending(&self)
        ensures
            keys_ascending(self.spec_query()),
    {
        reveal_strlit("end");
        reveal_strlit("limit");
        reveal_strlit("orderIdFrom");
        reveal_strlit("orderIdTo");
        reveal_strlit("start");
        reveal_with_fuel(text_lt, 9);
        assert(text_lt("end"@, "limit"@));
        assert(text_lt("limit"@, "orderIdFrom"@));
        assert(text_lt("orderIdFrom"@, "orderIdTo"@));
        assert(text_lt("orderIdTo"@, "start"@));
        let e = Seq::<(Seq<char>, Seq<char>)>::empty();
        let p0 = opt_pair("end"@, opt_decimal(self.end));
        let p1 = opt_pair("limit"@, opt_decimal32(self.limit));
        let p2 = opt_pair("orderIdFrom"@, self.order_id_from.deep_view());
        let p3 = opt_pair("orderIdTo"@, self.order_id_to.deep_view());
        let p4 = opt_pair("start"@, opt_decimal(self.start));
        lemma_keys_ascending_append(e, p0, "end"@, "limit"@);
        assert(e + p0 =~= p0);
        lemma_keys_ascending_append(p0, p1, "limit"@, "orderIdFrom"@);
        lemma_keys_ascending_append(p0 + p1, p2, "orderIdFrom"@, "orderIdTo"@);
        lemma_keys_ascending_append(p0 + p1 + p2, p3, "orderIdTo"@, "start"@);
        lemma_keys_ascending_append_last(p0 + p1 + p2 + p3, p4, "start"@);
        assert(self.spec_query() =~= p0 + p1 + p2 + p3 + p4);
    }

    open spec fn spec_query(&self) -> QueryView {
        opt_pair("end"@, opt_decimal(self.end)) + opt_pair("limit"@, opt_decimal32(self.limit))
            + opt_pair("orderIdFrom"@, self.order_id_from.deep_view())
            + opt_pair("orderIdTo"@, self.order_id_to.deep_view())
            + opt_pair("start"@, opt_decimal(self.start))
    }

    fn to_query(&self) -> (q: Vec<(String, String)>) {
        let mut q: Vec<(String, String)> = Vec::new();
        push_number(&mut q, "end", self.end);
        push_number32(&mut q, "limit", self.limit);
        push_text(&mut q, "orderIdFrom", &self.order_id_from);
        push_text(&mut q, "orderIdTo", &self.order_id_to);
        push_number(&mut q, "start", self.start);
        assert(q.deep_view() =~= self.spec_query());
        q
    }
}

/// Parameters for deposit and withdrawal history endpoints.
#[derive(Debug, Clone)]
pub struct HistoryParams {
    pub symbol: Option<String>,
    pub limit: Option<u32>,
    pub start: Option<u64>,
    pub end: Option<u64>,
}

impl Default for HistoryParams {
    fn default() -> (p: Self)
        ensures
            p.symbol is None && p.limit is None && p.start is None && p.end is None,
    {
        HistoryParams { symbol: None, limit: None, start: None, end: None }
    }
}

impl HistoryParams {
    /// No parameter set.
    pub fn new() -> (p: Self)
        ensures
            p.spec_query() == Seq::<(Seq<char>, Seq<char>)>::empty(),
            p.symbol is None && p.limit is None && p.start is None && p.end is None,
    {
        Self::default()
    }

    pub fn symbol(self, symbol: &str) -> (p: Self)
        ensures
            p.symbol.deep_view() == Some(symbol@),
            p == (HistoryParams { symbol: p.symbol, ..self }),
    {
        HistoryParams { symbol: Some(String::from_str(symbol)), ..self }
    }

    pub fn limit(self, limit: u32) -> (p: Self)
        ensures
            p == (HistoryParams { limit: Some(limit), ..self }),
    {
        HistoryParams { limit: Some(limit), ..self }
    }

    pub fn start(self, start_ms: u64) -> (p: Self)
        ensures
            p == (HistoryParams { start: Some(start_ms), ..self }),
    {
        HistoryParams { start: Some(start_ms), ..self }
    }

    pub fn end(self, end_ms: u64) -> (p: Self)
        ensures
            p == (HistoryParams { end: Some(end_ms), ..self }),
    {
        HistoryParams { end: Some(end_ms), ..self }
    }
}

impl HistoryParams {
    /// Each parameter that is set stands in the query under its own key with its
    /// value, one that is unset has no pair, and no other key occurs.
    pub proof fn lemma_query_values(&self)
        ensures
            value_under(self.spec_query(), "end"@) == opt_decimal(self.end),
            value_under(self.spec_query(), "limit"@) == opt_decimal32(self.limit),
            value_under(self.spec_query(), "start"@) == opt_decimal(self.start),
            value_under(self.spec_query(), "symbol"@) == self.symbol.deep_view(),
            forall|i: int|
                0 <= i < self.spec_query().len() ==> {
                    let k = (#[trigger] self.spec_query()[i]).0;
                    k == "end"@ || k == "limit"@ || k == "start"@ || k == "symbol"@
                },
    {
        reveal_strlit("end");
        reveal_strlit("limit");
        reveal_strlit("start");
        reveal_strlit("symbol");
        reveal_with_fuel(text_lt, 9);
        let t0 = Seq::<(Seq<char>, Option<Seq<char>>)>::empty();
        let f0 = ("end"@, opt_decimal(self.end));
        let t1 = t0.push(f0);
        lemma_entries_of_push(t0, f0);
        let f1 = ("limit"@, opt_decimal32(self.limit));
        let t2 = t1.push(f1);
        lemma_entries_of_push(t1, f1);
        let f2 = ("start"@, opt_decimal(self.start));
        let t3 = t2.push(f2);
        lemma_entries_of_push(t2, f2);
        let f3 = ("symbol"@, self.symbol.deep_view());
        let t4 = t3.push(f3);
        lemma_entries_of_push(t3, f3);
        assert(self.spec_query() =~= entries_of(t4));
        assert forall|i: int| 0 <= i < t4.len() - 1 implies text_lt(#[trigger] t4[i].0, t4[i + 1].0) by {
            if i == 0 {
                assert(text_lt("end"@, "limit"@));
            } else if i == 1 {
                assert(text_lt("limit"@, "start"@));
            } else if i == 2 {
                assert(text_lt("start"@, "symbol"@));
            }
        }
        lemma_table_keys_ascending(t4);
        lemma_entries_value(t4, 0);
        lemma_entries_value(t4, 1);
        lemma_entries_value(t4, 2);
        lemma_entries_value(t4, 3);
        lemma_entries_keys(t4);
        assert forall|i: int| 0 <= i < self.spec_query().len() implies {
            let k = (#[trigger] self.spec_query()[i]).0;
            k == "end"@ || k == "limit"@ || k == "start"@ || k == "symbol"@
        } by {
            let e = entries_of(t4);
            let j = choose|j: int| 0 <= j < t4.len() && t4[j] == (e[i].0, Some(e[i].1));
        }
    }
}

impl QueryParams for HistoryParams {
    proof fn lemma_keys_ascending(&self)
        ensures
            keys_ascending(self.spec_query()),
    {
        reveal_strlit("end");
        reveal_strlit("limit");
        reveal_strlit("start");
        reveal_strlit("symbol");
        reveal_with_fuel(text_lt, 9);
        assert(text_lt("end"@, "limit"@));
        assert(text_lt("limit"@, "start"@));
        assert(text_lt("start"@, "symbol"@));
        let e = Seq::<(Seq<char>, Seq<char>)>::empty();
        let p0 = opt_pair("end"@, opt_decimal(self.end));
        let p1 = opt_pair("limit"@, opt_decimal32(self.limit));
        let p2 = opt_pair("start"@, opt_decimal(self.start));
        let p3 = opt_pair("symbol"@, self.symbol.deep_view());
        lemma_keys_ascending_append(e, p0, "end"@, "limit"@);
        assert(e + p0 =~= p0);
        lemma_keys_ascending_append(p0, p1, "limit"@, "start"@);
        lemma_keys_ascending_append(p0 + p1, p2, "start"@, "symbol"@);
        lemma_keys_ascending_append_last(p0 + p1 + p2, p3, "symbol"@);
        assert(self.spec_query() =~= p0 + p1 + p2 + p3);
    }

    open spec fn spec_query(&self) -> QueryView {
        opt_pair("end"@, opt_decimal(self.end)) + opt_pair("limit"@, opt_decimal32(self.limit))
            + opt_pair("start"@, opt_decimal(self.start))
            + opt_pair("symbol"@, self.symbol.deep_view())
    }

    fn to_query(&self) -> (q: Vec<(String, String)>) {
        let mut q: Vec<(String, String)> = Vec::new();
        push_number(&mut q, "end", self.end);
        push_number32(&mut q, "limit", self.limit);
        push_number(&mut q, "start", self.start);
        push_text(&mut q, "symbol", &self.symbol);
        assert(q.deep_view() =~= self.spec_query());
        q
    }
}

} // verus!
