//! Prices: their request parameters, records and requests.
use vstd::prelude::*;
use crate::query::{with_entry, QueryMap, ToQueryParams};
use crate::shared::{Side, TokenId};
use crate::transport::{ApiRequest, HttpMethod};
use crate::text::{digits, opt_u128_text, same_text, unsigned_text};

verus! {

/// Parameters of a price query for one token and side.
#[derive(Clone, Debug, PartialEq, Eq)]
pub struct MarketPriceDTO {
    pub token_id: String,
    pub side: Side,
}

impl ToQueryParams for MarketPriceDTO {
    open spec fn query_spec(&self) -> Map<Seq<char>, Seq<char>> {
        map!["token_id"@ => self.token_id@, "side"@ => self.side.token()]
    }

    fn as_query_params(&self) -> (r: QueryMap) {
        let mut q = QueryMap::new();
        q.insert(String::from_str("token_id"), self.token_id.clone());
        q.insert(String::from_str("side"), String::from_str(self.side.as_str()));
        assert(q@ =~= self.query_spec());
        q
    }
}

/// A market price.
#[derive(Clone, Debug, PartialEq, Eq)]
pub struct MarketPrice {
    pub price: String,
}

/// A midpoint price.
#[derive(Clone, Debug, PartialEq, Eq)]
pub struct MidpointPrice {
    pub mid: String,
}

/// The bucket width of a price history.
#[derive(Clone, Copy, Debug, PartialEq, Eq, Structural)]
pub enum PriceInterval {
    Minute1,
    Hour1,
    Hour6,
    Week1,
    Day1,
    Max,
}

impl PriceInterval {
    /// The wire token of the interval.
    pub open spec fn token(&self) -> Seq<char> {
        match self {
            PriceInterval::Minute1 => "1m"@,
            PriceInterval::Hour1 => "1h"@,
            PriceInterval::Hour6 => "6h"@,
            PriceInterval::Week1 => "1w"@,
            PriceInterval::Day1 => "1d"@,
            PriceInterval::Max => "max"@,
        }
    }

    /// The wire token of the interval: `1m`, `1h`, `6h`, `1w`, `1d` or `max`.
    pub fn as_str(&self) -> (r: &'static str)
        ensures
            r@ == self.token(),
    {
        match self {
            PriceInterval::Minute1 => "1m",
            PriceInterval::Hour1 => "1h",
            PriceInterval::Hour6 => "6h",
            PriceInterval::Week1 => "1w",
            PriceInterval::Day1 => "1d",
            PriceInterval::Max => "max",
        }
    }

    /// The interval whose wire token is `token`, if there is one.
    pub open spec fn parse_spec(token: Seq<char>) -> Option<PriceInterval> {
        if token == "1m"@ {
            Some(PriceInterval::Minute1)
        } else if token == "1h"@ {
            Some(PriceInterval::Hour1)
        } else if token == "6h"@ {
            Some(PriceInterval::Hour6)
        } else if token == "1w"@ {
            Some(PriceInterval::Week1)
        } else if token == "1d"@ {
            Some(PriceInterval::Day1)
        } else if token == "max"@ {
            Some(PriceInterval::Max)
        } else {
            None
        }
    }

    /// The interval whose wire token is `token`, or `None` where no interval has it.
    pub fn parse(token: &str) -> (r: Option<PriceInterval>)
        ensures
            r == PriceInterval::parse_spec(token@),
    {
        if same_text(token, "1m") {
            Some(PriceInterval::Minute1)
        } else if same_text(token, "1h") {
            Some(PriceInterval::Hour1)
        } else if same_text(token, "6h") {
            Some(PriceInterval::Hour6)
        } else if same_text(token, "1w") {
            Some(PriceInterval::Week1)
        } else if same_text(token, "1d") {
            Some(PriceInterval::Day1)
        } else if same_text(token, "max") {
            Some(PriceInterval::Max)
        } else {
            None
        }
    }
}

/// No two intervals share a wire token.
pub proof fn lemma_interval_tokens_distinct(a: PriceInterval, b: PriceInterval)
    ensures
        a.token() == b.token() ==> a == b,
{
    reveal_strlit("1m");
    reveal_strlit("1h");
    reveal_strlit("6h");
    reveal_strlit("1w");
    reveal_strlit("1d");
    reveal_strlit("max");
    if a.token() == b.token() && a != b {
        assert(a.token()[0] != b.token()[0] || a.token()[1] != b.token()[1] || a.token().len()
            != b.token().len());
    }
}

/// Reading back the token of an interval gives that interval.
pub proof fn lemma_interval_parse_round_trip(i: PriceInterval)
    ensures
        PriceInterval::parse_spec(i.token()) == Some(i),
{
    lemma_interval_tokens_distinct(i, PriceInterval::parse_spec(i.token()).unwrap());
}

/// The wire token of an optional interval.
pub open spec fn opt_interval(v: Option<PriceInterval>) -> Option<Seq<char>> {
    match v {
        Some(i) => Some(i.token()),
        None => None,
    }
}

/// Parameters of a price-history query.
#[derive(Clone, Debug, Default, PartialEq, Eq)]
pub struct PriceHistoryDTO {
    pub market: String,
    pub start_ts: Option<u128>,
    pub end_ts: Option<u128>,
    pub interval: Option<PriceInterval>,
    pub fidelity: Option<u128>,
}

impl ToQueryParams for PriceHistoryDTO {
    open spec fn query_spec(&self) -> Map<Seq<char>, Seq<char>> {
        let m = map!["market"@ => self.market@];
        let m = with_entry(m, "startTs"@, opt_u128_text(self.start_ts));
        let m = with_entry(m, "endTs"@, opt_u128_text(self.end_ts));
        let m = with_entry(m, "interval"@, opt_interval(self.interval));
        with_entry(m, "fidelity"@, opt_u128_text(self.fidelity))
    }

    fn as_query_params(&self) -> (r: QueryMap) {
        let mut q = QueryMap::new();
        q.insert(String::from_str("market"), self.market.clone());
        assert(q@ =~= map!["market"@ => self.market@]);
        if let Some(start_ts) = self.start_ts {
            q.insert(String::from_str("startTs"), unsigned_text(start_ts));
        }
        if let Some(end_ts) = self.end_ts {
            q.insert(String::from_str("endTs"), unsigned_text(end_ts));
        }
        if let Some(interval) = &self.interval {
            q.insert(String::from_str("interval"), String::from_str(interval.as_str()));
        }
        if let Some(fidelity) = self.fidelity {
            q.insert(String::from_str("fidelity"), unsigned_text(fidelity));
        }
        q
    }
}

/// The request for the price of one token and side: `GET /price`.
pub fn get_market_price_request(data: &MarketPriceDTO) -> (r: ApiRequest)
    ensures
        r.is(HttpMethod::Get, "/price"@, Some(data.query_spec())),
{
    ApiRequest::get(String::from_str("/price"), Some(data.as_query_params()))
}

/// The request for the prices of several tokens and sides: `POST /prices`,
/// with the parameters as the JSON body.
pub fn post_market_prices_request() -> (r: ApiRequest)
    ensures
        r.is(HttpMethod::Post, "/prices"@, None),
{
    ApiRequest::post(String::from_str("/prices"))
}

/// The request for the midpoint price of one token: `GET /midpoint`.
pub fn get_midpoint_price_request(data: &TokenId) -> (r: ApiRequest)
    ensures
        r.is(HttpMethod::Get, "/midpoint"@, Some(data.query_spec())),
{
    ApiRequest::get(String::from_str("/midpoint"), Some(data.as_query_params()))
}

/// The request for the price history of a market: `GET /prices-history`.
pub fn get_price_history_request(data: &PriceHistoryDTO) -> (r: ApiRequest)
    ensures
        r.is(HttpMethod::Get, "/prices-history"@, Some(data.query_spec())),
{
    ApiRequest::get(String::from_str("/prices-history"), Some(data.as_query_params()))
}

/// The request for the bid-ask spreads of several tokens: `POST /spreads`,
/// with the parameters as the JSON body.
pub fn post_bid_ask_spreads_request() -> (r: ApiRequest)
    ensures
        r.is(HttpMethod::Post, "/spreads"@, None),
{
    ApiRequest::post(String::from_str("/spreads"))
}

/// A price-history query with no optional parameter set projects to the
/// market alone.
pub proof fn lemma_price_history_dto_none_set(d: PriceHistoryDTO)
    requires
        d.start_ts is None,
        d.end_ts is None,
        d.interval is None,
        d.fidelity is None,
    ensures
        d.query_spec() == map!["market"@ => d.market@],
{
}

/// A price-history query with every parameter set projects to exactly one
/// entry per field, under its wire name, with its text.
pub proof fn lemma_price_history_dto_all_set(d: PriceHistoryDTO)
    requires
        d.start_ts is Some,
        d.end_ts is Some,
        d.interval is Some,
        d.fidelity is Some,
    ensures
        d.query_spec() == map![
            "market"@ => d.market@,
            "startTs"@ => digits(d.start_ts.unwrap() as nat),
            "endTs"@ => digits(d.end_ts.unwrap() as nat),
            "interval"@ => d.interval.unwrap().token(),
            "fidelity"@ => digits(d.fidelity.unwrap() as nat),
        ],
{
    assert(d.query_spec() =~= map![
        "market"@ => d.market@,
        "startTs"@ => digits(d.start_ts.unwrap() as nat),
        "endTs"@ => digits(d.end_ts.unwrap() as nat),
        "interval"@ => d.interval.unwrap().token(),
        "fidelity"@ => digits(d.fidelity.unwrap() as nat),
    ]);
}

/// A price query projects to exactly its token and its side, the side as
/// its uppercase token.
pub proof fn lemma_market_price_dto_all_set(d: MarketPriceDTO)
    ensures
        d.query_spec() == map!["token_id"@ => d.token_id@, "side"@ => d.side.token()],
{
}

} // verus!
