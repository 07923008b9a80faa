//! Order books: their records and requests.
use vstd::prelude::*;
use crate::query::ToQueryParams;
use crate::shared::TokenId;
use crate::transport::{ApiRequest, HttpMethod};

verus! {

/// One resting order, a bid or an ask.
#[derive(Clone, Debug, PartialEq, Eq)]
pub struct Order {
    pub price: String,
    pub size: String,
}

/// The order book of one token.
#[derive(Clone, Debug, PartialEq, Eq)]
pub struct OrderbookSummary {
    pub market: String,
    pub asset_id: String,
    pub timestamp: String,
    pub hash: String,
    pub bids: Vec<Order>,
    pub asks: Vec<Order>,
    pub min_order_size: String,
    pub tick_size: String,
    pub neg_risk: bool,
}

/// A batch of tokens whose order books are asked for.
#[derive(Clone, Debug, PartialEq, Eq)]
pub struct OrderbookRequestDTO {
    pub token_ids: Vec<TokenId>,
}

/// The request for the order book of one token: `GET /book?token_id=<id>`.
pub fn get_orderbook_summary_request(data: &TokenId) -> (r: ApiRequest)
    ensures
        r.is(HttpMethod::Get, "/book"@, Some(data.query_spec())),
{
    ApiRequest::get(String::from_str("/book"), Some(data.as_query_params()))
}

/// The request for the order books of several tokens: `POST /books`, with
/// the token ids as the JSON body.
pub fn post_orderbook_summaries_request() -> (r: ApiRequest)
    ensures
        r.is(HttpMethod::Post, "/books"@, None),
{
    ApiRequest::post(String::from_str("/books"))
}

} // verus!
