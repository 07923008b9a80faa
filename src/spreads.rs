//! Spreads: the parameters of a spread query.
use vstd::prelude::*;
use crate::query::{with_entry, QueryMap, ToQueryParams};
use crate::shared::Side;
use crate::transport::{ApiRequest, HttpMethod};

verus! {

/// Parameters of a spread query for one token, optionally for one side.
#[derive(Clone, Debug, PartialEq, Eq)]
pub struct SpreadBidAskDTO {
    pub token_id: String,
    pub side: Option<Side>,
}

/// The wire token of an optional side.
pub open spec fn opt_side(v: Option<Side>) -> Option<Seq<char>> {
    match v {
        Some(s) => Some(s.token()),
        None => None,
    }
}

impl ToQueryParams for SpreadBidAskDTO {
    open spec fn query_spec(&self) -> Map<Seq<char>, Seq<char>> {
        with_entry(map!["token_id"@ => self.token_id@], "side"@, opt_side(self.side))
    }

    fn as_query_params(&self) -> (r: QueryMap) {
        let mut q = QueryMap::new();
        q.insert(String::from_str("token_id"), self.token_id.clone());
        assert(q@ =~= map!["token_id"@ => self.token_id@]);
        if let Some(side) = &self.side {
            q.insert(String::from_str("side"), String::from_str(side.as_str()));
        }
        q
    }
}

/// The request for the spread of one token: `GET /spread`.
pub fn get_spread_request(data: &SpreadBidAskDTO) -> (r: ApiRequest)
    ensures
        r.is(HttpMethod::Get, "/spread"@, Some(data.query_spec())),
{
    ApiRequest::get(String::from_str("/spread"), Some(data.as_query_params()))
}

/// A spread query without a side projects to the token alone.
pub proof fn lemma_spread_dto_none_set(d: SpreadBidAskDTO)
    requires
        d.side is None,
    ensures
        d.query_spec() == map!["token_id"@ => d.token_id@],
{
}

/// A spread query with a side projects to exactly its token and its side.
pub proof fn lemma_spread_dto_all_set(d: SpreadBidAskDTO)
    requires
        d.side is Some,
    ensures
        d.query_spec() == map!["token_id"@ => d.token_id@, "side"@ => d.side.unwrap().token()],
{
    assert(d.query_spec() =~= map!["token_id"@ => d.token_id@, "side"@ => d.side.unwrap().token()]);
}

} // verus!
