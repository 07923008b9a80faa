//! Records shared by several endpoint groups.
use vstd::prelude::*;
use crate::query::{QueryMap, ToQueryParams};

verus! {

/// The side of an order.
#[derive(Clone, Copy, Debug, PartialEq, Eq, Structural)]
pub enum Side {
    BUY,
    SELL,
}

impl Side {
    /// The wire token of the side.
    pub open spec fn token(&self) -> Seq<char> {
        match self {
            Side::BUY => "BUY"@,
            Side::SELL => "SELL"@,
        }
    }

    /// The wire token of the side: `BUY` or `SELL`.
    pub fn as_str(&self) -> (r: &'static str)
        ensures
            r@ == self.token(),
    {
        match self {
            Side::BUY => "BUY",
            Side::SELL => "SELL",
        }
    }

    /// The side as text, the same as its wire token.
    pub fn to_string(&self) -> (r: String)
        ensures
            r@ == self.token(),
    {
        String::from_str(self.as_str())
    }
}

/// A token identifier used across several endpoints.
#[derive(Clone, Debug, PartialEq, Eq)]
pub struct TokenId {
    pub token_id: String,
}

impl ToQueryParams for TokenId {
    open spec fn query_spec(&self) -> Map<Seq<char>, Seq<char>> {
        map!["token_id"@ => self.token_id@]
    }

    fn as_query_params(&self) -> (r: QueryMap) {
        let mut q = QueryMap::new();
        q.insert(String::from_str("token_id"), self.token_id.clone());
        assert(q@ =~= self.query_spec());
        q
    }
}

} // verus!
