//! Sports: the parameters of the team listing and the sport records.
use vstd::prelude::*;
use crate::query::{with_entry, QueryMap, ToQueryParams};
use crate::transport::{ApiRequest, HttpMethod};
use crate::text::{
    bool_text, boolean_text, comma_joined, decimal, join_with_commas, opt_bool, opt_i16_text,
    opt_joined, opt_text, signed_text, texts,
};

verus! {

/// Parameters of the team listing.
#[derive(Clone, Debug, Default, PartialEq, Eq)]
pub struct SportsTeamsDTO {
    pub limit: Option<i16>,
    pub offset: Option<i16>,
    pub order: Option<String>,
    pub ascending: Option<bool>,
    pub league: Option<Vec<String>>,
    pub name: Option<Vec<String>>,
    pub abbreviation: Option<Vec<String>>,
}

impl ToQueryParams for SportsTeamsDTO {
    open spec fn query_spec(&self) -> Map<Seq<char>, Seq<char>> {
        let m = Map::empty();
        let m = with_entry(m, "limit"@, opt_i16_text(self.limit));
        let m = with_entry(m, "offset"@, opt_i16_text(self.offset));
        let m = with_entry(m, "order"@, opt_text(self.order));
        let m = with_entry(m, "ascending"@, opt_bool(self.ascending));
        let m = with_entry(m, "league"@, opt_joined(self.league));
        let m = with_entry(m, "name"@, opt_joined(self.name));
        with_entry(m, "abbreviation"@, opt_joined(self.abbreviation))
    }

    fn as_query_params(&self) -> (r: QueryMap) {
        let mut q = QueryMap::new();
        if let Some(limit) = self.limit {
            q.insert(String::from_str("limit"), signed_text(limit as i64));
        }
        if let Some(offset) = self.offset {
            q.insert(String::from_str("offset"), signed_text(offset as i64));
        }
        if let Some(order) = &self.order {
            q.insert(String::from_str("order"), order.clone());
        }
        if let Some(ascending) = self.ascending {
            q.insert(String::from_str("ascending"), boolean_text(ascending));
        }
        if let Some(league) = &self.league {
            q.insert(String::from_str("league"), join_with_commas(league));
        }
        if let Some(name) = &self.name {
            q.insert(String::from_str("name"), join_with_commas(name));
        }
        if let Some(abbreviation) = &self.abbreviation {
            q.insert(String::from_str("abbreviation"), join_with_commas(abbreviation));
        }
        q
    }
}

/// Metadata of one sport.
#[derive(Clone, Debug, PartialEq, Eq)]
pub struct SportsMetadata {
    pub sport: String,
    pub image: String,
    pub resolution: String,
    pub ordering: String,
    pub tags: String,
    pub series: String,
}

/// The request for the team listing: `GET /teams`.
pub fn get_sports_teams_request(data: &SportsTeamsDTO) -> (r: ApiRequest)
    ensures
        r.is(HttpMethod::Get, "/teams"@, Some(data.query_spec())),
{
    ApiRequest::get(String::from_str("/teams"), Some(data.as_query_params()))
}

/// The request for the sports metadata: `GET /sports`.
pub fn get_sports_metadata_request() -> (r: ApiRequest)
    ensures
        r.is(HttpMethod::Get, "/sports"@, None),
{
    ApiRequest::get(String::from_str("/sports"), None)
}

/// The request for the sports market types: `GET /sports/market-types`.
pub fn get_sports_market_types_request() -> (r: ApiRequest)
    ensures
        r.is(HttpMethod::Get, "/sports/market-types"@, None),
{
    ApiRequest::get(String::from_str("/sports/market-types"), None)
}

/// A team listing with no parameter set projects to no query parameter.
pub proof fn lemma_sports_teams_dto_none_set(d: SportsTeamsDTO)
    requires
        d.limit is None,
        d.offset is None,
        d.order is None,
        d.ascending is None,
        d.league is None,
        d.name is None,
        d.abbreviation is None,
    ensures
        d.query_spec() == Map::<Seq<char>, Seq<char>>::empty(),
{
}

/// A team listing with every parameter set projects to exactly one entry per
/// field, under its wire name, with its text; lists are comma-joined.
pub proof fn lemma_sports_teams_dto_all_set(d: SportsTeamsDTO)
    requires
        d.limit is Some,
        d.offset is Some,
        d.order is Some,
        d.ascending is Some,
        d.league is Some,
        d.name is Some,
        d.abbreviation is Some,
    ensures
        d.query_spec() == map![
            "limit"@ => decimal(d.limit.unwrap() as int),
            "offset"@ => decimal(d.offset.unwrap() as int),
            "order"@ => d.order.unwrap()@,
            "ascending"@ => bool_text(d.ascending.unwrap()),
            "league"@ => comma_joined(texts(d.league.unwrap()@)),
            "name"@ => comma_joined(texts(d.name.unwrap()@)),
            "abbreviation"@ => comma_joined(texts(d.abbreviation.unwrap()@)),
        ],
{
    assert(d.query_spec() =~= map![
        "limit"@ => decimal(d.limit.unwrap() as int),
        "offset"@ => decimal(d.offset.unwrap() as int),
        "order"@ => d.order.unwrap()@,
        "ascending"@ => bool_text(d.ascending.unwrap()),
        "league"@ => comma_joined(texts(d.league.unwrap()@)),
        "name"@ => comma_joined(texts(d.name.unwrap()@)),
        "abbreviation"@ => comma_joined(texts(d.abbreviation.unwrap()@)),
    ]);
}

} // verus!
