//! Tags: their request parameters, records and requests.
use vstd::prelude::*;
use crate::query::{with_entry, QueryMap, ToQueryParams};
use crate::text::{
    bool_text, boolean_text, comma_joined, decimal, join_with_commas, opt_bool, opt_i16_text,
    opt_joined, signed_text, texts,
};
use crate::transport::{concat3, ApiRequest, HttpMethod};

verus! {

/// Parameters of the tag listing.
#[derive(Clone, Debug, Default, PartialEq, Eq)]
pub struct TagDTO {
    pub limit: Option<i16>,
    pub offset: Option<i16>,
    pub order: Option<Vec<String>>,
    pub ascending: Option<bool>,
    pub include_template: Option<bool>,
    pub is_carousel: Option<bool>,
}

impl ToQueryParams for TagDTO {
    open spec fn query_spec(&self) -> Map<Seq<char>, Seq<char>> {
        let m = Map::empty();
        let m = with_entry(m, "limit"@, opt_i16_text(self.limit));
        let m = with_entry(m, "offset"@, opt_i16_text(self.offset));
        let m = with_entry(m, "order"@, opt_joined(self.order));
        let m = with_entry(m, "ascending"@, opt_bool(self.ascending));
        let m = with_entry(m, "include_template"@, opt_bool(self.include_template));
        with_entry(m, "is_carousel"@, opt_bool(self.is_carousel))
    }

    fn as_query_params(&self) -> (r: QueryMap) {
        let mut q = QueryMap::new();
        if let Some(limit) = self.limit {
            q.insert(String::from_str("limit"), signed_text(limit as i64));
        }
        if let Some(offset) = self.offset {
            q.insert(String::from_str("offset"), signed_text(offset as i64));
        }
        if let Some(order) = &self.order {
            q.insert(String::from_str("order"), join_with_commas(order));
        }
        if let Some(ascending) = self.ascending {
            q.insert(String::from_str("ascending"), boolean_text(ascending));
        }
        if let Some(include_template) = self.include_template {
            q.insert(String::from_str("include_template"), boolean_text(include_template));
        }
        if let Some(is_carousel) = self.is_carousel {
            q.insert(String::from_str("is_carousel"), boolean_text(is_carousel));
        }
        q
    }
}

/// Parameters of a single-tag lookup, by id or by slug.
#[derive(Clone, Debug, Default, PartialEq, Eq)]
pub struct TagIdDTO {
    pub include_template: Option<bool>,
}

/// Parameters of a tag lookup by slug.
pub type TagSlugDTO = TagIdDTO;

impl ToQueryParams for TagIdDTO {
    open spec fn query_spec(&self) -> Map<Seq<char>, Seq<char>> {
        with_entry(Map::empty(), "include_template"@, opt_bool(self.include_template))
    }

    fn as_query_params(&self) -> (r: QueryMap) {
        let mut q = QueryMap::new();
        if let Some(include_template) = self.include_template {
            q.insert(String::from_str("include_template"), boolean_text(include_template));
        }
        q
    }
}

/// Which related tags to list.
#[derive(Clone, Copy, Debug, PartialEq, Eq, Structural)]
pub enum TagStatus {
    Active,
    Closed,
    All,
}

impl TagStatus {
    /// The wire token of the status.
    pub open spec fn token(&self) -> Seq<char> {
        match self {
            TagStatus::Active => "active"@,
            TagStatus::Closed => "closed"@,
            TagStatus::All => "all"@,
        }
    }

    /// The wire token of the status: `active`, `closed` or `all`.
    pub fn as_str(&self) -> (r: &'static str)
        ensures
            r@ == self.token(),
    {
        match self {
            TagStatus::Active => "active",
            TagStatus::Closed => "closed",
            TagStatus::All => "all",
        }
    }

    /// The status as text, the same as its wire token.
    pub fn to_string(&self) -> (r: String)
        ensures
            r@ == self.token(),
    {
        String::from_str(self.as_str())
    }
}

/// Parameters of the related-tag queries.
#[derive(Clone, Debug, Default, PartialEq, Eq)]
pub struct TagRelationshipDTO {
    pub omit_empty: Option<bool>,
    pub status: Option<TagStatus>,
}

/// The wire token of an optional status.
pub open spec fn opt_status(v: Option<TagStatus>) -> Option<Seq<char>> {
    match v {
        Some(s) => Some(s.token()),
        None => None,
    }
}

impl ToQueryParams for TagRelationshipDTO {
    open spec fn query_spec(&self) -> Map<Seq<char>, Seq<char>> {
        let m = with_entry(Map::empty(), "omit_empty"@, opt_bool(self.omit_empty));
        with_entry(m, "status"@, opt_status(self.status))
    }

    fn as_query_params(&self) -> (r: QueryMap) {
        let mut q = QueryMap::new();
        if let Some(omit_empty) = self.omit_empty {
            q.insert(String::from_str("omit_empty"), boolean_text(omit_empty));
        }
        if let Some(status) = &self.status {
            q.insert(String::from_str("status"), status.to_string());
        }
        q
    }
}

/// A relationship between two tags.
#[derive(Clone, Debug, PartialEq, Eq)]
pub struct TagRelationshipItem {
    pub id: String,
    pub tag_id: Option<i32>,
    pub related_tag_id: Option<i32>,
    pub rank: Option<i32>,
}

/// The request for the tag listing: `GET /tags`.
pub fn get_tags_request(data: &TagDTO) -> (r: ApiRequest)
    ensures
        r.is(HttpMethod::Get, "/tags"@, Some(data.query_spec())),
{
    ApiRequest::get(String::from_str("/tags"), Some(data.as_query_params()))
}

/// The request for one tag by id: `GET /tags/{id}`.
pub fn get_tag_by_id_request(id: i32, data: &TagIdDTO) -> (r: ApiRequest)
    ensures
        r.is(HttpMethod::Get, "/tags/"@ + decimal(id as int), Some(data.query_spec())),
{
    proof {
        reveal_strlit("");
    }
    let id_text = signed_text(id as i64);
    ApiRequest::get(concat3("/tags/", id_text.as_str(), ""), Some(data.as_query_params()))
}

/// The request for one tag by slug: `GET /tags/slug/{slug}`.
pub fn get_tag_by_slug_request(slug: &str, data: &TagSlugDTO) -> (r: ApiRequest)
    ensures
        r.is(HttpMethod::Get, "/tags/slug/"@ + slug@, Some(data.query_spec())),
{
    proof {
        reveal_strlit("");
    }
    ApiRequest::get(concat3("/tags/slug/", slug, ""), Some(data.as_query_params()))
}

/// The request for the relationships of a tag by id: `GET /tags/{id}/related-tags`.
pub fn get_tags_relationship_request(id: i32, data: &TagRelationshipDTO) -> (r: ApiRequest)
    ensures
        r.is(
            HttpMethod::Get,
            "/tags/"@ + decimal(id as int) + "/related-tags"@,
            Some(data.query_spec()),
        ),
{
    let id_text = signed_text(id as i64);
    ApiRequest::get(
        concat3("/tags/", id_text.as_str(), "/related-tags"),
        Some(data.as_query_params()),
    )
}

/// The request for the relationships of a tag by slug:
/// `GET /tags/slug/{slug}/related-tags`.
pub fn get_related_tags_by_slug_request(slug: &str, data: &TagRelationshipDTO) -> (r: ApiRequest)
    ensures
        r.is(HttpMethod::Get, "/tags/slug/"@ + slug@ + "/related-tags"@, Some(data.query_spec())),
{
    ApiRequest::get(concat3("/tags/slug/", slug, "/related-tags"), Some(data.as_query_params()))
}

/// The request for the tags related to a tag by id:
/// `GET /tags/{id}/related-tags/tags`.
pub fn get_tags_related_to_id_request(id: i32, data: &TagRelationshipDTO) -> (r: ApiRequest)
    ensures
        r.is(
            HttpMethod::Get,
            "/tags/"@ + decimal(id as int) + "/related-tags/tags"@,
            Some(data.query_spec()),
        ),
{
    let id_text = signed_text(id as i64);
    ApiRequest::get(
        concat3("/tags/", id_text.as_str(), "/related-tags/tags"),
        Some(data.as_query_params()),
    )
}

/// The request for the tags related to a tag by slug:
/// `GET /tags/slug/{slug}/related-tags/tags`.
pub fn get_tags_related_to_slug_request(slug: &str, data: &TagRelationshipDTO) -> (r: ApiRequest)
    ensures
        r.is(
            HttpMethod::Get,
            "/tags/slug/"@ + slug@ + "/related-tags/tags"@,
            Some(data.query_spec()),
        ),
{
    ApiRequest::get(
        concat3("/tags/slug/", slug, "/related-tags/tags"),
        Some(data.as_query_params()),
    )
}

/// A tag listing with no parameter set projects to no query parameter.
pub proof fn lemma_tag_dto_none_set(d: TagDTO)
    requires
        d.limit is None,
        d.offset is None,
        d.order is None,
        d.ascending is None,
        d.include_template is None,
        d.is_carousel is None,
    ensures
        d.query_spec() == Map::<Seq<char>, Seq<char>>::empty(),
{
}

/// A tag listing with every parameter set projects to exactly one entry per
/// field, under its wire name, with its text.
pub proof fn lemma_tag_dto_all_set(d: TagDTO)
    requires
        d.limit is Some,
        d.offset is Some,
        d.order is Some,
        d.ascending is Some,
        d.include_template is Some,
        d.is_carousel is Some,
    ensures
        d.query_spec() == map![
            "limit"@ => decimal(d.limit.unwrap() as int),
            "offset"@ => decimal(d.offset.unwrap() as int),
            "order"@ => comma_joined(texts(d.order.unwrap()@)),
            "ascending"@ => bool_text(d.ascending.unwrap()),
            "include_template"@ => bool_text(d.include_template.unwrap()),
            "is_carousel"@ => bool_text(d.is_carousel.unwrap()),
        ],
{
    assert(d.query_spec() =~= map![
        "limit"@ => decimal(d.limit.unwrap() as int),
        "offset"@ => decimal(d.offset.unwrap() as int),
        "order"@ => comma_joined(texts(d.order.unwrap()@)),
        "ascending"@ => bool_text(d.ascending.unwrap()),
        "include_template"@ => bool_text(d.include_template.unwrap()),
        "is_carousel"@ => bool_text(d.is_carousel.unwrap()),
    ]);
}

/// A single-tag lookup without the template flag projects to no query parameter.
pub proof fn lemma_tag_id_dto_none_set(d: TagIdDTO)
    requires
        d.include_template is None,
    ensures
        d.query_spec() == Map::<Seq<char>, Seq<char>>::empty(),
{
}

/// A single-tag lookup with the template flag projects to that one entry.
pub proof fn lemma_tag_id_dto_all_set(d: TagIdDTO)
    requires
        d.include_template is Some,
    ensures
        d.query_spec() == map!["include_template"@ => bool_text(d.include_template.unwrap())],
{
    assert(d.query_spec() =~= map!["include_template"@ => bool_text(d.include_template.unwrap())]);
}

/// A related-tag query with no parameter set projects to no query parameter.
pub proof fn lemma_tag_relationship_dto_none_set(d: TagRelationshipDTO)
    requires
        d.omit_empty is None,
        d.status is None,
    ensures
        d.query_spec() == Map::<Seq<char>, Seq<char>>::empty(),
{
}

/// A related-tag query with both parameters set projects to exactly those two
/// entries, the status as its lowercase token.
pub proof fn lemma_tag_relationship_dto_all_set(d: TagRelationshipDTO)
    requires
        d.omit_empty is Some,
        d.status is Some,
    ensures
        d.query_spec() == map![
            "omit_empty"@ => bool_text(d.omit_empty.unwrap()),
            "status"@ => d.status.unwrap().token(),
        ],
{
    assert(d.query_spec() =~= map![
        "omit_empty"@ => bool_text(d.omit_empty.unwrap()),
        "status"@ => d.status.unwrap().token(),
    ]);
}

} // verus!
