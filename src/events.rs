//! Events: their request parameters, records and requests.
use vstd::prelude::*;
use crate::query::{with_entry, QueryMap, ToQueryParams};
use crate::text::{
    bool_text, boolean_text, digits, opt_bool, opt_u32_text, same_text, unsigned_text,
};
use crate::transport::{concat3, ApiRequest, HttpMethod};

verus! {

/// One query field of an event listing, with its value if present.
#[derive(Clone, Copy, Debug, PartialEq, Eq)]
pub enum EventField {
    Active(Option<bool>),
    Closed(Option<bool>),
    Limit(Option<u32>),
    IncludeChat(Option<bool>),
    IncludeTemplate(Option<bool>),
}

impl EventField {
    /// The text of the field's value, if present.
    pub open spec fn value_text(&self) -> Option<Seq<char>> {
        match self {
            EventField::Active(v) => opt_bool(*v),
            EventField::Closed(v) => opt_bool(*v),
            EventField::Limit(v) => opt_u32_text(*v),
            EventField::IncludeChat(v) => opt_bool(*v),
            EventField::IncludeTemplate(v) => opt_bool(*v),
        }
    }

    /// The text of the field's value; empty where the value is absent.
    pub fn as_string(&self) -> (r: String)
        ensures
            r@ == match self.value_text() {
                Some(t) => t,
                None => Seq::<char>::empty(),
            },
    {
        match self {
            EventField::Active(value) => {
                match value {
                    Some(b) => boolean_text(*b),
                    None => String::new(),
                }
            },
            EventField::Closed(value) => {
                match value {
                    Some(b) => boolean_text(*b),
                    None => String::new(),
                }
            },
            EventField::Limit(value) => {
                match value {
                    Some(n) => unsigned_text(*n as u128),
                    None => String::new(),
                }
            },
            EventField::IncludeChat(value) => {
                match value {
                    Some(b) => boolean_text(*b),
                    None => String::new(),
                }
            },
            EventField::IncludeTemplate(value) => {
                match value {
                    Some(b) => boolean_text(*b),
                    None => String::new(),
                }
            },
        }
    }

    /// Whether the field belongs in the query: exactly when its value is present.
    pub fn is_acceptable_query(&self) -> (r: bool)
        ensures
            r == self.value_text() is Some,
    {
        match self {
            EventField::Active(value) => value.is_some(),
            EventField::Closed(value) => value.is_some(),
            EventField::Limit(value) => value.is_some(),
            EventField::IncludeChat(value) => value.is_some(),
            EventField::IncludeTemplate(value) => value.is_some(),
        }
    }
}

/// Parameters of the event queries.
#[derive(Clone, Debug, Default, PartialEq, Eq)]
pub struct EventDTO {
    pub active: Option<bool>,
    pub closed: Option<bool>,
    pub limit: Option<u32>,
    pub include_chat: Option<bool>,
    pub include_template: Option<bool>,
}

/// The wire name of the `i`-th event query field.
pub open spec fn event_field_name(i: int) -> Seq<char> {
    if i == 0 {
        "active"@
    } else if i == 1 {
        "closed"@
    } else if i == 2 {
        "limit"@
    } else if i == 3 {
        "include_chat"@
    } else {
        "include_template"@
    }
}

/// The number of event query fields.
pub const EVENT_FIELD_COUNT: usize = 5;

fn event_field_name_at(i: usize) -> (r: &'static str)
    requires
        i < EVENT_FIELD_COUNT,
    ensures
        r@ == event_field_name(i as int),
{
    if i == 0 {
        "active"
    } else if i == 1 {
        "closed"
    } else if i == 2 {
        "limit"
    } else if i == 3 {
        "include_chat"
    } else {
        "include_template"
    }
}

impl EventDTO {
    /// The field of the given wire name, if there is one.
    pub open spec fn field_spec(&self, name: Seq<char>) -> Option<EventField> {
        if name == "active"@ {
            Some(EventField::Active(self.active))
        } else if name == "closed"@ {
            Some(EventField::Closed(self.closed))
        } else if name == "limit"@ {
            Some(EventField::Limit(self.limit))
        } else if name == "include_chat"@ {
            Some(EventField::IncludeChat(self.include_chat))
        } else if name == "include_template"@ {
            Some(EventField::IncludeTemplate(self.include_template))
        } else {
            None
        }
    }

    /// The field of the given wire name, or `None` for a name that is no field.
    pub fn get(&self, field: &str) -> (r: Option<EventField>)
        ensures
            r == self.field_spec(field@),
    {
        if same_text(field, "active") {
            Some(EventField::Active(self.active))
        } else if same_text(field, "closed") {
            Some(EventField::Closed(self.closed))
        } else if same_text(field, "limit") {
            Some(EventField::Limit(self.limit))
        } else if same_text(field, "include_chat") {
            Some(EventField::IncludeChat(self.include_chat))
        } else if same_text(field, "include_template") {
            Some(EventField::IncludeTemplate(self.include_template))
        } else {
            None
        }
    }

    /// The parameters of the first `i` fields, in field order.
    pub open spec fn query_prefix(&self, i: nat) -> Map<Seq<char>, Seq<char>>
        decreases i,
    {
        if i == 0 {
            Map::empty()
        } else {
            let name = event_field_name(i - 1);
            with_entry(self.query_prefix((i - 1) as nat), name, self.field_spec(name).unwrap().value_text())
        }
    }
}

proof fn lemma_event_field_names(d: EventDTO, i: int)
    requires
        0 <= i < EVENT_FIELD_COUNT,
    ensures
        d.field_spec(event_field_name(i)) is Some,
{
    reveal_strlit("active");
    reveal_strlit("closed");
    reveal_strlit("limit");
    reveal_strlit("include_chat");
    reveal_strlit("include_template");
}

/// Taking every field in order gives the whole projection.
proof fn lemma_event_query_prefix_complete(d: EventDTO)
    ensures
    d.query_prefix(EVENT_FIELD_COUNT as nat) == d.query_spec(),
{
    reveal_strlit("active");
    reveal_strlit("closed");
    reveal_strlit("limit");
    reveal_strlit("include_chat");
    reveal_strlit("include_template");
    assert("active"@[0] != "closed"@[0]);
    assert("limit"@.len() != "active"@.len() && "limit"@.len() != "closed"@.len());
    assert("include_chat"@.len() != "active"@.len() && "include_chat"@.len() != "closed"@.len());
    assert("include_template"@.len() != "include_chat"@.len());
    let m0 = Map::<Seq<char>, Seq<char>>::empty();
    let m1 = with_entry(m0, "active"@, opt_bool(d.active));
    let m2 = with_entry(m1, "closed"@, opt_bool(d.closed));
    let m3 = with_entry(m2, "limit"@, opt_u32_text(d.limit));
    let m4 = with_entry(m3, "include_chat"@, opt_bool(d.include_chat));
    assert(d.query_prefix(0) == m0);
    assert(d.query_prefix(1) == m1);
    assert(d.query_prefix(2) == m2);
    assert(d.query_prefix(3) == m3);
    assert(d.query_prefix(4) == m4);
}

impl ToQueryParams for EventDTO {
    open spec fn query_spec(&self) -> Map<Seq<char>, Seq<char>> {
        let m = Map::empty();
        let m = with_entry(m, "active"@, opt_bool(self.active));
        let m = with_entry(m, "closed"@, opt_bool(self.closed));
        let m = with_entry(m, "limit"@, opt_u32_text(self.limit));
        let m = with_entry(m, "include_chat"@, opt_bool(self.include_chat));
        with_entry(m, "include_template"@, opt_bool(self.include_template))
    }

    fn as_query_params(&self) -> (r: QueryMap) {
        let mut q = QueryMap::new();
        let mut i: usize = 0;
        while i < EVENT_FIELD_COUNT
            invariant
                0 <= i <= EVENT_FIELD_COUNT,
                q.wf(),
                q@ == self.query_prefix(i as nat),
            decreases EVENT_FIELD_COUNT - i,
        {
            let field = event_field_name_at(i);
            proof {
                lemma_event_field_names(*self, i as int);
            }
            let event_field = self.get(field);
            if let Some(f) = event_field {
                if f.is_acceptable_query() {
                    q.insert(String::from_str(field), f.as_string());
                }
            }
            i = i + 1;
        }
        proof {
            lemma_event_query_prefix_complete(*self);
        }
        q
    }
}

/// A tag attached to an event.
#[derive(Clone, Debug, PartialEq, Eq)]
pub struct EventTag {}

/// The request for the event listing: `GET /events`.
pub fn get_events_request(data: &EventDTO) -> (r: ApiRequest)
    ensures
        r.is(HttpMethod::Get, "/events"@, Some(data.query_spec())),
{
    ApiRequest::get(String::from_str("/events"), Some(data.as_query_params()))
}

/// The request for one event: `GET /events/{id}`.
pub fn get_event_request(id: &str, data: &EventDTO) -> (r: ApiRequest)
    ensures
        r.is(HttpMethod::Get, "/events/"@ + id@, Some(data.query_spec())),
{
    proof {
        reveal_strlit("");
    }
    ApiRequest::get(concat3("/events/", id, ""), Some(data.as_query_params()))
}

/// The request for the tags of one event: `GET /events/{id}/tags`.
pub fn get_event_tags_request(id: &str) -> (r: ApiRequest)
    ensures
        r.is(HttpMethod::Get, "/events/"@ + id@ + "/tags"@, None),
{
    ApiRequest::get(concat3("/events/", id, "/tags"), None)
}

/// The request for one event by its slug: `GET /events/slug/{slug}`.
pub fn get_event_by_slug_request(slug: &str) -> (r: ApiRequest)
    ensures
        r.is(HttpMethod::Get, "/events/slug/"@ + slug@, None),
{
    proof {
        reveal_strlit("");
    }
    ApiRequest::get(concat3("/events/slug/", slug, ""), None)
}

/// An event query with no parameter set projects to no query parameter.
pub proof fn lemma_event_dto_none_set(d: EventDTO)
    requires
        d.active is None,
        d.closed is None,
        d.limit is None,
        d.include_chat is None,
        d.include_template is None,
    ensures
        d.query_spec() == Map::<Seq<char>, Seq<char>>::empty(),
{
}

/// An event query with every parameter set projects to exactly one entry per
/// field, under its wire name, with its text.
pub proof fn lemma_event_dto_all_set(d: EventDTO)
    requires
        d.active is Some,
        d.closed is Some,
        d.limit is Some,
        d.include_chat is Some,
        d.include_template is Some,
    ensures
        d.query_spec() == map![
            "active"@ => bool_text(d.active.unwrap()),
            "closed"@ => bool_text(d.closed.unwrap()),
            "limit"@ => digits(d.limit.unwrap() as nat),
            "include_chat"@ => bool_text(d.include_chat.unwrap()),
            "include_template"@ => bool_text(d.include_template.unwrap()),
        ],
{
    assert(d.query_spec() =~= map![
        "active"@ => bool_text(d.active.unwrap()),
        "closed"@ => bool_text(d.closed.unwrap()),
        "limit"@ => digits(d.limit.unwrap() as nat),
        "include_chat"@ => bool_text(d.include_chat.unwrap()),
        "include_template"@ => bool_text(d.include_template.unwrap()),
    ]);
}

} // verus!
