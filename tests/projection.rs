use poly_rc::events::{
    get_event_by_slug_request, get_event_request, get_event_tags_request, get_events_request,
    EventDTO, EventField,
};
use poly_rc::orderbook::{get_orderbook_summary_request, post_orderbook_summaries_request};
use poly_rc::pricing::{
    get_market_price_request, get_midpoint_price_request, get_price_history_request,
    post_bid_ask_spreads_request, post_market_prices_request, MarketPriceDTO, PriceHistoryDTO,
    PriceInterval,
};
use poly_rc::sports::{
    get_sports_market_types_request, get_sports_metadata_request, get_sports_teams_request,
    SportsTeamsDTO,
};
use poly_rc::spreads::{get_spread_request, SpreadBidAskDTO};
use poly_rc::text::{join_with_commas, signed_text, unsigned_text};
use poly_rc::{HttpMethod, QueryMap, Side, ToQueryParams, TokenId};

#[test]
fn query_map_insert_replaces_value() {
    let mut q = QueryMap::new();
    assert!(q.is_empty());
    q.insert("a".to_string(), "1".to_string());
    q.insert("b".to_string(), "2".to_string());
    q.insert("a".to_string(), "3".to_string());
    assert_eq!(q.len(), 2);
    assert_eq!(q.get("a"), Some(&"3".to_string()));
    assert_eq!(q.get("b"), Some(&"2".to_string()));
    assert_eq!(q.get("c"), None);
    assert_eq!(q.pairs().len(), 2);
}

#[test]
fn decimal_text_of_integers() {
    assert_eq!(unsigned_text(0), "0");
    assert_eq!(unsigned_text(10), "10");
    assert_eq!(unsigned_text(u128::MAX), u128::MAX.to_string());
    assert_eq!(signed_text(-5), "-5");
    assert_eq!(signed_text(i64::MIN), i64::MIN.to_string());
    assert_eq!(signed_text(1234567), "1234567");
}

#[test]
fn join_keeps_order() {
    let items = vec!["name".to_string(), "id".to_string()];
    assert_eq!(join_with_commas(&items), "name,id");
    assert_eq!(join_with_commas(&vec![]), "");
    assert_eq!(join_with_commas(&vec!["x".to_string()]), "x");
}

#[test]
fn event_dto_none_set_projects_to_nothing() {
    assert!(EventDTO::default().as_query_params().is_empty());
}

#[test]
fn event_dto_all_set_projects_each_field() {
    let dto = EventDTO {
        active: Some(false),
        closed: Some(true),
        limit: Some(5),
        include_chat: Some(true),
        include_template: Some(false),
    };
    let p = dto.as_query_params();
    assert_eq!(p.len(), 5);
    assert_eq!(p.get("active"), Some(&"false".to_string()));
    assert_eq!(p.get("closed"), Some(&"true".to_string()));
    assert_eq!(p.get("limit"), Some(&"5".to_string()));
    assert_eq!(p.get("include_chat"), Some(&"true".to_string()));
    assert_eq!(p.get("include_template"), Some(&"false".to_string()));
}

#[test]
fn event_dto_false_is_kept_apart_from_absent() {
    let dto = EventDTO {
        active: Some(false),
        ..Default::default()
    };
    let p = dto.as_query_params();
    assert_eq!(p.len(), 1);
    assert_eq!(p.get("active"), Some(&"false".to_string()));
}

#[test]
fn event_fields_by_name() {
    let dto = EventDTO {
        limit: Some(7),
        ..Default::default()
    };
    assert_eq!(dto.get("limit"), Some(EventField::Limit(Some(7))));
    assert_eq!(dto.get("active"), Some(EventField::Active(None)));
    assert_eq!(dto.get("includeChat"), None);
    let f = dto.get("limit").unwrap();
    assert!(f.is_acceptable_query());
    assert_eq!(f.as_string(), "7");
    let g = dto.get("closed").unwrap();
    assert!(!g.is_acceptable_query());
    assert_eq!(g.as_string(), "");
}

#[test]
fn event_requests_build_paths() {
    let dto = EventDTO {
        closed: Some(true),
        ..Default::default()
    };
    let r = get_events_request(&dto);
    assert_eq!(r.path, "/events");
    assert_eq!(r.query.as_ref().unwrap().get("closed"), Some(&"true".to_string()));
    assert_eq!(get_event_request("2909", &dto).path, "/events/2909");
    let r = get_event_tags_request("2909");
    assert_eq!(r.path, "/events/2909/tags");
    assert!(r.query.is_none());
    assert_eq!(get_event_by_slug_request("abc").path, "/events/slug/abc");
}

#[test]
fn sports_dto_none_set_projects_to_nothing() {
    assert!(SportsTeamsDTO::default().as_query_params().is_empty());
}

#[test]
fn sports_dto_all_set_projects_each_field() {
    let dto = SportsTeamsDTO {
        limit: Some(1),
        offset: Some(0),
        order: Some("name".to_string()),
        ascending: Some(true),
        league: Some(vec!["nfl".to_string(), "nba".to_string()]),
        name: Some(vec!["a".to_string()]),
        abbreviation: Some(vec!["x".to_string(), "y".to_string()]),
    };
    let p = dto.as_query_params();
    assert_eq!(p.len(), 7);
    assert_eq!(p.get("limit"), Some(&"1".to_string()));
    assert_eq!(p.get("offset"), Some(&"0".to_string()));
    assert_eq!(p.get("order"), Some(&"name".to_string()));
    assert_eq!(p.get("ascending"), Some(&"true".to_string()));
    assert_eq!(p.get("league"), Some(&"nfl,nba".to_string()));
    assert_eq!(p.get("name"), Some(&"a".to_string()));
    assert_eq!(p.get("abbreviation"), Some(&"x,y".to_string()));
    let r = get_sports_teams_request(&dto);
    assert_eq!(r.method, HttpMethod::Get);
    assert_eq!(r.path, "/teams");
    assert_eq!(get_sports_metadata_request().path, "/sports");
    assert_eq!(get_sports_market_types_request().path, "/sports/market-types");
}

#[test]
fn price_history_projection() {
    let dto = PriceHistoryDTO {
        market: "m".to_string(),
        start_ts: Some(100),
        end_ts: Some(110),
        interval: Some(PriceInterval::Hour6),
        fidelity: Some(3),
    };
    let p = dto.as_query_params();
    assert_eq!(p.len(), 5);
    assert_eq!(p.get("market"), Some(&"m".to_string()));
    assert_eq!(p.get("startTs"), Some(&"100".to_string()));
    assert_eq!(p.get("endTs"), Some(&"110".to_string()));
    assert_eq!(p.get("interval"), Some(&"6h".to_string()));
    assert_eq!(p.get("fidelity"), Some(&"3".to_string()));

    let bare = PriceHistoryDTO {
        market: "m".to_string(),
        ..Default::default()
    };
    let p = bare.as_query_params();
    assert_eq!(p.len(), 1);
    assert_eq!(p.get("market"), Some(&"m".to_string()));
    assert_eq!(get_price_history_request(&bare).path, "/prices-history");
}

#[test]
fn interval_and_side_tokens() {
    assert_eq!(PriceInterval::Minute1.as_str(), "1m");
    assert_eq!(PriceInterval::Hour1.as_str(), "1h");
    assert_eq!(PriceInterval::Hour6.as_str(), "6h");
    assert_eq!(PriceInterval::Week1.as_str(), "1w");
    assert_eq!(PriceInterval::Day1.as_str(), "1d");
    assert_eq!(PriceInterval::Max.as_str(), "max");
    assert_eq!(Side::BUY.as_str(), "BUY");
    assert_eq!(Side::SELL.as_str(), "SELL");
}

#[test]
fn spread_projection() {
    let with_side = SpreadBidAskDTO {
        token_id: "t".to_string(),
        side: Some(Side::SELL),
    };
    let p = with_side.as_query_params();
    assert_eq!(p.len(), 2);
    assert_eq!(p.get("side"), Some(&"SELL".to_string()));
    let without = SpreadBidAskDTO {
        token_id: "t".to_string(),
        side: None,
    };
    let p = without.as_query_params();
    assert_eq!(p.len(), 1);
    assert_eq!(p.get("token_id"), Some(&"t".to_string()));
    assert_eq!(get_spread_request(&without).path, "/spread");
}

#[test]
fn orderbook_request_for_token_one() {
    let r = get_orderbook_summary_request(&TokenId {
        token_id: String::from("1"),
    });
    assert_eq!(r.method, HttpMethod::Get);
    assert_eq!(r.path, "/book");
    let q = r.query.as_ref().unwrap();
    assert_eq!(q.len(), 1);
    assert_eq!(q.get("token_id"), Some(&"1".to_string()));
}

#[test]
fn orderbook_batch_request_is_post() {
    let r = post_orderbook_summaries_request();
    assert_eq!(r.method, HttpMethod::Post);
    assert_eq!(r.path, "/books");
    assert!(r.query.is_none());
}

#[test]
fn market_price_request_for_buy() {
    let r = get_market_price_request(&MarketPriceDTO {
        token_id: "X".to_string(),
        side: Side::BUY,
    });
    assert_eq!(r.method, HttpMethod::Get);
    assert_eq!(r.path, "/price");
    let q = r.query.as_ref().unwrap();
    assert_eq!(q.len(), 2);
    assert_eq!(q.get("token_id"), Some(&"X".to_string()));
    assert_eq!(q.get("side"), Some(&"BUY".to_string()));
}

#[test]
fn pricing_requests_build_paths() {
    let token = TokenId {
        token_id: "t".to_string(),
    };
    let r = get_midpoint_price_request(&token);
    assert_eq!(r.path, "/midpoint");
    assert_eq!(r.query.as_ref().unwrap().get("token_id"), Some(&"t".to_string()));
    assert_eq!(post_market_prices_request().path, "/prices");
    assert_eq!(post_market_prices_request().method, HttpMethod::Post);
    assert_eq!(post_bid_ask_spreads_request().path, "/spreads");
}

#[test]
fn interval_tokens_read_back() {
    for i in [
        PriceInterval::Minute1,
        PriceInterval::Hour1,
        PriceInterval::Hour6,
        PriceInterval::Week1,
        PriceInterval::Day1,
        PriceInterval::Max,
    ] {
        assert_eq!(PriceInterval::parse(i.as_str()), Some(i));
    }
    assert_eq!(PriceInterval::parse("2h"), None);
    assert_eq!(PriceInterval::parse("MAX"), None);
    assert_eq!(PriceInterval::parse(""), None);
}

#[test]
fn side_text() {
    assert_eq!(Side::BUY.to_string(), "BUY");
    assert_eq!(Side::SELL.to_string(), "SELL");
}
