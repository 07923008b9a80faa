use poly_rc::tags::{
    get_related_tags_by_slug_request, get_tag_by_id_request, get_tag_by_slug_request,
    get_tags_related_to_id_request, get_tags_related_to_slug_request,
    get_tags_relationship_request, get_tags_request, TagDTO, TagIdDTO, TagRelationshipDTO,
    TagSlugDTO, TagStatus,
};
use poly_rc::{HttpMethod, ToQueryParams};

#[test]
fn test_tag_dto_query_params() {
    let dto = TagDTO {
        limit: Some(10),
        offset: Some(5),
        order: Some(vec![String::from("name"), String::from("id")]),
        ascending: Some(true),
        include_template: Some(true),
        is_carousel: Some(false),
    };

    let params = dto.as_query_params();

    assert_eq!(params.get("limit"), Some(&"10".to_string()));
    assert_eq!(params.get("offset"), Some(&"5".to_string()));
    assert_eq!(params.get("order"), Some(&"name,id".to_string()));
    assert_eq!(params.get("ascending"), Some(&"true".to_string()));
    assert_eq!(params.get("include_template"), Some(&"true".to_string()));
    assert_eq!(params.get("is_carousel"), Some(&"false".to_string()));
}

#[test]
fn test_tag_dto_query_params_empty() {
    let dto = TagDTO {
        limit: None,
        offset: None,
        order: None,
        ascending: None,
        include_template: None,
        is_carousel: None,
    };

    let params = dto.as_query_params();

    assert!(params.is_empty());
}

#[test]
fn test_tag_dto_query_params_single_order() {
    let dto = TagDTO {
        limit: None,
        offset: None,
        order: Some(vec![String::from("name")]),
        ascending: None,
        include_template: None,
        is_carousel: None,
    };

    let params = dto.as_query_params();

    assert_eq!(params.get("order"), Some(&"name".to_string()));
    assert_eq!(params.len(), 1);
}

#[test]
fn test_tag_id_dto_query_params() {
    let dto = TagIdDTO {
        include_template: Some(true),
    };

    let params = dto.as_query_params();

    assert_eq!(params.get("include_template"), Some(&"true".to_string()));
    assert_eq!(params.len(), 1);
}

#[test]
fn test_tag_id_dto_query_params_none() {
    let dto = TagIdDTO {
        include_template: None,
    };

    let params = dto.as_query_params();

    assert!(params.is_empty());
}

#[test]
fn test_tag_relationship_dto_query_params() {
    let dto = TagRelationshipDTO {
        omit_empty: Some(true),
        status: Some(TagStatus::Active),
    };

    let params = dto.as_query_params();

    assert_eq!(params.get("omit_empty"), Some(&"true".to_string()));
    assert_eq!(params.get("status"), Some(&"active".to_string()));
    assert_eq!(params.len(), 2);
}

#[test]
fn test_tag_relationship_dto_query_params_all_status() {
    let dto = TagRelationshipDTO {
        omit_empty: None,
        status: Some(TagStatus::All),
    };

    let params = dto.as_query_params();

    assert_eq!(params.get("status"), Some(&"all".to_string()));
    assert_eq!(params.len(), 1);
}

#[test]
fn test_tag_status_as_str() {
    assert_eq!(TagStatus::Active.as_str(), "active");
    assert_eq!(TagStatus::Closed.as_str(), "closed");
    assert_eq!(TagStatus::All.as_str(), "all");
}

#[test]
fn test_tag_status_display() {
    assert_eq!(TagStatus::Active.to_string(), "active");
    assert_eq!(TagStatus::Closed.to_string(), "closed");
    assert_eq!(TagStatus::All.to_string(), "all");
}

#[test]
fn tag_dto_negative_limit_is_signed_decimal() {
    let dto = TagDTO {
        limit: Some(-32768),
        offset: Some(0),
        ..Default::default()
    };
    let params = dto.as_query_params();
    assert_eq!(params.get("limit"), Some(&"-32768".to_string()));
    assert_eq!(params.get("offset"), Some(&"0".to_string()));
    assert_eq!(params.len(), 2);
}

#[test]
fn tag_dto_empty_order_list_is_kept_as_empty_text() {
    let dto = TagDTO {
        order: Some(vec![]),
        ..Default::default()
    };
    let params = dto.as_query_params();
    assert_eq!(params.get("order"), Some(&"".to_string()));
    assert_eq!(params.len(), 1);
}

#[test]
fn tag_dto_order_keeps_input_order() {
    let dto = TagDTO {
        order: Some(vec![
            String::from("id"),
            String::from("name"),
            String::from("rank"),
        ]),
        ..Default::default()
    };
    let params = dto.as_query_params();
    assert_eq!(params.get("order"), Some(&"id,name,rank".to_string()));
}

#[test]
fn tag_requests_build_paths() {
    let all = TagDTO::default();
    let r = get_tags_request(&all);
    assert_eq!(r.method, HttpMethod::Get);
    assert_eq!(r.path, "/tags");
    assert!(r.query.as_ref().unwrap().is_empty());

    let r = get_tag_by_id_request(42, &TagIdDTO { include_template: Some(false) });
    assert_eq!(r.path, "/tags/42");
    assert_eq!(
        r.query.as_ref().unwrap().get("include_template"),
        Some(&"false".to_string())
    );

    let r = get_tag_by_slug_request("test-slug", &TagSlugDTO { include_template: None });
    assert_eq!(r.path, "/tags/slug/test-slug");

    let rel = TagRelationshipDTO {
        omit_empty: Some(true),
        status: Some(TagStatus::Closed),
    };
    assert_eq!(get_tags_relationship_request(-7, &rel).path, "/tags/-7/related-tags");
    assert_eq!(
        get_related_tags_by_slug_request("s", &rel).path,
        "/tags/slug/s/related-tags"
    );
    assert_eq!(
        get_tags_related_to_id_request(1, &rel).path,
        "/tags/1/related-tags/tags"
    );
    let r = get_tags_related_to_slug_request("s", &rel);
    assert_eq!(r.path, "/tags/slug/s/related-tags/tags");
    assert_eq!(r.query.as_ref().unwrap().get("status"), Some(&"closed".to_string()));
}
