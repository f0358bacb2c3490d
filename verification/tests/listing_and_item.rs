use pixiv_fetch::errors::PipelineError;
use pixiv_fetch::item::{derive_assets, folder_name, metadata_from_body};
use pixiv_fetch::listing::{resolve_from_body, resolve_item_ids};

#[test]
fn listing_scenario_resolves_union_of_categories() {
    let body = r#"{"body":{"illusts":{"1":{},"2":{}},"manga":{}}}"#;
    let ids = resolve_from_body(body).unwrap();
    assert_eq!(ids.len(), 2);
    assert!(ids.contains(&"1".to_string()));
    assert!(ids.contains(&"2".to_string()));
}

#[test]
fn listing_unions_both_categories() {
    let body = r#"{"body":{"illusts":{"10":{}},"manga":{"20":{},"30":{}}}}"#;
    let ids = resolve_from_body(body).unwrap();
    assert_eq!(ids.len(), 3);
    assert!(ids.contains(&"10".to_string()));
    assert!(ids.contains(&"20".to_string()));
    assert!(ids.contains(&"30".to_string()));
}

#[test]
fn listing_deduplicates_across_categories() {
    let a = vec!["1".to_string(), "2".to_string(), "2".to_string()];
    let b = vec!["2".to_string(), "3".to_string()];
    let ids = resolve_item_ids(&a, &b);
    assert_eq!(ids, vec!["1".to_string(), "2".to_string(), "3".to_string()]);
}

#[test]
fn listing_rejects_invalid_json() {
    assert_eq!(resolve_from_body("not json"), Err(PipelineError::Parse));
}

#[test]
fn listing_with_missing_categories_is_empty() {
    let ids = resolve_from_body(r#"{"body":{}}"#).unwrap();
    assert!(ids.is_empty());
}

#[test]
fn item_scenario_two_pages_all_folder() {
    let body = r#"{"body":{"title":"Foo","pageCount":2,"xRestrict":0,"urls":{"original":"http://x/abc_p0.png"}}}"#;
    let m = metadata_from_body(body).unwrap();
    assert_eq!(m.title, "Foo");
    assert_eq!(m.asset_count, 2);
    assert!(!m.restricted);
    assert_eq!(m.template, "http://x/abc_p0.png");
    let assets = derive_assets(&m).unwrap();
    assert_eq!(assets.len(), 2);
    assert_eq!(assets[0].source_url, "http://x/abc_p0.png");
    assert_eq!(assets[1].source_url, "http://x/abc_p1.png");
    assert_eq!(assets[0].dest_path, "downloads/All/Foo_abc_p0.png");
    assert_eq!(assets[1].dest_path, "downloads/All/Foo_abc_p1.png");
}

#[test]
fn item_defaults_apply_when_fields_are_absent() {
    let body = r#"{"body":{"urls":{"original":"http://x/a.png"}}}"#;
    let m = metadata_from_body(body).unwrap();
    assert_eq!(m.title, "untitled");
    assert_eq!(m.asset_count, 1);
    assert!(!m.restricted);
}

#[test]
fn item_restricted_goes_to_r18_folder() {
    let body = r#"{"body":{"title":"T","pageCount":1,"xRestrict":1,"urls":{"original":"http://x/b.png"}}}"#;
    let m = metadata_from_body(body).unwrap();
    assert!(m.restricted);
    let assets = derive_assets(&m).unwrap();
    assert_eq!(assets[0].dest_path, "downloads/R18/T_b.png");
    assert_eq!(folder_name(true), "R18");
    assert_eq!(folder_name(false), "All");
}

#[test]
fn item_restriction_code_other_than_one_is_unrestricted() {
    let body = r#"{"body":{"xRestrict":2,"urls":{"original":"http://x/c.png"}}}"#;
    let m = metadata_from_body(body).unwrap();
    assert!(!m.restricted);
}

#[test]
fn item_single_page_keeps_template_unchanged() {
    let body = r#"{"body":{"title":"S","pageCount":1,"urls":{"original":"http://x/s_p0.png"}}}"#;
    let m = metadata_from_body(body).unwrap();
    let assets = derive_assets(&m).unwrap();
    assert_eq!(assets.len(), 1);
    assert_eq!(assets[0].source_url, "http://x/s_p0.png");
}

#[test]
fn item_rejects_invalid_json() {
    assert_eq!(metadata_from_body("{{"), Err(PipelineError::Parse));
}

#[test]
fn item_rejects_missing_template() {
    let body = r#"{"body":{"title":"Foo","pageCount":2}}"#;
    assert_eq!(metadata_from_body(body), Err(PipelineError::Parse));
}

#[test]
fn item_rejects_nonpositive_page_count() {
    let zero = r#"{"body":{"pageCount":0,"urls":{"original":"http://x/a.png"}}}"#;
    assert_eq!(metadata_from_body(zero), Err(PipelineError::Parse));
    let negative = r#"{"body":{"pageCount":-3,"urls":{"original":"http://x/a.png"}}}"#;
    assert_eq!(metadata_from_body(negative), Err(PipelineError::Parse));
}

#[test]
fn derive_assets_rejects_url_without_filename() {
    let body = r#"{"body":{"pageCount":1,"urls":{"original":"http://x/dir/"}}}"#;
    let m = metadata_from_body(body).unwrap();
    assert_eq!(derive_assets(&m), Err(PipelineError::Parse));
}
