use ordered_datastore::decimal::to_decimal;
use ordered_datastore::params::{
    OrderedCreateEntryParams, OrderedEntryParams, OrderedIncrementEntryParams,
    OrderedListEntriesParams, OrderedUpdateEntryParams, PageSize,
};
use ordered_datastore::path::{build_url, entry_path, increment_path, UniverseId};
use ordered_datastore::query::{bool_to_text, list_query, update_query};
use ordered_datastore::request::{
    create_entry_request, delete_entry_request, get_entry_request, increment_entry_request,
    list_entries_request, update_entry_request, Method,
};
use ordered_datastore::body::{amount_body, value_body};

const ROOT: &str = "https://apis.roblox.com/ordered-data-stores/v1/universes/";

fn pairs(q: &[(String, String)]) -> Vec<(&str, &str)> {
    q.iter().map(|(a, b)| (a.as_str(), b.as_str())).collect()
}

fn list_params() -> OrderedListEntriesParams {
    OrderedListEntriesParams {
        api_key: "key".to_string(),
        universe_id: UniverseId(123),
        ordered_datastore_name: "scores".to_string(),
        scope: None,
        max_page_size: None,
        page_token: None,
        order_by: None,
        filter: None,
    }
}

fn entry_params(id: &str, scope: Option<&str>) -> OrderedEntryParams {
    OrderedEntryParams {
        api_key: "key".to_string(),
        universe_id: UniverseId(123),
        ordered_datastore_name: "scores".to_string(),
        scope: scope.map(|s| s.to_string()),
        id: id.to_string(),
    }
}

#[test]
fn decimal_renders_edges() {
    assert_eq!(to_decimal(0), "0");
    assert_eq!(to_decimal(7), "7");
    assert_eq!(to_decimal(10), "10");
    assert_eq!(to_decimal(1234567890), "1234567890");
    assert_eq!(to_decimal(u64::MAX), "18446744073709551615");
}

#[test]
fn url_without_scope_uses_global() {
    let url = build_url("", UniverseId(123), None);
    assert_eq!(url, format!("{ROOT}123/orderedDataStores/scopes/global"));
    assert!(url.contains("scopes/global"));
}

#[test]
fn url_with_scope_uses_it() {
    let url = build_url("/entries", UniverseId(98765), Some("players"));
    assert_eq!(url, format!("{ROOT}98765/orderedDataStores/scopes/players/entries"));
    assert!(url.contains("scopes/players"));
    assert!(!url.contains("global"));
}

#[test]
fn entry_endpoints() {
    assert_eq!(entry_path("u1"), "/entries/u1");
    assert_eq!(increment_path("u1"), "/entries/u1:increment");
}

#[test]
fn list_query_all_absent_is_empty() {
    let q = list_query(&list_params());
    assert!(q.is_empty());
}

#[test]
fn list_query_all_present_once_each() {
    let mut p = list_params();
    p.max_page_size = Some(PageSize(25));
    p.page_token = Some("tok".to_string());
    p.order_by = Some("desc".to_string());
    p.filter = Some("entry >= 10".to_string());
    let q = list_query(&p);
    assert_eq!(
        pairs(&q),
        vec![
            ("max_page_size", "25"),
            ("page_token", "tok"),
            ("order_by", "desc"),
            ("filter", "entry >= 10"),
        ]
    );
}

#[test]
fn list_query_some_present() {
    let mut p = list_params();
    p.order_by = Some("desc".to_string());
    let q = list_query(&p);
    assert_eq!(pairs(&q), vec![("order_by", "desc")]);
}

#[test]
fn list_request_threads_page_token_verbatim() {
    let mut p = list_params();
    p.page_token = Some("AbC/+=%20opaque".to_string());
    let r = list_entries_request(&p);
    assert_eq!(r.method, Method::Get);
    assert_eq!(r.url, format!("{ROOT}123/orderedDataStores/scopes/global/entries"));
    assert_eq!(r.api_key, "key");
    assert_eq!(pairs(&r.query), vec![("page_token", "AbC/+=%20opaque")]);
    assert_eq!(r.body, None);
}

#[test]
fn create_request_body_and_query() {
    let p = OrderedCreateEntryParams {
        api_key: "key".to_string(),
        universe_id: UniverseId(123),
        ordered_datastore_name: "scores".to_string(),
        scope: None,
        id: "u1".to_string(),
        value: 42,
    };
    let r = create_entry_request(&p);
    assert_eq!(r.method, Method::Post);
    assert_eq!(r.url, format!("{ROOT}123/orderedDataStores/scopes/global/entries"));
    assert_eq!(pairs(&r.query), vec![("id", "u1")]);
    assert_eq!(r.body.as_deref(), Some("{\"value\":42}"));
}

#[test]
fn increment_request_body_and_path() {
    let p = OrderedIncrementEntryParams {
        api_key: "key".to_string(),
        universe_id: UniverseId(123),
        ordered_datastore_name: "scores".to_string(),
        scope: Some("players".to_string()),
        id: "u1".to_string(),
        increment: -5,
    };
    let r = increment_entry_request(&p);
    assert_eq!(r.method, Method::Patch);
    assert_eq!(r.url, format!("{ROOT}123/orderedDataStores/scopes/players/entries/u1:increment"));
    assert!(r.url.ends_with(":increment"));
    assert!(r.query.is_empty());
    assert_eq!(r.body.as_deref(), Some("{\"amount\":-5}"));
}

#[test]
fn update_request_with_allow_missing() {
    let p = OrderedUpdateEntryParams {
        api_key: "key".to_string(),
        universe_id: UniverseId(5),
        ordered_datastore_name: "scores".to_string(),
        scope: None,
        id: "u2".to_string(),
        value: 7,
        allow_missing: Some(true),
    };
    let r = update_entry_request(&p);
    assert_eq!(r.method, Method::Patch);
    assert_eq!(r.url, format!("{ROOT}5/orderedDataStores/scopes/global/entries/u2"));
    assert_eq!(pairs(&r.query), vec![("allow_missing", "true")]);
    assert_eq!(r.body.as_deref(), Some("{\"value\":7}"));
}

#[test]
fn update_query_absent_and_false() {
    let mut p = OrderedUpdateEntryParams {
        api_key: "key".to_string(),
        universe_id: UniverseId(5),
        ordered_datastore_name: "scores".to_string(),
        scope: None,
        id: "u2".to_string(),
        value: 7,
        allow_missing: None,
    };
    assert!(update_query(&p).is_empty());
    p.allow_missing = Some(false);
    assert_eq!(pairs(&update_query(&p)), vec![("allow_missing", "false")]);
}

#[test]
fn bool_text_is_canonical() {
    assert_eq!(bool_to_text(true), "true");
    assert_eq!(bool_to_text(false), "false");
}

#[test]
fn get_and_delete_requests() {
    let p = entry_params("u1", Some("players"));
    let g = get_entry_request(&p);
    assert_eq!(g.method, Method::Get);
    assert_eq!(g.url, format!("{ROOT}123/orderedDataStores/scopes/players/entries/u1"));
    assert!(g.query.is_empty());
    assert_eq!(g.body, None);
    let d = delete_entry_request(&p);
    assert_eq!(d.method, Method::Delete);
    assert_eq!(d.url, g.url);
    assert!(d.query.is_empty());
    assert_eq!(d.body, None);
}

#[test]
fn int_bodies_at_the_extremes() {
    assert_eq!(value_body(0), "{\"value\":0}");
    assert_eq!(value_body(i64::MAX), "{\"value\":9223372036854775807}");
    assert_eq!(amount_body(i64::MIN), "{\"amount\":-9223372036854775808}");
}

#[test]
fn create_body_is_exact_beyond_float_precision() {
    assert_eq!(value_body(9007199254740993), "{\"value\":9007199254740993}");
}
