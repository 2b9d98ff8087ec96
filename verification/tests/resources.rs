use klozeo::filters::city;
use klozeo::resources::leads::{self, LeadPager};
use klozeo::resources::{notes, scoring, webhooks, ApiRequest, Method};
use klozeo::{ExportFormat, ExportOptions, ListOptions, SortField, SortOrder};

const BASE: &str = "https://app.klozeo.com/api/v1";

fn check(r: ApiRequest, method: Method, url: &str) {
    assert_eq!(r.method, method);
    assert_eq!(r.url, url);
    assert!(r.query.is_empty());
}

#[test]
fn lead_requests() {
    check(leads::create_request(BASE), Method::Post, "https://app.klozeo.com/api/v1/leads");
    check(leads::get_request(BASE, "cl_1"), Method::Get, "https://app.klozeo.com/api/v1/leads/cl_1");
    check(leads::update_request(BASE, "cl_1"), Method::Put, "https://app.klozeo.com/api/v1/leads/cl_1");
    check(leads::delete_request(BASE, "cl_1"), Method::Delete, "https://app.klozeo.com/api/v1/leads/cl_1");
    check(leads::batch_create_request(BASE), Method::Post, "https://app.klozeo.com/api/v1/leads/batch");
    check(leads::batch_update_request(BASE), Method::Put, "https://app.klozeo.com/api/v1/leads/batch");
    check(leads::batch_delete_request(BASE), Method::Delete, "https://app.klozeo.com/api/v1/leads/batch");
    assert_eq!(leads::url("https://x", "/y"), "https://x/leads/y");
}

#[test]
fn list_and_export_requests() {
    let opts = ListOptions::builder().filter(city().eq("Berlin")).limit(20).build();
    let r = leads::list_request(BASE, &opts);
    assert_eq!(r.method, Method::Get);
    assert_eq!(r.url, "https://app.klozeo.com/api/v1/leads");
    assert_eq!(
        r.query,
        vec![("filter".to_string(), "and.eq.city.Berlin".to_string()), ("limit".to_string(), "20".to_string())]
    );
    let e = ExportOptions::builder().sort(SortField::Name, SortOrder::Asc).build();
    let r = leads::export_request(BASE, ExportFormat::Csv, Some(&e));
    assert_eq!(r.method, Method::Get);
    assert_eq!(r.url, "https://app.klozeo.com/api/v1/leads/export");
    assert_eq!(r.query.len(), 3);
    assert_eq!(r.query[0], ("format".to_string(), "csv".to_string()));
}

#[test]
fn note_requests() {
    check(notes::create_request(BASE, "cl_1"), Method::Post, "https://app.klozeo.com/api/v1/leads/cl_1/notes");
    check(notes::list_request(BASE, "cl_1"), Method::Get, "https://app.klozeo.com/api/v1/leads/cl_1/notes");
    check(notes::update_request(BASE, "note_1"), Method::Put, "https://app.klozeo.com/api/v1/notes/note_1");
    check(notes::delete_request(BASE, "note_1"), Method::Delete, "https://app.klozeo.com/api/v1/notes/note_1");
}

#[test]
fn scoring_requests() {
    check(scoring::list_rules_request(BASE), Method::Get, "https://app.klozeo.com/api/v1/scoring-rules");
    check(scoring::create_rule_request(BASE), Method::Post, "https://app.klozeo.com/api/v1/scoring-rules");
    check(scoring::get_rule_request(BASE, "r1"), Method::Get, "https://app.klozeo.com/api/v1/scoring-rules/r1");
    check(scoring::update_rule_request(BASE, "r1"), Method::Put, "https://app.klozeo.com/api/v1/scoring-rules/r1");
    check(scoring::delete_rule_request(BASE, "r1"), Method::Delete, "https://app.klozeo.com/api/v1/scoring-rules/r1");
    check(scoring::recalculate_request(BASE, "cl_1"), Method::Post, "https://app.klozeo.com/api/v1/leads/cl_1/score");
}

#[test]
fn webhook_requests() {
    check(webhooks::list_request(BASE), Method::Get, "https://app.klozeo.com/api/v1/webhooks");
    check(webhooks::create_request(BASE), Method::Post, "https://app.klozeo.com/api/v1/webhooks");
    check(webhooks::delete_request(BASE, "w1"), Method::Delete, "https://app.klozeo.com/api/v1/webhooks/w1");
}

#[test]
fn pager_follows_cursors_until_last_page() {
    let mut p = LeadPager::new(ListOptions::builder().filter(city().eq("Berlin")).limit(2).build());
    let first = p.next_request(BASE).expect("first page");
    assert_eq!(
        first.query,
        vec![("filter".to_string(), "and.eq.city.Berlin".to_string()), ("limit".to_string(), "2".to_string())]
    );
    p.on_page(true, Some("c2".to_string()));
    let second = p.next_request(BASE).expect("second page");
    assert_eq!(
        second.query,
        vec![
            ("filter".to_string(), "and.eq.city.Berlin".to_string()),
            ("limit".to_string(), "2".to_string()),
            ("cursor".to_string(), "c2".to_string()),
        ]
    );
    p.on_page(false, None);
    assert!(p.is_done());
    assert!(p.next_request(BASE).is_none());
}

#[test]
fn pager_ends_after_error() {
    let mut p = LeadPager::new(ListOptions::default());
    assert!(p.next_request(BASE).is_some());
    p.on_error();
    assert!(p.next_request(BASE).is_none());
}
