//! Requests of the scoring-rule endpoints.
use vstd::prelude::*;
use crate::resources::{concat3, concat4, plain_request, ApiRequest, ApiRequestView, Method};

verus! {

/// `<base>/scoring-rules`.
pub open spec fn rules_url(base: Seq<char>) -> Seq<char> {
    base + "/scoring-rules"@
}

/// `<base>/scoring-rules/<id>`.
pub open spec fn rule_url(base: Seq<char>, id: Seq<char>) -> Seq<char> {
    base + "/scoring-rules/"@ + id
}

/// `<base>/leads/<lead_id>/score`.
pub open spec fn score_url(base: Seq<char>, lead_id: Seq<char>) -> Seq<char> {
    base + "/leads/"@ + lead_id + "/score"@
}

fn rules_url_of(base_url: &str) -> (s: String)
    ensures
        s@ == rules_url(base_url@),
{
    let mut s = base_url.to_owned();
    s.append("/scoring-rules");
    s
}

/// List all scoring rules: `GET <base>/scoring-rules`.
pub fn list_rules_request(base_url: &str) -> (r: ApiRequest)
    ensures
        r@ == (ApiRequestView { method: Method::Get, url: rules_url(base_url@), query: Seq::empty() }),
{
    plain_request(Method::Get, rules_url_of(base_url))
}

/// Create a scoring rule: `POST <base>/scoring-rules` with the rule as body.
pub fn create_rule_request(base_url: &str) -> (r: ApiRequest)
    ensures
        r@ == (ApiRequestView { method: Method::Post, url: rules_url(base_url@), query: Seq::empty() }),
{
    plain_request(Method::Post, rules_url_of(base_url))
}

/// Get a scoring rule: `GET <base>/scoring-rules/<id>`.
pub fn get_rule_request(base_url: &str, id: &str) -> (r: ApiRequest)
    ensures
        r@ == (ApiRequestView { method: Method::Get, url: rule_url(base_url@, id@), query: Seq::empty() }),
{
    plain_request(Method::Get, concat3(base_url, "/scoring-rules/", id))
}

/// Update a scoring rule: `PUT <base>/scoring-rules/<id>` with the rule as body.
pub fn update_rule_request(base_url: &str, id: &str) -> (r: ApiRequest)
    ensures
        r@ == (ApiRequestView { method: Method::Put, url: rule_url(base_url@, id@), query: Seq::empty() }),
{
    plain_request(Method::Put, concat3(base_url, "/scoring-rules/", id))
}

/// Delete a scoring rule: `DELETE <base>/scoring-rules/<id>`.
pub fn delete_rule_request(base_url: &str, id: &str) -> (r: ApiRequest)
    ensures
        r@ == (ApiRequestView { method: Method::Delete, url: rule_url(base_url@, id@), query: Seq::empty() }),
{
    plain_request(Method::Delete, concat3(base_url, "/scoring-rules/", id))
}

/// Recalculate a lead's score: `POST <base>/leads/<lead_id>/score`.
pub fn recalculate_request(base_url: &str, lead_id: &str) -> (r: ApiRequest)
    ensures
        r@ == (ApiRequestView { method: Method::Post, url: score_url(base_url@, lead_id@), query: Seq::empty() }),
{
    plain_request(Method::Post, concat4(base_url, "/leads/", lead_id, "/score"))
}

} // verus!
