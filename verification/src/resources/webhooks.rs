//! Requests of the webhook endpoints.
use vstd::prelude::*;
use crate::resources::{concat3, plain_request, ApiRequest, ApiRequestView, Method};

verus! {

/// `<base>/webhooks`.
pub open spec fn webhooks_url(base: Seq<char>) -> Seq<char> {
    base + "/webhooks"@
}

/// `<base>/webhooks/<id>`.
pub open spec fn webhook_url(base: Seq<char>, id: Seq<char>) -> Seq<char> {
    base + "/webhooks/"@ + id
}

fn webhooks_url_of(base_url: &str) -> (s: String)
    ensures
        s@ == webhooks_url(base_url@),
{
    let mut s = base_url.to_owned();
    s.append("/webhooks");
    s
}

/// List all webhooks: `GET <base>/webhooks`.
pub fn list_request(base_url: &str) -> (r: ApiRequest)
    ensures
        r@ == (ApiRequestView { method: Method::Get, url: webhooks_url(base_url@), query: Seq::empty() }),
{
    plain_request(Method::Get, webhooks_url_of(base_url))
}

/// Register a webhook: `POST <base>/webhooks` with the webhook as body.
pub fn create_request(base_url: &str) -> (r: ApiRequest)
    ensures
        r@ == (ApiRequestView { method: Method::Post, url: webhooks_url(base_url@), query: Seq::empty() }),
{
    plain_request(Method::Post, webhooks_url_of(base_url))
}

/// Delete a webhook: `DELETE <base>/webhooks/<id>`.
pub fn delete_request(base_url: &str, id: &str) -> (r: ApiRequest)
    ensures
        r@ == (ApiRequestView { method: Method::Delete, url: webhook_url(base_url@, id@), query: Seq::empty() }),
{
    plain_request(Method::Delete, concat3(base_url, "/webhooks/", id))
}

} // verus!
