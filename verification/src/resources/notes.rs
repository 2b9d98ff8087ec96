//! Requests of the note endpoints.
use vstd::prelude::*;
use crate::resources::{concat3, concat4, plain_request, ApiRequest, ApiRequestView, Method};

verus! {

/// `<base>/leads/<lead_id>/notes`.
pub open spec fn lead_notes_url(base: Seq<char>, lead_id: Seq<char>) -> Seq<char> {
    base + "/leads/"@ + lead_id + "/notes"@
}

/// `<base>/notes/<note_id>`.
pub open spec fn note_url(base: Seq<char>, note_id: Seq<char>) -> Seq<char> {
    base + "/notes/"@ + note_id
}

/// Create a note on a lead: `POST <base>/leads/<lead_id>/notes` with `{"content": ...}`.
pub fn create_request(base_url: &str, lead_id: &str) -> (r: ApiRequest)
    ensures
        r@ == (ApiRequestView { method: Method::Post, url: lead_notes_url(base_url@, lead_id@), query: Seq::empty() }),
{
    plain_request(Method::Post, concat4(base_url, "/leads/", lead_id, "/notes"))
}

/// List the notes of a lead: `GET <base>/leads/<lead_id>/notes`.
pub fn list_request(base_url: &str, lead_id: &str) -> (r: ApiRequest)
    ensures
        r@ == (ApiRequestView { method: Method::Get, url: lead_notes_url(base_url@, lead_id@), query: Seq::empty() }),
{
    plain_request(Method::Get, concat4(base_url, "/leads/", lead_id, "/notes"))
}

/// Update the content of a note: `PUT <base>/notes/<note_id>` with `{"content": ...}`.
pub fn update_request(base_url: &str, note_id: &str) -> (r: ApiRequest)
    ensures
        r@ == (ApiRequestView { method: Method::Put, url: note_url(base_url@, note_id@), query: Seq::empty() }),
{
    plain_request(Method::Put, concat3(base_url, "/notes/", note_id))
}

/// Delete a note: `DELETE <base>/notes/<note_id>`.
pub fn delete_request(base_url: &str, note_id: &str) -> (r: ApiRequest)
    ensures
        r@ == (ApiRequestView { method: Method::Delete, url: note_url(base_url@, note_id@), query: Seq::empty() }),
{
    plain_request(Method::Delete, concat3(base_url, "/notes/", note_id))
}

} // verus!
