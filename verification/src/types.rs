//! The data types of the API: response bodies, request inputs, sort and
//! export options, and the observed rate-limit state.
use vstd::prelude::*;
use crate::filters::Filter;
use crate::text::IntoText;
use serde_json::Value;

verus! {

// ─── JSON values ───────────────────────────────────────────────────────────

/// A JSON value; held, never inspected.
#[verifier::external_type_specification]
#[verifier::external_body]
pub struct ExJsonValue(Value);

/// `Value` derives `Clone`: a clone equals the original.
pub assume_specification[ <serde_json::Value as Clone>::clone ](v: &Value) -> (r: Value)
    ensures
        r == *v,
;

/// The JSON string value with the text `s` (`Value::String`).
pub uninterp spec fn json_string(s: Seq<char>) -> Value;

/// The JSON boolean value `b` (`Value::Bool`).
pub uninterp spec fn json_bool(b: bool) -> Value;

/// The JSON value that `serde_json::to_value` gives for a list of strings.
pub uninterp spec fn json_string_list(items: Seq<Seq<char>>) -> Value;

/// `Value::String(s)`: the JSON string with the text of `s`.
#[verifier::external_body]
fn string_value(s: String) -> (v: Value)
    ensures
        v == json_string(s@),
{
    Value::String(s)
}

/// `Value::Bool(b)`: the JSON boolean `b`.
#[verifier::external_body]
fn bool_value(b: bool) -> (v: Value)
    ensures
        v == json_bool(b),
{
    Value::Bool(b)
}

/// `serde_json::to_value` of a list of strings, which never fails for
/// `Vec<String>` (its serialization has no map with non-string keys and no
/// failing `Serialize`); the result is named, not described.
#[verifier::external_body]
fn string_list_value(items: Vec<String>) -> (v: Value)
    ensures
        v == json_string_list(items.deep_view()),
{
    serde_json::to_value(items).expect("Vec<String> is always serialisable")
}

// ─── Attributes ────────────────────────────────────────────────────────────

/// A custom dynamic attribute attached to a lead (as returned by the API).
#[derive(Debug, Clone, PartialEq)]
pub struct AttributeResponse {
    /// UUID of this attribute record.
    pub id: String,
    /// Attribute name.
    pub name: String,
    /// Attribute type tag (`"text"`, `"number"`, `"bool"`, `"list"`, `"object"`).
    pub attr_type: String,
    /// Raw JSON value.
    pub value: Value,
}

/// A custom attribute to attach when creating or updating a lead.
#[derive(Debug, Clone, PartialEq)]
pub struct Attribute {
    /// Attribute name.
    pub name: String,
    /// Attribute type tag (`"text"`, `"number"`, `"bool"`, `"list"`, `"object"`).
    pub attr_type: String,
    /// JSON-serialisable value.
    pub value: Value,
}

impl Attribute {
    /// Create a text attribute: `Attribute::text("industry", "Software")`.
    pub fn text(name: &str, value: &str) -> (a: Self)
        ensures
            a.name@ == name@,
            a.attr_type@ == "text"@,
            a.value == json_string(value@),
    {
        Attribute { name: name.to_owned(), attr_type: "text".to_owned(), value: string_value(value.to_owned()) }
    }

    /// Create a boolean attribute: `Attribute::bool("verified", true)`.
    pub fn bool(name: &str, value: bool) -> (a: Self)
        ensures
            a.name@ == name@,
            a.attr_type@ == "bool"@,
            a.value == json_bool(value),
    {
        Attribute { name: name.to_owned(), attr_type: "bool".to_owned(), value: bool_value(value) }
    }

    /// Create a list attribute: `Attribute::list("products", vec!["CRM".into(), "ERP".into()])`.
    pub fn list(name: &str, value: Vec<String>) -> (a: Self)
        ensures
            a.name@ == name@,
            a.attr_type@ == "list"@,
            a.value == json_string_list(value.deep_view()),
    {
        Attribute { name: name.to_owned(), attr_type: "list".to_owned(), value: string_list_value(value) }
    }

    /// Create an object attribute from any JSON value.
    pub fn object(name: &str, value: Value) -> (a: Self)
        ensures
            a.name@ == name@,
            a.attr_type@ == "object"@,
            a.value == value,
    {
        Attribute { name: name.to_owned(), attr_type: "object".to_owned(), value }
    }
}

// ─── LeadInput ─────────────────────────────────────────────────────────────

/// The fields of a lead input so far. `N` is the type of the coordinates and
/// the rating (`f64` for callers).
pub struct LeadDraft<N> {
    pub name: Option<Seq<char>>,
    pub source: Option<Seq<char>>,
    pub description: Option<Seq<char>>,
    pub address: Option<Seq<char>>,
    pub city: Option<Seq<char>>,
    pub state: Option<Seq<char>>,
    pub country: Option<Seq<char>>,
    pub postal_code: Option<Seq<char>>,
    pub latitude: Option<N>,
    pub longitude: Option<N>,
    pub phone: Option<Seq<char>>,
    pub email: Option<Seq<char>>,
    pub website: Option<Seq<char>>,
    pub rating: Option<N>,
    pub review_count: Option<u32>,
    pub category: Option<Seq<char>>,
    pub tags: Seq<Seq<char>>,
    pub source_id: Option<Seq<char>>,
    pub logo_url: Option<Seq<char>>,
    pub status: Option<Seq<char>>,
    pub attributes: Seq<Attribute>,
}

impl<N> LeadDraft<N> {
    /// No field set.
    pub open spec fn empty() -> LeadDraft<N> {
        LeadDraft {
            name: None,
            source: None,
            description: None,
            address: None,
            city: None,
            state: None,
            country: None,
            postal_code: None,
            latitude: None,
            longitude: None,
            phone: None,
            email: None,
            website: None,
            rating: None,
            review_count: None,
            category: None,
            tags: Seq::empty(),
            source_id: None,
            logo_url: None,
            status: None,
            attributes: Seq::empty(),
        }
    }
}

/// Input for creating a new lead, built with [`LeadInput::builder`]. `N` is
/// the type of the coordinates and the rating (`f64` for callers).
#[derive(Debug, Clone)]
pub struct LeadInput<N> {
    /// Lead name (required).
    pub name: String,
    /// Traffic source (required).
    pub source: String,
    pub description: Option<String>,
    pub address: Option<String>,
    pub city: Option<String>,
    pub state: Option<String>,
    pub country: Option<String>,
    pub postal_code: Option<String>,
    pub latitude: Option<N>,
    pub longitude: Option<N>,
    pub phone: Option<String>,
    pub email: Option<String>,
    pub website: Option<String>,
    pub rating: Option<N>,
    pub review_count: Option<u32>,
    pub category: Option<String>,
    pub tags: Vec<String>,
    pub source_id: Option<String>,
    pub logo_url: Option<String>,
    pub status: Option<String>,
    pub attributes: Vec<Attribute>,
}

impl<N> View for LeadInput<N> {
    type V = LeadDraft<N>;

    /// The input's fields, the required name and source among them.
    open spec fn view(&self) -> LeadDraft<N> {
        LeadDraft {
            name: Some(self.name@),
            source: Some(self.source@),
            description: self.description.deep_view(),
            address: self.address.deep_view(),
            city: self.city.deep_view(),
            state: self.state.deep_view(),
            country: self.country.deep_view(),
            postal_code: self.postal_code.deep_view(),
            latitude: self.latitude,
            longitude: self.longitude,
            phone: self.phone.deep_view(),
            email: self.email.deep_view(),
            website: self.website.deep_view(),
            rating: self.rating,
            review_count: self.review_count,
            category: self.category.deep_view(),
            tags: self.tags.deep_view(),
            source_id: self.source_id.deep_view(),
            logo_url: self.logo_url.deep_view(),
            status: self.status.deep_view(),
            attributes: self.attributes@,
        }
    }
}

impl<N> LeadInput<N> {
    /// Returns a builder for `LeadInput`, with no field set.
    pub fn builder() -> (b: LeadInputBuilder<N>)
        ensures
            b@ == LeadDraft::<N>::empty(),
    {
        LeadInputBuilder {
            name: None,
            source: None,
            description: None,
            address: None,
            city: None,
            state: None,
            country: None,
            postal_code: None,
            latitude: None,
            longitude: None,
            phone: None,
            email: None,
            website: None,
            rating: None,
            review_count: None,
            category: None,
            tags: no_texts(),
            source_id: None,
            logo_url: None,
            status: None,
            attributes: no_attributes(),
        }
    }
}

/// Builder for [`LeadInput`].
#[derive(Debug, Clone)]
pub struct LeadInputBuilder<N> {
    name: Option<String>,
    source: Option<String>,
    description: Option<String>,
    address: Option<String>,
    city: Option<String>,
    state: Option<String>,
    country: Option<String>,
    postal_code: Option<String>,
    latitude: Option<N>,
    longitude: Option<N>,
    phone: Option<String>,
    email: Option<String>,
    website: Option<String>,
    rating: Option<N>,
    review_count: Option<u32>,
    category: Option<String>,
    tags: Vec<String>,
    source_id: Option<String>,
    logo_url: Option<String>,
    status: Option<String>,
    attributes: Vec<Attribute>,
}

impl<N> View for LeadInputBuilder<N> {
    type V = LeadDraft<N>;

    closed spec fn view(&self) -> LeadDraft<N> {
        LeadDraft {
            name: self.name.deep_view(),
            source: self.source.deep_view(),
            description: self.description.deep_view(),
            address: self.address.deep_view(),
            city: self.city.deep_view(),
            state: self.state.deep_view(),
            country: self.country.deep_view(),
            postal_code: self.postal_code.deep_view(),
            latitude: self.latitude,
            longitude: self.longitude,
            phone: self.phone.deep_view(),
            email: self.email.deep_view(),
            website: self.website.deep_view(),
            rating: self.rating,
            review_count: self.review_count,
            category: self.category.deep_view(),
            tags: self.tags.deep_view(),
            source_id: self.source_id.deep_view(),
            logo_url: self.logo_url.deep_view(),
            status: self.status.deep_view(),
            attributes: self.attributes@,
        }
    }
}

impl<N> Default for LeadInputBuilder<N> {
    fn default() -> (b: Self)
        ensures
            b@ == LeadDraft::<N>::empty(),
    {
        LeadInput::builder()
    }
}

impl<N> LeadInputBuilder<N> {
    /// Set the lead name (required).
    pub fn name<V: IntoText>(self, v: V) -> (b: Self)
        ensures
            b@ == (LeadDraft { name: Some(v.text()), ..self@ }),
    {
        let mut b = self;
        b.name = Some(v.into_text());
        b
    }

    /// Set the traffic source (required).
    pub fn source<V: IntoText>(self, v: V) -> (b: Self)
        ensures
            b@ == (LeadDraft { source: Some(v.text()), ..self@ }),
    {
        let mut b = self;
        b.source = Some(v.into_text());
        b
    }

    /// Set the description.
    pub fn description<V: IntoText>(self, v: V) -> (b: Self)
        ensures
            b@ == (LeadDraft { description: Some(v.text()), ..self@ }),
    {
        let mut b = self;
        b.description = Some(v.into_text());
        b
    }

    /// Set the street address.
    pub fn address<V: IntoText>(self, v: V) -> (b: Self)
        ensures
            b@ == (LeadDraft { address: Some(v.text()), ..self@ }),
    {
        let mut b = self;
        b.address = Some(v.into_text());
        b
    }

    /// Set the city.
    pub fn city<V: IntoText>(self, v: V) -> (b: Self)
        ensures
            b@ == (LeadDraft { city: Some(v.text()), ..self@ }),
    {
        let mut b = self;
        b.city = Some(v.into_text());
        b
    }

    /// Set the state / province.
    pub fn state<V: IntoText>(self, v: V) -> (b: Self)
        ensures
            b@ == (LeadDraft { state: Some(v.text()), ..self@ }),
    {
        let mut b = self;
        b.state = Some(v.into_text());
        b
    }

    /// Set the country.
    pub fn country<V: IntoText>(self, v: V) -> (b: Self)
        ensures
            b@ == (LeadDraft { country: Some(v.text()), ..self@ }),
    {
        let mut b = self;
        b.country = Some(v.into_text());
        b
    }

    /// Set the postal code.
    pub fn postal_code<V: IntoText>(self, v: V) -> (b: Self)
        ensures
            b@ == (LeadDraft { postal_code: Some(v.text()), ..self@ }),
    {
        let mut b = self;
        b.postal_code = Some(v.into_text());
        b
    }

    /// Set the latitude.
    pub fn latitude(self, v: N) -> (b: Self)
        ensures
            b@ == (LeadDraft { latitude: Some(v), ..self@ }),
    {
        let mut b = self;
        b.latitude = Some(v);
        b
    }

    /// Set the longitude.
    pub fn longitude(self, v: N) -> (b: Self)
        ensures
            b@ == (LeadDraft { longitude: Some(v), ..self@ }),
    {
        let mut b = self;
        b.longitude = Some(v);
        b
    }

    /// Set the phone number.
    pub fn phone<V: IntoText>(self, v: V) -> (b: Self)
        ensures
            b@ == (LeadDraft { phone: Some(v.text()), ..self@ }),
    {
        let mut b = self;
        b.phone = Some(v.into_text());
        b
    }

    /// Set the email address.
    pub fn email<V: IntoText>(self, v: V) -> (b: Self)
        ensures
            b@ == (LeadDraft { email: Some(v.text()), ..self@ }),
    {
        let mut b = self;
        b.email = Some(v.into_text());
        b
    }

    /// Set the website URL.
    pub fn website<V: IntoText>(self, v: V) -> (b: Self)
        ensures
            b@ == (LeadDraft { website: Some(v.text()), ..self@ }),
    {
        let mut b = self;
        b.website = Some(v.into_text());
        b
    }

    /// Set the rating (0–5).
    pub fn rating(self, v: N) -> (b: Self)
        ensures
            b@ == (LeadDraft { rating: Some(v), ..self@ }),
    {
        let mut b = self;
        b.rating = Some(v);
        b
    }

    /// Set the review count.
    pub fn review_count(self, v: u32) -> (b: Self)
        ensures
            b@ == (LeadDraft { review_count: Some(v), ..self@ }),
    {
        let mut b = self;
        b.review_count = Some(v);
        b
    }

    /// Set the category.
    pub fn category<V: IntoText>(self, v: V) -> (b: Self)
        ensures
            b@ == (LeadDraft { category: Some(v.text()), ..self@ }),
    {
        let mut b = self;
        b.category = Some(v.into_text());
        b
    }

    /// Set the tags array.
    pub fn tags(self, v: Vec<String>) -> (b: Self)
        ensures
            b@ == (LeadDraft { tags: v.deep_view(), ..self@ }),
    {
        let mut b = self;
        b.tags = v;
        b
    }

    /// Set the external source ID.
    pub fn source_id<V: IntoText>(self, v: V) -> (b: Self)
        ensures
            b@ == (LeadDraft { source_id: Some(v.text()), ..self@ }),
    {
        let mut b = self;
        b.source_id = Some(v.into_text());
        b
    }

    /// Set the logo URL.
    pub fn logo_url<V: IntoText>(self, v: V) -> (b: Self)
        ensures
            b@ == (LeadDraft { logo_url: Some(v.text()), ..self@ }),
    {
        let mut b = self;
        b.logo_url = Some(v.into_text());
        b
    }

    /// Set the pipeline status.
    pub fn status<V: IntoText>(self, v: V) -> (b: Self)
        ensures
            b@ == (LeadDraft { status: Some(v.text()), ..self@ }),
    {
        let mut b = self;
        b.status = Some(v.into_text());
        b
    }

    /// Set custom attributes.
    pub fn attributes(self, v: Vec<Attribute>) -> (b: Self)
        ensures
            b@ == (LeadDraft { attributes: v@, ..self@ }),
    {
        let mut b = self;
        b.attributes = v;
        b
    }

    /// Build the [`LeadInput`]. Panics if `name` or `source` have not been
    /// set (the name is checked first).
    pub fn build(self) -> (r: LeadInput<N>)
        requires
            self@.name is Some,
            self@.source is Some,
        ensures
            r@ == self@,
    {
        LeadInput {
            name: self.name.expect("LeadInput requires `name`"),
            source: self.source.expect("LeadInput requires `source`"),
            description: self.description,
            address: self.address,
            city: self.city,
            state: self.state,
            country: self.country,
            postal_code: self.postal_code,
            latitude: self.latitude,
            longitude: self.longitude,
            phone: self.phone,
            email: self.email,
            website: self.website,
            rating: self.rating,
            review_count: self.review_count,
            category: self.category,
            tags: self.tags,
            source_id: self.source_id,
            logo_url: self.logo_url,
            status: self.status,
            attributes: self.attributes,
        }
    }
}

// ─── UpdateLeadInput ───────────────────────────────────────────────────────

/// The fields a partial update changes. `N` is the type of the coordinates
/// and the rating (`f64` for callers).
pub struct LeadChanges<N> {
    pub name: Option<Seq<char>>,
    pub source: Option<Seq<char>>,
    pub description: Option<Seq<char>>,
    pub address: Option<Seq<char>>,
    pub city: Option<Seq<char>>,
    pub state: Option<Seq<char>>,
    pub country: Option<Seq<char>>,
    pub postal_code: Option<Seq<char>>,
    pub latitude: Option<N>,
    pub longitude: Option<N>,
    pub phone: Option<Seq<char>>,
    pub email: Option<Seq<char>>,
    pub website: Option<Seq<char>>,
    pub rating: Option<N>,
    pub review_count: Option<u32>,
    pub category: Option<Seq<char>>,
    pub tags: Option<Seq<Seq<char>>>,
    pub source_id: Option<Seq<char>>,
    pub logo_url: Option<Seq<char>>,
    pub status: Option<Seq<char>>,
}

impl<N> LeadChanges<N> {
    /// No field changed.
    pub open spec fn empty() -> LeadChanges<N> {
        LeadChanges {
            name: None,
            source: None,
            description: None,
            address: None,
            city: None,
            state: None,
            country: None,
            postal_code: None,
            latitude: None,
            longitude: None,
            phone: None,
            email: None,
            website: None,
            rating: None,
            review_count: None,
            category: None,
            tags: None,
            source_id: None,
            logo_url: None,
            status: None,
        }
    }
}

/// Input for partially updating a lead; all fields are optional. Built with
/// [`UpdateLeadInput::builder`].
#[derive(Debug, Clone)]
pub struct UpdateLeadInput<N> {
    pub name: Option<String>,
    pub source: Option<String>,
    pub description: Option<String>,
    pub address: Option<String>,
    pub city: Option<String>,
    pub state: Option<String>,
    pub country: Option<String>,
    pub postal_code: Option<String>,
    pub latitude: Option<N>,
    pub longitude: Option<N>,
    pub phone: Option<String>,
    pub email: Option<String>,
    pub website: Option<String>,
    pub rating: Option<N>,
    pub review_count: Option<u32>,
    pub category: Option<String>,
    pub tags: Option<Vec<String>>,
    pub source_id: Option<String>,
    pub logo_url: Option<String>,
    pub status: Option<String>,
}

impl<N> View for UpdateLeadInput<N> {
    type V = LeadChanges<N>;

    open spec fn view(&self) -> LeadChanges<N> {
        LeadChanges {
            name: self.name.deep_view(),
            source: self.source.deep_view(),
            description: self.description.deep_view(),
            address: self.address.deep_view(),
            city: self.city.deep_view(),
            state: self.state.deep_view(),
            country: self.country.deep_view(),
            postal_code: self.postal_code.deep_view(),
            latitude: self.latitude,
            longitude: self.longitude,
            phone: self.phone.deep_view(),
            email: self.email.deep_view(),
            website: self.website.deep_view(),
            rating: self.rating,
            review_count: self.review_count,
            category: self.category.deep_view(),
            tags: self.tags.deep_view(),
            source_id: self.source_id.deep_view(),
            logo_url: self.logo_url.deep_view(),
            status: self.status.deep_view(),
        }
    }
}

impl<N> Default for UpdateLeadInput<N> {
    fn default() -> (u: Self)
        ensures
            u@ == LeadChanges::<N>::empty(),
    {
        UpdateLeadInput {
            name: None,
            source: None,
            description: None,
            address: None,
            city: None,
            state: None,
            country: None,
            postal_code: None,
            latitude: None,
            longitude: None,
            phone: None,
            email: None,
            website: None,
            rating: None,
            review_count: None,
            category: None,
            tags: None,
            source_id: None,
            logo_url: None,
            status: None,
        }
    }
}

impl<N> UpdateLeadInput<N> {
    /// Returns a builder for `UpdateLeadInput`, with no field changed.
    pub fn builder() -> (b: UpdateLeadInputBuilder<N>)
        ensures
            b@ == LeadChanges::<N>::empty(),
    {
        UpdateLeadInputBuilder(UpdateLeadInput::default())
    }
}

/// Builder for [`UpdateLeadInput`].
#[derive(Debug, Clone)]
pub struct UpdateLeadInputBuilder<N>(UpdateLeadInput<N>);

impl<N> View for UpdateLeadInputBuilder<N> {
    type V = LeadChanges<N>;

    closed spec fn view(&self) -> LeadChanges<N> {
        self.0@
    }
}

impl<N> Default for UpdateLeadInputBuilder<N> {
    fn default() -> (b: Self)
        ensures
            b@ == LeadChanges::<N>::empty(),
    {
        UpdateLeadInput::builder()
    }
}

impl<N> UpdateLeadInputBuilder<N> {
    /// Set the lead name.
    pub fn name<V: IntoText>(self, v: V) -> (b: Self)
        ensures
            b@ == (LeadChanges { name: Some(v.text()), ..self@ }),
    {
        let mut b = self;
        b.0.name = Some(v.into_text());
        b
    }

    /// Set the traffic source.
    pub fn source<V: IntoText>(self, v: V) -> (b: Self)
        ensures
            b@ == (LeadChanges { source: Some(v.text()), ..self@ }),
    {
        let mut b = self;
        b.0.source = Some(v.into_text());
        b
    }

    /// Set the description.
    pub fn description<V: IntoText>(self, v: V) -> (b: Self)
        ensures
            b@ == (LeadChanges { description: Some(v.text()), ..self@ }),
    {
        let mut b = self;
        b.0.description = Some(v.into_text());
        b
    }

    /// Set the street address.
    pub fn address<V: IntoText>(self, v: V) -> (b: Self)
        ensures
            b@ == (LeadChanges { address: Some(v.text()), ..self@ }),
    {
        let mut b = self;
        b.0.address = Some(v.into_text());
        b
    }

    /// Set the city.
    pub fn city<V: IntoText>(self, v: V) -> (b: Self)
        ensures
            b@ == (LeadChanges { city: Some(v.text()), ..self@ }),
    {
        let mut b = self;
        b.0.city = Some(v.into_text());
        b
    }

    /// Set the state / province.
    pub fn state<V: IntoText>(self, v: V) -> (b: Self)
        ensures
            b@ == (LeadChanges { state: Some(v.text()), ..self@ }),
    {
        let mut b = self;
        b.0.state = Some(v.into_text());
        b
    }

    /// Set the country.
    pub fn country<V: IntoText>(self, v: V) -> (b: Self)
        ensures
            b@ == (LeadChanges { country: Some(v.text()), ..self@ }),
    {
        let mut b = self;
        b.0.country = Some(v.into_text());
        b
    }

    /// Set the postal code.
    pub fn postal_code<V: IntoText>(self, v: V) -> (b: Self)
        ensures
            b@ == (LeadChanges { postal_code: Some(v.text()), ..self@ }),
    {
        let mut b = self;
        b.0.postal_code = Some(v.into_text());
        b
    }

    /// Set the latitude.
    pub fn latitude(self, v: N) -> (b: Self)
        ensures
            b@ == (LeadChanges { latitude: Some(v), ..self@ }),
    {
        let mut b = self;
        b.0.latitude = Some(v);
        b
    }

    /// Set the longitude.
    pub fn longitude(self, v: N) -> (b: Self)
        ensures
            b@ == (LeadChanges { longitude: Some(v), ..self@ }),
    {
        let mut b = self;
        b.0.longitude = Some(v);
        b
    }

    /// Set the phone number.
    pub fn phone<V: IntoText>(self, v: V) -> (b: Self)
        ensures
            b@ == (LeadChanges { phone: Some(v.text()), ..self@ }),
    {
        let mut b = self;
        b.0.phone = Some(v.into_text());
        b
    }

    /// Set the email address.
    pub fn email<V: IntoText>(self, v: V) -> (b: Self)
        ensures
            b@ == (LeadChanges { email: Some(v.text()), ..self@ }),
    {
        let mut b = self;
        b.0.email = Some(v.into_text());
        b
    }

    /// Set the website URL.
    pub fn website<V: IntoText>(self, v: V) -> (b: Self)
        ensures
            b@ == (LeadChanges { website: Some(v.text()), ..self@ }),
    {
        let mut b = self;
        b.0.website = Some(v.into_text());
        b
    }

    /// Set the rating.
    pub fn rating(self, v: N) -> (b: Self)
        ensures
            b@ == (LeadChanges { rating: Some(v), ..self@ }),
    {
        let mut b = self;
        b.0.rating = Some(v);
        b
    }

    /// Set the review count.
    pub fn review_count(self, v: u32) -> (b: Self)
        ensures
            b@ == (LeadChanges { review_count: Some(v), ..self@ }),
    {
        let mut b = self;
        b.0.review_count = Some(v);
        b
    }

    /// Set the category.
    pub fn category<V: IntoText>(self, v: V) -> (b: Self)
        ensures
            b@ == (LeadChanges { category: Some(v.text()), ..self@ }),
    {
        let mut b = self;
        b.0.category = Some(v.into_text());
        b
    }

    /// Set the tags array.
    pub fn tags(self, v: Vec<String>) -> (b: Self)
        ensures
            b@ == (LeadChanges { tags: Some(v.deep_view()), ..self@ }),
    {
        let mut b = self;
        b.0.tags = Some(v);
        b
    }

    /// Set the external source ID.
    pub fn source_id<V: IntoText>(self, v: V) -> (b: Self)
        ensures
            b@ == (LeadChanges { source_id: Some(v.text()), ..self@ }),
    {
        let mut b = self;
        b.0.source_id = Some(v.into_text());
        b
    }

    /// Set the logo URL.
    pub fn logo_url<V: IntoText>(self, v: V) -> (b: Self)
        ensures
            b@ == (LeadChanges { logo_url: Some(v.text()), ..self@ }),
    {
        let mut b = self;
        b.0.logo_url = Some(v.into_text());
        b
    }

    /// Set the pipeline status.
    pub fn status<V: IntoText>(self, v: V) -> (b: Self)
        ensures
            b@ == (LeadChanges { status: Some(v.text()), ..self@ }),
    {
        let mut b = self;
        b.0.status = Some(v.into_text());
        b
    }

    /// Build the [`UpdateLeadInput`].
    pub fn build(self) -> (u: UpdateLeadInput<N>)
        ensures
            u@ == self@,
    {
        self.0
    }
}

fn no_attributes() -> (v: Vec<Attribute>)
    ensures
        v@ == Seq::<Attribute>::empty(),
{
    Vec::new()
}

// ─── Response bodies ───────────────────────────────────────────────────────

/// Response body for a successful lead creation request.
#[derive(Debug, Clone, PartialEq)]
pub struct CreateResponse {
    /// ID of the created (or merged) lead.
    pub id: String,
    /// Human-readable status message.
    pub message: String,
    /// Unix timestamp (seconds) when the lead was created.
    pub created_at: i64,
    /// `true` when an existing lead was merged instead of a new one created.
    pub duplicate: Option<bool>,
    /// ID of a similar lead when a low-confidence potential duplicate was found.
    pub potential_duplicate_id: Option<String>,
}

/// A single successfully created item in a batch create response.
#[derive(Debug, Clone, PartialEq)]
pub struct BatchCreatedItem {
    /// Zero-based index of this item in the original request array.
    pub index: usize,
    /// ID of the created lead.
    pub id: String,
    /// Unix timestamp (seconds) of creation.
    pub created_at: i64,
}

/// A single error item in a batch create response.
#[derive(Debug, Clone, PartialEq)]
pub struct BatchErrorItem {
    /// Zero-based index of the failing item.
    pub index: usize,
    /// Human-readable error message.
    pub message: String,
}

/// Response for a batch create request.
#[derive(Debug, Clone, PartialEq)]
pub struct BatchCreateResult {
    /// Successfully created leads.
    pub created: Vec<BatchCreatedItem>,
    /// Leads that failed to create.
    pub errors: Vec<BatchErrorItem>,
    /// Total number of items submitted.
    pub total: u32,
    /// Number of successfully created items.
    pub success: u32,
    /// Number of items that failed.
    pub failed: u32,
}

/// A single result row in a batch update or delete response.
#[derive(Debug, Clone, PartialEq)]
pub struct BatchResultItem {
    /// Zero-based index of this item.
    pub index: usize,
    /// Lead ID.
    pub id: String,
    /// Whether the operation succeeded for this item.
    pub success: bool,
    /// Optional error message when `success` is `false`.
    pub message: Option<String>,
}

/// Response for batch update and batch delete requests.
#[derive(Debug, Clone, PartialEq)]
pub struct BatchResult {
    /// Per-item results.
    pub results: Vec<BatchResultItem>,
    /// Total number of items submitted.
    pub total: u32,
    /// Number of successful operations.
    pub success: u32,
    /// Number of failed operations.
    pub failed: u32,
}

/// A note attached to a lead.
#[derive(Debug, Clone, PartialEq)]
pub struct Note {
    /// Note ID (e.g. `"note_01234567-..."`).
    pub id: String,
    /// ID of the parent lead.
    pub lead_id: String,
    /// Text content of the note.
    pub content: String,
    /// Unix timestamp (seconds) of creation.
    pub created_at: i64,
    /// Unix timestamp (seconds) of last update.
    pub updated_at: i64,
}

/// A scoring rule that contributes to lead scores.
#[derive(Debug, Clone, PartialEq)]
pub struct ScoringRule {
    /// UUID of the rule.
    pub id: String,
    /// Human-readable name.
    pub name: String,
    /// Expression string (CEL-like).
    pub expression: String,
    /// Evaluation priority — lower value means higher priority.
    pub priority: i32,
    /// Unix timestamp (seconds) of creation.
    pub created_at: i64,
    /// Unix timestamp (seconds) of last update.
    pub updated_at: i64,
}

/// Input for creating or updating a scoring rule.
#[derive(Debug, Clone, PartialEq)]
pub struct ScoringRuleInput {
    /// Human-readable name.
    pub name: String,
    /// Expression string (CEL-like).
    pub expression: String,
    /// Evaluation priority (optional, defaults to 0 on the API).
    pub priority: Option<i32>,
}

/// A webhook registered for your account.
#[derive(Debug, Clone, PartialEq)]
pub struct Webhook {
    /// UUID of the webhook.
    pub id: String,
    /// Endpoint URL that receives POST notifications.
    pub url: String,
    /// Events this webhook is subscribed to.
    pub events: Option<Vec<String>>,
    /// Whether the webhook is currently active.
    pub active: bool,
    /// ISO 8601 creation timestamp.
    pub created_at: String,
}

/// Input for creating a webhook.
#[derive(Debug, Clone, PartialEq)]
pub struct WebhookInput {
    /// Endpoint URL (required).
    pub url: String,
    /// Events to subscribe to (optional — defaults to all events).
    pub events: Option<Vec<String>>,
    /// Payload signing secret (optional, never returned by the API).
    pub secret: Option<String>,
}

// ─── Export format ─────────────────────────────────────────────────────────

/// File format for the export endpoint.
#[derive(Debug, Clone, Copy, PartialEq, Eq, Structural)]
pub enum ExportFormat {
    /// Comma-separated values.
    Csv,
    /// JSON array.
    Json,
    /// Excel workbook.
    Xlsx,
}

impl ExportFormat {
    /// The `format` query value of this format.
    pub open spec fn text(self) -> Seq<char> {
        match self {
            ExportFormat::Csv => "csv"@,
            ExportFormat::Json => "json"@,
            ExportFormat::Xlsx => "xlsx"@,
        }
    }

    /// The `format` query value of this format.
    pub fn as_str(self) -> (s: &'static str)
        ensures
            s@ == self.text(),
    {
        match self {
            ExportFormat::Csv => "csv",
            ExportFormat::Json => "json",
            ExportFormat::Xlsx => "xlsx",
        }
    }
}

// ─── SortField / SortOrder ─────────────────────────────────────────────────

/// Fields available for sorting the leads list.
#[derive(Debug, Clone, PartialEq, Eq)]
pub enum SortField {
    Name,
    City,
    Country,
    State,
    Category,
    Source,
    Email,
    Phone,
    Website,
    Rating,
    ReviewCount,
    CreatedAt,
    UpdatedAt,
    LastInteractionAt,
    /// Sort by a custom attribute: `SortField::Attr("employees".into())`.
    Attr(String),
}

/// The parts of a sort field: a named column, or a custom attribute's name.
pub enum SortFieldView {
    Name,
    City,
    Country,
    State,
    Category,
    Source,
    Email,
    Phone,
    Website,
    Rating,
    ReviewCount,
    CreatedAt,
    UpdatedAt,
    LastInteractionAt,
    Attr(Seq<char>),
}

impl SortFieldView {
    /// The query-parameter string expected by the API.
    pub open spec fn text(self) -> Seq<char> {
        match self {
            SortFieldView::Name => "name"@,
            SortFieldView::City => "city"@,
            SortFieldView::Country => "country"@,
            SortFieldView::State => "state"@,
            SortFieldView::Category => "category"@,
            SortFieldView::Source => "source"@,
            SortFieldView::Email => "email"@,
            SortFieldView::Phone => "phone"@,
            SortFieldView::Website => "website"@,
            SortFieldView::Rating => "rating"@,
            SortFieldView::ReviewCount => "review_count"@,
            SortFieldView::CreatedAt => "created_at"@,
            SortFieldView::UpdatedAt => "updated_at"@,
            SortFieldView::LastInteractionAt => "last_interaction_at"@,
            SortFieldView::Attr(name) => "attr:"@ + name,
        }
    }
}

impl View for SortField {
    type V = SortFieldView;

    open spec fn view(&self) -> SortFieldView {
        match self {
            SortField::Name => SortFieldView::Name,
            SortField::City => SortFieldView::City,
            SortField::Country => SortFieldView::Country,
            SortField::State => SortFieldView::State,
            SortField::Category => SortFieldView::Category,
            SortField::Source => SortFieldView::Source,
            SortField::Email => SortFieldView::Email,
            SortField::Phone => SortFieldView::Phone,
            SortField::Website => SortFieldView::Website,
            SortField::Rating => SortFieldView::Rating,
            SortField::ReviewCount => SortFieldView::ReviewCount,
            SortField::CreatedAt => SortFieldView::CreatedAt,
            SortField::UpdatedAt => SortFieldView::UpdatedAt,
            SortField::LastInteractionAt => SortFieldView::LastInteractionAt,
            SortField::Attr(name) => SortFieldView::Attr(name@),
        }
    }
}

impl SortField {
    /// Convert to the query-parameter string expected by the API.
    pub fn as_str(&self) -> (s: String)
        ensures
            s@ == self@.text(),
    {
        match self {
            SortField::Name => "name".to_owned(),
            SortField::City => "city".to_owned(),
            SortField::Country => "country".to_owned(),
            SortField::State => "state".to_owned(),
            SortField::Category => "category".to_owned(),
            SortField::Source => "source".to_owned(),
            SortField::Email => "email".to_owned(),
            SortField::Phone => "phone".to_owned(),
            SortField::Website => "website".to_owned(),
            SortField::Rating => "rating".to_owned(),
            SortField::ReviewCount => "review_count".to_owned(),
            SortField::CreatedAt => "created_at".to_owned(),
            SortField::UpdatedAt => "updated_at".to_owned(),
            SortField::LastInteractionAt => "last_interaction_at".to_owned(),
            SortField::Attr(name) => {
                let mut s = "attr:".to_owned();
                s.append(name.as_str());
                s
            },
        }
    }
}

/// Sort direction.
#[derive(Debug, Clone, Copy, PartialEq, Eq, Structural)]
pub enum SortOrder {
    /// Ascending order (A → Z, oldest first).
    Asc,
    /// Descending order (Z → A, newest first).
    Desc,
}

impl SortOrder {
    /// The `sort_order` query value of this direction.
    pub open spec fn text(self) -> Seq<char> {
        match self {
            SortOrder::Asc => "ASC"@,
            SortOrder::Desc => "DESC"@,
        }
    }

    /// The `sort_order` query value of this direction.
    pub fn as_str(self) -> (s: &'static str)
        ensures
            s@ == self.text(),
    {
        match self {
            SortOrder::Asc => "ASC",
            SortOrder::Desc => "DESC",
        }
    }
}

/// The view of an optional sort field.
pub open spec fn sort_field_view(f: Option<SortField>) -> Option<SortFieldView> {
    match f {
        Some(f) => Some(f@),
        None => None,
    }
}

fn no_texts() -> (v: Vec<String>)
    ensures
        v.deep_view() == Seq::<Seq<char>>::empty(),
{
    let v: Vec<String> = Vec::new();
    assert(v.deep_view() =~= Seq::<Seq<char>>::empty());
    v
}

// ─── ExportOptions ─────────────────────────────────────────────────────────

/// The parts of export options: filter parameters and sort.
pub struct ExportOptionsView {
    pub filters: Seq<Seq<char>>,
    pub sort_by: Option<SortFieldView>,
    pub sort_order: Option<SortOrder>,
}

/// Options for the export endpoint (filters + sort).
///
/// Each filter is kept as the `filter=` parameter it serializes to.
#[derive(Debug, Clone)]
pub struct ExportOptions {
    /// Filters to apply, each as its `"logic.operator.field.value"` parameter.
    pub filters: Vec<String>,
    /// Field to sort by.
    pub sort_by: Option<SortField>,
    /// Sort direction.
    pub sort_order: Option<SortOrder>,
}

impl View for ExportOptions {
    type V = ExportOptionsView;

    open spec fn view(&self) -> ExportOptionsView {
        ExportOptionsView {
            filters: self.filters.deep_view(),
            sort_by: sort_field_view(self.sort_by),
            sort_order: self.sort_order,
        }
    }
}

impl Default for ExportOptions {
    fn default() -> (o: Self)
        ensures
            o@ == (ExportOptionsView { filters: Seq::empty(), sort_by: None, sort_order: None }),
    {
        ExportOptions { filters: no_texts(), sort_by: None, sort_order: None }
    }
}

impl ExportOptions {
    /// Returns a builder for `ExportOptions`, with no filter and no sort.
    pub fn builder() -> (b: ExportOptionsBuilder)
        ensures
            b@ == (ExportOptionsView { filters: Seq::empty(), sort_by: None, sort_order: None }),
    {
        ExportOptionsBuilder { filters: no_texts(), sort_by: None, sort_order: None }
    }
}

/// Builder for [`ExportOptions`].
#[derive(Debug, Clone)]
pub struct ExportOptionsBuilder {
    filters: Vec<String>,
    sort_by: Option<SortField>,
    sort_order: Option<SortOrder>,
}

impl View for ExportOptionsBuilder {
    type V = ExportOptionsView;

    closed spec fn view(&self) -> ExportOptionsView {
        ExportOptionsView {
            filters: self.filters.deep_view(),
            sort_by: sort_field_view(self.sort_by),
            sort_order: self.sort_order,
        }
    }
}

impl Default for ExportOptionsBuilder {
    fn default() -> (b: Self)
        ensures
            b@ == (ExportOptionsView { filters: Seq::empty(), sort_by: None, sort_order: None }),
    {
        ExportOptions::builder()
    }
}

impl ExportOptionsBuilder {
    /// Add a filter after the ones already added.
    pub fn filter<F: Filter>(self, f: F) -> (b: Self)
        ensures
            b@ == (ExportOptionsView { filters: self@.filters.push(f.param_view()), ..self@ }),
    {
        let mut b = self;
        let p = f.to_param();
        b.filters.push(p);
        proof {
            assert(b@.filters =~= self@.filters.push(f.param_view()));
        }
        b
    }

    /// Set sort field and order together.
    pub fn sort(self, field: SortField, order: SortOrder) -> (b: Self)
        ensures
            b@ == (ExportOptionsView { sort_by: Some(field@), sort_order: Some(order), ..self@ }),
    {
        let mut b = self;
        b.sort_by = Some(field);
        b.sort_order = Some(order);
        b
    }

    /// Build the [`ExportOptions`].
    pub fn build(self) -> (o: ExportOptions)
        ensures
            o@ == self@,
    {
        ExportOptions { filters: self.filters, sort_by: self.sort_by, sort_order: self.sort_order }
    }
}

// ─── ListOptions ───────────────────────────────────────────────────────────

/// The parts of list options: filter parameters, sort and pagination.
pub struct ListOptionsView {
    pub filters: Seq<Seq<char>>,
    pub sort_by: Option<SortFieldView>,
    pub sort_order: Option<SortOrder>,
    pub limit: Option<u32>,
    pub cursor: Option<Seq<char>>,
}

impl ListOptionsView {
    /// Options with no filter, no sort and no pagination.
    pub open spec fn empty() -> ListOptionsView {
        ListOptionsView {
            filters: Seq::empty(),
            sort_by: None,
            sort_order: None,
            limit: None,
            cursor: None,
        }
    }
}

/// Options for the list-leads endpoint (filters, sort, pagination).
///
/// Each filter is kept as the `filter=` parameter it serializes to.
#[derive(Debug, Clone)]
pub struct ListOptions {
    /// Filters to apply, each as its `"logic.operator.field.value"` parameter.
    pub filters: Vec<String>,
    /// Field to sort by.
    pub sort_by: Option<SortField>,
    /// Sort direction.
    pub sort_order: Option<SortOrder>,
    /// Maximum number of results per page (API default: 50, max: 1 000).
    pub limit: Option<u32>,
    /// Opaque pagination cursor from a previous page.
    pub cursor: Option<String>,
}

impl View for ListOptions {
    type V = ListOptionsView;

    open spec fn view(&self) -> ListOptionsView {
        ListOptionsView {
            filters: self.filters.deep_view(),
            sort_by: sort_field_view(self.sort_by),
            sort_order: self.sort_order,
            limit: self.limit,
            cursor: self.cursor.deep_view(),
        }
    }
}

impl Default for ListOptions {
    fn default() -> (o: Self)
        ensures
            o@ == ListOptionsView::empty(),
    {
        ListOptions { filters: no_texts(), sort_by: None, sort_order: None, limit: None, cursor: None }
    }
}

impl ListOptions {
    /// Returns a builder for `ListOptions`, with no filter, sort or pagination.
    pub fn builder() -> (b: ListOptionsBuilder)
        ensures
            b@ == ListOptionsView::empty(),
    {
        ListOptionsBuilder {
            filters: no_texts(),
            sort_by: None,
            sort_order: None,
            limit: None,
            cursor: None,
        }
    }
}

/// Builder for [`ListOptions`].
#[derive(Debug, Clone)]
pub struct ListOptionsBuilder {
    filters: Vec<String>,
    sort_by: Option<SortField>,
    sort_order: Option<SortOrder>,
    limit: Option<u32>,
    cursor: Option<String>,
}

impl View for ListOptionsBuilder {
    type V = ListOptionsView;

    closed spec fn view(&self) -> ListOptionsView {
        ListOptionsView {
            filters: self.filters.deep_view(),
            sort_by: sort_field_view(self.sort_by),
            sort_order: self.sort_order,
            limit: self.limit,
            cursor: self.cursor.deep_view(),
        }
    }
}

impl Default for ListOptionsBuilder {
    fn default() -> (b: Self)
        ensures
            b@ == ListOptionsView::empty(),
    {
        ListOptions::builder()
    }
}

impl ListOptionsBuilder {
    /// Add a filter after the ones already added.
    pub fn filter<F: Filter>(self, f: F) -> (b: Self)
        ensures
            b@ == (ListOptionsView { filters: self@.filters.push(f.param_view()), ..self@ }),
    {
        let mut b = self;
        let p = f.to_param();
        b.filters.push(p);
        proof {
            assert(b@.filters =~= self@.filters.push(f.param_view()));
        }
        b
    }

    /// Set sort field and order together.
    pub fn sort(self, field: SortField, order: SortOrder) -> (b: Self)
        ensures
            b@ == (ListOptionsView { sort_by: Some(field@), sort_order: Some(order), ..self@ }),
    {
        let mut b = self;
        b.sort_by = Some(field);
        b.sort_order = Some(order);
        b
    }

    /// Set the page size limit.
    pub fn limit(self, v: u32) -> (b: Self)
        ensures
            b@ == (ListOptionsView { limit: Some(v), ..self@ }),
    {
        let mut b = self;
        b.limit = Some(v);
        b
    }

    /// Set the pagination cursor.
    pub fn cursor<V: IntoText>(self, v: V) -> (b: Self)
        ensures
            b@ == (ListOptionsView { cursor: Some(v.text()), ..self@ }),
    {
        let mut b = self;
        b.cursor = Some(v.into_text());
        b
    }

    /// Build the [`ListOptions`].
    pub fn build(self) -> (o: ListOptions)
        ensures
            o@ == self@,
    {
        ListOptions {
            filters: self.filters,
            sort_by: self.sort_by,
            sort_order: self.sort_order,
            limit: self.limit,
            cursor: self.cursor,
        }
    }
}

// ─── RateLimitState ────────────────────────────────────────────────────────

/// The most recently observed rate-limit headers from the API.
#[derive(Debug, Clone, Copy, PartialEq, Eq, Structural)]
pub struct RateLimitState {
    /// Maximum requests allowed per window.
    pub limit: u64,
    /// Requests remaining in the current window.
    pub remaining: u64,
}

} // verus!
