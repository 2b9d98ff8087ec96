//! Filters for the list and export endpoints. A filter serializes to a single
//! `"logic.operator.field.value"` string that is passed as a repeated
//! `filter=` query parameter; the `.value` part is left out when the value is
//! empty.
use vstd::prelude::*;
use crate::text::IntoText;

verus! {

/// Implemented by all filter types: serializes to the `filter=` parameter.
///
/// An implementation also names, in `param_view`, the text that `to_param`
/// returns; that function is specification only and never runs.
pub trait Filter: Send + Sync {
    /// The parameter text this filter stands for.
    spec fn param_view(&self) -> Seq<char>;

    /// Serialize this filter to its `"logic.operator.field.value"` string.
    fn to_param(&self) -> (s: String)
        ensures
            s@ == self.param_view(),
    ;
}

/// How a filter combines with the others.
#[derive(Debug, Clone, Copy, PartialEq, Eq, Structural)]
pub enum Logic {
    And,
    Or,
}

impl Logic {
    /// The prefix this logic writes in a filter parameter.
    pub open spec fn text(self) -> Seq<char> {
        match self {
            Logic::And => "and"@,
            Logic::Or => "or"@,
        }
    }

    /// The prefix this logic writes in a filter parameter.
    pub fn as_str(self) -> (s: &'static str)
        ensures
            s@ == self.text(),
    {
        match self {
            Logic::And => "and",
            Logic::Or => "or",
        }
    }
}

/// The parts of a built filter.
pub struct FilterView {
    pub logic: Logic,
    pub operator: Seq<char>,
    pub field: Seq<char>,
    pub value: Seq<char>,
}

impl FilterView {
    /// `logic.operator.field`, followed by `.value` when the value is not empty.
    pub open spec fn param(self) -> Seq<char> {
        let head = self.logic.text() + "."@ + self.operator + "."@ + self.field;
        if self.value.len() == 0 {
            head
        } else {
            head + "."@ + self.value
        }
    }
}

/// A fully-built filter value.
#[derive(Debug, Clone)]
pub struct GenericFilter {
    logic: Logic,
    operator: String,
    field: String,
    value: String,
}

impl View for GenericFilter {
    type V = FilterView;

    closed spec fn view(&self) -> FilterView {
        FilterView {
            logic: self.logic,
            operator: self.operator@,
            field: self.field@,
            value: self.value@,
        }
    }
}

impl Filter for GenericFilter {
    open spec fn param_view(&self) -> Seq<char> {
        self@.param()
    }

    fn to_param(&self) -> (s: String) {
        let mut s = String::new();
        s.append(self.logic.as_str());
        s.append(".");
        s.append(self.operator.as_str());
        s.append(".");
        s.append(self.field.as_str());
        if !self.value.as_str().is_empty() {
            s.append(".");
            s.append(self.value.as_str());
        }
        assert(s@ =~= self@.param());
        s
    }
}

fn new_filter(logic: Logic, op: &str, field: String, value: String) -> (f: GenericFilter)
    ensures
        f@ == (FilterView { logic, operator: op@, field: field@, value: value@ }),
{
    GenericFilter { logic, operator: op.to_owned(), field, value }
}

/// The logic and field a builder filters on.
pub struct FieldView {
    pub logic: Logic,
    pub field: Seq<char>,
}

// ─── TextFilterBuilder ─────────────────────────────────────────────────────

/// Builder for text-field filters (`name`, `city`, `country`, …).
#[derive(Debug, Clone)]
pub struct TextFilterBuilder {
    logic: Logic,
    field: String,
}

impl View for TextFilterBuilder {
    type V = FieldView;

    closed spec fn view(&self) -> FieldView {
        FieldView { logic: self.logic, field: self.field@ }
    }
}

impl TextFilterBuilder {
    fn new(logic: Logic, field: &str) -> (b: Self)
        ensures
            b@ == (FieldView { logic, field: field@ }),
    {
        TextFilterBuilder { logic, field: field.to_owned() }
    }

    /// The filter `operator` with this builder's logic and field and the given value.
    pub open spec fn spec_make(self, op: Seq<char>, value: Seq<char>) -> FilterView {
        FilterView { logic: self@.logic, operator: op, field: self@.field, value }
    }

    fn make<V: IntoText>(&self, op: &str, val: V) -> (f: GenericFilter)
        ensures
            f@ == self.spec_make(op@, val.text()),
    {
        new_filter(self.logic, op, self.field.clone(), val.into_text())
    }

    fn make_no_val(&self, op: &str) -> (f: GenericFilter)
        ensures
            f@ == self.spec_make(op@, Seq::empty()),
    {
        new_filter(self.logic, op, self.field.clone(), String::new())
    }

    /// Equals (case-insensitive).
    pub fn eq<V: IntoText>(self, value: V) -> (f: GenericFilter)
        ensures
            f@ == self.spec_make("eq"@, value.text()),
    {
        self.make("eq", value)
    }

    /// Not equals.
    pub fn neq<V: IntoText>(self, value: V) -> (f: GenericFilter)
        ensures
            f@ == self.spec_make("neq"@, value.text()),
    {
        self.make("neq", value)
    }

    /// Contains substring.
    pub fn contains<V: IntoText>(self, value: V) -> (f: GenericFilter)
        ensures
            f@ == self.spec_make("contains"@, value.text()),
    {
        self.make("contains", value)
    }

    /// Does not contain substring.
    pub fn not_contains<V: IntoText>(self, value: V) -> (f: GenericFilter)
        ensures
            f@ == self.spec_make("not_contains"@, value.text()),
    {
        self.make("not_contains", value)
    }

    /// Is null or empty string.
    pub fn is_empty(self) -> (f: GenericFilter)
        ensures
            f@ == self.spec_make("is_empty"@, Seq::empty()),
    {
        self.make_no_val("is_empty")
    }

    /// Has a non-empty value.
    pub fn is_not_empty(self) -> (f: GenericFilter)
        ensures
            f@ == self.spec_make("is_not_empty"@, Seq::empty()),
    {
        self.make_no_val("is_not_empty")
    }
}


// ─── NumberFilterBuilder ───────────────────────────────────────────────────

/// Builder for numeric-field filters (`rating`, `review_count`).
///
/// The comparison value is given as the text of the number, as `f64`'s
/// `Display` writes it.
#[derive(Debug, Clone)]
pub struct NumberFilterBuilder {
    logic: Logic,
    field: String,
}

impl View for NumberFilterBuilder {
    type V = FieldView;

    closed spec fn view(&self) -> FieldView {
        FieldView { logic: self.logic, field: self.field@ }
    }
}

impl NumberFilterBuilder {
    fn new(logic: Logic, field: &str) -> (b: Self)
        ensures
            b@ == (FieldView { logic, field: field@ }),
    {
        NumberFilterBuilder { logic, field: field.to_owned() }
    }

    /// The filter `op` on this builder's field, comparing with the number written `value`.
    pub fn make(&self, op: &str, value: String) -> (f: GenericFilter)
        ensures
            f@ == (FilterView { logic: self@.logic, operator: op@, field: self@.field, value: value@ }),
    {
        new_filter(self.logic, op, self.field.clone(), value)
    }
}

// ─── TagsFilterBuilder ─────────────────────────────────────────────────────

/// Builder for the `tags` array field.
#[derive(Debug, Clone)]
pub struct TagsFilterBuilder {
    logic: Logic,
}

impl View for TagsFilterBuilder {
    type V = Logic;

    closed spec fn view(&self) -> Logic {
        self.logic
    }
}

impl TagsFilterBuilder {
    fn new(logic: Logic) -> (b: Self)
        ensures
            b@ == logic,
    {
        TagsFilterBuilder { logic }
    }

    /// The filter `op` on `tags` with this builder's logic and the given value.
    pub open spec fn spec_make(self, op: Seq<char>, value: Seq<char>) -> FilterView {
        FilterView { logic: self@, operator: op, field: "tags"@, value }
    }

    fn make<V: IntoText>(&self, op: &str, val: V) -> (f: GenericFilter)
        ensures
            f@ == self.spec_make(op@, val.text()),
    {
        new_filter(self.logic, op, "tags".to_owned(), val.into_text())
    }

    fn make_no_val(&self, op: &str) -> (f: GenericFilter)
        ensures
            f@ == self.spec_make(op@, Seq::empty()),
    {
        new_filter(self.logic, op, "tags".to_owned(), String::new())
    }

    /// Array contains the given value.
    pub fn contains<V: IntoText>(self, value: V) -> (f: GenericFilter)
        ensures
            f@ == self.spec_make("array_contains"@, value.text()),
    {
        self.make("array_contains", value)
    }

    /// Array does not contain the given value.
    pub fn not_contains<V: IntoText>(self, value: V) -> (f: GenericFilter)
        ensures
            f@ == self.spec_make("array_not_contains"@, value.text()),
    {
        self.make("array_not_contains", value)
    }

    /// Array is empty.
    pub fn is_empty(self) -> (f: GenericFilter)
        ensures
            f@ == self.spec_make("array_empty"@, Seq::empty()),
    {
        self.make_no_val("array_empty")
    }

    /// Array has at least one item.
    pub fn is_not_empty(self) -> (f: GenericFilter)
        ensures
            f@ == self.spec_make("array_not_empty"@, Seq::empty()),
    {
        self.make_no_val("array_not_empty")
    }
}

// ─── LocationFilterBuilder ─────────────────────────────────────────────────

/// Builder for the `location` (latitude + longitude) field.
#[derive(Debug, Clone)]
pub struct LocationFilterBuilder {
    logic: Logic,
}

impl View for LocationFilterBuilder {
    type V = Logic;

    closed spec fn view(&self) -> Logic {
        self.logic
    }
}

impl LocationFilterBuilder {
    fn new(logic: Logic) -> (b: Self)
        ensures
            b@ == logic,
    {
        LocationFilterBuilder { logic }
    }

    /// Within a radius of `km` kilometres from the given coordinates, each
    /// number given as the text that `f64`'s `Display` writes for it; the
    /// value is `lat,lng,km`.
    pub fn within_radius_text(self, lat: &str, lng: &str, km: &str) -> (f: GenericFilter)
        ensures
            f@ == (FilterView {
                logic: self@,
                operator: "within_radius"@,
                field: "location"@,
                value: lat@ + ","@ + lng@ + ","@ + km@,
            }),
    {
        let mut value = lat.to_owned();
        value.append(",");
        value.append(lng);
        value.append(",");
        value.append(km);
        new_filter(self.logic, "within_radius", "location".to_owned(), value)
    }

    /// Has coordinates set.
    pub fn is_set(self) -> (f: GenericFilter)
        ensures
            f@ == (FilterView { logic: self@, operator: "is_set"@, field: "location"@, value: Seq::empty() }),
    {
        new_filter(self.logic, "is_set", "location".to_owned(), String::new())
    }

    /// Has no coordinates.
    pub fn is_not_set(self) -> (f: GenericFilter)
        ensures
            f@ == (FilterView { logic: self@, operator: "is_not_set"@, field: "location"@, value: Seq::empty() }),
    {
        new_filter(self.logic, "is_not_set", "location".to_owned(), String::new())
    }
}

// ─── AttrFilterBuilder ─────────────────────────────────────────────────────

/// Builder for custom attribute filters (`attr:<name>`).
#[derive(Debug, Clone)]
pub struct AttrFilterBuilder {
    logic: Logic,
    name: String,
}

impl View for AttrFilterBuilder {
    type V = FieldView;

    /// The logic and the attribute's name.
    closed spec fn view(&self) -> FieldView {
        FieldView { logic: self.logic, field: self.name@ }
    }
}

/// The field that a filter on the custom attribute `name` names.
pub open spec fn attr_field(name: Seq<char>) -> Seq<char> {
    "attr:"@ + name
}

impl AttrFilterBuilder {
    fn new<N: IntoText>(logic: Logic, name: N) -> (b: Self)
        ensures
            b@ == (FieldView { logic, field: name.text() }),
    {
        AttrFilterBuilder { logic, name: name.into_text() }
    }

    fn field(&self) -> (s: String)
        ensures
            s@ == attr_field(self@.field),
    {
        let mut s = "attr:".to_owned();
        s.append(self.name.as_str());
        s
    }

    /// The filter `op` on `attr:<name>` with this builder's logic and the given value.
    pub open spec fn spec_make(self, op: Seq<char>, value: Seq<char>) -> FilterView {
        FilterView { logic: self@.logic, operator: op, field: attr_field(self@.field), value }
    }

    /// The filter `op` on this attribute with the given value (for numeric
    /// comparisons, the text that `f64`'s `Display` writes for the number).
    pub fn make<V: IntoText>(&self, op: &str, val: V) -> (f: GenericFilter)
        ensures
            f@ == self.spec_make(op@, val.text()),
    {
        new_filter(self.logic, op, self.field(), val.into_text())
    }

    /// Text equals (case-insensitive).
    pub fn eq<V: IntoText>(self, value: V) -> (f: GenericFilter)
        ensures
            f@ == self.spec_make("eq"@, value.text()),
    {
        self.make("eq", value)
    }

    /// Text not equals.
    pub fn neq<V: IntoText>(self, value: V) -> (f: GenericFilter)
        ensures
            f@ == self.spec_make("neq"@, value.text()),
    {
        self.make("neq", value)
    }

    /// Text contains substring.
    pub fn contains<V: IntoText>(self, value: V) -> (f: GenericFilter)
        ensures
            f@ == self.spec_make("contains"@, value.text()),
    {
        self.make("contains", value)
    }
}

// ─── OrBuilder ─────────────────────────────────────────────────────────────

/// Entry point for OR-logic filters: `or().city().eq("Paris")`.
#[derive(Debug, Clone)]
pub struct OrBuilder;

impl OrBuilder {
    /// Filter by name (OR logic).
    pub fn name(self) -> (b: TextFilterBuilder)
        ensures b@ == (FieldView { logic: Logic::Or, field: "name"@ }),
    {
        TextFilterBuilder::new(Logic::Or, "name")
    }

    /// Filter by city (OR logic).
    pub fn city(self) -> (b: TextFilterBuilder)
        ensures b@ == (FieldView { logic: Logic::Or, field: "city"@ }),
    {
        TextFilterBuilder::new(Logic::Or, "city")
    }

    /// Filter by country (OR logic).
    pub fn country(self) -> (b: TextFilterBuilder)
        ensures b@ == (FieldView { logic: Logic::Or, field: "country"@ }),
    {
        TextFilterBuilder::new(Logic::Or, "country")
    }

    /// Filter by state (OR logic).
    pub fn state(self) -> (b: TextFilterBuilder)
        ensures b@ == (FieldView { logic: Logic::Or, field: "state"@ }),
    {
        TextFilterBuilder::new(Logic::Or, "state")
    }

    /// Filter by category (OR logic).
    pub fn category(self) -> (b: TextFilterBuilder)
        ensures b@ == (FieldView { logic: Logic::Or, field: "category"@ }),
    {
        TextFilterBuilder::new(Logic::Or, "category")
    }

    /// Filter by source (OR logic).
    pub fn source(self) -> (b: TextFilterBuilder)
        ensures b@ == (FieldView { logic: Logic::Or, field: "source"@ }),
    {
        TextFilterBuilder::new(Logic::Or, "source")
    }

    /// Filter by email (OR logic).
    pub fn email(self) -> (b: TextFilterBuilder)
        ensures b@ == (FieldView { logic: Logic::Or, field: "email"@ }),
    {
        TextFilterBuilder::new(Logic::Or, "email")
    }

    /// Filter by phone (OR logic).
    pub fn phone(self) -> (b: TextFilterBuilder)
        ensures b@ == (FieldView { logic: Logic::Or, field: "phone"@ }),
    {
        TextFilterBuilder::new(Logic::Or, "phone")
    }

    /// Filter by website (OR logic).
    pub fn website(self) -> (b: TextFilterBuilder)
        ensures b@ == (FieldView { logic: Logic::Or, field: "website"@ }),
    {
        TextFilterBuilder::new(Logic::Or, "website")
    }

    /// Filter by rating (OR logic).
    pub fn rating(self) -> (b: NumberFilterBuilder)
        ensures b@ == (FieldView { logic: Logic::Or, field: "rating"@ }),
    {
        NumberFilterBuilder::new(Logic::Or, "rating")
    }

    /// Filter by review count (OR logic).
    pub fn review_count(self) -> (b: NumberFilterBuilder)
        ensures b@ == (FieldView { logic: Logic::Or, field: "review_count"@ }),
    {
        NumberFilterBuilder::new(Logic::Or, "review_count")
    }

    /// Filter by tags (OR logic).
    pub fn tags(self) -> (b: TagsFilterBuilder)
        ensures b@ == Logic::Or,
    {
        TagsFilterBuilder::new(Logic::Or)
    }

    /// Filter by location (OR logic).
    pub fn location(self) -> (b: LocationFilterBuilder)
        ensures b@ == Logic::Or,
    {
        LocationFilterBuilder::new(Logic::Or)
    }

    /// Filter by custom attribute (OR logic).
    pub fn attr<N: IntoText>(self, name: N) -> (b: AttrFilterBuilder)
        ensures b@ == (FieldView { logic: Logic::Or, field: name.text() }),
    {
        AttrFilterBuilder::new(Logic::Or, name)
    }
}

// ─── Top-level constructor functions (AND logic by default) ────────────────

/// Filter leads by name (AND logic).
pub fn name() -> (b: TextFilterBuilder)
    ensures b@ == (FieldView { logic: Logic::And, field: "name"@ }),
{
    TextFilterBuilder::new(Logic::And, "name")
}

/// Filter leads by city (AND logic): `city().eq("Berlin")`.
pub fn city() -> (b: TextFilterBuilder)
    ensures b@ == (FieldView { logic: Logic::And, field: "city"@ }),
{
    TextFilterBuilder::new(Logic::And, "city")
}

/// Filter leads by country (AND logic).
pub fn country() -> (b: TextFilterBuilder)
    ensures b@ == (FieldView { logic: Logic::And, field: "country"@ }),
{
    TextFilterBuilder::new(Logic::And, "country")
}

/// Filter leads by state (AND logic).
pub fn state() -> (b: TextFilterBuilder)
    ensures b@ == (FieldView { logic: Logic::And, field: "state"@ }),
{
    TextFilterBuilder::new(Logic::And, "state")
}

/// Filter leads by category (AND logic).
pub fn category() -> (b: TextFilterBuilder)
    ensures b@ == (FieldView { logic: Logic::And, field: "category"@ }),
{
    TextFilterBuilder::new(Logic::And, "category")
}

/// Filter leads by source (AND logic).
pub fn source() -> (b: TextFilterBuilder)
    ensures b@ == (FieldView { logic: Logic::And, field: "source"@ }),
{
    TextFilterBuilder::new(Logic::And, "source")
}

/// Filter leads by email (AND logic).
pub fn email() -> (b: TextFilterBuilder)
    ensures b@ == (FieldView { logic: Logic::And, field: "email"@ }),
{
    TextFilterBuilder::new(Logic::And, "email")
}

/// Filter leads by phone (AND logic).
pub fn phone() -> (b: TextFilterBuilder)
    ensures b@ == (FieldView { logic: Logic::And, field: "phone"@ }),
{
    TextFilterBuilder::new(Logic::And, "phone")
}

/// Filter leads by website (AND logic).
pub fn website() -> (b: TextFilterBuilder)
    ensures b@ == (FieldView { logic: Logic::And, field: "website"@ }),
{
    TextFilterBuilder::new(Logic::And, "website")
}

/// Filter leads by rating (AND logic).
pub fn rating() -> (b: NumberFilterBuilder)
    ensures b@ == (FieldView { logic: Logic::And, field: "rating"@ }),
{
    NumberFilterBuilder::new(Logic::And, "rating")
}

/// Filter leads by review count (AND logic).
pub fn review_count() -> (b: NumberFilterBuilder)
    ensures b@ == (FieldView { logic: Logic::And, field: "review_count"@ }),
{
    NumberFilterBuilder::new(Logic::And, "review_count")
}

/// Filter leads by tags (AND logic): `tags().contains("enterprise")`.
pub fn tags() -> (b: TagsFilterBuilder)
    ensures b@ == Logic::And,
{
    TagsFilterBuilder::new(Logic::And)
}

/// Filter leads by location (AND logic).
pub fn location() -> (b: LocationFilterBuilder)
    ensures b@ == Logic::And,
{
    LocationFilterBuilder::new(Logic::And)
}

/// Filter leads by a custom attribute (AND logic): `attr("industry").eq("Software")`.
pub fn attr<N: IntoText>(name: N) -> (b: AttrFilterBuilder)
    ensures b@ == (FieldView { logic: Logic::And, field: name.text() }),
{
    AttrFilterBuilder::new(Logic::And, name)
}

/// Begin an OR-logic filter chain: `or().city().eq("Paris")`.
pub fn or() -> (b: OrBuilder) {
    OrBuilder
}

} // verus!
