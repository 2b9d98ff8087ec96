use klozeo::{Attribute, LeadInput, UpdateLeadInput};

#[test]
fn lead_input_builder_sets_every_field() {
    let input: LeadInput<f64> = LeadInput::builder()
        .name("Acme Corporation")
        .source("website")
        .description("desc")
        .address("1 Main St")
        .city("San Francisco")
        .state("CA")
        .country("US")
        .postal_code("94105")
        .latitude(37.79)
        .longitude(-122.39)
        .phone("+1 555")
        .email("contact@acme.com")
        .website("https://acme.com")
        .rating(4.5)
        .review_count(12)
        .category("Software")
        .tags(vec!["enterprise".into(), "saas".into()])
        .source_id("ext-1")
        .logo_url("https://acme.com/logo.png")
        .status("new")
        .attributes(vec![Attribute::text("industry", "Software")])
        .build();
    assert_eq!(input.name, "Acme Corporation");
    assert_eq!(input.source, "website");
    assert_eq!(input.description.as_deref(), Some("desc"));
    assert_eq!(input.address.as_deref(), Some("1 Main St"));
    assert_eq!(input.city.as_deref(), Some("San Francisco"));
    assert_eq!(input.state.as_deref(), Some("CA"));
    assert_eq!(input.country.as_deref(), Some("US"));
    assert_eq!(input.postal_code.as_deref(), Some("94105"));
    assert_eq!(input.latitude, Some(37.79));
    assert_eq!(input.longitude, Some(-122.39));
    assert_eq!(input.phone.as_deref(), Some("+1 555"));
    assert_eq!(input.email.as_deref(), Some("contact@acme.com"));
    assert_eq!(input.website.as_deref(), Some("https://acme.com"));
    assert_eq!(input.rating, Some(4.5));
    assert_eq!(input.review_count, Some(12));
    assert_eq!(input.category.as_deref(), Some("Software"));
    assert_eq!(input.tags, vec!["enterprise".to_string(), "saas".to_string()]);
    assert_eq!(input.source_id.as_deref(), Some("ext-1"));
    assert_eq!(input.logo_url.as_deref(), Some("https://acme.com/logo.png"));
    assert_eq!(input.status.as_deref(), Some("new"));
    assert_eq!(input.attributes.len(), 1);
    assert_eq!(input.attributes[0].name, "industry");
}

#[test]
fn lead_input_minimal() {
    let input: LeadInput<f64> = LeadInput::builder().name("Lead 1").source("import").build();
    assert_eq!(input.name, "Lead 1");
    assert_eq!(input.source, "import");
    assert!(input.city.is_none());
    assert!(input.rating.is_none());
    assert!(input.tags.is_empty());
    assert!(input.attributes.is_empty());
}

#[test]
fn later_setter_wins() {
    let input: LeadInput<f64> = LeadInput::builder().name("A").name("B").source("s").build();
    assert_eq!(input.name, "B");
}

#[test]
fn update_input_sets_only_given_fields() {
    let u: UpdateLeadInput<f64> = UpdateLeadInput::builder().rating(4.8).category("Technology").build();
    assert_eq!(u.rating, Some(4.8));
    assert_eq!(u.category.as_deref(), Some("Technology"));
    assert!(u.name.is_none());
    assert!(u.tags.is_none());
    let u: UpdateLeadInput<f64> = UpdateLeadInput::builder().tags(vec![]).name("N").build();
    assert_eq!(u.tags, Some(Vec::new()));
    assert_eq!(u.name.as_deref(), Some("N"));
    let d: UpdateLeadInput<f64> = UpdateLeadInput::default();
    assert!(d.status.is_none());
}
