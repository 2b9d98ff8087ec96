use klozeo::filters::{
    attr, category, city, country, email, location, name, or, phone, rating, review_count, source, state, tags,
    website, Filter,
};

#[test]
fn text_filters_serialize_with_and_logic() {
    assert_eq!(city().eq("Berlin").to_param(), "and.eq.city.Berlin");
    assert_eq!(name().neq("Acme").to_param(), "and.neq.name.Acme");
    assert_eq!(country().contains("Ger").to_param(), "and.contains.country.Ger");
    assert_eq!(state().not_contains("CA").to_param(), "and.not_contains.state.CA");
    assert_eq!(category().is_empty().to_param(), "and.is_empty.category");
    assert_eq!(source().is_not_empty().to_param(), "and.is_not_empty.source");
    assert_eq!(email().eq(String::from("a@b.c")).to_param(), "and.eq.email.a@b.c");
    assert_eq!(phone().eq("1").to_param(), "and.eq.phone.1");
    assert_eq!(website().eq("x").to_param(), "and.eq.website.x");
}

#[test]
fn or_filters_use_or_prefix() {
    assert_eq!(or().city().eq("Paris").to_param(), "or.eq.city.Paris");
    assert_eq!(or().name().eq("A").to_param(), "or.eq.name.A");
    assert_eq!(or().country().eq("A").to_param(), "or.eq.country.A");
    assert_eq!(or().state().eq("A").to_param(), "or.eq.state.A");
    assert_eq!(or().category().eq("A").to_param(), "or.eq.category.A");
    assert_eq!(or().source().eq("A").to_param(), "or.eq.source.A");
    assert_eq!(or().email().eq("A").to_param(), "or.eq.email.A");
    assert_eq!(or().phone().eq("A").to_param(), "or.eq.phone.A");
    assert_eq!(or().website().eq("A").to_param(), "or.eq.website.A");
    assert_eq!(or().tags().contains("vip").to_param(), "or.array_contains.tags.vip");
    assert_eq!(or().location().is_set().to_param(), "or.is_set.location");
    assert_eq!(or().attr("industry").eq("Software").to_param(), "or.eq.attr:industry.Software");
    assert_eq!(or().rating().make("gte", "4".to_string()).to_param(), "or.gte.rating.4");
    assert_eq!(or().review_count().make("lt", "10".to_string()).to_param(), "or.lt.review_count.10");
}

#[test]
fn empty_value_drops_the_value_segment() {
    assert_eq!(city().eq("").to_param(), "and.eq.city");
    assert_eq!(attr("x").contains("").to_param(), "and.contains.attr:x");
}

#[test]
fn tags_filters() {
    assert_eq!(tags().contains("enterprise").to_param(), "and.array_contains.tags.enterprise");
    assert_eq!(tags().not_contains("spam").to_param(), "and.array_not_contains.tags.spam");
    assert_eq!(tags().is_empty().to_param(), "and.array_empty.tags");
    assert_eq!(tags().is_not_empty().to_param(), "and.array_not_empty.tags");
}

#[test]
fn location_filters() {
    assert_eq!(
        location().within_radius_text("52.52", "13.405", "50").to_param(),
        "and.within_radius.location.52.52,13.405,50"
    );
    assert_eq!(location().is_set().to_param(), "and.is_set.location");
    assert_eq!(location().is_not_set().to_param(), "and.is_not_set.location");
}

#[test]
fn number_filters_take_the_number_text() {
    assert_eq!(rating().make("gte", 4.0f64.to_string()).to_param(), "and.gte.rating.4");
    assert_eq!(rating().make("eq", 4.5f64.to_string()).to_param(), "and.eq.rating.4.5");
    assert_eq!(review_count().make("gt", 100.0f64.to_string()).to_param(), "and.gt.review_count.100");
}

#[test]
fn attribute_filters() {
    assert_eq!(attr("industry").eq("Software").to_param(), "and.eq.attr:industry.Software");
    assert_eq!(attr("industry").neq("Retail").to_param(), "and.neq.attr:industry.Retail");
    assert_eq!(attr("industry").contains("soft").to_param(), "and.contains.attr:industry.soft");
    assert_eq!(attr("employees").make("gte", 500.0f64.to_string()).to_param(), "and.gte.attr:employees.500");
}
