use klozeo::filters::{city, rating};
use klozeo::resources::leads::{build_export_params, build_list_params};
use klozeo::{ExportFormat, ExportOptions, ListOptions, SortField, SortOrder};

fn pairs(v: &[(&str, &str)]) -> Vec<(String, String)> {
    v.iter().map(|(a, b)| (a.to_string(), b.to_string())).collect()
}

#[test]
fn list_options_builder_keeps_filters_in_order() {
    let opts = ListOptions::builder()
        .filter(city().eq("Berlin"))
        .filter(rating().make("gte", "4".to_string()))
        .sort(SortField::Rating, SortOrder::Desc)
        .limit(20)
        .cursor("abc")
        .build();
    assert_eq!(opts.filters, vec!["and.eq.city.Berlin".to_string(), "and.gte.rating.4".to_string()]);
    assert_eq!(opts.sort_by, Some(SortField::Rating));
    assert_eq!(opts.sort_order, Some(SortOrder::Desc));
    assert_eq!(opts.limit, Some(20));
    assert_eq!(opts.cursor, Some("abc".to_string()));
}

#[test]
fn list_params_in_documented_order() {
    let opts = ListOptions::builder()
        .filter(city().eq("Berlin"))
        .filter(rating().make("gte", "4".to_string()))
        .sort(SortField::Rating, SortOrder::Desc)
        .limit(20)
        .cursor("abc")
        .build();
    assert_eq!(
        build_list_params(&opts),
        pairs(&[
            ("filter", "and.eq.city.Berlin"),
            ("filter", "and.gte.rating.4"),
            ("sort_by", "rating"),
            ("sort_order", "DESC"),
            ("limit", "20"),
            ("cursor", "abc"),
        ])
    );
}

#[test]
fn list_params_empty_for_default_options() {
    assert_eq!(build_list_params(&ListOptions::default()), Vec::<(String, String)>::new());
    assert_eq!(build_list_params(&ListOptions::builder().build()), Vec::<(String, String)>::new());
}

#[test]
fn list_params_limit_is_decimal() {
    let opts = ListOptions::builder().limit(1000).build();
    assert_eq!(build_list_params(&opts), pairs(&[("limit", "1000")]));
    let opts = ListOptions::builder().limit(0).build();
    assert_eq!(build_list_params(&opts), pairs(&[("limit", "0")]));
    let opts = ListOptions::builder().limit(u32::MAX).build();
    assert_eq!(build_list_params(&opts), pairs(&[("limit", "4294967295")]));
}

#[test]
fn sort_field_names() {
    assert_eq!(SortField::Name.as_str(), "name");
    assert_eq!(SortField::City.as_str(), "city");
    assert_eq!(SortField::Country.as_str(), "country");
    assert_eq!(SortField::State.as_str(), "state");
    assert_eq!(SortField::Category.as_str(), "category");
    assert_eq!(SortField::Source.as_str(), "source");
    assert_eq!(SortField::Email.as_str(), "email");
    assert_eq!(SortField::Phone.as_str(), "phone");
    assert_eq!(SortField::Website.as_str(), "website");
    assert_eq!(SortField::Rating.as_str(), "rating");
    assert_eq!(SortField::ReviewCount.as_str(), "review_count");
    assert_eq!(SortField::CreatedAt.as_str(), "created_at");
    assert_eq!(SortField::UpdatedAt.as_str(), "updated_at");
    assert_eq!(SortField::LastInteractionAt.as_str(), "last_interaction_at");
    assert_eq!(SortField::Attr("employees".into()).as_str(), "attr:employees");
    assert_eq!(SortOrder::Asc.as_str(), "ASC");
    assert_eq!(SortOrder::Desc.as_str(), "DESC");
}

#[test]
fn export_params_format_first() {
    assert_eq!(build_export_params(ExportFormat::Csv, None), pairs(&[("format", "csv")]));
    assert_eq!(build_export_params(ExportFormat::Json, None), pairs(&[("format", "json")]));
    let opts = ExportOptions::builder()
        .filter(city().eq("Berlin"))
        .sort(SortField::CreatedAt, SortOrder::Asc)
        .build();
    assert_eq!(
        build_export_params(ExportFormat::Xlsx, Some(&opts)),
        pairs(&[
            ("format", "xlsx"),
            ("filter", "and.eq.city.Berlin"),
            ("sort_by", "created_at"),
            ("sort_order", "ASC"),
        ])
    );
    assert_eq!(build_export_params(ExportFormat::Csv, Some(&ExportOptions::default())), pairs(&[("format", "csv")]));
}
