use klozeo::Attribute;
use serde_json::Value;

#[test]
fn text_attribute() {
    let a = Attribute::text("industry", "Software");
    assert_eq!(a.name, "industry");
    assert_eq!(a.attr_type, "text");
    assert_eq!(a.value, Value::String("Software".to_string()));
}

#[test]
fn bool_attribute() {
    let a = Attribute::bool("verified", true);
    assert_eq!(a.attr_type, "bool");
    assert_eq!(a.value, Value::Bool(true));
    assert_eq!(Attribute::bool("verified", false).value, Value::Bool(false));
}

#[test]
fn list_attribute() {
    let a = Attribute::list("products", vec!["CRM".into(), "ERP".into()]);
    assert_eq!(a.attr_type, "list");
    assert_eq!(
        a.value,
        Value::Array(vec![Value::String("CRM".to_string()), Value::String("ERP".to_string())])
    );
    assert_eq!(Attribute::list("none", Vec::new()).value, Value::Array(Vec::new()));
}

#[test]
fn object_attribute() {
    let v = Value::Null;
    let a = Attribute::object("social", v.clone());
    assert_eq!(a.attr_type, "object");
    assert_eq!(a.value, v);
}

#[test]
fn cloned_attribute_keeps_its_value() {
    let a = Attribute::list("products", vec!["CRM".into()]);
    let b = a.clone();
    assert_eq!(a, b);
    assert_eq!(b.value, Value::Array(vec![Value::String("CRM".to_string())]));
}
