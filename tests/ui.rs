use auth_core::places::Tags;
use auth_core::ui::{InputType, SelectOption};

#[test]
fn input_type_names() {
    assert_eq!(InputType::Text.as_str(), "text");
    assert_eq!(InputType::Password.as_str(), "password");
    assert_eq!(InputType::Textarea.as_str(), "textarea");
    assert_eq!(InputType::Checkbox.as_str(), "checkbox");
    assert_eq!(InputType::default(), InputType::Text);
}

#[test]
fn select_option_builders() {
    let o = SelectOption::new("v".to_string(), "Label".to_string());
    assert!(!o.selected && !o.disabled);
    let o = o.selected();
    assert!(o.selected && !o.disabled);
    let o = o.disabled();
    assert!(o.selected && o.disabled);
    assert_eq!(o.value, "v");
    assert_eq!(o.label, "Label");
}

#[test]
fn tags_hold_optional_fields() {
    let t = Tags { name: Some("Masjid".to_string()), street: None, city: Some("Pune".to_string()) };
    assert_eq!(t.name.as_deref(), Some("Masjid"));
    assert!(t.street.is_none());
}
