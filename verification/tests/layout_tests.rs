use gpui_form::registry::FieldVariant;
use gpui_form::schema::components::ComponentsBehaviour;
use gpui_form::schema::layout::{FieldLayout, LayoutWidth};

#[test]
fn layout_width_default_is_full() {
    let width: LayoutWidth = Default::default();
    assert_eq!(width, LayoutWidth::Full);
}

#[test]
fn layout_width_display_is_snake_case() {
    assert_eq!(LayoutWidth::Full.to_string(), "full");
    assert_eq!(LayoutWidth::Half.to_string(), "half");
    assert_eq!(LayoutWidth::Third.to_string(), "third");
}

#[test]
fn layout_width_enum_string_round_trips() {
    assert_eq!("full".parse::<LayoutWidth>().unwrap(), LayoutWidth::Full);
    assert_eq!("half".parse::<LayoutWidth>().unwrap(), LayoutWidth::Half);
    assert_eq!("third".parse::<LayoutWidth>().unwrap(), LayoutWidth::Third);
    assert!("quarter".parse::<LayoutWidth>().is_err());
}

#[test]
fn layout_width_into_static_str() {
    let s: &'static str = LayoutWidth::Half.into();
    assert_eq!(s, "half");
}

#[test]
fn field_layout_new_is_empty() {
    let empty: FieldLayout = FieldLayout::new();
    assert!(empty.is_empty());
    assert_eq!(empty.width, LayoutWidth::Full);
    assert!(empty.section.is_none());
    assert!(empty.label.is_none());
    assert!(empty.description.is_none());
    assert!(empty.placeholder.is_none());
}

#[test]
fn field_layout_default_matches_new() {
    assert_eq!(FieldLayout::default(), FieldLayout::new());
}

#[test]
fn field_layout_builders_populate_fields() {
    let layout = FieldLayout::new()
        .with_section(Some("Account"))
        .with_label(Some("Username"))
        .with_description(Some("Your unique handle"))
        .with_placeholder(Some("username"))
        .with_width(LayoutWidth::Half);
    assert!(!layout.is_empty());
    assert_eq!(layout.section, Some("Account"));
    assert_eq!(layout.label, Some("Username"));
    assert_eq!(layout.description, Some("Your unique handle"));
    assert_eq!(layout.placeholder, Some("username"));
    assert_eq!(layout.width, LayoutWidth::Half);
}

#[test]
fn field_layout_clearing_with_none_keeps_empty() {
    let cleared = FieldLayout::new()
        .with_section(Some("x"))
        .with_section(None)
        .with_label(None)
        .with_width(LayoutWidth::Full);
    assert!(cleared.is_empty());
}

#[test]
fn field_layout_width_alone_is_not_empty() {
    let width_only = FieldLayout::new().with_width(LayoutWidth::Third);
    assert!(!width_only.is_empty());
}

#[test]
fn field_variant_new_defaults_layout_to_empty() {
    let fv = FieldVariant::new("username", "String", false, ComponentsBehaviour::Input);
    assert!(fv.layout.is_empty());
    assert_eq!(fv.layout.width, LayoutWidth::Full);
}

#[test]
fn field_variant_with_layout_round_trips() {
    let layout = FieldLayout::new()
        .with_section(Some("Account"))
        .with_label(Some("Username"))
        .with_width(LayoutWidth::Half);
    let fv = FieldVariant::new("username", "String", false, ComponentsBehaviour::Input)
        .with_layout(layout);
    assert_eq!(fv.layout.section, Some("Account"));
    assert_eq!(fv.layout.label, Some("Username"));
    assert_eq!(fv.layout.width, LayoutWidth::Half);
    assert!(!fv.layout.is_empty());
}

#[test]
fn field_variant_with_layout_is_const_constructible() {
    let fv = FieldVariant::new("email", "String", false, ComponentsBehaviour::Input).with_layout(
        FieldLayout::new()
            .with_section(Some("Contact"))
            .with_placeholder(Some("you@example.com"))
            .with_width(LayoutWidth::Half),
    );
    assert_eq!(fv.field_name, "email");
    assert_eq!(fv.layout.section, Some("Contact"));
    assert_eq!(fv.layout.placeholder, Some("you@example.com"));
    assert_eq!(fv.layout.width, LayoutWidth::Half);
}

#[test]
fn layout_width_names_round_trip_through_parse_name() {
    for w in [LayoutWidth::Full, LayoutWidth::Half, LayoutWidth::Third] {
        assert_eq!(LayoutWidth::parse_name(w.as_static_str()), Some(w));
    }
    assert_eq!(LayoutWidth::parse_name("Full"), None);
    assert_eq!(LayoutWidth::parse_name(""), None);
}

#[test]
fn placeholder_alone_makes_layout_non_empty() {
    assert!(!FieldLayout::new().with_placeholder(Some("p")).is_empty());
    assert!(!FieldLayout::new().with_description(Some("d")).is_empty());
}
